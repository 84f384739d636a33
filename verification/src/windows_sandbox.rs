//! Orchestration contract of the profile-based isolation strategy.
//!
//! The strategy is backed entirely by an external, separately installed
//! sandboxing utility that is driven through its two command-line binaries.
//! Running those binaries is unverifiable process I/O and happens outside
//! this library; what is verified here is everything the library decides:
//! where the utility is looked for, exactly which invocations, with which
//! arguments and in which order, one operation translates to, and how the
//! utility's raw output is parsed.

use vstd::prelude::*;
use crate::text::{
    chars_eq,
    clean_lines,
    clean_lines_spec,
    concat_str,
    dec_spec,
    dec_u8,
    str_chars,
    string_views,
};

verus! {

/// A named isolation profile: its name, whether it is enabled, the isolation
/// strictness level, whether its contents are dropped automatically, and the
/// explicit filesystem and registry visibility rules.
#[derive(Debug)]
pub struct SandboxConfig {
    pub name: String,
    pub enabled: bool,
    pub config_level: u8,
    pub auto_delete: bool,
    pub closed_file_path: Vec<String>,
    pub closed_key_path: Vec<String>,
    pub open_file_path: Vec<String>,
    pub open_key_path: Vec<String>,
}

impl Default for SandboxConfig {
    /// The default profile: enabled, strictness level 7, nothing deleted
    /// automatically, no explicit visibility rules.
    fn default() -> (c: Self)
        ensures
            c.name@ == "DefaultBox"@,
            c.enabled,
            c.config_level == 7,
            !c.auto_delete,
            c.closed_file_path@ == Seq::<String>::empty(),
            c.closed_key_path@ == Seq::<String>::empty(),
            c.open_file_path@ == Seq::<String>::empty(),
            c.open_key_path@ == Seq::<String>::empty(),
    {
        SandboxConfig {
            name: "DefaultBox".to_owned(),
            enabled: true,
            config_level: 7,
            auto_delete: false,
            closed_file_path: Vec::new(),
            closed_key_path: Vec::new(),
            open_file_path: Vec::new(),
            open_key_path: Vec::new(),
        }
    }
}

/// Which of the sandboxing utility's two binaries a planned invocation runs:
/// the configuration editor or the launcher.
#[derive(Clone, Copy, Debug, PartialEq, Eq, Structural)]
pub enum Tool {
    SbieIni,
    Start,
}

/// One planned invocation of the external sandboxing utility: the binary to
/// run and its arguments, in order.
#[derive(Debug)]
pub struct ToolCall {
    pub tool: Tool,
    pub args: Vec<String>,
}

/// The argument views of one planned invocation.
pub open spec fn args_model(c: ToolCall) -> Seq<Seq<char>> {
    string_views(c.args@)
}

/// The argument views of a sequence of planned invocations.
pub open spec fn call_models(cs: Seq<ToolCall>) -> Seq<Seq<Seq<char>>> {
    cs.map_values(|c: ToolCall| args_model(c))
}

/// Every planned invocation runs the configuration editor.
pub open spec fn all_sbieini(cs: Seq<ToolCall>) -> bool {
    forall|i: int| 0 <= i < cs.len() ==> #[trigger] cs[i].tool == Tool::SbieIni
}

pub open spec fn set_call_spec(name: Seq<char>, key: Seq<char>, value: Seq<char>) -> Seq<
    Seq<char>,
> {
    seq!["set"@, name, key, value]
}

pub open spec fn append_call_spec(name: Seq<char>, key: Seq<char>, path: Seq<char>) -> Seq<
    Seq<char>,
> {
    seq!["append"@, name, key, path]
}

pub open spec fn append_calls_spec(name: Seq<char>, key: Seq<char>, paths: Seq<Seq<char>>) -> Seq<
    Seq<Seq<char>>,
> {
    paths.map_values(|p: Seq<char>| append_call_spec(name, key, p))
}

pub open spec fn reload_call_spec() -> Seq<Seq<char>> {
    seq!["reload"@]
}

/// The exact editor invocations that create (or update) a profile: the
/// strictness level, the enabled flag, the auto-delete flag when requested,
/// one append per visibility rule, and a final configuration reload.
pub open spec fn create_sandbox_calls_spec(cfg: SandboxConfig) -> Seq<Seq<Seq<char>>> {
    let name = cfg.name@;
    seq![
        set_call_spec(name, "ConfigLevel"@, dec_spec(cfg.config_level as int)),
        set_call_spec(
            name,
            "Enabled"@,
            if cfg.enabled {
                "y"@
            } else {
                "n"@
            },
        ),
    ] + (if cfg.auto_delete {
        seq![set_call_spec(name, "AutoDelete"@, "y"@)]
    } else {
        Seq::<Seq<Seq<char>>>::empty()
    }) + append_calls_spec(name, "ClosedFilePath"@, string_views(cfg.closed_file_path@))
        + append_calls_spec(name, "OpenFilePath"@, string_views(cfg.open_file_path@))
        + append_calls_spec(name, "ClosedKeyPath"@, string_views(cfg.closed_key_path@))
        + append_calls_spec(name, "OpenKeyPath"@, string_views(cfg.open_key_path@)) + seq![
        reload_call_spec(),
    ]
}

/// The exact editor invocations that delete a profile definition and reload
/// the configuration.
pub open spec fn delete_sandbox_calls_spec(name: Seq<char>) -> Seq<Seq<Seq<char>>> {
    seq![seq!["delete_sandbox"@, name], reload_call_spec()]
}

proof fn lemma_call_models_push(cs: Seq<ToolCall>, c: ToolCall)
    ensures
        call_models(cs.push(c)) == call_models(cs).push(args_model(c)),
{
    assert(call_models(cs.push(c)) =~= call_models(cs).push(args_model(c)));
}

fn set_call(name: &String, key: &str, value: String) -> (c: ToolCall)
    ensures
        c.tool == Tool::SbieIni,
        args_model(c) == set_call_spec(name@, key@, value@),
{
    let mut args: Vec<String> = Vec::new();
    args.push("set".to_owned());
    args.push(name.clone());
    args.push(key.to_owned());
    args.push(value);
    let c = ToolCall { tool: Tool::SbieIni, args };
    proof {
        assert(args_model(c) =~= set_call_spec(name@, key@, value@));
    }
    c
}

fn reload_call() -> (c: ToolCall)
    ensures
        c.tool == Tool::SbieIni,
        args_model(c) == reload_call_spec(),
{
    let mut args: Vec<String> = Vec::new();
    args.push("reload".to_owned());
    let c = ToolCall { tool: Tool::SbieIni, args };
    proof {
        assert(args_model(c) =~= reload_call_spec());
    }
    c
}

/// Appends one editor invocation per visibility rule in `paths`.
#[verifier::loop_isolation(false)]
fn push_append_calls(out: &mut Vec<ToolCall>, name: &String, key: &str, paths: &Vec<String>)
    ensures
        call_models(final(out)@) == call_models(old(out)@) + append_calls_spec(
            name@,
            key@,
            string_views(paths@),
        ),
        all_sbieini(old(out)@) ==> all_sbieini(final(out)@),
{
    let n = paths.len();
    for i in 0..n
        invariant
            n == paths@.len(),
            call_models(out@) == call_models(old(out)@) + append_calls_spec(
                name@,
                key@,
                string_views(paths@.take(i as int)),
            ),
            all_sbieini(old(out)@) ==> all_sbieini(out@),
        decreases n - i,
    {
        let mut args: Vec<String> = Vec::new();
        args.push("append".to_owned());
        args.push(name.clone());
        args.push(key.to_owned());
        args.push(paths[i].clone());
        let c = ToolCall { tool: Tool::SbieIni, args };
        proof {
            assert(args_model(c) =~= append_call_spec(name@, key@, paths@[i as int]@));
        }
        let ghost prev = out@;
        out.push(c);
        proof {
            lemma_call_models_push(prev, c);
            assert(string_views(paths@.take(i + 1)) =~= string_views(
                paths@.take(i as int),
            ).push(paths@[i as int]@));
            assert(append_calls_spec(name@, key@, string_views(paths@.take(i + 1)))
                =~= append_calls_spec(name@, key@, string_views(paths@.take(i as int))).push(
                append_call_spec(name@, key@, paths@[i as int]@),
            ));
            assert(call_models(out@) =~= call_models(old(out)@) + append_calls_spec(
                name@,
                key@,
                string_views(paths@.take(i + 1)),
            ));
            assert forall|k: int|
                all_sbieini(old(out)@) && 0 <= k < out@.len() implies #[trigger] out@[k].tool
                == Tool::SbieIni by {
                if k < prev.len() {
                    assert(out@[k] == prev[k]);
                } else {
                    assert(out@[k] == c);
                }
            }
        }
    }
    proof {
        assert(paths@.take(n as int) =~= paths@);
    }
}

/// Manager of the external sandboxing utility: the resolved locations of its
/// configuration editor and its launcher.
#[derive(Debug)]
pub struct SandboxieManager {
    pub sbieini_path: String,
    pub start_path: String,
}

/// The candidate install directories of the sandboxing utility, in the order
/// they are probed.
pub open spec fn sandboxie_candidate_view(i: int) -> Seq<char> {
    if i == 0 {
        "C:\\Program Files\\Sandboxie-Plus"@
    } else {
        "C:\\Program Files (x86)\\Sandboxie-Plus"@
    }
}

/// Number of candidate install directories.
pub const SANDBOXIE_CANDIDATE_COUNT: usize = 2;

pub fn sandboxie_candidate_dirs() -> (v: Vec<String>)
    ensures
        v@.len() == SANDBOXIE_CANDIDATE_COUNT,
        forall|i: int| 0 <= i < SANDBOXIE_CANDIDATE_COUNT ==> #[trigger] v@[i]@
            == sandboxie_candidate_view(i),
{
    let mut v: Vec<String> = Vec::new();
    v.push("C:\\Program Files\\Sandboxie-Plus".to_owned());
    v.push("C:\\Program Files (x86)\\Sandboxie-Plus".to_owned());
    proof {
        assert(v@[0]@ == sandboxie_candidate_view(0));
        assert(v@[1]@ == sandboxie_candidate_view(1));
    }
    v
}

impl SandboxieManager {
    /// Resolves the utility's two binaries inside the install directory the
    /// caller found, or reports what was missing: no install directory at
    /// all, or an install directory without the launcher.
    pub fn new(install_dir: Option<&str>, start_exists: bool) -> (r: Result<
        SandboxieManager,
        String,
    >)
        ensures
            match r {
                Ok(m) => install_dir matches Some(d) && start_exists && m.sbieini_path@ == d@
                    + "\\SbieIni.exe"@ && m.start_path@ == d@ + "\\Start.exe"@,
                Err(e) => (install_dir is None && e@ == "未找到 Sandboxie-Plus 安装,请先安装 Sandboxie-Plus"@)
                    || (install_dir is Some && !start_exists && e@ == "未找到 Start.exe"@),
            },
    {
        match install_dir {
            None => Err("未找到 Sandboxie-Plus 安装,请先安装 Sandboxie-Plus".to_owned()),
            Some(d) => {
                if !start_exists {
                    Err("未找到 Start.exe".to_owned())
                } else {
                    Ok(
                        SandboxieManager {
                            sbieini_path: concat_str(d, "\\SbieIni.exe"),
                            start_path: concat_str(d, "\\Start.exe"),
                        },
                    )
                }
            },
        }
    }

    /// The editor invocations that create (or update) the given profile.
    pub fn create_sandbox_calls(&self, config: &SandboxConfig) -> (calls: Vec<ToolCall>)
        ensures
            call_models(calls@) == create_sandbox_calls_spec(*config),
            all_sbieini(calls@),
    {
        let mut out: Vec<ToolCall> = Vec::new();
        let c1 = set_call(&config.name, "ConfigLevel", dec_u8(config.config_level));
        let c2 = set_call(
            &config.name,
            "Enabled",
            if config.enabled {
                "y".to_owned()
            } else {
                "n".to_owned()
            },
        );
        out.push(c1);
        out.push(c2);
        if config.auto_delete {
            let c3 = set_call(&config.name, "AutoDelete", "y".to_owned());
            out.push(c3);
        }
        let ghost name = config.name@;
        let ghost prefix = seq![
            set_call_spec(name, "ConfigLevel"@, dec_spec(config.config_level as int)),
            set_call_spec(
                name,
                "Enabled"@,
                if config.enabled {
                    "y"@
                } else {
                    "n"@
                },
            ),
        ] + (if config.auto_delete {
            seq![set_call_spec(name, "AutoDelete"@, "y"@)]
        } else {
            Seq::<Seq<Seq<char>>>::empty()
        });
        proof {
            assert(call_models(out@) =~= prefix);
        }
        push_append_calls(&mut out, &config.name, "ClosedFilePath", &config.closed_file_path);
        push_append_calls(&mut out, &config.name, "OpenFilePath", &config.open_file_path);
        push_append_calls(&mut out, &config.name, "ClosedKeyPath", &config.closed_key_path);
        push_append_calls(&mut out, &config.name, "OpenKeyPath", &config.open_key_path);
        let ghost prev = out@;
        let reload = reload_call();
        out.push(reload);
        proof {
            lemma_call_models_push(prev, reload);
            assert forall|k: int| 0 <= k < out@.len() implies #[trigger] out@[k].tool
                == Tool::SbieIni by {
                if k < prev.len() {
                    assert(out@[k] == prev[k]);
                } else {
                    assert(out@[k] == reload);
                }
            }
            assert(call_models(out@) =~= create_sandbox_calls_spec(*config));
        }
        out
    }

    /// The editor invocations that delete the named profile definition.
    pub fn delete_sandbox_calls(&self, sandbox_name: &str) -> (calls: Vec<ToolCall>)
        ensures
            call_models(calls@) == delete_sandbox_calls_spec(sandbox_name@),
            all_sbieini(calls@),
    {
        let mut out: Vec<ToolCall> = Vec::new();
        let mut args: Vec<String> = Vec::new();
        args.push("delete_sandbox".to_owned());
        args.push(sandbox_name.to_owned());
        let c = ToolCall { tool: Tool::SbieIni, args };
        proof {
            assert(args_model(c) =~= seq!["delete_sandbox"@, sandbox_name@]);
        }
        out.push(c);
        let reload = reload_call();
        out.push(reload);
        proof {
            assert(call_models(out@) =~= delete_sandbox_calls_spec(sandbox_name@));
        }
        out
    }

    /// The two invocations that clean a profile while keeping its rules:
    /// first the launcher terminates everything running in the named
    /// profile, then the editor silently clears the profile's contents.
    pub fn cleanup_sandbox_calls(&self, sandbox_name: &str) -> (calls: Vec<ToolCall>)
        ensures
            calls@.len() == 2,
            calls@[0].tool == Tool::Start,
            args_model(calls@[0]) == seq!["/box:"@ + sandbox_name@, "/terminate"@],
            calls@[1].tool == Tool::SbieIni,
            args_model(calls@[1]) == seq!["delete_sandbox_silent"@, sandbox_name@],
    {
        let mut out: Vec<ToolCall> = Vec::new();
        let mut term_args: Vec<String> = Vec::new();
        term_args.push(concat_str("/box:", sandbox_name));
        term_args.push("/terminate".to_owned());
        let term = ToolCall { tool: Tool::Start, args: term_args };
        proof {
            assert(args_model(term) =~= seq!["/box:"@ + sandbox_name@, "/terminate"@]);
        }
        out.push(term);
        let mut del_args: Vec<String> = Vec::new();
        del_args.push("delete_sandbox_silent".to_owned());
        del_args.push(sandbox_name.to_owned());
        let del = ToolCall { tool: Tool::SbieIni, args: del_args };
        proof {
            assert(args_model(del) =~= seq!["delete_sandbox_silent"@, sandbox_name@]);
        }
        out.push(del);
        out
    }

    /// The launcher invocation that starts a program inside the named
    /// profile.
    pub fn start_in_sandbox_call(&self, sandbox_name: &str, exe_path: &str) -> (call: ToolCall)
        ensures
            call.tool == Tool::Start,
            args_model(call) == seq!["/box:"@ + sandbox_name@, exe_path@],
    {
        let mut args: Vec<String> = Vec::new();
        args.push(concat_str("/box:", sandbox_name));
        args.push(exe_path.to_owned());
        let call = ToolCall { tool: Tool::Start, args };
        proof {
            assert(args_model(call) =~= seq!["/box:"@ + sandbox_name@, exe_path@]);
        }
        call
    }

    /// The profile names in the editor's enumeration output: its lines,
    /// trimmed, with the blank ones dropped.
    pub fn list_sandboxes(&self, raw_output: &str) -> (names: Vec<String>)
        ensures
            string_views(names@) == clean_lines_spec(raw_output@),
    {
        clean_lines(raw_output)
    }

    /// Whether the named profile occurs in the editor's enumeration output.
    #[verifier::loop_isolation(false)]
    pub fn sandbox_exists(&self, raw_output: &str, sandbox_name: &str) -> (b: bool)
        ensures
            b == clean_lines_spec(raw_output@).contains(sandbox_name@),
    {
        let names = self.list_sandboxes(raw_output);
        let target = str_chars(sandbox_name);
        let n = names.len();
        for i in 0..n
            invariant
                n == names@.len(),
                target@ == sandbox_name@,
                string_views(names@) == clean_lines_spec(raw_output@),
                forall|k: int| 0 <= k < i ==> names@[k]@ != sandbox_name@,
            decreases n - i,
        {
            let cand = str_chars(names[i].as_str());
            if chars_eq(&cand, &target) {
                proof {
                    assert(string_views(names@)[i as int] == sandbox_name@);
                }
                return true;
            }
        }
        proof {
            assert forall|k: int|
                0 <= k < clean_lines_spec(raw_output@).len() implies #[trigger] clean_lines_spec(
                raw_output@,
            )[k] != sandbox_name@ by {
                assert(string_views(names@)[k] == names@[k]@);
            }
        }
        false
    }
}

} // verus!
