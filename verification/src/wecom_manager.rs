//! The sandbox-profile isolation strategy for the target application: one
//! named profile per instance, a deterministic per-instance profile name and
//! title, and the assembly of the instance record once a launch succeeded.

use vstd::prelude::*;
use crate::paths::{wecom_path_candidates, wecom_candidate_view, first_existing, WECOM_CANDIDATE_COUNT};
use crate::text::{concat_str, dec_spec, dec_u8, lemma_prefixed_dec_injective};
use crate::windows_sandbox::{
    all_sbieini,
    call_models,
    delete_sandbox_calls_spec,
    SandboxConfig,
    SandboxieManager,
    ToolCall,
};

verus! {

/// One sandbox-isolated instance: its number, the profile it runs in, its
/// human-readable title, the process it launched as, and whether it is
/// believed to be running.
#[derive(Debug)]
pub struct WeComInstance {
    pub id: u8,
    pub sandbox_name: String,
    pub title: String,
    pub pid: Option<u32>,
    pub running: bool,
}

/// The per-instance isolation profile name.
pub open spec fn sandbox_name_spec(id: u8) -> Seq<char> {
    "WeCom_"@ + dec_spec(id as int)
}

/// The per-instance human-readable title.
pub open spec fn title_spec(id: u8) -> Seq<char> {
    "企业微信账号 "@ + dec_spec(id as int)
}

/// Distinct instance numbers run in distinct isolation profiles and carry
/// distinct titles, so no two instances ever share a profile.
pub proof fn lemma_instance_names_distinct(i: u8, j: u8)
    requires
        i != j,
    ensures
        sandbox_name_spec(i) != sandbox_name_spec(j),
        title_spec(i) != title_spec(j),
{
    lemma_prefixed_dec_injective("WeCom_"@, i as int, j as int);
    lemma_prefixed_dec_injective("企业微信账号 "@, i as int, j as int);
}

/// Manager of sandbox-isolated instances: the resolved sandboxing utility
/// and the target application's executable.
#[derive(Debug)]
pub struct WeComManager {
    pub sandboxie: SandboxieManager,
    pub wecom_exe: String,
}

impl WeComManager {
    /// The first existing candidate install path of the target application.
    /// `exists` answers, per candidate of `wecom_path_candidates`, whether
    /// the path exists on disk.
    pub fn find_wecom_exe(exists: &Vec<bool>) -> (r: Result<String, String>)
        requires
            exists@.len() == WECOM_CANDIDATE_COUNT,
        ensures
            match r {
                Ok(p) => exists|i: int|
                    0 <= i < WECOM_CANDIDATE_COUNT && #[trigger] exists@[i] && p@
                        == wecom_candidate_view(i) && (forall|k: int| 0 <= k < i ==> !exists@[k]),
                Err(e) => (forall|k: int| 0 <= k < exists@.len() ==> !exists@[k]) && e@
                    == "未找到企业微信安装路径"@,
            },
    {
        let candidates = wecom_path_candidates();
        match first_existing(exists) {
            Some(i) => {
                let mut candidates = candidates;
                Ok(candidates.remove(i))
            },
            None => Err("未找到企业微信安装路径".to_owned()),
        }
    }

    /// Resolves the sandboxing utility and the target application, or
    /// reports the first of the two that could not be found.
    pub fn new(install_dir: Option<&str>, start_exists: bool, wecom_exists: &Vec<bool>) -> (r:
        Result<WeComManager, String>)
        requires
            wecom_exists@.len() == WECOM_CANDIDATE_COUNT,
        ensures
            match r {
                Ok(m) => {
                    &&& install_dir matches Some(d) && start_exists && m.sandboxie.sbieini_path@
                        == d@ + "\\SbieIni.exe"@ && m.sandboxie.start_path@ == d@ + "\\Start.exe"@
                    &&& exists|i: int|
                        0 <= i < WECOM_CANDIDATE_COUNT && #[trigger] wecom_exists@[i]
                            && m.wecom_exe@ == wecom_candidate_view(i) && (forall|k: int|
                            0 <= k < i ==> !wecom_exists@[k])
                },
                Err(e) => (install_dir is None && e@
                    == "未找到 Sandboxie-Plus 安装,请先安装 Sandboxie-Plus"@) || (
                install_dir is Some && !start_exists && e@ == "未找到 Start.exe"@) || (
                install_dir is Some && start_exists && (forall|k: int|
                    0 <= k < wecom_exists@.len() ==> !wecom_exists@[k]) && e@
                    == "未找到企业微信安装路径"@),
            },
    {
        let sandboxie = match SandboxieManager::new(install_dir, start_exists) {
            Ok(s) => s,
            Err(e) => {
                return Err(e);
            },
        };
        let wecom_exe = match Self::find_wecom_exe(wecom_exists) {
            Ok(p) => p,
            Err(e) => {
                return Err(e);
            },
        };
        Ok(WeComManager { sandboxie, wecom_exe })
    }

    /// The isolation profile name of instance `id`.
    pub fn instance_sandbox_name(id: u8) -> (s: String)
        ensures
            s@ == sandbox_name_spec(id),
    {
        let n = dec_u8(id);
        concat_str("WeCom_", n.as_str())
    }

    /// The human-readable title of instance `id`.
    pub fn instance_title(id: u8) -> (s: String)
        ensures
            s@ == title_spec(id),
    {
        let n = dec_u8(id);
        concat_str("企业微信账号 ", n.as_str())
    }

    /// The isolation profile instance `id` runs in: enabled, strictness
    /// level 7, kept across runs, with no explicit visibility rules.
    pub fn instance_config(&self, id: u8) -> (c: SandboxConfig)
        ensures
            c.name@ == sandbox_name_spec(id),
            c.enabled,
            c.config_level == 7,
            !c.auto_delete,
            c.closed_file_path@ == Seq::<String>::empty(),
            c.closed_key_path@ == Seq::<String>::empty(),
            c.open_file_path@ == Seq::<String>::empty(),
            c.open_key_path@ == Seq::<String>::empty(),
    {
        SandboxConfig {
            name: Self::instance_sandbox_name(id),
            enabled: true,
            config_level: 7,
            auto_delete: false,
            closed_file_path: Vec::new(),
            closed_key_path: Vec::new(),
            open_file_path: Vec::new(),
            open_key_path: Vec::new(),
        }
    }

    /// The record of instance `id` once its launch came back with a process
    /// identifier.
    pub fn create_instance(&self, id: u8, launch_pid: u32) -> (inst: WeComInstance)
        ensures
            inst.id == id,
            inst.sandbox_name@ == sandbox_name_spec(id),
            inst.title@ == title_spec(id),
            inst.pid == Some(launch_pid),
            inst.running,
    {
        WeComInstance {
            id,
            sandbox_name: Self::instance_sandbox_name(id),
            title: Self::instance_title(id),
            pid: Some(launch_pid),
            running: true,
        }
    }

    /// The editor invocations that delete an instance's profile definition.
    pub fn delete_sandbox(&self, sandbox_name: &str) -> (calls: Vec<ToolCall>)
        ensures
            call_models(calls@) == delete_sandbox_calls_spec(sandbox_name@),
            all_sbieini(calls@),
    {
        self.sandboxie.delete_sandbox_calls(sandbox_name)
    }
}

} // verus!
