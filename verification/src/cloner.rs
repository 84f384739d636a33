//! The bundle-cloning isolation strategy: duplicate the application package
//! on disk, rewrite its embedded identity, strip the provenance attribute,
//! and re-sign it, so the operating system treats each clone as a distinct
//! application.
//!
//! The filesystem work and the helper-tool invocations happen outside this
//! library.  Verified here are the deterministic per-instance paths, the
//! per-instance identity rewriting (with the guarantee that distinct
//! instances get distinct identities, both distinct from the original), the
//! exact argument lists of the helper-tool invocations, and the ordered step
//! plan with its remove-before-copy discipline.

use vstd::prelude::*;
use crate::text::{
    append_str,
    concat_str,
    dec_spec,
    dec_u8,
    lemma_dec_spec_len,
    lemma_prefixed_dec_injective,
    string_views,
};

verus! {

/// The original application identity embedded in the target bundle.
pub open spec fn base_bundle_id_view() -> Seq<char> {
    "com.tencent.WeWorkMac"@
}

/// The rewritten application identity of clone `id`.
pub open spec fn instance_bundle_id_spec(id: u8) -> Seq<char> {
    "com.tencent.WeWorkMac.instance"@ + dec_spec(id as int)
}

pub fn instance_bundle_id(id: u8) -> (s: String)
    ensures
        s@ == instance_bundle_id_spec(id),
{
    let n = dec_u8(id);
    concat_str("com.tencent.WeWorkMac.instance", n.as_str())
}

/// The directory that holds the clones, under the user's profile.
pub fn instances_dir(home: &str) -> (d: String)
    ensures
        d@ == home@ + "/Applications/WeComMulti"@,
{
    concat_str(home, "/Applications/WeComMulti")
}

/// The deterministic path of clone `id`: the instances directory, the
/// source bundle's base name, the instance number, and the bundle
/// extension.
pub open spec fn instance_path_spec(dir: Seq<char>, app_name: Seq<char>, id: u8) -> Seq<char> {
    dir + "/"@ + app_name + dec_spec(id as int) + ".app"@
}

pub fn instance_path(dir: &str, app_name: &str, id: u8) -> (p: String)
    ensures
        p@ == instance_path_spec(dir@, app_name@, id),
{
    let mut s = dir.to_owned();
    append_str(&mut s, "/");
    append_str(&mut s, app_name);
    let n = dec_u8(id);
    append_str(&mut s, n.as_str());
    append_str(&mut s, ".app");
    s
}

/// The per-instance data directory handed to a clone as its home, so that
/// each instance keeps its own preferences and caches.
pub fn instance_data_dir(home: &str, id: u8) -> (d: String)
    ensures
        d@ == home@ + "/Library/Containers/WeComInstance"@ + dec_spec(id as int),
{
    let mut s = home.to_owned();
    append_str(&mut s, "/Library/Containers/WeComInstance");
    let n = dec_u8(id);
    append_str(&mut s, n.as_str());
    s
}

/// The path of a clone's executable inside the bundle.
pub fn instance_executable_path(clone_path: &str, app_name: &str) -> (p: String)
    ensures
        p@ == clone_path@ + "/Contents/MacOS/"@ + app_name@,
{
    let mut s = clone_path.to_owned();
    append_str(&mut s, "/Contents/MacOS/");
    append_str(&mut s, app_name);
    s
}

/// The steps of one clone, in order.  Each is a hard gate: the first
/// failure invalidates the whole clone.
#[derive(Clone, Copy, Debug, PartialEq, Eq, Structural)]
pub enum CloneStep {
    /// Ensure the instances directory exists.
    EnsureDir,
    /// Remove the prior clone occupying the target path, entirely.
    RemoveExisting,
    /// Recursively copy the source bundle to the target path.
    CopyBundle,
    /// Rewrite the clone's embedded application identity.
    RewriteIdentity,
    /// Strip the downloaded-from-network provenance attribute, recursively.
    StripQuarantine,
    /// Re-sign the clone with an ad-hoc signature.
    Resign,
}

impl CloneStep {
    /// A human-readable description of the step's failure.
    pub fn describe(&self) -> (m: String)
        ensures
            *self == CloneStep::EnsureDir ==> m@ == "创建实例目录失败"@,
            *self == CloneStep::RemoveExisting ==> m@ == "删除旧实例失败"@,
            *self == CloneStep::CopyBundle ==> m@ == "复制应用失败"@,
            *self == CloneStep::RewriteIdentity ==> m@ == "修改 Bundle ID 失败"@,
            *self == CloneStep::StripQuarantine ==> m@ == "清除隔离属性失败"@,
            *self == CloneStep::Resign ==> m@ == "重新签名失败"@,
    {
        match self {
            CloneStep::EnsureDir => "创建实例目录失败".to_owned(),
            CloneStep::RemoveExisting => "删除旧实例失败".to_owned(),
            CloneStep::CopyBundle => "复制应用失败".to_owned(),
            CloneStep::RewriteIdentity => "修改 Bundle ID 失败".to_owned(),
            CloneStep::StripQuarantine => "清除隔离属性失败".to_owned(),
            CloneStep::Resign => "重新签名失败".to_owned(),
        }
    }
}

/// A clone that stopped at a failed step; the whole clone is invalid and
/// must not be launched.
#[derive(Debug)]
pub struct CloneError {
    pub step: CloneStep,
    pub detail: String,
}

/// The ordered steps of one clone.  A prior clone at the target path is
/// removed entirely before the copy — clones are disposable and never
/// merged — which makes cloning the same instance twice leave exactly one
/// directory, holding the second clone's contents.
pub fn clone_plan(prior_exists: bool) -> (steps: Vec<CloneStep>)
    ensures
        prior_exists ==> steps@ == seq![
            CloneStep::EnsureDir,
            CloneStep::RemoveExisting,
            CloneStep::CopyBundle,
            CloneStep::RewriteIdentity,
            CloneStep::StripQuarantine,
            CloneStep::Resign,
        ],
        !prior_exists ==> steps@ == seq![
            CloneStep::EnsureDir,
            CloneStep::CopyBundle,
            CloneStep::RewriteIdentity,
            CloneStep::StripQuarantine,
            CloneStep::Resign,
        ],
{
    let mut steps: Vec<CloneStep> = Vec::new();
    steps.push(CloneStep::EnsureDir);
    if prior_exists {
        steps.push(CloneStep::RemoveExisting);
    }
    steps.push(CloneStep::CopyBundle);
    steps.push(CloneStep::RewriteIdentity);
    steps.push(CloneStep::StripQuarantine);
    steps.push(CloneStep::Resign);
    proof {
        if prior_exists {
            assert(steps@ =~= seq![
                CloneStep::EnsureDir,
                CloneStep::RemoveExisting,
                CloneStep::CopyBundle,
                CloneStep::RewriteIdentity,
                CloneStep::StripQuarantine,
                CloneStep::Resign,
            ]);
        } else {
            assert(steps@ =~= seq![
                CloneStep::EnsureDir,
                CloneStep::CopyBundle,
                CloneStep::RewriteIdentity,
                CloneStep::StripQuarantine,
                CloneStep::Resign,
            ]);
        }
    }
    steps
}

/// One helper-tool invocation of the cloning pipeline: the program to run
/// and its arguments, in order.
#[derive(Debug)]
pub struct ShellCommand {
    pub program: String,
    pub args: Vec<String>,
}

/// The recursive copy of the source bundle to the target path.
pub fn copy_command(source: &str, target: &str) -> (c: ShellCommand)
    ensures
        c.program@ == "cp"@,
        string_views(c.args@) == seq!["-R"@, source@, target@],
{
    let mut args: Vec<String> = Vec::new();
    args.push("-R".to_owned());
    args.push(source.to_owned());
    args.push(target.to_owned());
    let c = ShellCommand { program: "cp".to_owned(), args };
    proof {
        assert(string_views(c.args@) =~= seq!["-R"@, source@, target@]);
    }
    c
}

/// The identity rewrite inside the clone's property list: sets the bundle
/// identifier of clone `id` to its per-instance identity.
pub fn rewrite_identity_command(clone_path: &str, id: u8) -> (c: ShellCommand)
    ensures
        c.program@ == "/usr/libexec/PlistBuddy"@,
        string_views(c.args@) == seq![
            "-c"@,
            "Set :CFBundleIdentifier "@ + instance_bundle_id_spec(id),
            clone_path@ + "/Contents/Info.plist"@,
        ],
{
    let bundle_id = instance_bundle_id(id);
    let mut args: Vec<String> = Vec::new();
    args.push("-c".to_owned());
    args.push(concat_str("Set :CFBundleIdentifier ", bundle_id.as_str()));
    args.push(concat_str(clone_path, "/Contents/Info.plist"));
    let c = ShellCommand { program: "/usr/libexec/PlistBuddy".to_owned(), args };
    proof {
        assert(string_views(c.args@) =~= seq![
            "-c"@,
            "Set :CFBundleIdentifier "@ + instance_bundle_id_spec(id),
            clone_path@ + "/Contents/Info.plist"@,
        ]);
    }
    c
}

/// The recursive strip of the downloaded-from-network provenance attribute.
pub fn strip_quarantine_command(clone_path: &str) -> (c: ShellCommand)
    ensures
        c.program@ == "/usr/bin/xattr"@,
        string_views(c.args@) == seq!["-rc"@, clone_path@],
{
    let mut args: Vec<String> = Vec::new();
    args.push("-rc".to_owned());
    args.push(clone_path.to_owned());
    let c = ShellCommand { program: "/usr/bin/xattr".to_owned(), args };
    proof {
        assert(string_views(c.args@) =~= seq!["-rc"@, clone_path@]);
    }
    c
}

/// The ad-hoc re-signing of the clone, so the system accepts its rewritten
/// identity as internally consistent.
pub fn resign_command(clone_path: &str) -> (c: ShellCommand)
    ensures
        c.program@ == "codesign"@,
        string_views(c.args@) == seq![
            "--force"@,
            "--deep"@,
            "--sign"@,
            "-"@,
            "--timestamp=none"@,
            clone_path@,
        ],
{
    let mut args: Vec<String> = Vec::new();
    args.push("--force".to_owned());
    args.push("--deep".to_owned());
    args.push("--sign".to_owned());
    args.push("-".to_owned());
    args.push("--timestamp=none".to_owned());
    args.push(clone_path.to_owned());
    let c = ShellCommand { program: "codesign".to_owned(), args };
    proof {
        assert(string_views(c.args@) =~= seq![
            "--force"@,
            "--deep"@,
            "--sign"@,
            "-"@,
            "--timestamp=none"@,
            clone_path@,
        ]);
    }
    c
}

/// Distinct instance numbers rewrite to distinct identities, and no
/// rewritten identity equals the original one, so every clone is a distinct
/// application to the operating system.
pub proof fn lemma_instance_identities_distinct(i: u8, j: u8)
    requires
        i != j,
    ensures
        instance_bundle_id_spec(i) != instance_bundle_id_spec(j),
        instance_bundle_id_spec(i) != base_bundle_id_view(),
{
    let p = "com.tencent.WeWorkMac.instance"@;
    lemma_prefixed_dec_injective(p, i as int, j as int);
    reveal_strlit("com.tencent.WeWorkMac.instance");
    reveal_strlit("com.tencent.WeWorkMac");
    lemma_dec_spec_len(i as int);
    assert(instance_bundle_id_spec(i).len() >= p.len() + 1);
    assert(base_bundle_id_view().len() < p.len() + 1);
}

} // verus!
