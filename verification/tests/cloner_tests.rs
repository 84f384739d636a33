use wecom_multi_open::cloner::{
    CloneStep, clone_plan, copy_command, instance_bundle_id, instance_data_dir,
    instance_executable_path, instance_path, instances_dir, resign_command,
    rewrite_identity_command, strip_quarantine_command,
};
use wecom_multi_open::paths::{get_default_app_path, get_default_wecom_path, mac_app_candidates};
use wecom_multi_open::text::dec_u8;

#[test]
fn decimal_rendering_is_exact() {
    assert_eq!(dec_u8(0), "0");
    assert_eq!(dec_u8(7), "7");
    assert_eq!(dec_u8(10), "10");
    assert_eq!(dec_u8(205), "205");
    assert_eq!(dec_u8(255), "255");
}

#[test]
fn clone_paths_are_deterministic() {
    let dir = instances_dir("/Users/li");
    assert_eq!(dir, "/Users/li/Applications/WeComMulti");
    let first = instance_path(&dir, "WeCom", 2);
    let second = instance_path(&dir, "WeCom", 2);
    assert_eq!(first, "/Users/li/Applications/WeComMulti/WeCom2.app");
    assert_eq!(first, second);
    assert_eq!(
        instance_data_dir("/Users/li", 2),
        "/Users/li/Library/Containers/WeComInstance2"
    );
    assert_eq!(
        instance_executable_path(&first, "WeCom"),
        "/Users/li/Applications/WeComMulti/WeCom2.app/Contents/MacOS/WeCom"
    );
}

#[test]
fn second_clone_removes_the_first_before_copying() {
    let fresh = clone_plan(false);
    assert_eq!(
        fresh,
        vec![
            CloneStep::EnsureDir,
            CloneStep::CopyBundle,
            CloneStep::RewriteIdentity,
            CloneStep::StripQuarantine,
            CloneStep::Resign,
        ]
    );
    let repeat = clone_plan(true);
    assert_eq!(
        repeat,
        vec![
            CloneStep::EnsureDir,
            CloneStep::RemoveExisting,
            CloneStep::CopyBundle,
            CloneStep::RewriteIdentity,
            CloneStep::StripQuarantine,
            CloneStep::Resign,
        ]
    );
}

#[test]
fn sequential_clones_get_distinct_identities() {
    let first = instance_bundle_id(1);
    let second = instance_bundle_id(2);
    assert_eq!(first, "com.tencent.WeWorkMac.instance1");
    assert_eq!(second, "com.tencent.WeWorkMac.instance2");
    assert_ne!(first, second);
    assert_ne!(first, "com.tencent.WeWorkMac");
    assert_ne!(second, "com.tencent.WeWorkMac");
}

#[test]
fn helper_tool_invocations_are_exact() {
    let copy = copy_command("/Applications/WeCom.app", "/tmp/WeCom1.app");
    assert_eq!(copy.program, "cp");
    assert_eq!(
        copy.args,
        vec![
            "-R".to_string(),
            "/Applications/WeCom.app".to_string(),
            "/tmp/WeCom1.app".to_string()
        ]
    );

    let rewrite = rewrite_identity_command("/tmp/WeCom1.app", 1);
    assert_eq!(rewrite.program, "/usr/libexec/PlistBuddy");
    assert_eq!(
        rewrite.args,
        vec![
            "-c".to_string(),
            "Set :CFBundleIdentifier com.tencent.WeWorkMac.instance1".to_string(),
            "/tmp/WeCom1.app/Contents/Info.plist".to_string()
        ]
    );

    let strip = strip_quarantine_command("/tmp/WeCom1.app");
    assert_eq!(strip.program, "/usr/bin/xattr");
    assert_eq!(strip.args, vec!["-rc".to_string(), "/tmp/WeCom1.app".to_string()]);

    let resign = resign_command("/tmp/WeCom1.app");
    assert_eq!(resign.program, "codesign");
    assert_eq!(
        resign.args,
        vec![
            "--force".to_string(),
            "--deep".to_string(),
            "--sign".to_string(),
            "-".to_string(),
            "--timestamp=none".to_string(),
            "/tmp/WeCom1.app".to_string()
        ]
    );
}

#[test]
fn step_failures_carry_their_step() {
    assert_eq!(CloneStep::EnsureDir.describe(), "创建实例目录失败");
    assert_eq!(CloneStep::RemoveExisting.describe(), "删除旧实例失败");
    assert_eq!(CloneStep::CopyBundle.describe(), "复制应用失败");
    assert_eq!(CloneStep::RewriteIdentity.describe(), "修改 Bundle ID 失败");
    assert_eq!(CloneStep::StripQuarantine.describe(), "清除隔离属性失败");
    assert_eq!(CloneStep::Resign.describe(), "重新签名失败");
}

#[test]
fn default_path_discovery_picks_first_existing() {
    let path = get_default_wecom_path(&vec![false, false, true, true]).unwrap();
    assert_eq!(path, "D:\\Program Files (x86)\\WXWork\\WXWork.exe");
    assert!(get_default_wecom_path(&vec![false, false, false, false]).is_none());

    // the fallback is the primary candidate
    let path = get_default_app_path(&vec![false, false, false, false]);
    assert_eq!(path, "C:\\Program Files (x86)\\WXWork\\WXWork.exe");
    let path = get_default_app_path(&vec![false, true, false, false]);
    assert_eq!(path, "C:\\Program Files\\WXWork\\WXWork.exe");

    let mac = mac_app_candidates();
    assert_eq!(mac.len(), 2);
    assert_eq!(mac[0], "/Applications/企业微信.app");
    assert_eq!(mac[1], "/Applications/WeCom.app");
}
