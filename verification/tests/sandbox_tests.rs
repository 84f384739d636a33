use wecom_multi_open::windows_sandbox::{SandboxConfig, SandboxieManager, Tool};

#[test]
fn test_sandboxie_manager_creation() {
    let manager = SandboxieManager::new(Some("C:\\Program Files\\Sandboxie-Plus"), true);
    assert!(manager.is_ok(), "应该能找到 Sandboxie-Plus");
}

#[test]
fn test_sandbox_config_default() {
    let config = SandboxConfig::default();
    assert_eq!(config.name, "DefaultBox");
    assert_eq!(config.enabled, true);
    assert_eq!(config.config_level, 7);
}

fn manager() -> SandboxieManager {
    SandboxieManager::new(Some("C:\\Program Files\\Sandboxie-Plus"), true).unwrap()
}

#[test]
fn missing_install_dir_is_reported() {
    let manager = SandboxieManager::new(None, true);
    assert_eq!(
        manager.unwrap_err(),
        "未找到 Sandboxie-Plus 安装,请先安装 Sandboxie-Plus"
    );
}

#[test]
fn missing_start_binary_is_reported() {
    let manager = SandboxieManager::new(Some("C:\\Program Files\\Sandboxie-Plus"), false);
    assert_eq!(manager.unwrap_err(), "未找到 Start.exe");
}

#[test]
fn create_sandbox_calls_follow_the_documented_order() {
    let m = manager();
    let config = SandboxConfig {
        name: "Box7".to_string(),
        enabled: true,
        config_level: 7,
        auto_delete: false,
        closed_file_path: vec!["C:\\Secret".to_string()],
        closed_key_path: vec![],
        open_file_path: vec!["C:\\Shared".to_string(), "D:\\Data".to_string()],
        open_key_path: vec![],
    };
    let calls = m.create_sandbox_calls(&config);
    let args: Vec<Vec<String>> = calls.iter().map(|c| c.args.clone()).collect();
    assert_eq!(
        args,
        vec![
            vec!["set".to_string(), "Box7".to_string(), "ConfigLevel".to_string(), "7".to_string()],
            vec!["set".to_string(), "Box7".to_string(), "Enabled".to_string(), "y".to_string()],
            vec![
                "append".to_string(),
                "Box7".to_string(),
                "ClosedFilePath".to_string(),
                "C:\\Secret".to_string()
            ],
            vec![
                "append".to_string(),
                "Box7".to_string(),
                "OpenFilePath".to_string(),
                "C:\\Shared".to_string()
            ],
            vec![
                "append".to_string(),
                "Box7".to_string(),
                "OpenFilePath".to_string(),
                "D:\\Data".to_string()
            ],
            vec!["reload".to_string()],
        ]
    );
    assert!(calls.iter().all(|c| c.tool == Tool::SbieIni));
}

#[test]
fn auto_delete_adds_its_setting() {
    let m = manager();
    let config = SandboxConfig {
        name: "Tmp".to_string(),
        enabled: false,
        config_level: 3,
        auto_delete: true,
        closed_file_path: vec![],
        closed_key_path: vec![],
        open_file_path: vec![],
        open_key_path: vec![],
    };
    let calls = m.create_sandbox_calls(&config);
    let args: Vec<Vec<String>> = calls.iter().map(|c| c.args.clone()).collect();
    assert_eq!(
        args,
        vec![
            vec!["set".to_string(), "Tmp".to_string(), "ConfigLevel".to_string(), "3".to_string()],
            vec!["set".to_string(), "Tmp".to_string(), "Enabled".to_string(), "n".to_string()],
            vec!["set".to_string(), "Tmp".to_string(), "AutoDelete".to_string(), "y".to_string()],
            vec!["reload".to_string()],
        ]
    );
}

#[test]
fn cleanup_terminates_then_clears() {
    let m = manager();
    let calls = m.cleanup_sandbox_calls("WeCom_2");
    assert_eq!(calls.len(), 2);
    assert_eq!(calls[0].tool, Tool::Start);
    assert_eq!(calls[0].args, vec!["/box:WeCom_2".to_string(), "/terminate".to_string()]);
    assert_eq!(calls[1].tool, Tool::SbieIni);
    assert_eq!(
        calls[1].args,
        vec!["delete_sandbox_silent".to_string(), "WeCom_2".to_string()]
    );
}

#[test]
fn start_in_sandbox_names_the_box() {
    let m = manager();
    let call = m.start_in_sandbox_call("WeCom_1", "C:\\Program Files\\WXWork\\WXWork.exe");
    assert_eq!(call.tool, Tool::Start);
    assert_eq!(
        call.args,
        vec![
            "/box:WeCom_1".to_string(),
            "C:\\Program Files\\WXWork\\WXWork.exe".to_string()
        ]
    );
}

#[test]
fn list_sandboxes_trims_and_drops_blank_lines() {
    let m = manager();
    let names = m.list_sandboxes("DefaultBox\r\n  WeCom_1  \r\n\r\n\tWeCom_2\n");
    assert_eq!(
        names,
        vec!["DefaultBox".to_string(), "WeCom_1".to_string(), "WeCom_2".to_string()]
    );
}

#[test]
fn list_sandboxes_of_empty_output_is_empty() {
    let m = manager();
    let names = m.list_sandboxes("");
    assert!(names.is_empty());
    let names = m.list_sandboxes(" \r\n\t\r\n");
    assert!(names.is_empty());
}

#[test]
fn sandbox_exists_finds_exact_names_only() {
    let m = manager();
    let raw = "DefaultBox\nWeCom_1\nWeCom_2\n";
    assert!(m.sandbox_exists(raw, "WeCom_1"));
    assert!(m.sandbox_exists(raw, "DefaultBox"));
    assert!(!m.sandbox_exists(raw, "WeCom"));
    assert!(!m.sandbox_exists(raw, "wecom_1"));
    assert!(!m.sandbox_exists("", "DefaultBox"));
}
