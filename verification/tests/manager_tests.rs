use wecom_multi_open::wecom_manager::WeComManager;

#[test]
fn test_wecom_manager_creation() {
    let manager = WeComManager::new(None, false, &vec![false, false, false, false]);
    assert!(manager.is_ok() || manager.is_err()); // 取决于是否安装了 Sandboxie
}

#[test]
fn test_find_wecom_path() {
    let path = WeComManager::find_wecom_exe(&vec![false, false, false, false]);
    println!("检测到的企业微信路径: {:?}", path);
}

#[test]
fn manager_found_reports_both_paths() {
    let manager = WeComManager::new(
        Some("C:\\Program Files\\Sandboxie-Plus"),
        true,
        &vec![false, true, false, false],
    )
    .unwrap();
    assert_eq!(
        manager.sandboxie.sbieini_path,
        "C:\\Program Files\\Sandboxie-Plus\\SbieIni.exe"
    );
    assert_eq!(
        manager.sandboxie.start_path,
        "C:\\Program Files\\Sandboxie-Plus\\Start.exe"
    );
    assert_eq!(manager.wecom_exe, "C:\\Program Files\\WXWork\\WXWork.exe");
}

#[test]
fn manager_missing_wecom_reports_path_error() {
    let manager = WeComManager::new(
        Some("C:\\Program Files\\Sandboxie-Plus"),
        true,
        &vec![false, false, false, false],
    );
    assert_eq!(manager.unwrap_err(), "未找到企业微信安装路径");
}

#[test]
fn manager_missing_start_reports_start_error() {
    let manager = WeComManager::new(
        Some("C:\\Program Files\\Sandboxie-Plus"),
        false,
        &vec![true, false, false, false],
    );
    assert_eq!(manager.unwrap_err(), "未找到 Start.exe");
}

#[test]
fn find_wecom_exe_picks_first_existing() {
    let path = WeComManager::find_wecom_exe(&vec![false, true, true, false]).unwrap();
    assert_eq!(path, "C:\\Program Files\\WXWork\\WXWork.exe");
}

#[test]
fn instance_fields_are_deterministic() {
    let manager = WeComManager::new(
        Some("C:\\Program Files\\Sandboxie-Plus"),
        true,
        &vec![true, false, false, false],
    )
    .unwrap();
    let inst = manager.create_instance(3, 4242);
    assert_eq!(inst.id, 3);
    assert_eq!(inst.sandbox_name, "WeCom_3");
    assert_eq!(inst.title, "企业微信账号 3");
    assert_eq!(inst.pid, Some(4242));
    assert!(inst.running);

    let config = manager.instance_config(12);
    assert_eq!(config.name, "WeCom_12");
    assert!(config.enabled);
    assert_eq!(config.config_level, 7);
    assert!(!config.auto_delete);
    assert!(config.closed_file_path.is_empty());
}

#[test]
fn distinct_instances_use_distinct_profiles() {
    assert_ne!(
        WeComManager::instance_sandbox_name(1),
        WeComManager::instance_sandbox_name(2)
    );
    assert_ne!(WeComManager::instance_title(1), WeComManager::instance_title(2));
    assert_eq!(WeComManager::instance_sandbox_name(1), "WeCom_1");
    assert_eq!(WeComManager::instance_title(2), "企业微信账号 2");
}

#[test]
fn delete_sandbox_plans_delete_and_reload() {
    let manager = WeComManager::new(
        Some("C:\\Program Files\\Sandboxie-Plus"),
        true,
        &vec![true, false, false, false],
    )
    .unwrap();
    let calls = manager.delete_sandbox("WeCom_1");
    assert_eq!(calls.len(), 2);
    assert_eq!(calls[0].args, vec!["delete_sandbox".to_string(), "WeCom_1".to_string()]);
    assert_eq!(calls[1].args, vec!["reload".to_string()]);
}
