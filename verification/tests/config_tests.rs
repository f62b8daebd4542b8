use kiro_account_manager::config::{
    check_config, AutoRegisterConfig, BrowserConfig, ConfigError, EmailConfig, ExecutionConfig,
    ProxyConfig, PythonConfig, RegisterConfig,
};
use kiro_account_manager::history::{
    add_registration_record, AutoRegisterConfigStore, RegistrationRecord,
};

fn valid_config() -> AutoRegisterConfig {
    let mut c = AutoRegisterConfig::default();
    c.email.imap_server = "imap.example.com".to_string();
    c.email.email = "box@example.com".to_string();
    c.register.email_prefix = "user".to_string();
    c.register.email_domain = "@example.com".to_string();
    c
}

fn empty_store() -> AutoRegisterConfigStore {
    AutoRegisterConfigStore::new(
        AutoRegisterConfig::default(),
        Vec::new(),
        "/data/config.json".to_string(),
        "/data/history.json".to_string(),
    )
}

#[test]
fn defaults_of_the_mail_box() {
    let e = EmailConfig::default();
    assert_eq!(e.imap_server, "");
    assert_eq!(e.imap_port, 993);
    assert_eq!(e.email, "");
    assert_eq!(e.password, "");
    assert!(e.use_ssl);
    assert_eq!(e.timeout, 180);
    assert_eq!(e.poll_interval, 5);
}

#[test]
fn defaults_of_the_registration() {
    let r = RegisterConfig::default();
    assert_eq!(r.email_prefix, "");
    assert_eq!(r.email_domain, "");
    assert_eq!(r.password_length, 14);
    assert!(r.password_include_uppercase);
    assert!(r.password_include_lowercase);
    assert!(r.password_include_numbers);
    assert!(r.password_include_special);
    assert!(r.use_random_name);
}

#[test]
fn defaults_of_browser_proxy_execution_and_python() {
    let b = BrowserConfig::default();
    assert_eq!(b.browser_type, "chrome");
    assert_eq!(b.chrome_path, None);
    assert!(b.chrome_auto_detect);
    assert_eq!(b.roxy_port, Some(50000));
    assert_eq!(b.roxy_token, None);
    assert_eq!(b.roxy_workspace_id, None);
    assert_eq!(b.roxy_browser_id, None);
    let p = ProxyConfig::default();
    assert!(!p.enabled);
    assert_eq!(p.proxy_type, "http");
    assert_eq!(p.host, "");
    assert_eq!(p.port, 8080);
    assert_eq!(p.username, None);
    assert_eq!(p.password, None);
    let x = ExecutionConfig::default();
    assert_eq!(x.count, 1);
    assert_eq!(x.interval, 10);
    let y = PythonConfig::default();
    assert!(y.auto_detect);
    assert_eq!(y.python_path, None);
    assert_eq!(y.detected_path, None);
    assert_eq!(y.detected_version, None);
}

#[test]
fn a_complete_configuration_is_valid() {
    assert_eq!(check_config(&valid_config()), Ok(()));
    let mut roxy = valid_config();
    roxy.browser.browser_type = "roxy".to_string();
    assert_eq!(check_config(&roxy), Ok(()));
}

#[test]
fn the_default_configuration_lacks_a_mail_server() {
    assert_eq!(check_config(&AutoRegisterConfig::default()), Err(ConfigError::EmptyImapServer));
}

#[test]
fn each_rule_is_reported() {
    let mut c = valid_config();
    c.email.imap_port = 0;
    assert_eq!(check_config(&c), Err(ConfigError::ImapPortZero));

    let mut c = valid_config();
    c.email.email = String::new();
    assert_eq!(check_config(&c), Err(ConfigError::EmptyEmailAddress));

    let mut c = valid_config();
    c.register.email_prefix = String::new();
    assert_eq!(check_config(&c), Err(ConfigError::EmptyEmailPrefix));

    let mut c = valid_config();
    c.register.email_domain = String::new();
    assert_eq!(check_config(&c), Err(ConfigError::BadEmailDomain));

    let mut c = valid_config();
    c.register.email_domain = "example.com".to_string();
    assert_eq!(check_config(&c), Err(ConfigError::BadEmailDomain));

    let mut c = valid_config();
    c.register.password_length = 7;
    assert_eq!(check_config(&c), Err(ConfigError::PasswordTooShort));

    let mut c = valid_config();
    c.register.password_length = 8;
    assert_eq!(check_config(&c), Ok(()));

    let mut c = valid_config();
    c.browser.browser_type = "firefox".to_string();
    assert_eq!(check_config(&c), Err(ConfigError::UnknownBrowserType));

    let mut c = valid_config();
    c.proxy.enabled = true;
    assert_eq!(check_config(&c), Err(ConfigError::EmptyProxyHost));

    let mut c = valid_config();
    c.proxy.enabled = true;
    c.proxy.host = "127.0.0.1".to_string();
    c.proxy.port = 0;
    assert_eq!(check_config(&c), Err(ConfigError::ProxyPortZero));

    let mut c = valid_config();
    c.proxy.enabled = false;
    c.proxy.port = 0;
    assert_eq!(check_config(&c), Ok(()));
}

#[test]
fn the_first_broken_rule_wins() {
    let mut c = AutoRegisterConfig::default();
    c.email.imap_port = 0;
    assert_eq!(check_config(&c), Err(ConfigError::EmptyImapServer));
    c.email.imap_server = "imap".to_string();
    assert_eq!(check_config(&c), Err(ConfigError::ImapPortZero));
}

#[test]
fn messages_of_the_rules() {
    assert_eq!(ConfigError::EmptyImapServer.message(), "IMAP 服务器地址不能为空");
    assert_eq!(ConfigError::ImapPortZero.message(), "端口号必须在 1-65535 之间");
    assert_eq!(ConfigError::EmptyEmailAddress.message(), "邮箱地址不能为空");
    assert_eq!(ConfigError::EmptyEmailPrefix.message(), "邮箱前缀不能为空");
    assert_eq!(ConfigError::BadEmailDomain.message(), "邮箱域名格式不正确，必须以 @ 开头");
    assert_eq!(ConfigError::PasswordTooShort.message(), "密码长度不能少于 8 位");
    assert_eq!(ConfigError::UnknownBrowserType.message(), "浏览器类型必须是 chrome 或 roxy");
    assert_eq!(ConfigError::EmptyProxyHost.message(), "代理服务器地址不能为空");
    assert_eq!(ConfigError::ProxyPortZero.message(), "代理端口不能为 0");
}

#[test]
fn a_store_holds_what_it_was_made_with() {
    let record = RegistrationRecord::stamped(
        "id-1".to_string(),
        "2024/01/02 03:04:05".to_string(),
        "a@b.com".to_string(),
        "pw".to_string(),
        "success".to_string(),
    );
    let store = AutoRegisterConfigStore::new(
        valid_config(),
        vec![record],
        "c.json".to_string(),
        "h.json".to_string(),
    );
    assert_eq!(store.get_config().email.imap_server, "imap.example.com");
    assert_eq!(store.get_history().len(), 1);
    assert_eq!(store.get_history()[0].id, "id-1");
    assert_eq!(store.get_history()[0].timestamp, "2024/01/02 03:04:05");
    assert_eq!(store.get_history()[0].error, None);
    assert_eq!(store.get_history()[0].account_id, None);
    assert_eq!(store.config_path(), "c.json");
    assert_eq!(store.history_path(), "h.json");
}

#[test]
fn a_valid_configuration_is_saved_and_a_broken_one_is_not() {
    let mut store = empty_store();
    assert_eq!(store.save_config(valid_config()), Ok(()));
    assert_eq!(store.get_config().email.email, "box@example.com");

    let mut broken = valid_config();
    broken.email.email = String::new();
    broken.register.email_prefix = "other".to_string();
    assert_eq!(store.save_config(broken), Err(ConfigError::EmptyEmailAddress));
    assert_eq!(store.get_config().email.email, "box@example.com");
    assert_eq!(store.get_config().register.email_prefix, "user");
    assert_eq!(
        AutoRegisterConfigStore::validate_config(&AutoRegisterConfig::default()),
        Err(ConfigError::EmptyImapServer)
    );
}

#[test]
fn records_are_put_at_the_head_of_the_history() {
    let mut store = empty_store();
    store.add_record(RegistrationRecord::new(
        "first@b.com".to_string(),
        "pw-one".to_string(),
        "success".to_string(),
    ));
    store.add_record(RegistrationRecord::new(
        "second@b.com".to_string(),
        "pw-two".to_string(),
        "failed".to_string(),
    ));
    let history = store.get_history();
    assert_eq!(history.len(), 2);
    assert_eq!(history[0].email, "second@b.com");
    assert_eq!(history[0].status, "failed");
    assert_eq!(history[1].email, "first@b.com");
    store.clear_history();
    assert!(store.get_history().is_empty());
    assert_eq!(store.history_path(), "/data/history.json");
}

#[test]
fn a_new_record_has_a_fresh_identifier_and_the_present_time() {
    let a = RegistrationRecord::new("a@b.com".to_string(), "pw".to_string(), "success".to_string());
    let b = RegistrationRecord::new("a@b.com".to_string(), "pw".to_string(), "success".to_string());
    assert_eq!(a.id.len(), 36);
    assert_ne!(a.id, b.id);
    assert_eq!(a.id.chars().filter(|c| *c == '-').count(), 4);
    assert_eq!(a.timestamp.len(), 19);
    let marks: Vec<char> = a.timestamp.chars().collect();
    assert_eq!(marks[4], '/');
    assert_eq!(marks[7], '/');
    assert_eq!(marks[10], ' ');
    assert_eq!(marks[13], ':');
    assert_eq!(marks[16], ':');
    assert_eq!(a.email, "a@b.com");
    assert_eq!(a.password, "pw");
    assert_eq!(a.status, "success");
    assert_eq!(a.error, None);
    assert_eq!(a.account_id, None);
}

#[test]
fn a_reported_registration_is_recorded_with_its_error_and_account() {
    let mut store = empty_store();
    let record = add_registration_record(
        &mut store,
        "a@b.com".to_string(),
        "pw".to_string(),
        "failed".to_string(),
        Some("timeout".to_string()),
        Some("acc-9".to_string()),
    );
    assert_eq!(record.error, Some("timeout".to_string()));
    assert_eq!(record.account_id, Some("acc-9".to_string()));
    let history = store.get_history();
    assert_eq!(history.len(), 1);
    assert_eq!(history[0].id, record.id);
    assert_eq!(history[0].email, "a@b.com");
    assert_eq!(history[0].status, "failed");
    assert_eq!(history[0].error, Some("timeout".to_string()));
}
