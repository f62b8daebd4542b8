//! The settings of a registration run and the rules they must meet.

use vstd::prelude::*;

use crate::text::{clone_opt, opt_text, str_eq};

verus! {

/// Mail box from which the worker reads verification codes.
#[derive(Debug)]
pub struct EmailConfig {
    pub imap_server: String,
    pub imap_port: u16,
    pub email: String,
    pub password: String,
    pub use_ssl: bool,
    /// Seconds to wait for a verification code.
    pub timeout: u32,
    /// Seconds between two looks into the mail box.
    pub poll_interval: u32,
}

pub struct EmailConfigView {
    pub imap_server: Seq<char>,
    pub imap_port: u16,
    pub email: Seq<char>,
    pub password: Seq<char>,
    pub use_ssl: bool,
    pub timeout: u32,
    pub poll_interval: u32,
}

impl View for EmailConfig {
    type V = EmailConfigView;

    open spec fn view(&self) -> EmailConfigView {
        EmailConfigView {
            imap_server: self.imap_server@,
            imap_port: self.imap_port,
            email: self.email@,
            password: self.password@,
            use_ssl: self.use_ssl,
            timeout: self.timeout,
            poll_interval: self.poll_interval,
        }
    }
}

impl EmailConfig {
    pub open spec fn default_view() -> EmailConfigView {
        EmailConfigView {
            imap_server: Seq::empty(),
            imap_port: 993,
            email: Seq::empty(),
            password: Seq::empty(),
            use_ssl: true,
            timeout: 180,
            poll_interval: 5,
        }
    }
}

impl Default for EmailConfig {
    fn default() -> (r: Self)
        ensures
            r@ == EmailConfig::default_view(),
    {
        EmailConfig {
            imap_server: String::new(),
            imap_port: 993,
            email: String::new(),
            password: String::new(),
            use_ssl: true,
            timeout: 180,
            poll_interval: 5,
        }
    }
}

impl Clone for EmailConfig {
    fn clone(&self) -> (r: Self)
        ensures
            r@ == self@,
    {
        EmailConfig {
            imap_server: self.imap_server.clone(),
            imap_port: self.imap_port,
            email: self.email.clone(),
            password: self.password.clone(),
            use_ssl: self.use_ssl,
            timeout: self.timeout,
            poll_interval: self.poll_interval,
        }
    }
}

/// How the identities and secrets of new accounts are made up.
#[derive(Debug)]
pub struct RegisterConfig {
    pub email_prefix: String,
    pub email_domain: String,
    pub password_length: u8,
    pub password_include_uppercase: bool,
    pub password_include_lowercase: bool,
    pub password_include_numbers: bool,
    pub password_include_special: bool,
    pub use_random_name: bool,
}

pub struct RegisterConfigView {
    pub email_prefix: Seq<char>,
    pub email_domain: Seq<char>,
    pub password_length: u8,
    pub password_include_uppercase: bool,
    pub password_include_lowercase: bool,
    pub password_include_numbers: bool,
    pub password_include_special: bool,
    pub use_random_name: bool,
}

impl View for RegisterConfig {
    type V = RegisterConfigView;

    open spec fn view(&self) -> RegisterConfigView {
        RegisterConfigView {
            email_prefix: self.email_prefix@,
            email_domain: self.email_domain@,
            password_length: self.password_length,
            password_include_uppercase: self.password_include_uppercase,
            password_include_lowercase: self.password_include_lowercase,
            password_include_numbers: self.password_include_numbers,
            password_include_special: self.password_include_special,
            use_random_name: self.use_random_name,
        }
    }
}

impl RegisterConfig {
    pub open spec fn default_view() -> RegisterConfigView {
        RegisterConfigView {
            email_prefix: Seq::empty(),
            email_domain: Seq::empty(),
            password_length: 14,
            password_include_uppercase: true,
            password_include_lowercase: true,
            password_include_numbers: true,
            password_include_special: true,
            use_random_name: true,
        }
    }
}

impl Default for RegisterConfig {
    fn default() -> (r: Self)
        ensures
            r@ == RegisterConfig::default_view(),
    {
        RegisterConfig {
            email_prefix: String::new(),
            email_domain: String::new(),
            password_length: 14,
            password_include_uppercase: true,
            password_include_lowercase: true,
            password_include_numbers: true,
            password_include_special: true,
            use_random_name: true,
        }
    }
}

impl Clone for RegisterConfig {
    fn clone(&self) -> (r: Self)
        ensures
            r@ == self@,
    {
        RegisterConfig {
            email_prefix: self.email_prefix.clone(),
            email_domain: self.email_domain.clone(),
            password_length: self.password_length,
            password_include_uppercase: self.password_include_uppercase,
            password_include_lowercase: self.password_include_lowercase,
            password_include_numbers: self.password_include_numbers,
            password_include_special: self.password_include_special,
            use_random_name: self.use_random_name,
        }
    }
}

/// Which browser the worker drives: a local Chrome or a Roxy profile.
#[derive(Debug)]
pub struct BrowserConfig {
    /// `chrome` or `roxy`.
    pub browser_type: String,
    pub chrome_path: Option<String>,
    pub chrome_auto_detect: bool,
    pub roxy_port: Option<u16>,
    pub roxy_token: Option<String>,
    pub roxy_workspace_id: Option<u32>,
    pub roxy_browser_id: Option<String>,
}

pub struct BrowserConfigView {
    pub browser_type: Seq<char>,
    pub chrome_path: Option<Seq<char>>,
    pub chrome_auto_detect: bool,
    pub roxy_port: Option<u16>,
    pub roxy_token: Option<Seq<char>>,
    pub roxy_workspace_id: Option<u32>,
    pub roxy_browser_id: Option<Seq<char>>,
}

impl View for BrowserConfig {
    type V = BrowserConfigView;

    open spec fn view(&self) -> BrowserConfigView {
        BrowserConfigView {
            browser_type: self.browser_type@,
            chrome_path: opt_text(self.chrome_path),
            chrome_auto_detect: self.chrome_auto_detect,
            roxy_port: self.roxy_port,
            roxy_token: opt_text(self.roxy_token),
            roxy_workspace_id: self.roxy_workspace_id,
            roxy_browser_id: opt_text(self.roxy_browser_id),
        }
    }
}

impl BrowserConfig {
    pub open spec fn default_view() -> BrowserConfigView {
        BrowserConfigView {
            browser_type: "chrome"@,
            chrome_path: None,
            chrome_auto_detect: true,
            roxy_port: Some(50000u16),
            roxy_token: None,
            roxy_workspace_id: None,
            roxy_browser_id: None,
        }
    }
}

impl Default for BrowserConfig {
    fn default() -> (r: Self)
        ensures
            r@ == BrowserConfig::default_view(),
    {
        BrowserConfig {
            browser_type: String::from_str("chrome"),
            chrome_path: None,
            chrome_auto_detect: true,
            roxy_port: Some(50000),
            roxy_token: None,
            roxy_workspace_id: None,
            roxy_browser_id: None,
        }
    }
}

impl Clone for BrowserConfig {
    fn clone(&self) -> (r: Self)
        ensures
            r@ == self@,
    {
        BrowserConfig {
            browser_type: self.browser_type.clone(),
            chrome_path: clone_opt(&self.chrome_path),
            chrome_auto_detect: self.chrome_auto_detect,
            roxy_port: self.roxy_port,
            roxy_token: clone_opt(&self.roxy_token),
            roxy_workspace_id: self.roxy_workspace_id,
            roxy_browser_id: clone_opt(&self.roxy_browser_id),
        }
    }
}

/// The proxy through which the browser reaches the network.
#[derive(Debug)]
pub struct ProxyConfig {
    pub enabled: bool,
    /// `http`, `https` or `socks5`.
    pub proxy_type: String,
    pub host: String,
    pub port: u16,
    pub username: Option<String>,
    pub password: Option<String>,
}

pub struct ProxyConfigView {
    pub enabled: bool,
    pub proxy_type: Seq<char>,
    pub host: Seq<char>,
    pub port: u16,
    pub username: Option<Seq<char>>,
    pub password: Option<Seq<char>>,
}

impl View for ProxyConfig {
    type V = ProxyConfigView;

    open spec fn view(&self) -> ProxyConfigView {
        ProxyConfigView {
            enabled: self.enabled,
            proxy_type: self.proxy_type@,
            host: self.host@,
            port: self.port,
            username: opt_text(self.username),
            password: opt_text(self.password),
        }
    }
}

impl ProxyConfig {
    pub open spec fn default_view() -> ProxyConfigView {
        ProxyConfigView {
            enabled: false,
            proxy_type: "http"@,
            host: Seq::empty(),
            port: 8080,
            username: None,
            password: None,
        }
    }
}

impl Default for ProxyConfig {
    fn default() -> (r: Self)
        ensures
            r@ == ProxyConfig::default_view(),
    {
        ProxyConfig {
            enabled: false,
            proxy_type: String::from_str("http"),
            host: String::new(),
            port: 8080,
            username: None,
            password: None,
        }
    }
}

impl Clone for ProxyConfig {
    fn clone(&self) -> (r: Self)
        ensures
            r@ == self@,
    {
        ProxyConfig {
            enabled: self.enabled,
            proxy_type: self.proxy_type.clone(),
            host: self.host.clone(),
            port: self.port,
            username: clone_opt(&self.username),
            password: clone_opt(&self.password),
        }
    }
}

/// How many accounts a run registers, and how long it rests between two.
#[derive(Debug, Clone, Copy)]
pub struct ExecutionConfig {
    pub count: u32,
    /// Seconds between two registrations.
    pub interval: u32,
}

impl Default for ExecutionConfig {
    fn default() -> (r: Self)
        ensures
            r == (ExecutionConfig { count: 1, interval: 10 }),
    {
        ExecutionConfig { count: 1, interval: 10 }
    }
}

/// Where the interpreter of the worker script is found.
#[derive(Debug)]
pub struct PythonConfig {
    pub auto_detect: bool,
    pub python_path: Option<String>,
    pub detected_path: Option<String>,
    pub detected_version: Option<String>,
}

pub struct PythonConfigView {
    pub auto_detect: bool,
    pub python_path: Option<Seq<char>>,
    pub detected_path: Option<Seq<char>>,
    pub detected_version: Option<Seq<char>>,
}

impl View for PythonConfig {
    type V = PythonConfigView;

    open spec fn view(&self) -> PythonConfigView {
        PythonConfigView {
            auto_detect: self.auto_detect,
            python_path: opt_text(self.python_path),
            detected_path: opt_text(self.detected_path),
            detected_version: opt_text(self.detected_version),
        }
    }
}

impl PythonConfig {
    pub open spec fn default_view() -> PythonConfigView {
        PythonConfigView {
            auto_detect: true,
            python_path: None,
            detected_path: None,
            detected_version: None,
        }
    }
}

impl Default for PythonConfig {
    fn default() -> (r: Self)
        ensures
            r@ == PythonConfig::default_view(),
    {
        PythonConfig {
            auto_detect: true,
            python_path: None,
            detected_path: None,
            detected_version: None,
        }
    }
}

impl Clone for PythonConfig {
    fn clone(&self) -> (r: Self)
        ensures
            r@ == self@,
    {
        PythonConfig {
            auto_detect: self.auto_detect,
            python_path: clone_opt(&self.python_path),
            detected_path: clone_opt(&self.detected_path),
            detected_version: clone_opt(&self.detected_version),
        }
    }
}

/// Everything a registration run is configured with.
#[derive(Debug)]
pub struct AutoRegisterConfig {
    pub email: EmailConfig,
    pub register: RegisterConfig,
    pub browser: BrowserConfig,
    pub proxy: ProxyConfig,
    pub execution: ExecutionConfig,
    pub python: PythonConfig,
}

pub struct AutoRegisterConfigView {
    pub email: EmailConfigView,
    pub register: RegisterConfigView,
    pub browser: BrowserConfigView,
    pub proxy: ProxyConfigView,
    pub execution: ExecutionConfig,
    pub python: PythonConfigView,
}

impl View for AutoRegisterConfig {
    type V = AutoRegisterConfigView;

    open spec fn view(&self) -> AutoRegisterConfigView {
        AutoRegisterConfigView {
            email: self.email@,
            register: self.register@,
            browser: self.browser@,
            proxy: self.proxy@,
            execution: self.execution,
            python: self.python@,
        }
    }
}

impl AutoRegisterConfig {
    pub open spec fn default_view() -> AutoRegisterConfigView {
        AutoRegisterConfigView {
            email: EmailConfig::default_view(),
            register: RegisterConfig::default_view(),
            browser: BrowserConfig::default_view(),
            proxy: ProxyConfig::default_view(),
            execution: ExecutionConfig { count: 1, interval: 10 },
            python: PythonConfig::default_view(),
        }
    }
}

impl Default for AutoRegisterConfig {
    fn default() -> (r: Self)
        ensures
            r@ == AutoRegisterConfig::default_view(),
    {
        AutoRegisterConfig {
            email: EmailConfig::default(),
            register: RegisterConfig::default(),
            browser: BrowserConfig::default(),
            proxy: ProxyConfig::default(),
            execution: ExecutionConfig::default(),
            python: PythonConfig::default(),
        }
    }
}

impl Clone for AutoRegisterConfig {
    fn clone(&self) -> (r: Self)
        ensures
            r@ == self@,
    {
        AutoRegisterConfig {
            email: self.email.clone(),
            register: self.register.clone(),
            browser: self.browser.clone(),
            proxy: self.proxy.clone(),
            execution: self.execution,
            python: self.python.clone(),
        }
    }
}

/// The first rule that a configuration breaks.
#[derive(Debug, Clone, Copy, PartialEq, Eq, Structural)]
pub enum ConfigError {
    EmptyImapServer,
    ImapPortZero,
    EmptyEmailAddress,
    EmptyEmailPrefix,
    BadEmailDomain,
    PasswordTooShort,
    UnknownBrowserType,
    EmptyProxyHost,
    ProxyPortZero,
}

impl ConfigError {
    /// The words shown to the user for each broken rule.
    pub open spec fn message_text(self) -> Seq<char> {
        match self {
            ConfigError::EmptyImapServer => "IMAP 服务器地址不能为空"@,
            ConfigError::ImapPortZero => "端口号必须在 1-65535 之间"@,
            ConfigError::EmptyEmailAddress => "邮箱地址不能为空"@,
            ConfigError::EmptyEmailPrefix => "邮箱前缀不能为空"@,
            ConfigError::BadEmailDomain => "邮箱域名格式不正确，必须以 @ 开头"@,
            ConfigError::PasswordTooShort => "密码长度不能少于 8 位"@,
            ConfigError::UnknownBrowserType => "浏览器类型必须是 chrome 或 roxy"@,
            ConfigError::EmptyProxyHost => "代理服务器地址不能为空"@,
            ConfigError::ProxyPortZero => "代理端口不能为 0"@,
        }
    }

    pub fn message(&self) -> (r: String)
        ensures
            r@ == self.message_text(),
    {
        let text = match self {
            ConfigError::EmptyImapServer => "IMAP 服务器地址不能为空",
            ConfigError::ImapPortZero => "端口号必须在 1-65535 之间",
            ConfigError::EmptyEmailAddress => "邮箱地址不能为空",
            ConfigError::EmptyEmailPrefix => "邮箱前缀不能为空",
            ConfigError::BadEmailDomain => "邮箱域名格式不正确，必须以 @ 开头",
            ConfigError::PasswordTooShort => "密码长度不能少于 8 位",
            ConfigError::UnknownBrowserType => "浏览器类型必须是 chrome 或 roxy",
            ConfigError::EmptyProxyHost => "代理服务器地址不能为空",
            ConfigError::ProxyPortZero => "代理端口不能为 0",
        };
        String::from_str(text)
    }
}

/// The first rule that `c` breaks, in the order in which the rules are
/// tested, or `None` where it breaks none.
pub open spec fn first_violation(c: AutoRegisterConfigView) -> Option<ConfigError> {
    if c.email.imap_server.len() == 0 {
        Some(ConfigError::EmptyImapServer)
    } else if c.email.imap_port == 0 {
        Some(ConfigError::ImapPortZero)
    } else if c.email.email.len() == 0 {
        Some(ConfigError::EmptyEmailAddress)
    } else if c.register.email_prefix.len() == 0 {
        Some(ConfigError::EmptyEmailPrefix)
    } else if c.register.email_domain.len() == 0 || c.register.email_domain[0] != '@' {
        Some(ConfigError::BadEmailDomain)
    } else if c.register.password_length < 8 {
        Some(ConfigError::PasswordTooShort)
    } else if c.browser.browser_type != "chrome"@ && c.browser.browser_type != "roxy"@ {
        Some(ConfigError::UnknownBrowserType)
    } else if c.proxy.enabled && c.proxy.host.len() == 0 {
        Some(ConfigError::EmptyProxyHost)
    } else if c.proxy.enabled && c.proxy.port == 0 {
        Some(ConfigError::ProxyPortZero)
    } else {
        None
    }
}

/// Tests the rules in order and reports the first that `config` breaks.
pub fn check_config(config: &AutoRegisterConfig) -> (r: Result<(), ConfigError>)
    ensures
        r == match first_violation(config@) {
            Some(e) => Err::<(), ConfigError>(e),
            None => Ok(()),
        },
{
    if config.email.imap_server.as_str().is_empty() {
        return Err(ConfigError::EmptyImapServer);
    }
    if config.email.imap_port == 0 {
        return Err(ConfigError::ImapPortZero);
    }
    if config.email.email.as_str().is_empty() {
        return Err(ConfigError::EmptyEmailAddress);
    }
    if config.register.email_prefix.as_str().is_empty() {
        return Err(ConfigError::EmptyEmailPrefix);
    }
    let domain = config.register.email_domain.as_str();
    if domain.is_empty() || domain.get_char(0) != '@' {
        return Err(ConfigError::BadEmailDomain);
    }
    if config.register.password_length < 8 {
        return Err(ConfigError::PasswordTooShort);
    }
    let browser = config.browser.browser_type.as_str();
    if !str_eq(browser, "chrome") && !str_eq(browser, "roxy") {
        return Err(ConfigError::UnknownBrowserType);
    }
    if config.proxy.enabled {
        if config.proxy.host.as_str().is_empty() {
            return Err(ConfigError::EmptyProxyHost);
        }
        if config.proxy.port == 0 {
            return Err(ConfigError::ProxyPortZero);
        }
    }
    Ok(())
}

} // verus!
