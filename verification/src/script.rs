//! The command lines and the environment with which the worker and the
//! browser are started.

use vstd::prelude::*;

use crate::config::{AutoRegisterConfig, AutoRegisterConfigView, ProxyConfig, ProxyConfigView};
use crate::launch::pairs_view;
use crate::text::{decimal, join2, push_string, str_eq, texts, u64_to_string};

verus! {

/// A flag and its value, or nothing where there is no value.
pub open spec fn flag_with(name: Seq<char>, value: Option<Seq<char>>) -> Seq<Seq<char>> {
    match value {
        Some(v) => seq![name, v],
        None => Seq::empty(),
    }
}

/// The arguments that describe the proxy.
pub open spec fn proxy_args(p: ProxyConfigView) -> Seq<Seq<char>> {
    seq![
        "--proxy-enabled"@,
        "true"@,
        "--proxy-type"@,
        p.proxy_type,
        "--proxy-host"@,
        p.host,
        "--proxy-port"@,
        decimal(p.port as nat),
    ] + flag_with("--proxy-user"@, p.username) + flag_with("--proxy-pass"@, p.password)
}

/// The arguments of a run that drives a local Chrome.
pub open spec fn chrome_args(c: AutoRegisterConfigView) -> Seq<Seq<char>> {
    flag_with("--chrome-path"@, c.browser.chrome_path) + if c.proxy.enabled {
        proxy_args(c.proxy)
    } else {
        Seq::empty()
    }
}

/// The arguments of a run that drives a Roxy profile.
pub open spec fn roxy_args(c: AutoRegisterConfigView) -> Seq<Seq<char>> {
    flag_with(
        "--roxy-port"@,
        match c.browser.roxy_port {
            Some(p) => Some(decimal(p as nat)),
            None => None,
        },
    ) + flag_with("--roxy-token"@, c.browser.roxy_token)
}

/// The arguments with which the worker script is started.
pub open spec fn script_args(c: AutoRegisterConfigView) -> Seq<Seq<char>> {
    seq![
        "--browser-type"@,
        c.browser.browser_type,
        "--loop"@,
        decimal(c.execution.count as nat),
        "--interval"@,
        decimal(c.execution.interval as nat),
    ] + if c.browser.browser_type == "chrome"@ {
        chrome_args(c)
    } else {
        roxy_args(c)
    }
}

fn push_str(args: &mut Vec<String>, s: &str)
    ensures
        texts(final(args)@) == texts(old(args)@).push(s@),
{
    push_string(args, String::from_str(s));
}

fn push_flag(args: &mut Vec<String>, name: &str, value: &Option<String>)
    ensures
        texts(final(args)@) == texts(old(args)@) + flag_with(name@, crate::text::opt_text(*value)),
{
    match value {
        Some(v) => {
            push_str(args, name);
            push_str(args, v.as_str());
            assert(texts(args@) =~= texts(old(args)@) + seq![name@, v@]);
        },
        None => {
            assert(texts(args@) =~= texts(old(args)@) + Seq::<Seq<char>>::empty());
        },
    }
}

/// The arguments with which the worker script is started: the browser, the
/// count and the interval, then what the chosen browser needs.
pub fn build_script_args(config: &AutoRegisterConfig) -> (args: Vec<String>)
    ensures
        texts(args@) == script_args(config@),
{
    let mut args: Vec<String> = Vec::new();
    assert(texts(args@) =~= Seq::empty());
    push_str(&mut args, "--browser-type");
    push_str(&mut args, config.browser.browser_type.as_str());
    push_str(&mut args, "--loop");
    push_string(&mut args, u64_to_string(config.execution.count as u64));
    push_str(&mut args, "--interval");
    push_string(&mut args, u64_to_string(config.execution.interval as u64));
    let ghost head = seq![
        "--browser-type"@,
        config@.browser.browser_type,
        "--loop"@,
        decimal(config@.execution.count as nat),
        "--interval"@,
        decimal(config@.execution.interval as nat),
    ];
    assert(texts(args@) =~= head);
    if str_eq(config.browser.browser_type.as_str(), "chrome") {
        push_flag(&mut args, "--chrome-path", &config.browser.chrome_path);
        let ghost with_path = texts(args@);
        if config.proxy.enabled {
            push_str(&mut args, "--proxy-enabled");
            push_str(&mut args, "true");
            push_str(&mut args, "--proxy-type");
            push_str(&mut args, config.proxy.proxy_type.as_str());
            push_str(&mut args, "--proxy-host");
            push_str(&mut args, config.proxy.host.as_str());
            push_str(&mut args, "--proxy-port");
            push_string(&mut args, u64_to_string(config.proxy.port as u64));
            push_flag(&mut args, "--proxy-user", &config.proxy.username);
            push_flag(&mut args, "--proxy-pass", &config.proxy.password);
            assert(texts(args@) =~= with_path + proxy_args(config@.proxy));
        } else {
            assert(texts(args@) =~= with_path + Seq::<Seq<char>>::empty());
        }
        assert(texts(args@) =~= head + chrome_args(config@));
    } else {
        let port = match config.browser.roxy_port {
            Some(p) => Some(u64_to_string(p as u64)),
            None => None,
        };
        push_flag(&mut args, "--roxy-port", &port);
        push_flag(&mut args, "--roxy-token", &config.browser.roxy_token);
        assert(texts(args@) =~= head + roxy_args(config@));
    }
    args
}

/// The variables that the worker finds in its environment.
pub open spec fn script_env(c: AutoRegisterConfigView) -> Seq<(Seq<char>, Seq<char>)> {
    seq![
        ("EMAIL_IMAP_SERVER"@, c.email.imap_server),
        ("EMAIL_ADDRESS"@, c.email.email),
        ("EMAIL_PASSWORD"@, c.email.password),
        ("EMAIL_PREFIX"@, c.register.email_prefix),
        ("EMAIL_DOMAIN"@, c.register.email_domain),
        ("EMAIL_TIMEOUT"@, decimal(c.email.timeout as nat)),
        ("EMAIL_POLL_INTERVAL"@, decimal(c.email.poll_interval as nat)),
    ]
}

/// The variables that the worker finds in its environment: the mail box, the
/// pattern of the identities, and the two waiting times.
pub fn build_script_env(config: &AutoRegisterConfig) -> (env: Vec<(String, String)>)
    ensures
        pairs_view(env@) == script_env(config@),
{
    let mut env: Vec<(String, String)> = Vec::new();
    env.push((String::from_str("EMAIL_IMAP_SERVER"), config.email.imap_server.clone()));
    env.push((String::from_str("EMAIL_ADDRESS"), config.email.email.clone()));
    env.push((String::from_str("EMAIL_PASSWORD"), config.email.password.clone()));
    env.push((String::from_str("EMAIL_PREFIX"), config.register.email_prefix.clone()));
    env.push((String::from_str("EMAIL_DOMAIN"), config.register.email_domain.clone()));
    env.push((String::from_str("EMAIL_TIMEOUT"), u64_to_string(config.email.timeout as u64)));
    env.push(
        (String::from_str("EMAIL_POLL_INTERVAL"), u64_to_string(config.email.poll_interval as u64)),
    );
    assert(pairs_view(env@) =~= script_env(config@));
    env
}

/// The address of the proxy as a browser or an HTTP client takes it. A type
/// other than `socks5` and `https` is taken as `http`.
pub open spec fn proxy_address(p: ProxyConfigView) -> Seq<char> {
    (if p.proxy_type == "socks5"@ {
        "socks5://"@
    } else if p.proxy_type == "https"@ {
        "https://"@
    } else {
        "http://"@
    }) + p.host + ":"@ + decimal(p.port as nat)
}

/// The address of the proxy: scheme, host and port.
pub fn proxy_url(proxy: &ProxyConfig) -> (r: String)
    ensures
        r@ == proxy_address(proxy@),
{
    let kind = proxy.proxy_type.as_str();
    let scheme = if str_eq(kind, "socks5") {
        "socks5://"
    } else if str_eq(kind, "https") {
        "https://"
    } else {
        "http://"
    };
    String::from_str(scheme).concat(proxy.host.as_str()).concat(":").concat(
        u64_to_string(proxy.port as u64).as_str(),
    )
}

/// The lowest port on which the browser's debugger is offered.
pub const FIRST_DEBUG_PORT: u16 = 9222;

/// How many ports, counted from the lowest, are tried.
pub const DEBUG_PORT_COUNT: usize = 100;

/// Whether port number `k`, counted from the lowest, is the first that is
/// free among those that are tried.
pub open spec fn is_first_free(free: Seq<bool>, k: int) -> bool {
    &&& 0 <= k < free.len()
    &&& k < 100
    &&& free[k]
    &&& forall|j: int| 0 <= j < k ==> !free[j]
}

/// The port for the browser's debugger, given for each port from
/// [`FIRST_DEBUG_PORT`] upwards whether it is free: the lowest free one among
/// the first [`DEBUG_PORT_COUNT`], or the lowest of all where none of them is
/// free.
pub fn pick_debug_port(free: &Vec<bool>) -> (port: u16)
    ensures
        9222 <= port < 9322,
        (exists|k: int| is_first_free(free@, k)) ==> is_first_free(free@, port - 9222),
        !(exists|k: int| is_first_free(free@, k)) ==> port == 9222,
{
    let mut i: usize = 0;
    while i < free.len() && i < DEBUG_PORT_COUNT
        invariant
            i <= 100,
            i <= free.len(),
            forall|j: int| 0 <= j < i ==> !free[j],
        decreases 100 - i,
    {
        if free[i] {
            assert(is_first_free(free@, i as int));
            return FIRST_DEBUG_PORT + (i as u16);
        }
        i += 1;
    }
    proof {
        if exists|k: int| is_first_free(free@, k) {
            let k = choose|k: int| is_first_free(free@, k);
            assert(!free[k]);
        }
    }
    FIRST_DEBUG_PORT
}

/// The name of the profile directory of a browser whose debugger listens on
/// `port`.
pub fn chrome_profile_name(port: u16) -> (r: String)
    ensures
        r@ == "chrome_auto_"@ + decimal(port as nat),
{
    join2("chrome_auto_", u64_to_string(port as u64).as_str())
}

/// The switches that keep the browser from anything that would disturb an
/// automated session.
pub open spec fn quiet_browser_flags() -> Seq<Seq<char>> {
    seq![
        "--no-first-run"@,
        "--no-default-browser-check"@,
        "--disable-background-networking"@,
        "--disable-client-side-phishing-detection"@,
        "--disable-default-apps"@,
        "--disable-extensions"@,
        "--disable-hang-monitor"@,
        "--disable-popup-blocking"@,
        "--disable-prompt-on-repost"@,
        "--disable-sync"@,
        "--disable-translate"@,
        "--disable-features=TranslateUI"@,
        "--disable-ipc-flooding-protection"@,
        "--disable-renderer-backgrounding"@,
        "--disable-backgrounding-occluded-windows"@,
        "--metrics-recording-only"@,
        "--safebrowsing-disable-auto-update"@,
        "--password-store=basic"@,
        "--use-mock-keychain"@,
        "--enable-features=NetworkService,NetworkServiceInProcess"@,
    ]
}

/// The view of a proxy that may not be given.
pub open spec fn proxy_slot(p: Option<&ProxyConfig>) -> Option<ProxyConfigView> {
    match p {
        Some(p) => Some(p@),
        None => None,
    }
}

/// The arguments with which the browser is started.
pub open spec fn browser_args(
    url: Seq<char>,
    proxy: Option<ProxyConfigView>,
    debug_port: u16,
    profile_dir: Seq<char>,
) -> Seq<Seq<char>> {
    seq![
        "--incognito"@,
        "--remote-debugging-port="@ + decimal(debug_port as nat),
        "--user-data-dir="@ + profile_dir,
    ] + (if proxy is Some && proxy->0.enabled {
        seq!["--proxy-server="@ + proxy_address(proxy->0)]
    } else {
        Seq::empty()
    }) + quiet_browser_flags() + seq![url]
}

/// The arguments with which the browser is started: a private window with a
/// debugger on `debug_port` and a profile of its own in `profile_dir`, behind
/// the proxy where one is enabled, with `url` to open.
pub fn build_chrome_args(
    url: &str,
    proxy: Option<&ProxyConfig>,
    debug_port: u16,
    profile_dir: &str,
) -> (r: (Vec<String>, u16))
    ensures
        texts(r.0@) == browser_args(url@, proxy_slot(proxy), debug_port, profile_dir@),
        r.1 == debug_port,
{
    let mut args: Vec<String> = Vec::new();
    assert(texts(args@) =~= Seq::empty());
    push_str(&mut args, "--incognito");
    push_string(
        &mut args,
        join2("--remote-debugging-port=", u64_to_string(debug_port as u64).as_str()),
    );
    push_string(&mut args, join2("--user-data-dir=", profile_dir));
    let ghost head = seq![
        "--incognito"@,
        "--remote-debugging-port="@ + decimal(debug_port as nat),
        "--user-data-dir="@ + profile_dir@,
    ];
    assert(texts(args@) =~= head);
    let ghost via = if proxy_slot(proxy) is Some && proxy_slot(proxy)->0.enabled {
        seq!["--proxy-server="@ + proxy_address(proxy_slot(proxy)->0)]
    } else {
        Seq::empty()
    };
    match proxy {
        Some(p) => {
            if p.enabled {
                push_string(&mut args, join2("--proxy-server=", proxy_url(p).as_str()));
            }
        },
        None => {},
    }
    assert(texts(args@) =~= head + via);
    let ghost before = texts(args@);
    push_str(&mut args, "--no-first-run");
    push_str(&mut args, "--no-default-browser-check");
    push_str(&mut args, "--disable-background-networking");
    push_str(&mut args, "--disable-client-side-phishing-detection");
    push_str(&mut args, "--disable-default-apps");
    push_str(&mut args, "--disable-extensions");
    push_str(&mut args, "--disable-hang-monitor");
    push_str(&mut args, "--disable-popup-blocking");
    push_str(&mut args, "--disable-prompt-on-repost");
    push_str(&mut args, "--disable-sync");
    push_str(&mut args, "--disable-translate");
    push_str(&mut args, "--disable-features=TranslateUI");
    push_str(&mut args, "--disable-ipc-flooding-protection");
    push_str(&mut args, "--disable-renderer-backgrounding");
    push_str(&mut args, "--disable-backgrounding-occluded-windows");
    push_str(&mut args, "--metrics-recording-only");
    push_str(&mut args, "--safebrowsing-disable-auto-update");
    push_str(&mut args, "--password-store=basic");
    push_str(&mut args, "--use-mock-keychain");
    push_str(&mut args, "--enable-features=NetworkService,NetworkServiceInProcess");
    assert(texts(args@) =~= before + quiet_browser_flags());
    push_str(&mut args, url);
    assert(texts(args@) =~= head + via + quiet_browser_flags() + seq![url@]);
    (args, debug_port)
}

/// The program that tries a mail box: it logs in and out again, prints `OK`,
/// and ends with an error where that fails.
pub open spec fn mail_probe_text(
    use_ssl: bool,
    server: Seq<char>,
    port: u16,
    email: Seq<char>,
    password: Seq<char>,
) -> Seq<char> {
    "\nimport imaplib\nimport sys\ntry:\n    if "@ + (if use_ssl {
        "True"@
    } else {
        "False"@
    }) + ":\n        mail = imaplib.IMAP4_SSL(\""@ + server + "\", "@ + decimal(port as nat)
        + ")\n    else:\n        mail = imaplib.IMAP4(\""@ + server + "\", "@ + decimal(
        port as nat,
    ) + ")\n    mail.login(\""@ + email + "\", \""@ + password
        + "\")\n    mail.logout()\n    print(\"OK\")\nexcept Exception as e:\n    print(f\"ERROR: {e}\")\n    sys.exit(1)\n"@
}

/// Writes the program that tries a mail box with the given settings.
pub fn email_test_script(use_ssl: bool, server: &str, port: u16, email: &str, password: &str) -> (r:
    String)
    ensures
        r@ == mail_probe_text(use_ssl, server@, port, email@, password@),
{
    let flag = if use_ssl {
        "True"
    } else {
        "False"
    };
    let number = u64_to_string(port as u64);
    String::from_str("\nimport imaplib\nimport sys\ntry:\n    if ").concat(flag).concat(
        ":\n        mail = imaplib.IMAP4_SSL(\"",
    ).concat(server).concat("\", ").concat(number.as_str()).concat(
        ")\n    else:\n        mail = imaplib.IMAP4(\"",
    ).concat(server).concat("\", ").concat(number.as_str()).concat(")\n    mail.login(\"").concat(
        email,
    ).concat("\", \"").concat(password).concat(
        "\")\n    mail.logout()\n    print(\"OK\")\nexcept Exception as e:\n    print(f\"ERROR: {e}\")\n    sys.exit(1)\n",
    )
}

/// The port of the Roxy service where none is configured.
pub const DEFAULT_ROXY_PORT: u16 = 50000;

/// The address at which the Roxy service tells whether it is up.
pub fn roxy_health_url(port: Option<u16>) -> (r: String)
    ensures
        r@ == "http://127.0.0.1:"@ + decimal(
            (match port {
                Some(p) => p,
                None => 50000u16,
            }) as nat,
        ) + "/health"@,
{
    let port = match port {
        Some(p) => p,
        None => DEFAULT_ROXY_PORT,
    };
    crate::text::join3("http://127.0.0.1:", u64_to_string(port as u64).as_str(), "/health")
}

} // verus!
