//! Which proxy the HTTP client uses: the one of the application's own
//! settings, else the one of the editor's settings, else the one of the
//! environment.

use vstd::prelude::*;

use crate::outside::{json_string, json_string_member};
use crate::text::{clone_opt, opt_text};

verus! {

/// The view of a text that may be missing.
pub open spec fn text_slot(t: Option<&str>) -> Option<Seq<char>> {
    match t {
        Some(t) => Some(t@),
        None => None,
    }
}

/// The proxy that a settings file names under `key`: the string that the
/// member holds, unless it is empty.
pub open spec fn setting_of(content: Option<Seq<char>>, key: Seq<char>) -> Option<Seq<char>> {
    match content {
        Some(text) => match json_string_member(text, key) {
            Some(v) => if v.len() > 0 {
                Some(v)
            } else {
                None
            },
            None => None,
        },
        None => None,
    }
}

/// Reads the proxy that a settings file names under `key`. A file that is
/// missing, is no JSON, has no such member, or names an empty proxy names
/// none.
pub fn proxy_setting(content: Option<&str>, key: &str) -> (r: Option<String>)
    ensures
        opt_text(r) == setting_of(text_slot(content), key@),
{
    match content {
        Some(text) => match json_string(text, key) {
            Some(v) => {
                if v.as_str().is_empty() {
                    None
                } else {
                    Some(v)
                }
            },
            None => None,
        },
        None => None,
    }
}

/// The proxy of the application's own settings.
pub fn get_app_proxy(settings: Option<&str>) -> (r: Option<String>)
    ensures
        opt_text(r) == setting_of(text_slot(settings), "proxy"@),
{
    proxy_setting(settings, "proxy")
}

/// The first of the four that is there.
pub open spec fn first_of(
    a: Option<Seq<char>>,
    b: Option<Seq<char>>,
    c: Option<Seq<char>>,
    d: Option<Seq<char>>,
) -> Option<Seq<char>> {
    if a is Some {
        a
    } else if b is Some {
        b
    } else if c is Some {
        c
    } else {
        d
    }
}

/// The proxy that the settings and the environment call for.
pub open spec fn configured_proxy(
    app_settings: Option<Seq<char>>,
    ide_settings: Option<Seq<char>>,
    http_proxy_upper: Option<Seq<char>>,
    http_proxy_lower: Option<Seq<char>>,
    https_proxy_upper: Option<Seq<char>>,
    https_proxy_lower: Option<Seq<char>>,
) -> Option<Seq<char>> {
    if setting_of(app_settings, "proxy"@) is Some {
        setting_of(app_settings, "proxy"@)
    } else if setting_of(ide_settings, "http.proxy"@) is Some {
        setting_of(ide_settings, "http.proxy"@)
    } else {
        first_of(http_proxy_upper, http_proxy_lower, https_proxy_upper, https_proxy_lower)
    }
}

/// Chooses the proxy. The application's own settings come first, then the
/// settings of the editor, then the environment: `HTTP_PROXY`, `http_proxy`,
/// `HTTPS_PROXY` and `https_proxy`, in this order. A variable that is set
/// counts, even where it is empty.
pub fn get_configured_proxy(
    app_settings: Option<&str>,
    ide_settings: Option<&str>,
    http_proxy_upper: &Option<String>,
    http_proxy_lower: &Option<String>,
    https_proxy_upper: &Option<String>,
    https_proxy_lower: &Option<String>,
) -> (r: Option<String>)
    ensures
        opt_text(r) == configured_proxy(
            text_slot(app_settings),
            text_slot(ide_settings),
            opt_text(*http_proxy_upper),
            opt_text(*http_proxy_lower),
            opt_text(*https_proxy_upper),
            opt_text(*https_proxy_lower),
        ),
{
    let own = get_app_proxy(app_settings);
    if own.is_some() {
        return own;
    }
    let ide = proxy_setting(ide_settings, "http.proxy");
    if ide.is_some() {
        return ide;
    }
    if http_proxy_upper.is_some() {
        clone_opt(http_proxy_upper)
    } else if http_proxy_lower.is_some() {
        clone_opt(http_proxy_lower)
    } else if https_proxy_upper.is_some() {
        clone_opt(https_proxy_upper)
    } else {
        clone_opt(https_proxy_lower)
    }
}

/// The seconds after which a request of the default client is given up.
pub const DEFAULT_TIMEOUT_SECS: u64 = 30;

} // verus!
