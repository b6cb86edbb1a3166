//! Where files live: the config file, the writer-lock directory, the
//! background animator's log and the autostart entry. The application reads
//! the environment variables and hands their values in here.

use vstd::prelude::*;

use crate::text::{owned, push_str};

verus! {

/// `PathBuf::join` of a relative component: a separator is added unless
/// the base is empty or already ends with one.
pub open spec fn joined(base: Seq<char>, part: Seq<char>) -> Seq<char> {
    if base.len() == 0 {
        part
    } else if base.last() == '/' {
        base + part
    } else {
        base + "/"@ + part
    }
}

/// Join a relative component onto a path.
pub fn join_path(base: &str, part: &str) -> (p: String)
    ensures
        p@ == joined(base@, part@),
{
    let mut p = owned(base);
    let n = base.unicode_len();
    if n > 0 && base.get_char(n - 1) != '/' {
        push_str(&mut p, "/");
    }
    push_str(&mut p, part);
    p
}

/// A set, non-empty environment value.
pub open spec fn usable(v: Option<String>) -> bool {
    v matches Some(s) && s@.len() > 0
}

pub const APP_DIR: &'static str = "loq-rgb";

pub const CONFIG_FILE: &'static str = "config.json";

pub const LOG_FILE: &'static str = "animator.log";

pub const AUTOSTART_FILE: &'static str = "loq-rgb.desktop";

/// `$XDG_CONFIG_HOME/loq-rgb`, else `$HOME/.config/loq-rgb`, else
/// `loq-rgb`.
pub open spec fn config_dir_spec(xdg_config_home: Option<String>, home: Option<String>) -> Seq<char> {
    if usable(xdg_config_home) {
        joined(xdg_config_home.unwrap()@, APP_DIR@)
    } else if usable(home) {
        joined(joined(home.unwrap()@, ".config"@), APP_DIR@)
    } else {
        APP_DIR@
    }
}

/// The app's config directory from `XDG_CONFIG_HOME` and `HOME`.
pub fn config_dir(xdg_config_home: Option<String>, home: Option<String>) -> (d: String)
    ensures
        d@ == config_dir_spec(xdg_config_home, home),
{
    match &xdg_config_home {
        Some(x) => {
            if x.as_str().unicode_len() > 0 {
                return join_path(x.as_str(), APP_DIR);
            }
        },
        None => {},
    }
    match &home {
        Some(h) => {
            if h.as_str().unicode_len() > 0 {
                let c = join_path(h.as_str(), ".config");
                return join_path(c.as_str(), APP_DIR);
            }
        },
        None => {},
    }
    owned(APP_DIR)
}

/// The config file inside the config directory.
pub fn config_path(config_dir: &str) -> (p: String)
    ensures
        p@ == joined(config_dir@, CONFIG_FILE@),
{
    join_path(config_dir, CONFIG_FILE)
}

/// The writer-lock directory: `$XDG_RUNTIME_DIR/loq-rgb`, else
/// `$XDG_CACHE_HOME/loq-rgb`, else `$HOME/.cache/loq-rgb`, else
/// `<temp dir>/loq-rgb`.
pub open spec fn lock_dir_spec(
    runtime: Option<String>,
    cache: Option<String>,
    home: Option<String>,
    temp: Seq<char>,
) -> Seq<char> {
    if usable(runtime) {
        joined(runtime.unwrap()@, APP_DIR@)
    } else if usable(cache) {
        joined(cache.unwrap()@, APP_DIR@)
    } else if usable(home) {
        joined(joined(home.unwrap()@, ".cache"@), APP_DIR@)
    } else {
        joined(temp, APP_DIR@)
    }
}

/// The writer-lock directory from the environment and the temp directory.
pub fn default_lock_dir(
    runtime: Option<String>,
    cache: Option<String>,
    home: Option<String>,
    temp: &str,
) -> (d: String)
    ensures
        d@ == lock_dir_spec(runtime, cache, home, temp@),
{
    match &runtime {
        Some(r) => {
            if r.as_str().unicode_len() > 0 {
                return join_path(r.as_str(), APP_DIR);
            }
        },
        None => {},
    }
    match &cache {
        Some(c) => {
            if c.as_str().unicode_len() > 0 {
                return join_path(c.as_str(), APP_DIR);
            }
        },
        None => {},
    }
    match &home {
        Some(h) => {
            if h.as_str().unicode_len() > 0 {
                let c = join_path(h.as_str(), ".cache");
                return join_path(c.as_str(), APP_DIR);
            }
        },
        None => {},
    }
    join_path(temp, APP_DIR)
}

/// Where the background animator's stderr goes: inside the lock directory.
pub fn log_path(lock_dir: &str) -> (p: String)
    ensures
        p@ == joined(lock_dir@, LOG_FILE@),
{
    join_path(lock_dir, LOG_FILE)
}

/// `$XDG_CONFIG_HOME/autostart`, else `$HOME/.config/autostart`, else
/// `autostart`.
pub open spec fn autostart_dir_spec(xdg_config_home: Option<String>, home: Option<String>) -> Seq<char> {
    if usable(xdg_config_home) {
        joined(xdg_config_home.unwrap()@, "autostart"@)
    } else if usable(home) {
        joined(joined(home.unwrap()@, ".config"@), "autostart"@)
    } else {
        "autostart"@
    }
}

/// The autostart directory from `XDG_CONFIG_HOME` and `HOME`.
pub fn autostart_dir(xdg_config_home: Option<String>, home: Option<String>) -> (d: String)
    ensures
        d@ == autostart_dir_spec(xdg_config_home, home),
{
    match &xdg_config_home {
        Some(x) => {
            if x.as_str().unicode_len() > 0 {
                return join_path(x.as_str(), "autostart");
            }
        },
        None => {},
    }
    match &home {
        Some(h) => {
            if h.as_str().unicode_len() > 0 {
                let c = join_path(h.as_str(), ".config");
                return join_path(c.as_str(), "autostart");
            }
        },
        None => {},
    }
    owned("autostart")
}

/// The autostart entry inside the autostart directory.
pub fn autostart_entry_path(autostart_dir: &str) -> (p: String)
    ensures
        p@ == joined(autostart_dir@, AUTOSTART_FILE@),
{
    join_path(autostart_dir, AUTOSTART_FILE)
}

} // verus!
