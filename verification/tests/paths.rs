use loq_rgb::instance::{parse_lock_owner, LockOwner};
use loq_rgb::paths::{
    autostart_dir, autostart_entry_path, config_dir, config_path, default_lock_dir, join_path,
    log_path,
};

fn some(s: &str) -> Option<String> {
    Some(s.to_string())
}

#[test]
fn log_path_lives_in_the_lock_directory() {
    let log = log_path("/run/user/1000/loq-rgb");
    assert_eq!(log.rsplit('/').next().unwrap(), "animator.log");
    assert_eq!(log, "/run/user/1000/loq-rgb/animator.log");
}

#[test]
fn join_adds_one_separator() {
    assert_eq!(join_path("/tmp", "x"), "/tmp/x");
    assert_eq!(join_path("/tmp/", "x"), "/tmp/x");
    assert_eq!(join_path("", "x"), "x");
}

#[test]
fn config_dir_prefers_xdg_then_home() {
    assert_eq!(config_dir(some("/x"), some("/home/u")), "/x/loq-rgb");
    assert_eq!(config_dir(some(""), some("/home/u")), "/home/u/.config/loq-rgb");
    assert_eq!(config_dir(None, None), "loq-rgb");
    assert_eq!(config_path("/x/loq-rgb"), "/x/loq-rgb/config.json");
}

#[test]
fn lock_dir_falls_back_in_order() {
    assert_eq!(
        default_lock_dir(some("/run/user/1000"), some("/c"), some("/h"), "/tmp"),
        "/run/user/1000/loq-rgb"
    );
    assert_eq!(default_lock_dir(None, some("/c"), some("/h"), "/tmp"), "/c/loq-rgb");
    assert_eq!(default_lock_dir(None, some(""), some("/h"), "/tmp"), "/h/.cache/loq-rgb");
    assert_eq!(default_lock_dir(None, None, None, "/tmp"), "/tmp/loq-rgb");
}

#[test]
fn autostart_entry_sits_in_the_autostart_dir() {
    assert_eq!(autostart_dir(some("/x"), None), "/x/autostart");
    assert_eq!(autostart_dir(None, some("/home/u")), "/home/u/.config/autostart");
    assert_eq!(autostart_dir(None, None), "autostart");
    assert_eq!(autostart_entry_path("/x/autostart"), "/x/autostart/loq-rgb.desktop");
}

#[test]
fn lock_file_records_a_pid() {
    assert_eq!(parse_lock_owner("4242\n"), Some(LockOwner { pid: 4242 }));
    assert_eq!(parse_lock_owner("  7 "), Some(LockOwner { pid: 7 }));
    assert_eq!(parse_lock_owner(""), None);
    assert_eq!(parse_lock_owner("abc"), None);
    assert_eq!(parse_lock_owner("99999999999"), None);
}
