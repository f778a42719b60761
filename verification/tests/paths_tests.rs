use openmcp::models::HostOs;
use openmcp::opencode::normalize_config_path;
use openmcp::paths::{expand_home, expand_windows_path, join_path, replace_text, strip_repeated_prefix, HostEnv};
use openmcp::storage::state_file_path_in;

#[test]
fn home_shorthand_outside_windows() {
    let home = Some("/home/u".to_owned());
    assert_eq!(expand_home("~", home.clone()), "/home/u");
    assert_eq!(expand_home("~/.config/x.json", home.clone()), "/home/u/.config/x.json");
    assert_eq!(expand_home("~/~/x", home.clone()), "/home/u/x");
    assert_eq!(expand_home("~user/x", home.clone()), "~user/x");
    assert_eq!(expand_home("/etc/x", home.clone()), "/etc/x");
    assert_eq!(expand_home("~/x", None), "~/x");
}

#[test]
fn windows_shorthands() {
    let appdata = Some(r"C:\Users\u\AppData\Roaming".to_owned());
    let profile = Some(r"C:\Users\u".to_owned());
    assert_eq!(
        expand_windows_path(r"%APPDATA%\OpenCode\config.json", &appdata, &profile),
        r"C:\Users\u\AppData\Roaming\OpenCode\config.json"
    );
    assert_eq!(expand_windows_path(r"~\cfg.json", &appdata, &profile), r"C:\Users\u\cfg.json");
    assert_eq!(expand_windows_path("~", &appdata, &profile), r"C:\Users\u");
    assert_eq!(expand_windows_path("%APPDATA%", &None, &None), "%APPDATA%");
}

#[test]
fn normalize_on_windows_uses_the_host_variables() {
    let host = HostEnv { os: HostOs::Windows, appdata: Some("A".to_owned()), user_profile: None };
    assert_eq!(normalize_config_path("%APPDATA%/x", &host), "A/x");
}

#[test]
fn normalize_leaves_plain_paths() {
    let host = HostEnv { os: HostOs::Other, appdata: None, user_profile: None };
    assert_eq!(normalize_config_path("/etc/opencode.json", &host), "/etc/opencode.json");
}

#[test]
fn replacing_and_stripping() {
    assert_eq!(replace_text("aXbXc", "X", "--"), "a--b--c");
    assert_eq!(replace_text("aaa", "aa", "b"), "ba");
    assert_eq!(replace_text("abc", "", "z"), "abc");
    assert_eq!(strip_repeated_prefix("~/~/~/a", "~/"), "a");
    assert_eq!(strip_repeated_prefix("abc", ""), "abc");
}

#[test]
fn joining_paths() {
    assert_eq!(join_path("/home/u/.config", "openmcp", HostOs::Other), "/home/u/.config/openmcp");
    assert_eq!(join_path("/home/u/", "openmcp", HostOs::Other), "/home/u/openmcp");
    assert_eq!(join_path("", "openmcp", HostOs::Other), "openmcp");
    assert_eq!(join_path(r"C:\Users\u\AppData\Roaming", "openmcp", HostOs::Windows), r"C:\Users\u\AppData\Roaming\openmcp");
    assert_eq!(join_path("C:", "openmcp", HostOs::Windows), "C:openmcp");
    assert_eq!(join_path(r"C:\", "openmcp", HostOs::Windows), r"C:\openmcp");
    assert_eq!(join_path("C:", "openmcp", HostOs::Other), "C:/openmcp");
}

#[test]
fn state_file_location() {
    assert_eq!(
        state_file_path_in(&Some("/home/u/.config".to_owned()), HostOs::Other),
        "/home/u/.config/openmcp/profiles.json"
    );
    assert_eq!(state_file_path_in(&None, HostOs::Other), "./openmcp/profiles.json");
    assert_eq!(state_file_path_in(&None, HostOs::Windows), r".\openmcp\profiles.json");
}
