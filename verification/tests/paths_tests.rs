use amplify_shell::paths::candidate_profile_path;
use amplify_shell::paths::default_profile_path;
use amplify_shell::paths::fallback_profile_path;
use amplify_shell::paths::HostOs;

#[test]
fn windows_candidate_joins_home_and_suffix() {
    let home = Some("C:\\Users\\me".to_string());
    let p = candidate_profile_path(HostOs::Windows, &home);
    assert_eq!(
        p.as_deref(),
        Some("C:\\Users\\me\\AppData\\Local\\Google\\Chrome\\User Data")
    );
}

#[test]
fn macos_candidate_joins_home_and_suffix() {
    let home = Some("/Users/me".to_string());
    let p = candidate_profile_path(HostOs::MacOs, &home);
    assert_eq!(
        p.as_deref(),
        Some("/Users/me/Library/Application Support/Google/Chrome")
    );
}

#[test]
fn linux_candidate_joins_home_and_suffix() {
    let home = Some("/home/me".to_string());
    let p = candidate_profile_path(HostOs::Linux, &home);
    assert_eq!(p.as_deref(), Some("/home/me/.config/google-chrome"));
}

#[test]
fn candidate_needs_a_home_directory() {
    assert_eq!(candidate_profile_path(HostOs::Linux, &None), None);
    assert_eq!(candidate_profile_path(HostOs::Windows, &None), None);
}

#[test]
fn unknown_os_has_no_candidate_and_no_fallback() {
    let home = Some("/home/me".to_string());
    assert_eq!(candidate_profile_path(HostOs::Other, &home), None);
    assert_eq!(fallback_profile_path(HostOs::Other), None);
    assert_eq!(default_profile_path(HostOs::Other, &home, true), None);
}

#[test]
fn existing_candidate_wins_over_fallback() {
    let home = Some("/home/me".to_string());
    let p = default_profile_path(HostOs::Linux, &home, true);
    assert_eq!(p.as_deref(), Some("/home/me/.config/google-chrome"));
}

#[test]
fn missing_candidate_falls_back_to_fixed_location() {
    let home = Some("/home/me".to_string());
    let p = default_profile_path(HostOs::Linux, &home, false);
    assert_eq!(p.as_deref(), Some("~/.config/google-chrome"));

    let p = default_profile_path(HostOs::MacOs, &home, false);
    assert_eq!(p.as_deref(), Some("~/Library/Application Support/Google/Chrome"));

    let p = default_profile_path(HostOs::Windows, &Some("C:\\Users\\me".to_string()), false);
    assert_eq!(
        p.as_deref(),
        Some("C:\\Users\\YourUsername\\AppData\\Local\\Google\\Chrome\\User Data")
    );
}

#[test]
fn missing_home_falls_back_to_fixed_location() {
    let p = default_profile_path(HostOs::Linux, &None, false);
    assert_eq!(p.as_deref(), Some("~/.config/google-chrome"));
}

#[test]
fn same_inputs_give_same_path_every_time() {
    let home = Some("/home/me".to_string());
    let first = default_profile_path(HostOs::Linux, &home, true);
    let second = default_profile_path(HostOs::Linux, &home, true);
    assert_eq!(first, second);
    let first = default_profile_path(HostOs::MacOs, &home, false);
    let second = default_profile_path(HostOs::MacOs, &home, false);
    assert_eq!(first, second);
}
