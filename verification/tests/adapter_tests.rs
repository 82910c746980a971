use amplify_shell::adapter::launch_args;
use amplify_shell::adapter::launch_report;
use amplify_shell::adapter::TaskResult;

#[test]
fn launch_args_are_the_fixed_debugging_flags() {
    let args = launch_args();
    let expected: Vec<String> = vec![
        "--remote-debugging-port=9222".to_string(),
        "--remote-debugging-address=127.0.0.1".to_string(),
        "--disable-ipv6".to_string(),
        "--user-data-dir=./chrome-profile".to_string(),
    ];
    assert_eq!(args, expected);
}

#[test]
fn successful_launch_pairs_success_status_with_handle() {
    let r: TaskResult<u32> = launch_report(Ok(7));
    assert_eq!(r.status, "Launched Chrome and connected to CDP");
    assert_eq!(r.browser, Some(7));
}

#[test]
fn failed_launch_pairs_failure_status_with_no_handle() {
    let r: TaskResult<u32> = launch_report(Err("spawn refused".to_string()));
    assert_eq!(r.status, "Failed to launch Chrome: spawn refused");
    assert!(r.browser.is_none());
    assert!(r.status.starts_with("Failed to launch Chrome: "));
    assert!(r.status.contains("spawn refused"));
}

#[test]
fn success_and_failure_statuses_differ() {
    let ok: TaskResult<u32> = launch_report(Ok(1));
    let failed: TaskResult<u32> = launch_report(Err(String::new()));
    assert_ne!(ok.status, failed.status);
}
