use amplify_shell::adapter::TaskResult;
use amplify_shell::state::DesktopGuiApp;
use amplify_shell::state::Page;

#[test]
fn new_without_store_gives_defaults() {
    let app: DesktopGuiApp<u32> = DesktopGuiApp::new(None);
    assert_eq!(app.search_text, "");
    assert_eq!(app.status, "");
    assert_eq!(app.current_page, Page::Main);
    assert_eq!(app.chrome_profile_path, "");
    assert!(app.sender.is_some());
    assert!(app.receiver.is_some());
    assert!(app.browser.is_none());
}

#[test]
fn persisted_round_trip() {
    let mut app: DesktopGuiApp<u32> = DesktopGuiApp::new(None);
    app.search_text = "rust verification".to_string();
    app.status = "Launched Chrome and connected to CDP".to_string();
    app.current_page = Page::Settings;
    app.chrome_profile_path = "/home/me/.config/google-chrome".to_string();
    app.browser = Some(7);

    let p = app.to_persisted();
    let restored: DesktopGuiApp<u32> = DesktopGuiApp::new(Some(p));

    assert_eq!(restored.search_text, "rust verification");
    assert_eq!(restored.status, "Launched Chrome and connected to CDP");
    assert_eq!(restored.current_page, Page::Settings);
    assert_eq!(restored.chrome_profile_path, "/home/me/.config/google-chrome");
    assert!(restored.browser.is_none());
    assert!(restored.sender.is_some());
    assert!(restored.receiver.is_some());
}

#[test]
fn apply_overwrites_status_wholesale() {
    let mut app: DesktopGuiApp<u32> = DesktopGuiApp::new(None);
    app.apply_result_message(TaskResult { status: "first".to_string(), browser: None });
    assert_eq!(app.status, "first");
    app.apply_result_message(TaskResult { status: "second".to_string(), browser: None });
    assert_eq!(app.status, "second");
}

#[test]
fn apply_replaces_handle_only_when_present() {
    let mut app: DesktopGuiApp<u32> = DesktopGuiApp::new(None);
    app.apply_result_message(TaskResult { status: "no handle".to_string(), browser: None });
    assert!(app.browser.is_none());
    app.apply_result_message(TaskResult { status: "got one".to_string(), browser: Some(7) });
    assert_eq!(app.browser, Some(7));
    app.apply_result_message(TaskResult { status: "kept".to_string(), browser: None });
    assert_eq!(app.browser, Some(7));
    app.apply_result_message(TaskResult { status: "replaced".to_string(), browser: Some(9) });
    assert_eq!(app.browser, Some(9));
}

#[test]
fn drain_on_empty_channel_is_a_no_op() {
    let mut app: DesktopGuiApp<u32> = DesktopGuiApp::new(None);
    app.status = "before".to_string();
    app.drain_results(16);
    assert_eq!(app.status, "before");
    assert!(app.browser.is_none());
    assert!(app.receiver.is_some());
}

#[test]
fn drain_without_receiver_is_a_no_op() {
    let mut app: DesktopGuiApp<u32> = DesktopGuiApp::new(None);
    app.receiver = None;
    app.status = "before".to_string();
    app.drain_results(16);
    assert_eq!(app.status, "before");
    assert!(app.receiver.is_none());
}

#[test]
fn drain_folds_queued_reports_in_send_order() {
    let mut app: DesktopGuiApp<u32> = DesktopGuiApp::new(None);
    let tx = app.sender.as_ref().unwrap().clone();
    tx.send(TaskResult { status: "first".to_string(), browser: Some(1) }).unwrap();
    tx.send(TaskResult { status: "second".to_string(), browser: None }).unwrap();
    app.drain_results(16);
    assert_eq!(app.status, "second");
    assert_eq!(app.browser, Some(1));
}

#[test]
fn every_report_is_observed_once_in_send_order() {
    let mut app: DesktopGuiApp<u32> = DesktopGuiApp::new(None);
    let tx = app.sender.as_ref().unwrap().clone();
    let tx2 = tx.clone();
    tx.send(TaskResult { status: "one".to_string(), browser: None }).unwrap();
    tx2.send(TaskResult { status: "two".to_string(), browser: None }).unwrap();
    tx.send(TaskResult { status: "three".to_string(), browser: None }).unwrap();
    let mut observed: Vec<String> = Vec::new();
    for _ in 0..3 {
        app.drain_results(1);
        observed.push(app.status.clone());
    }
    assert_eq!(observed, vec!["one", "two", "three"]);
    app.drain_results(1);
    assert_eq!(app.status, "three");
}

#[test]
fn sender_outlives_tasks_without_recreation() {
    let mut app: DesktopGuiApp<u32> = DesktopGuiApp::new(None);
    for i in 0..5 {
        let tx = app.sender.as_ref().unwrap().clone();
        tx.send(TaskResult { status: format!("task {i}"), browser: None }).unwrap();
        drop(tx);
    }
    app.drain_results(16);
    assert_eq!(app.status, "task 4");
}

#[test]
fn open_settings_changes_only_the_page() {
    let mut app: DesktopGuiApp<u32> = DesktopGuiApp::new(None);
    app.search_text = "kept".to_string();
    app.open_settings();
    assert_eq!(app.current_page, Page::Settings);
    assert_eq!(app.search_text, "kept");
}

#[test]
fn set_profile_path_overwrites() {
    let mut app: DesktopGuiApp<u32> = DesktopGuiApp::new(None);
    app.set_profile_path("/old".to_string());
    app.set_profile_path("/new".to_string());
    assert_eq!(app.chrome_profile_path, "/new");
}
