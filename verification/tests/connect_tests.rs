use amplify_shell::connect::connect_flow_start;
use amplify_shell::connect::connect_step;
use amplify_shell::connect::expected_action;
use amplify_shell::connect::outcome_status;
use amplify_shell::connect::ConnectAction;
use amplify_shell::connect::ConnectEvent;
use amplify_shell::connect::ConnectFlow;
use amplify_shell::connect::ConnectOutcome;
use amplify_shell::connect::RETRY_DELAY_SECONDS;

#[test]
fn initial_connect_success_spawns_nothing() {
    let s = connect_flow_start();
    assert_eq!(expected_action(s), ConnectAction::TryConnect);
    let s = connect_step(s, ConnectEvent::ConnectOk);
    assert_eq!(s, ConnectFlow::Finished(ConnectOutcome::AlreadyConnected));
    assert_eq!(expected_action(s), ConnectAction::Report);
}

#[test]
fn failed_connect_spawns_once_then_retries_once() {
    let s = connect_flow_start();
    let s = connect_step(s, ConnectEvent::ConnectFailed);
    assert_eq!(s, ConnectFlow::AwaitingSpawn);
    assert_eq!(expected_action(s), ConnectAction::SpawnBrowser);
    let s = connect_step(s, ConnectEvent::SpawnOk);
    assert_eq!(s, ConnectFlow::AwaitingRetry);
    assert_eq!(expected_action(s), ConnectAction::WaitThenRetryConnect);
    let s = connect_step(s, ConnectEvent::ConnectOk);
    assert_eq!(s, ConnectFlow::Finished(ConnectOutcome::LaunchedAndConnected));
}

#[test]
fn failed_retry_reports_launched_not_connected() {
    let s = connect_flow_start();
    let s = connect_step(s, ConnectEvent::ConnectFailed);
    let s = connect_step(s, ConnectEvent::SpawnOk);
    let s = connect_step(s, ConnectEvent::ConnectFailed);
    assert_eq!(s, ConnectFlow::Finished(ConnectOutcome::LaunchedNotConnected));
}

#[test]
fn retry_waits_the_fixed_delay() {
    assert_eq!(RETRY_DELAY_SECONDS, 3);
}

#[test]
fn failed_spawn_ends_the_flow_without_retry() {
    let s = connect_flow_start();
    let s = connect_step(s, ConnectEvent::ConnectFailed);
    let s = connect_step(s, ConnectEvent::SpawnFailed);
    assert_eq!(s, ConnectFlow::Finished(ConnectOutcome::LaunchFailed));
    assert_eq!(expected_action(s), ConnectAction::Report);
}

#[test]
fn outcome_reports_are_exact_and_distinct() {
    let texts = [
        outcome_status(ConnectOutcome::AlreadyConnected),
        outcome_status(ConnectOutcome::LaunchedAndConnected),
        outcome_status(ConnectOutcome::LaunchedNotConnected),
        outcome_status(ConnectOutcome::LaunchFailed),
    ];
    assert_eq!(texts[0], "Already connected to Chrome CDP");
    assert_eq!(texts[1], "Launched Chrome and connected on retry");
    assert_eq!(texts[2], "Launched Chrome but connection failed");
    assert_eq!(texts[3], "Failed to start Chrome process");
    for i in 0..texts.len() {
        for j in 0..texts.len() {
            if i != j {
                assert_ne!(texts[i], texts[j]);
            }
        }
    }
}
