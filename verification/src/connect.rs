//! Connect-first policy for reaching a browser over the DevTools protocol.
//!
//! This is the alternative to the launch-first policy in `adapter`: first try
//! to connect to a browser already listening on the fixed local debugging
//! port; if that fails, spawn the platform browser executable once, wait a
//! fixed delay, and retry the connection exactly once. Connecting, spawning
//! and waiting are outside work, so the policy is written as a step function
//! from the current phase and the event the runtime reports back to the next
//! phase; the driver performs the action each phase asks for and feeds the
//! outcome back in. Every branch ends in a distinct report.

use vstd::prelude::*;
use vstd::string::StringExecFns;

verus! {

/// Seconds the driver waits between spawning the browser executable and the
/// one retried connection attempt.
pub const RETRY_DELAY_SECONDS: u64 = 3;

/// What the runtime reports back after performing the requested action.
#[derive(Clone, Copy, PartialEq, Eq, Structural, Debug)]
pub enum ConnectEvent {
    /// A connection attempt reached the browser.
    ConnectOk,
    /// A connection attempt failed.
    ConnectFailed,
    /// The browser executable was spawned.
    SpawnOk,
    /// The browser executable could not be spawned.
    SpawnFailed,
}

/// The action the driver must perform next.
#[derive(Clone, Copy, PartialEq, Eq, Structural, Debug)]
pub enum ConnectAction {
    /// Try to connect to the fixed local debugging port.
    TryConnect,
    /// Spawn the platform browser executable with the debugging flags.
    SpawnBrowser,
    /// Wait the fixed delay, then try the connection once more.
    WaitThenRetryConnect,
    /// The flow is over; report the outcome to the user.
    Report,
}

/// How a completed flow ended; each variant is reported distinctly.
#[derive(Clone, Copy, PartialEq, Eq, Structural, Debug)]
pub enum ConnectOutcome {
    /// The first connection attempt succeeded; nothing was spawned.
    AlreadyConnected,
    /// The browser was spawned and the retried connection succeeded.
    LaunchedAndConnected,
    /// The browser was spawned but the retried connection failed.
    LaunchedNotConnected,
    /// The browser executable could not be started.
    LaunchFailed,
}

/// The phase the flow is in between two events.
#[derive(Clone, Copy, PartialEq, Eq, Structural, Debug)]
pub enum ConnectFlow {
    /// Waiting for the outcome of the initial connection attempt.
    AwaitingConnect,
    /// The initial connection failed; waiting for the spawn outcome.
    AwaitingSpawn,
    /// The browser was spawned; waiting for the retried connection.
    AwaitingRetry,
    /// The flow is over.
    Finished(ConnectOutcome),
}

/// The action a phase asks of the driver.
pub open spec fn spec_expected_action(s: ConnectFlow) -> ConnectAction {
    match s {
        ConnectFlow::AwaitingConnect => ConnectAction::TryConnect,
        ConnectFlow::AwaitingSpawn => ConnectAction::SpawnBrowser,
        ConnectFlow::AwaitingRetry => ConnectAction::WaitThenRetryConnect,
        ConnectFlow::Finished(_) => ConnectAction::Report,
    }
}

/// Whether `e` is a possible answer to the action phase `s` asks for.
pub open spec fn event_answers(s: ConnectFlow, e: ConnectEvent) -> bool {
    match s {
        ConnectFlow::AwaitingConnect => e == ConnectEvent::ConnectOk || e
            == ConnectEvent::ConnectFailed,
        ConnectFlow::AwaitingSpawn => e == ConnectEvent::SpawnOk || e == ConnectEvent::SpawnFailed,
        ConnectFlow::AwaitingRetry => e == ConnectEvent::ConnectOk || e
            == ConnectEvent::ConnectFailed,
        ConnectFlow::Finished(_) => false,
    }
}

/// The transition the policy makes on each answered action.
pub open spec fn spec_connect_step(s: ConnectFlow, e: ConnectEvent) -> ConnectFlow {
    match (s, e) {
        (ConnectFlow::AwaitingConnect, ConnectEvent::ConnectOk) => ConnectFlow::Finished(
            ConnectOutcome::AlreadyConnected,
        ),
        (ConnectFlow::AwaitingConnect, _) => ConnectFlow::AwaitingSpawn,
        (ConnectFlow::AwaitingSpawn, ConnectEvent::SpawnOk) => ConnectFlow::AwaitingRetry,
        (ConnectFlow::AwaitingSpawn, _) => ConnectFlow::Finished(ConnectOutcome::LaunchFailed),
        (ConnectFlow::AwaitingRetry, ConnectEvent::ConnectOk) => ConnectFlow::Finished(
            ConnectOutcome::LaunchedAndConnected,
        ),
        (ConnectFlow::AwaitingRetry, _) => ConnectFlow::Finished(
            ConnectOutcome::LaunchedNotConnected,
        ),
        (ConnectFlow::Finished(o), _) => ConnectFlow::Finished(o),
    }
}

/// The phase at which a fresh flow starts.
pub fn connect_flow_start() -> (r: ConnectFlow)
    ensures
        r == ConnectFlow::AwaitingConnect,
{
    ConnectFlow::AwaitingConnect
}

/// The action the driver must perform in phase `s`.
pub fn expected_action(s: ConnectFlow) -> (r: ConnectAction)
    ensures
        r == spec_expected_action(s),
{
    match s {
        ConnectFlow::AwaitingConnect => ConnectAction::TryConnect,
        ConnectFlow::AwaitingSpawn => ConnectAction::SpawnBrowser,
        ConnectFlow::AwaitingRetry => ConnectAction::WaitThenRetryConnect,
        ConnectFlow::Finished(_) => ConnectAction::Report,
    }
}

/// Advances the flow by one answered action.
pub fn connect_step(s: ConnectFlow, e: ConnectEvent) -> (r: ConnectFlow)
    requires
        event_answers(s, e),
    ensures
        r == spec_connect_step(s, e),
{
    match s {
        ConnectFlow::AwaitingConnect => {
            if let ConnectEvent::ConnectOk = e {
                ConnectFlow::Finished(ConnectOutcome::AlreadyConnected)
            } else {
                ConnectFlow::AwaitingSpawn
            }
        },
        ConnectFlow::AwaitingSpawn => {
            if let ConnectEvent::SpawnOk = e {
                ConnectFlow::AwaitingRetry
            } else {
                ConnectFlow::Finished(ConnectOutcome::LaunchFailed)
            }
        },
        ConnectFlow::AwaitingRetry => {
            if let ConnectEvent::ConnectOk = e {
                ConnectFlow::Finished(ConnectOutcome::LaunchedAndConnected)
            } else {
                ConnectFlow::Finished(ConnectOutcome::LaunchedNotConnected)
            }
        },
        ConnectFlow::Finished(o) => ConnectFlow::Finished(o),
    }
}

/// The phase reached after answering the events of `events` in order,
/// starting from `s`.
pub open spec fn spec_run_from(s: ConnectFlow, events: Seq<ConnectEvent>) -> ConnectFlow
    decreases events.len(),
{
    if events.len() == 0 {
        s
    } else {
        spec_run_from(spec_connect_step(s, events[0]), events.drop_first())
    }
}

/// Whether every event in `events` answers the action its phase asked for.
pub open spec fn valid_run_from(s: ConnectFlow, events: Seq<ConnectEvent>) -> bool
    decreases events.len(),
{
    events.len() == 0 || (event_answers(s, events[0]) && valid_run_from(
        spec_connect_step(s, events[0]),
        events.drop_first(),
    ))
}

/// How many phases of the run ask the driver to spawn the browser.
pub open spec fn spawn_asks(s: ConnectFlow, events: Seq<ConnectEvent>) -> nat
    decreases events.len(),
{
    let here: nat = if spec_expected_action(s) == ConnectAction::SpawnBrowser {
        1
    } else {
        0
    };
    if events.len() == 0 {
        here
    } else {
        here + spawn_asks(spec_connect_step(s, events[0]), events.drop_first())
    }
}

/// How many phases of the run ask the driver to wait and retry the connection.
pub open spec fn retry_asks(s: ConnectFlow, events: Seq<ConnectEvent>) -> nat
    decreases events.len(),
{
    let here: nat = if spec_expected_action(s) == ConnectAction::WaitThenRetryConnect {
        1
    } else {
        0
    };
    if events.len() == 0 {
        here
    } else {
        here + retry_asks(spec_connect_step(s, events[0]), events.drop_first())
    }
}

/// Law: over every complete run of the connect policy, if the initial
/// connection succeeds no spawn and no retry is asked for and the outcome is
/// `AlreadyConnected`; if it fails, exactly one spawn is asked for, a retry
/// is asked for exactly when the spawn succeeded, and the outcome is one of
/// the three remaining reports, fixed by the spawn and retry events.
pub proof fn lemma_connect_flow_outcomes(events: Seq<ConnectEvent>)
    requires
        valid_run_from(ConnectFlow::AwaitingConnect, events),
        spec_run_from(ConnectFlow::AwaitingConnect, events) is Finished,
    ensures
        events.len() >= 1,
        events[0] == ConnectEvent::ConnectOk ==> {
            &&& events.len() == 1
            &&& spec_run_from(ConnectFlow::AwaitingConnect, events) == ConnectFlow::Finished(
                ConnectOutcome::AlreadyConnected,
            )
            &&& spawn_asks(ConnectFlow::AwaitingConnect, events) == 0
            &&& retry_asks(ConnectFlow::AwaitingConnect, events) == 0
        },
        events[0] == ConnectEvent::ConnectFailed ==> {
            &&& events.len() >= 2
            &&& spawn_asks(ConnectFlow::AwaitingConnect, events) == 1
            &&& (events[1] == ConnectEvent::SpawnFailed ==> events.len() == 2 && spec_run_from(
                ConnectFlow::AwaitingConnect,
                events,
            ) == ConnectFlow::Finished(ConnectOutcome::LaunchFailed) && retry_asks(
                ConnectFlow::AwaitingConnect,
                events,
            ) == 0)
            &&& (events[1] == ConnectEvent::SpawnOk ==> events.len() == 3 && retry_asks(
                ConnectFlow::AwaitingConnect,
                events,
            ) == 1 && spec_run_from(ConnectFlow::AwaitingConnect, events) == ConnectFlow::Finished(
                if events[2] == ConnectEvent::ConnectOk {
                    ConnectOutcome::LaunchedAndConnected
                } else {
                    ConnectOutcome::LaunchedNotConnected
                },
            ))
        },
{
    let start = ConnectFlow::AwaitingConnect;
    lemma_no_events_after_finish(start, events);
    let e0 = events[0];
    let s1 = spec_connect_step(start, e0);
    let rest1 = events.drop_first();
    assert(valid_run_from(s1, rest1));
    assert(spec_run_from(s1, rest1) == spec_run_from(start, events));
    lemma_no_events_after_finish(s1, rest1);
    if e0 == ConnectEvent::ConnectOk {
        assert(s1 == ConnectFlow::Finished(ConnectOutcome::AlreadyConnected));
        assert(rest1.len() == 0);
        assert(spec_run_from(s1, rest1) == s1);
        assert(spawn_asks(start, events) == spawn_asks(s1, rest1));
        assert(spawn_asks(s1, rest1) == 0);
        assert(retry_asks(start, events) == retry_asks(s1, rest1));
        assert(retry_asks(s1, rest1) == 0);
    } else {
        assert(s1 == ConnectFlow::AwaitingSpawn);
        assert(rest1.len() >= 1);
        assert(rest1[0] == events[1]);
        let e1 = events[1];
        let s2 = spec_connect_step(s1, e1);
        let rest2 = rest1.drop_first();
        assert(valid_run_from(s2, rest2));
        assert(spec_run_from(s2, rest2) == spec_run_from(s1, rest1));
        lemma_no_events_after_finish(s2, rest2);
        assert(spawn_asks(start, events) == spawn_asks(s1, rest1));
        assert(spawn_asks(s1, rest1) == 1 + spawn_asks(s2, rest2));
        assert(retry_asks(start, events) == retry_asks(s1, rest1));
        assert(retry_asks(s1, rest1) == retry_asks(s2, rest2));
        if e1 == ConnectEvent::SpawnFailed {
            assert(s2 == ConnectFlow::Finished(ConnectOutcome::LaunchFailed));
            assert(rest2.len() == 0);
            assert(events.len() == 2);
            assert(spec_run_from(s2, rest2) == s2);
            assert(spawn_asks(s2, rest2) == 0);
            assert(retry_asks(s2, rest2) == 0);
        } else {
            assert(s2 == ConnectFlow::AwaitingRetry);
            assert(rest2.len() >= 1);
            assert(rest2[0] == rest1[1]);
            assert(rest1[1] == events[2]);
            let e2 = events[2];
            let s3 = spec_connect_step(s2, e2);
            let rest3 = rest2.drop_first();
            assert(valid_run_from(s3, rest3));
            assert(spec_run_from(s3, rest3) == spec_run_from(s2, rest2));
            lemma_no_events_after_finish(s3, rest3);
            assert(s3 is Finished);
            assert(rest3.len() == 0);
            assert(events.len() == 3);
            assert(spec_run_from(s3, rest3) == s3);
            assert(spawn_asks(s2, rest2) == 0 + spawn_asks(s3, rest3));
            assert(spawn_asks(s3, rest3) == 0);
            assert(retry_asks(s2, rest2) == 1 + retry_asks(s3, rest3));
            assert(retry_asks(s3, rest3) == 0);
        }
    }
}

/// Helper: from any phase, a valid run that ends finished and starts in a
/// finished phase carries no events, and otherwise answers the first action.
proof fn lemma_no_events_after_finish(s: ConnectFlow, events: Seq<ConnectEvent>)
    requires
        valid_run_from(s, events),
        spec_run_from(s, events) is Finished,
    ensures
        s is Finished ==> events.len() == 0,
        !(s is Finished) ==> events.len() >= 1 && event_answers(s, events[0]),
    decreases events.len(),
{
    if events.len() > 0 {
        lemma_no_events_after_finish(spec_connect_step(s, events[0]), events.drop_first());
    }
}

/// The fixed report text for each outcome.
pub open spec fn spec_outcome_status(o: ConnectOutcome) -> Seq<char> {
    match o {
        ConnectOutcome::AlreadyConnected => "Already connected to Chrome CDP"@,
        ConnectOutcome::LaunchedAndConnected => "Launched Chrome and connected on retry"@,
        ConnectOutcome::LaunchedNotConnected => "Launched Chrome but connection failed"@,
        ConnectOutcome::LaunchFailed => "Failed to start Chrome process"@,
    }
}

/// Renders the report text for an outcome.
pub fn outcome_status(o: ConnectOutcome) -> (r: String)
    ensures
        r@ == spec_outcome_status(o),
{
    match o {
        ConnectOutcome::AlreadyConnected => String::from_str("Already connected to Chrome CDP"),
        ConnectOutcome::LaunchedAndConnected => String::from_str(
            "Launched Chrome and connected on retry",
        ),
        ConnectOutcome::LaunchedNotConnected => String::from_str(
            "Launched Chrome but connection failed",
        ),
        ConnectOutcome::LaunchFailed => String::from_str("Failed to start Chrome process"),
    }
}

/// Law: the four outcome reports are pairwise distinct strings.
pub proof fn lemma_outcome_statuses_distinct(o1: ConnectOutcome, o2: ConnectOutcome)
    requires
        o1 != o2,
    ensures
        spec_outcome_status(o1) != spec_outcome_status(o2),
{
    reveal_strlit("Already connected to Chrome CDP");
    reveal_strlit("Launched Chrome and connected on retry");
    reveal_strlit("Launched Chrome but connection failed");
    reveal_strlit("Failed to start Chrome process");
    assert(spec_outcome_status(ConnectOutcome::AlreadyConnected).len() == 31);
    assert(spec_outcome_status(ConnectOutcome::LaunchedAndConnected).len() == 38);
    assert(spec_outcome_status(ConnectOutcome::LaunchedNotConnected).len() == 37);
    assert(spec_outcome_status(ConnectOutcome::LaunchFailed).len() == 30);
}

} // verus!
