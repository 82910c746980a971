//! Launch-first policy for reaching a browser over the DevTools protocol.
//!
//! This is the active policy of the application: start a new Chrome process
//! with remote debugging enabled on the fixed local port, in a visible
//! window, with a dedicated profile directory. The launch itself is outside
//! work performed by the caller; everything around it is fixed here: the
//! flags the process is started with, and the report built from every
//! possible outcome. The report pairs a status line with the handle exactly
//! as `launch_reported` says, so no outcome is ever raised as an error to
//! the shell: all failure is reported as data.
//!
//! The library never looks inside a browser handle, so everything is
//! generic over the handle type `B`; the caller instantiates it with the
//! automation library's handle type.

use vstd::prelude::*;
use vstd::string::StringExecFns;

verus! {

/// One completed background task's report: the status line to show, and the
/// handle owning the launched browser process when the task produced one.
pub struct TaskResult<B> {
    pub status: String,
    pub browser: Option<B>,
}

/// The fixed flags Chrome is launched with: the remote-debugging port, the
/// loopback debugging address, IPv6 off, and a dedicated profile directory.
pub open spec fn spec_launch_args() -> Seq<Seq<char>> {
    seq![
        "--remote-debugging-port=9222"@,
        "--remote-debugging-address=127.0.0.1"@,
        "--disable-ipv6"@,
        "--user-data-dir=./chrome-profile"@,
    ]
}

/// Builds the fixed launch flags.
pub fn launch_args() -> (r: Vec<String>)
    ensures
        r.deep_view() == spec_launch_args(),
{
    let mut v: Vec<String> = Vec::new();
    v.push(String::from_str("--remote-debugging-port=9222"));
    v.push(String::from_str("--remote-debugging-address=127.0.0.1"));
    v.push(String::from_str("--disable-ipv6"));
    v.push(String::from_str("--user-data-dir=./chrome-profile"));
    proof {
        assert(v.deep_view() =~= spec_launch_args());
    }
    v
}

/// Status line shown when the launch succeeded.
pub open spec fn spec_launch_success_status() -> Seq<char> {
    "Launched Chrome and connected to CDP"@
}

/// Prefix of the status line shown when the launch failed; the rendering of
/// the underlying error follows it.
pub open spec fn spec_launch_failure_prefix() -> Seq<char> {
    "Failed to launch Chrome: "@
}

/// The shape of every launch report: a successful start pairs the success
/// status with a present handle; a failed start pairs a status beginning
/// with the failure prefix with an absent handle.
pub open spec fn launch_reported<B>(r: TaskResult<B>) -> bool {
    ||| (r.browser is Some && r.status@ == spec_launch_success_status())
    ||| (r.browser is None && r.status@.len() >= spec_launch_failure_prefix().len() && r.status@
        .subrange(0, spec_launch_failure_prefix().len() as int) == spec_launch_failure_prefix())
}

/// Builds the report for a launch outcome: a handle from a successful start
/// is paired with the success status; the rendering of a failed start's
/// error follows the failure prefix, with no handle. The report never
/// propagates the error as one.
pub fn launch_report<B>(outcome: Result<B, String>) -> (r: TaskResult<B>)
    ensures
        outcome is Ok ==> r.browser is Some && r.status@ == spec_launch_success_status(),
        outcome matches Err(t) ==> r.browser is None && r.status@ == spec_launch_failure_prefix()
            + t@,
        launch_reported(r),
{
    match outcome {
        Ok(browser) => TaskResult {
            status: String::from_str("Launched Chrome and connected to CDP"),
            browser: Some(browser),
        },
        Err(text) => {
            let mut status = String::from_str("Failed to launch Chrome: ");
            status.append(text.as_str());
            let r = TaskResult { status, browser: None };
            proof {
                assert(r.status@.subrange(0, spec_launch_failure_prefix().len() as int)
                    =~= spec_launch_failure_prefix());
            }
            r
        },
    }
}

/// Law: a status line of a successful launch never equals one of a failed
/// launch, so the two report shapes cannot be confused.
pub proof fn lemma_launch_reports_distinct(ok_status: Seq<char>, failed_status: Seq<char>)
    requires
        ok_status == spec_launch_success_status(),
        failed_status.len() >= spec_launch_failure_prefix().len(),
        failed_status.subrange(0, spec_launch_failure_prefix().len() as int)
            == spec_launch_failure_prefix(),
    ensures
        ok_status != failed_status,
{
    reveal_strlit("Launched Chrome and connected to CDP");
    reveal_strlit("Failed to launch Chrome: ");
    assert(failed_status[0] == failed_status.subrange(
        0,
        spec_launch_failure_prefix().len() as int,
    )[0]);
    assert(failed_status[0] == 'F');
    assert(ok_status[0] == 'L');
}

} // verus!
