//! The application state the window works on, and how it changes.
//!
//! One `DesktopGuiApp` record is built at startup and lives for the process:
//! the user-edited fields, the current page, the two ends of the result
//! channel, and the optional handle to a launched browser. The four plain
//! fields survive a restart through `PersistedState`; the channel ends and
//! the handle never persist and are rebuilt or reset by `DesktopGuiApp::new`.
//! Reports from background tasks are folded in by `drain_results`: the
//! status is overwritten wholesale in arrival order, and the handle replaced
//! only when a report carries one.

use vstd::prelude::*;

use crate::adapter::TaskResult;
use crate::channel::new_result_channel;
use crate::channel::try_recv_result;

verus! {

/// The page the main content column shows; changed only by explicit
/// navigation actions.
#[derive(Clone, Copy, PartialEq, Eq, Structural, Debug)]
pub enum Page {
    Main,
    Settings,
}

/// The fields of the application state that survive a restart.
pub struct PersistedState {
    pub search_text: String,
    pub status: String,
    pub current_page: Page,
    pub chrome_profile_path: String,
}

/// The application state, owned by the redraw loop for the process lifetime.
#[verifier::reject_recursive_types(B)]
pub struct DesktopGuiApp<B> {
    /// User-edited search field; no validation.
    pub search_text: String,
    /// Outcome text of the most recent completed task; overwritten wholesale.
    pub status: String,
    /// Producer end of the result channel; cloned into each spawned task.
    pub sender: Option<tokio::sync::mpsc::UnboundedSender<TaskResult<B>>>,
    /// Consumer end of the result channel; polled once per redraw.
    pub receiver: Option<tokio::sync::mpsc::UnboundedReceiver<TaskResult<B>>>,
    /// Handle owning the launched browser process, when one was launched.
    pub browser: Option<B>,
    /// The page the main content column shows.
    pub current_page: Page,
    /// Chrome profile directory picked on the settings page.
    pub chrome_profile_path: String,
}

impl<B> Default for DesktopGuiApp<B> {
    /// The state of a run that found nothing in the store: everything empty,
    /// the main page, no channel ends and no handle.
    fn default() -> (r: Self)
        ensures
            r.search_text@ == Seq::<char>::empty(),
            r.status@ == Seq::<char>::empty(),
            r.sender is None,
            r.receiver is None,
            r.browser is None,
            r.current_page == Page::Main,
            r.chrome_profile_path@ == Seq::<char>::empty(),
    {
        DesktopGuiApp {
            search_text: String::new(),
            status: String::new(),
            sender: None,
            receiver: None,
            browser: None,
            current_page: Page::Main,
            chrome_profile_path: String::new(),
        }
    }
}

/// What persisting keeps of the state: the four plain fields, exactly.
pub open spec fn persists_to<B>(app: DesktopGuiApp<B>, p: PersistedState) -> bool {
    &&& p.search_text@ == app.search_text@
    &&& p.status@ == app.status@
    &&& p.current_page == app.current_page
    &&& p.chrome_profile_path@ == app.chrome_profile_path@
}

/// What `DesktopGuiApp::new` promises of the state it builds: the persisted
/// fields taken from the store when it held any and defaults otherwise, a
/// fresh channel on both ends, and no browser handle.
pub open spec fn restored_from<B>(app: DesktopGuiApp<B>, loaded: Option<PersistedState>) -> bool {
    &&& match loaded {
        Some(p) => persists_to(app, p),
        None => {
            &&& app.search_text@ == Seq::<char>::empty()
            &&& app.status@ == Seq::<char>::empty()
            &&& app.current_page == Page::Main
            &&& app.chrome_profile_path@ == Seq::<char>::empty()
        },
    }
    &&& app.sender is Some
    &&& app.receiver is Some
    &&& app.browser is None
}

/// How one task report folds into the status and the held handle: the status
/// is overwritten wholesale; the handle is replaced only when the report
/// carries one.
pub open spec fn spec_apply_one<B>(
    status: String,
    browser: Option<B>,
    m: TaskResult<B>,
) -> (String, Option<B>) {
    (
        m.status,
        if m.browser is Some {
            m.browser
        } else {
            browser
        },
    )
}

/// The status and handle after the reports of `msgs` are folded in, in
/// arrival order.
pub open spec fn spec_apply_all<B>(
    status: String,
    browser: Option<B>,
    msgs: Seq<TaskResult<B>>,
) -> (String, Option<B>)
    decreases msgs.len(),
{
    if msgs.len() == 0 {
        (status, browser)
    } else {
        let next = spec_apply_one(status, browser, msgs[0]);
        spec_apply_all(next.0, next.1, msgs.drop_first())
    }
}

/// Law: folding in no reports changes nothing; draining an empty channel is
/// a no-op.
pub proof fn lemma_apply_none_is_no_op<B>(
    status: String,
    browser: Option<B>,
)
    ensures
        spec_apply_all(status, browser, Seq::<TaskResult<B>>::empty()) == (status, browser),
{
}

/// Folding in one more report at the end folds it into the state the earlier
/// reports produced.
pub proof fn lemma_apply_all_push<B>(
    status: String,
    browser: Option<B>,
    msgs: Seq<TaskResult<B>>,
    m: TaskResult<B>,
)
    ensures
        spec_apply_all(status, browser, msgs.push(m)) == spec_apply_one(
            spec_apply_all(status, browser, msgs).0,
            spec_apply_all(status, browser, msgs).1,
            m,
        ),
    decreases msgs.len(),
{
    if msgs.len() == 0 {
        assert(msgs.push(m)[0] == m);
        assert(msgs.push(m).drop_first() =~= Seq::<TaskResult<B>>::empty());
        let s1 = spec_apply_one(status, browser, m);
        assert(spec_apply_all(status, browser, msgs.push(m)) == spec_apply_all(
            s1.0,
            s1.1,
            Seq::<TaskResult<B>>::empty(),
        ));
        assert(spec_apply_all(s1.0, s1.1, Seq::<TaskResult<B>>::empty()) == s1);
        assert(spec_apply_all(status, browser, msgs) == (status, browser));
    } else {
        assert(msgs.push(m)[0] == msgs[0]);
        assert(msgs.push(m).drop_first() =~= msgs.drop_first().push(m));
        let next = spec_apply_one(status, browser, msgs[0]);
        lemma_apply_all_push(next.0, next.1, msgs.drop_first(), m);
        assert(spec_apply_all(status, browser, msgs.push(m)) == spec_apply_all(
            next.0,
            next.1,
            msgs.drop_first().push(m),
        ));
        assert(spec_apply_all(status, browser, msgs) == spec_apply_all(
            next.0,
            next.1,
            msgs.drop_first(),
        ));
    }
}

/// The status values the shell observes while the reports of `msgs` are
/// folded in, one per report, in arrival order.
pub open spec fn spec_statuses_observed<B>(
    status: String,
    browser: Option<B>,
    msgs: Seq<TaskResult<B>>,
) -> Seq<Seq<char>>
    decreases msgs.len(),
{
    if msgs.len() == 0 {
        Seq::<Seq<char>>::empty()
    } else {
        let next = spec_apply_one(status, browser, msgs[0]);
        seq![next.0@] + spec_statuses_observed(next.0, next.1, msgs.drop_first())
    }
}

/// Law: folding in N reports produces exactly N status updates, the i-th
/// equal to the status of the i-th report, in arrival order; the status that
/// remains is the last report's.
pub proof fn lemma_statuses_in_order<B>(
    status: String,
    browser: Option<B>,
    msgs: Seq<TaskResult<B>>,
)
    ensures
        spec_statuses_observed(status, browser, msgs).len() == msgs.len(),
        forall|i: int|
            0 <= i < msgs.len() ==> spec_statuses_observed(status, browser, msgs)[i]
                == msgs[i].status@,
        msgs.len() > 0 ==> spec_apply_all(status, browser, msgs).0 == msgs.last().status,
    decreases msgs.len(),
{
    if msgs.len() > 0 {
        let next = spec_apply_one(status, browser, msgs[0]);
        lemma_statuses_in_order(next.0, next.1, msgs.drop_first());
        assert forall|i: int|
            0 <= i < msgs.len() implies spec_statuses_observed(status, browser, msgs)[i]
            == msgs[i].status@ by {
            if i > 0 {
                assert(spec_statuses_observed(status, browser, msgs)[i]
                    == spec_statuses_observed(next.0, next.1, msgs.drop_first())[i - 1]);
                assert(msgs.drop_first()[i - 1] == msgs[i]);
            }
        }
        assert(spec_apply_all(status, browser, msgs) == spec_apply_all(
            next.0,
            next.1,
            msgs.drop_first(),
        ));
        if msgs.len() == 1 {
            assert(msgs.drop_first().len() == 0);
            assert(spec_apply_all(next.0, next.1, msgs.drop_first()) == (next.0, next.1));
            assert(msgs.last() == msgs[0]);
        } else {
            assert(msgs.drop_first().last() == msgs.last());
        }
    }
}

/// Law: persisting and restoring round-trips the four persisted fields
/// exactly; the restored state never carries the old channel ends or the old
/// browser handle: the channel is fresh on both ends and the handle absent.
pub proof fn lemma_persisted_round_trip<B>(
    app: DesktopGuiApp<B>,
    p: PersistedState,
    restored: DesktopGuiApp<B>,
)
    requires
        persists_to(app, p),
        restored_from(restored, Some(p)),
    ensures
        restored.search_text@ == app.search_text@,
        restored.status@ == app.status@,
        restored.current_page == app.current_page,
        restored.chrome_profile_path@ == app.chrome_profile_path@,
        restored.sender is Some,
        restored.receiver is Some,
        restored.browser is None,
{
}

impl<B> DesktopGuiApp<B> {
    /// Builds the state for a fresh run: the persisted fields from the store
    /// when it held any, defaults otherwise, merged with a freshly created
    /// result channel; no browser handle is ever restored.
    pub fn new(loaded: Option<PersistedState>) -> (app: Self)
        ensures
            restored_from(app, loaded),
    {
        let mut app = match loaded {
            Some(p) => DesktopGuiApp {
                search_text: p.search_text,
                status: p.status,
                sender: None,
                receiver: None,
                browser: None,
                current_page: p.current_page,
                chrome_profile_path: p.chrome_profile_path,
            },
            None => DesktopGuiApp::default(),
        };
        let (tx, rx) = new_result_channel();
        app.sender = Some(tx);
        app.receiver = Some(rx);
        app
    }

    /// Extracts the fields written to the store at shutdown; the channel
    /// ends and the browser handle are left out.
    pub fn to_persisted(&self) -> (p: PersistedState)
        ensures
            persists_to(*self, p),
    {
        PersistedState {
            search_text: self.search_text.clone(),
            status: self.status.clone(),
            current_page: self.current_page,
            chrome_profile_path: self.chrome_profile_path.clone(),
        }
    }

    /// Folds one task report into the state.
    pub fn apply_result_message(&mut self, m: TaskResult<B>)
        ensures
            (final (self).status, final (self).browser) == spec_apply_one(
                old(self).status,
                old(self).browser,
                m,
            ),
            final (self).search_text == old(self).search_text,
            final (self).current_page == old(self).current_page,
            final (self).chrome_profile_path == old(self).chrome_profile_path,
            final (self).sender == old(self).sender,
            final (self).receiver == old(self).receiver,
    {
        let TaskResult { status, browser } = m;
        self.status = status;
        if browser.is_some() {
            self.browser = browser;
        }
    }

    /// Drains the reports now queued on the result channel into the state,
    /// without blocking: whatever sequence of reports the polls hand over is
    /// folded in by `apply_result_message`, in arrival order. At most
    /// `max_polls` reports are taken in one call, so a flood of producers
    /// cannot starve the redraw; anything beyond stays queued for the next
    /// one. Nothing else changes; without a receiver nothing changes at all.
    pub fn drain_results(&mut self, max_polls: usize)
        ensures
            final (self).search_text == old(self).search_text,
            final (self).current_page == old(self).current_page,
            final (self).chrome_profile_path == old(self).chrome_profile_path,
            final (self).sender == old(self).sender,
            final (self).receiver is Some <==> old(self).receiver is Some,
            exists|msgs: Seq<TaskResult<B>>|
                (final (self).status, final (self).browser) == spec_apply_all(
                    old(self).status,
                    old(self).browser,
                    msgs,
                ),
    {
        let rx_opt = self.receiver.take();
        match rx_opt {
            None => {
                proof {
                    let msgs = Seq::<TaskResult<B>>::empty();
                    assert((self.status, self.browser) == spec_apply_all(
                        old(self).status,
                        old(self).browser,
                        msgs,
                    ));
                }
            },
            Some(mut rx) => {
                let ghost init = *self;
                let ghost mut msgs: Seq<TaskResult<B>> = Seq::<TaskResult<B>>::empty();
                let mut polls_left: usize = max_polls;
                while polls_left > 0
                    invariant
                        self.search_text == init.search_text,
                        self.current_page == init.current_page,
                        self.chrome_profile_path == init.chrome_profile_path,
                        self.sender == init.sender,
                        (self.status, self.browser) == spec_apply_all(
                            init.status,
                            init.browser,
                            msgs,
                        ),
                    decreases polls_left,
                {
                    match try_recv_result(&mut rx) {
                        Some(m) => {
                            proof {
                                lemma_apply_all_push(init.status, init.browser, msgs, m);
                                msgs = msgs.push(m);
                            }
                            self.apply_result_message(m);
                        },
                        None => {
                            break ;
                        },
                    }
                    polls_left = polls_left - 1;
                }
                self.receiver = Some(rx);
                proof {
                    assert((self.status, self.browser) == spec_apply_all(
                        old(self).status,
                        old(self).browser,
                        msgs,
                    ));
                }
            },
        }
    }

    /// Navigates to the settings page; nothing else changes.
    pub fn open_settings(&mut self)
        ensures
            final (self).current_page == Page::Settings,
            final (self).search_text == old(self).search_text,
            final (self).status == old(self).status,
            final (self).sender == old(self).sender,
            final (self).receiver == old(self).receiver,
            final (self).browser == old(self).browser,
            final (self).chrome_profile_path == old(self).chrome_profile_path,
    {
        self.current_page = Page::Settings;
    }

    /// Overwrites the selected profile directory with what the folder picker
    /// returned; nothing else changes.
    pub fn set_profile_path(&mut self, path: String)
        ensures
            final (self).chrome_profile_path == path,
            final (self).search_text == old(self).search_text,
            final (self).status == old(self).status,
            final (self).sender == old(self).sender,
            final (self).receiver == old(self).receiver,
            final (self).browser == old(self).browser,
            final (self).current_page == old(self).current_page,
    {
        self.chrome_profile_path = path;
    }
}

} // verus!
