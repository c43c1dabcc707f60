//! Run-level completion tracking: which tabs downloaded, deployed, ended.
use vstd::prelude::*;
use std::collections::BTreeSet;

verus! {

broadcast use vstd::std_specs::btree::group_btree_axioms;

/// Progress of every tab of one run.
#[derive(Debug)]
pub struct RunTracker {
    total_tabs: u16,
    deploy_required: bool,
    downloaded_tabs: BTreeSet<u16>,
    deployed_tabs: BTreeSet<u16>,
    terminal_tabs: BTreeSet<u16>,
    session_expired_tabs: BTreeSet<u16>,
}

/// The tracker as sets of tab ids.
pub struct TrackerView {
    pub total_tabs: u16,
    pub deploy_required: bool,
    pub downloaded: Set<u16>,
    pub deployed: Set<u16>,
    pub terminal: Set<u16>,
    pub session_expired: Set<u16>,
}

impl View for RunTracker {
    type V = TrackerView;

    closed spec fn view(&self) -> TrackerView {
        TrackerView {
            total_tabs: self.total_tabs,
            deploy_required: self.deploy_required,
            downloaded: self.downloaded_tabs@,
            deployed: self.deployed_tabs@,
            terminal: self.terminal_tabs@,
            session_expired: self.session_expired_tabs@,
        }
    }
}

/// A tab is complete when it ended, or when it downloaded and, if deploys
/// are required, also deployed.
pub open spec fn tab_complete(v: TrackerView, tab_id: u16) -> bool {
    v.terminal.contains(tab_id) || (v.downloaded.contains(tab_id) && (!v.deploy_required
        || v.deployed.contains(tab_id)))
}

/// A run is complete when every tab `1..=total_tabs` is complete.
pub open spec fn run_complete(v: TrackerView) -> bool {
    forall|t: u16| 1 <= t <= v.total_tabs ==> #[trigger] tab_complete(v, t)
}

/// A set size as reported by the tracker's counters: capped at `u16::MAX`.
pub open spec fn capped_count(n: nat) -> u16 {
    if n > u16::MAX as nat { u16::MAX } else { n as u16 }
}

/// The tracker after one of its sets received `tab_id`.
pub open spec fn with_downloaded(v: TrackerView, tab_id: u16) -> TrackerView {
    TrackerView { downloaded: v.downloaded.insert(tab_id), ..v }
}

pub open spec fn with_deployed(v: TrackerView, tab_id: u16) -> TrackerView {
    TrackerView { deployed: v.deployed.insert(tab_id), ..v }
}

pub open spec fn with_terminal(v: TrackerView, tab_id: u16) -> TrackerView {
    TrackerView { terminal: v.terminal.insert(tab_id), ..v }
}

pub open spec fn with_session_expired(v: TrackerView, tab_id: u16) -> TrackerView {
    TrackerView { session_expired: v.session_expired.insert(tab_id), ..v }
}

impl RunTracker {
    /// A tracker of `total_tabs` tabs, none with any progress yet.
    pub fn new(total_tabs: u16, deploy_required: bool) -> (r: Self)
        ensures
            r@.total_tabs == total_tabs,
            r@.deploy_required == deploy_required,
            r@.downloaded == Set::<u16>::empty(),
            r@.deployed == Set::<u16>::empty(),
            r@.terminal == Set::<u16>::empty(),
            r@.session_expired == Set::<u16>::empty(),
            r@ == fresh_tracker(total_tabs, deploy_required),
    {
        RunTracker {
            total_tabs,
            deploy_required,
            downloaded_tabs: BTreeSet::new(),
            deployed_tabs: BTreeSet::new(),
            terminal_tabs: BTreeSet::new(),
            session_expired_tabs: BTreeSet::new(),
        }
    }

    /// Records that a tab's download arrived.
    pub fn mark_downloaded(&mut self, tab_id: u16)
        ensures
            final(self)@ == with_downloaded(old(self)@, tab_id),
    {
        self.downloaded_tabs.insert(tab_id);
    }

    /// Records that a tab's archive was deployed.
    pub fn mark_deployed(&mut self, tab_id: u16)
        ensures
            final(self)@ == with_deployed(old(self)@, tab_id),
    {
        self.deployed_tabs.insert(tab_id);
    }

    /// Records that a tab ended.
    pub fn mark_terminal(&mut self, tab_id: u16)
        ensures
            final(self)@ == with_terminal(old(self)@, tab_id),
    {
        self.terminal_tabs.insert(tab_id);
    }

    /// Records that a tab's browser session expired.
    pub fn mark_session_expired(&mut self, tab_id: u16)
        ensures
            final(self)@ == with_session_expired(old(self)@, tab_id),
    {
        self.session_expired_tabs.insert(tab_id);
    }

    /// Whether a tab's browser session expired.
    pub fn tab_session_expired(&self, tab_id: u16) -> (r: bool)
        ensures
            r == self@.session_expired.contains(tab_id),
    {
        self.session_expired_tabs.contains(&tab_id)
    }

    /// Number of tabs that downloaded, capped at `u16::MAX`.
    pub fn downloaded_count(&self) -> (r: u16)
        ensures
            r == capped_count(self@.downloaded.len()),
    {
        let n = self.downloaded_tabs.len();
        if n > u16::MAX as usize { u16::MAX } else { n as u16 }
    }

    /// Number of tabs that deployed, capped at `u16::MAX`.
    pub fn deployed_count(&self) -> (r: u16)
        ensures
            r == capped_count(self@.deployed.len()),
    {
        let n = self.deployed_tabs.len();
        if n > u16::MAX as usize { u16::MAX } else { n as u16 }
    }

    /// Whether a tab needs nothing more (see `tab_complete`).
    pub fn tab_is_complete(&self, tab_id: u16) -> (r: bool)
        ensures
            r == tab_complete(self@, tab_id),
    {
        if self.terminal_tabs.contains(&tab_id) {
            return true;
        }
        if !self.downloaded_tabs.contains(&tab_id) {
            return false;
        }
        !self.deploy_required || self.deployed_tabs.contains(&tab_id)
    }

    /// Whether every tab is complete.
    pub fn is_complete(&self) -> (r: bool)
        ensures
            r == run_complete(self@),
    {
        let mut tab_id: u16 = 1;
        while tab_id <= self.total_tabs
            invariant
                1 <= tab_id,
                tab_id as int <= self@.total_tabs as int + 1,
                forall|t: u16| 1 <= t < tab_id ==> #[trigger] tab_complete(self@, t),
            decreases self@.total_tabs as int + 1 - tab_id as int,
        {
            if !self.tab_is_complete(tab_id) {
                return false;
            }
            if tab_id == u16::MAX {
                return true;
            }
            tab_id = tab_id + 1;
        }
        true
    }
}

/// Whether every tab of the run is complete.
pub fn run_is_complete(tracker: &RunTracker) -> (r: bool)
    ensures
        r == run_complete(tracker@),
{
    tracker.is_complete()
}

/// Recording progress never undoes completion: a complete tab (or run)
/// stays complete after any further mark.
pub proof fn lemma_marks_keep_completion(v: TrackerView, tab_id: u16, other: u16)
    ensures
        tab_complete(v, other) ==> tab_complete(with_downloaded(v, tab_id), other),
        tab_complete(v, other) ==> tab_complete(with_deployed(v, tab_id), other),
        tab_complete(v, other) ==> tab_complete(with_terminal(v, tab_id), other),
        tab_complete(v, other) ==> tab_complete(with_session_expired(v, tab_id), other),
        run_complete(v) ==> run_complete(with_downloaded(v, tab_id)),
        run_complete(v) ==> run_complete(with_deployed(v, tab_id)),
        run_complete(v) ==> run_complete(with_terminal(v, tab_id)),
        run_complete(v) ==> run_complete(with_session_expired(v, tab_id)),
{
    assert(run_complete(v) ==> run_complete(with_downloaded(v, tab_id))) by {
        if run_complete(v) {
            assert forall|t: u16| 1 <= t <= v.total_tabs implies #[trigger] tab_complete(
                with_downloaded(v, tab_id),
                t,
            ) by {
                assert(tab_complete(v, t));
            }
        }
    }
    assert(run_complete(v) ==> run_complete(with_deployed(v, tab_id))) by {
        if run_complete(v) {
            assert forall|t: u16| 1 <= t <= v.total_tabs implies #[trigger] tab_complete(
                with_deployed(v, tab_id),
                t,
            ) by {
                assert(tab_complete(v, t));
            }
        }
    }
    assert(run_complete(v) ==> run_complete(with_terminal(v, tab_id))) by {
        if run_complete(v) {
            assert forall|t: u16| 1 <= t <= v.total_tabs implies #[trigger] tab_complete(
                with_terminal(v, tab_id),
                t,
            ) by {
                assert(tab_complete(v, t));
            }
        }
    }
    assert(run_complete(v) ==> run_complete(with_session_expired(v, tab_id))) by {
        if run_complete(v) {
            assert forall|t: u16| 1 <= t <= v.total_tabs implies #[trigger] tab_complete(
                with_session_expired(v, tab_id),
                t,
            ) by {
                assert(tab_complete(v, t));
            }
        }
    }
}

/// A tab that ended is complete, whatever else was recorded for it.
pub proof fn lemma_terminal_tab_is_complete(v: TrackerView, tab_id: u16)
    ensures
        tab_complete(with_terminal(v, tab_id), tab_id),
{
}

/// A downloaded tab is complete without a deploy exactly when deploys are
/// not required; with deploys required it completes once deployed.
pub proof fn lemma_download_then_deploy_completes(v: TrackerView, tab_id: u16)
    ensures
        tab_complete(with_downloaded(v, tab_id), tab_id) <== !v.deploy_required,
        tab_complete(with_deployed(with_downloaded(v, tab_id), tab_id), tab_id),
{
}

/// Marking a tab twice records the same progress as marking it once.
pub proof fn lemma_marks_are_idempotent(v: TrackerView, tab_id: u16)
    ensures
        with_downloaded(with_downloaded(v, tab_id), tab_id) == with_downloaded(v, tab_id),
        with_deployed(with_deployed(v, tab_id), tab_id) == with_deployed(v, tab_id),
        with_terminal(with_terminal(v, tab_id), tab_id) == with_terminal(v, tab_id),
        with_session_expired(with_session_expired(v, tab_id), tab_id) == with_session_expired(
            v,
            tab_id,
        ),
{
    assert(v.downloaded.insert(tab_id).insert(tab_id) =~= v.downloaded.insert(tab_id));
    assert(v.deployed.insert(tab_id).insert(tab_id) =~= v.deployed.insert(tab_id));
    assert(v.terminal.insert(tab_id).insert(tab_id) =~= v.terminal.insert(tab_id));
    assert(v.session_expired.insert(tab_id).insert(tab_id) =~= v.session_expired.insert(tab_id));
}

/// A run without tabs is complete from the start.
pub proof fn lemma_empty_run_is_complete(v: TrackerView)
    requires
        v.total_tabs == 0,
    ensures
        run_complete(v),
{
}

} // verus!

verus! {

/// One piece of progress recorded for a tab.
#[derive(Debug, Clone, Copy, PartialEq, Eq, Structural)]
pub enum Mark {
    Downloaded(u16),
    Deployed(u16),
    Terminal(u16),
    SessionExpired(u16),
}

/// The tracker after one mark (the view of the `mark_*` call it stands for).
pub open spec fn after_mark(v: TrackerView, m: Mark) -> TrackerView {
    match m {
        Mark::Downloaded(t) => with_downloaded(v, t),
        Mark::Deployed(t) => with_deployed(v, t),
        Mark::Terminal(t) => with_terminal(v, t),
        Mark::SessionExpired(t) => with_session_expired(v, t),
    }
}

/// The tracker after a sequence of marks, in order.
pub open spec fn after_marks(v: TrackerView, ms: Seq<Mark>) -> TrackerView
    decreases ms.len(),
{
    if ms.len() == 0 {
        v
    } else {
        after_mark(after_marks(v, ms.drop_last()), ms.last())
    }
}

/// A new tracker (the view `RunTracker::new` gives).
pub open spec fn fresh_tracker(total_tabs: u16, deploy_required: bool) -> TrackerView {
    TrackerView {
        total_tabs,
        deploy_required,
        downloaded: Set::empty(),
        deployed: Set::empty(),
        terminal: Set::empty(),
        session_expired: Set::empty(),
    }
}

/// Whether `m` occurs among the marks.
pub open spec fn was_marked(ms: Seq<Mark>, m: Mark) -> bool {
    exists|i: int| 0 <= i < ms.len() && ms[i] == m
}

proof fn lemma_after_marks_sets(v: TrackerView, ms: Seq<Mark>)
    ensures
        after_marks(v, ms).total_tabs == v.total_tabs,
        after_marks(v, ms).deploy_required == v.deploy_required,
        forall|t: u16|
            #[trigger] after_marks(v, ms).downloaded.contains(t) <==> (v.downloaded.contains(t)
                || was_marked(ms, Mark::Downloaded(t))),
        forall|t: u16|
            #[trigger] after_marks(v, ms).deployed.contains(t) <==> (v.deployed.contains(t)
                || was_marked(ms, Mark::Deployed(t))),
        forall|t: u16|
            #[trigger] after_marks(v, ms).terminal.contains(t) <==> (v.terminal.contains(t)
                || was_marked(ms, Mark::Terminal(t))),
    decreases ms.len(),
{
    if ms.len() > 0 {
        let init = ms.drop_last();
        lemma_after_marks_sets(v, init);
        assert forall|m: Mark| #[trigger] was_marked(ms, m) <==> (was_marked(init, m) || ms.last()
            == m) by {
            if was_marked(ms, m) {
                let i = choose|i: int| 0 <= i < ms.len() && ms[i] == m;
                if i < ms.len() - 1 {
                    assert(init[i] == m);
                }
            }
            if was_marked(init, m) {
                let i = choose|i: int| 0 <= i < init.len() && init[i] == m;
                assert(ms[i] == m);
            }
            if ms.last() == m {
                assert(ms[ms.len() - 1] == m);
            }
        }
    }
}

/// Completion over a whole run: after a new tracker of `total_tabs` tabs
/// receives any sequence of marks, the run is complete exactly when every
/// tab ended, or downloaded and (when deploys are required) deployed; so a
/// run without tabs is complete at once.
pub proof fn lemma_completion_after_marks(total_tabs: u16, deploy_required: bool, ms: Seq<Mark>)
    ensures
        run_complete(after_marks(fresh_tracker(total_tabs, deploy_required), ms)) <==> forall|
            t: u16,
        |
            1 <= t <= total_tabs ==> #[trigger] was_marked(ms, Mark::Terminal(t)) || (was_marked(
                ms,
                Mark::Downloaded(t),
            ) && (!deploy_required || was_marked(ms, Mark::Deployed(t)))),
{
    let v0 = fresh_tracker(total_tabs, deploy_required);
    let v = after_marks(v0, ms);
    lemma_after_marks_sets(v0, ms);
    if run_complete(v) {
        assert forall|t: u16| 1 <= t <= total_tabs implies #[trigger] was_marked(
            ms,
            Mark::Terminal(t),
        ) || (was_marked(ms, Mark::Downloaded(t)) && (!deploy_required || was_marked(
            ms,
            Mark::Deployed(t),
        ))) by {
            assert(tab_complete(v, t));
            assert(v.terminal.contains(t) == was_marked(ms, Mark::Terminal(t)));
            assert(v.downloaded.contains(t) == was_marked(ms, Mark::Downloaded(t)));
            assert(v.deployed.contains(t) == was_marked(ms, Mark::Deployed(t)));
        }
    }
    if forall|t: u16|
        1 <= t <= total_tabs ==> #[trigger] was_marked(ms, Mark::Terminal(t)) || (was_marked(
            ms,
            Mark::Downloaded(t),
        ) && (!deploy_required || was_marked(ms, Mark::Deployed(t)))) {
        assert forall|t: u16| 1 <= t <= v.total_tabs implies #[trigger] tab_complete(v, t) by {
            assert(was_marked(ms, Mark::Terminal(t)) || (was_marked(ms, Mark::Downloaded(t)) && (
            !deploy_required || was_marked(ms, Mark::Deployed(t)))));
            assert(v.terminal.contains(t) == was_marked(ms, Mark::Terminal(t)));
            assert(v.downloaded.contains(t) == was_marked(ms, Mark::Downloaded(t)));
            assert(v.deployed.contains(t) == was_marked(ms, Mark::Deployed(t)));
        }
    }
}

/// A complete run stays complete whatever marks follow.
pub proof fn lemma_completion_persists(v: TrackerView, ms: Seq<Mark>)
    requires
        run_complete(v),
    ensures
        run_complete(after_marks(v, ms)),
    decreases ms.len(),
{
    if ms.len() > 0 {
        lemma_completion_persists(v, ms.drop_last());
        let w = after_marks(v, ms.drop_last());
        match ms.last() {
            Mark::Downloaded(t) => lemma_marks_keep_completion(w, t, 0),
            Mark::Deployed(t) => lemma_marks_keep_completion(w, t, 0),
            Mark::Terminal(t) => lemma_marks_keep_completion(w, t, 0),
            Mark::SessionExpired(t) => lemma_marks_keep_completion(w, t, 0),
        }
    }
}

} // verus!
