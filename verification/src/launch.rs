//! Staggered tab launching: one tab at a time, the next one only after the
//! previous tab's prompt was accepted (or the tab ended first).
use vstd::prelude::*;
use std::time::Duration;

verus! {

/// A delayed launch that the run loop turns into a timer.
#[derive(Debug, PartialEq, Eq)]
pub struct LaunchDelay {
    pub tab_id: u16,
    pub duration: Duration,
    pub reason: &'static str,
}

/// A timer firing for the launch of `tab_id`.
#[derive(Debug, Clone, Copy, PartialEq, Eq)]
pub struct LaunchTrigger {
    pub tab_id: u16,
}

/// Which tab launches next and what the scheduler waits for.
#[derive(Debug)]
pub struct LaunchScheduler {
    pub total_tabs: u16,
    pub next_tab: u16,
    pub waiting_for_acceptance: Option<u16>,
    pub scheduled_launch: Option<u16>,
}

/// The scheduler's state as plain values.
pub struct SchedulerView {
    pub total_tabs: u16,
    pub next_tab: u16,
    pub waiting_for_acceptance: Option<u16>,
    pub scheduled_launch: Option<u16>,
}

impl View for LaunchScheduler {
    type V = SchedulerView;

    open spec fn view(&self) -> SchedulerView {
        SchedulerView {
            total_tabs: self.total_tabs,
            next_tab: self.next_tab,
            waiting_for_acceptance: self.waiting_for_acceptance,
            scheduled_launch: self.scheduled_launch,
        }
    }
}

/// Launching the next tab: the tab launched (if any) and the state after.
pub open spec fn spec_launch_next(s: SchedulerView) -> (SchedulerView, Option<u16>) {
    if s.next_tab > s.total_tabs {
        (s, None)
    } else {
        let next = if s.next_tab == u16::MAX { u16::MAX } else { (s.next_tab + 1) as u16 };
        (
            SchedulerView { next_tab: next, waiting_for_acceptance: Some(s.next_tab), ..s },
            Some(s.next_tab),
        )
    }
}

/// Scheduling the next launch: the tab scheduled (if any) and the state after.
pub open spec fn spec_schedule_next(s: SchedulerView) -> (SchedulerView, Option<u16>) {
    if s.next_tab > s.total_tabs || s.scheduled_launch is Some {
        (s, None)
    } else {
        (SchedulerView { scheduled_launch: Some(s.next_tab), ..s }, Some(s.next_tab))
    }
}

/// A tab that the scheduler awaited stopped the wait (its prompt was
/// accepted, or it ended): the wait ends and the next launch is scheduled.
pub open spec fn spec_release_wait(s: SchedulerView, tab_id: u16) -> (SchedulerView, Option<u16>) {
    if s.waiting_for_acceptance != Some(tab_id) {
        (s, None)
    } else {
        spec_schedule_next(SchedulerView { waiting_for_acceptance: None, ..s })
    }
}

pub open spec fn spec_tab_failed(s: SchedulerView, tab_id: u16) -> SchedulerView {
    SchedulerView {
        waiting_for_acceptance: if s.waiting_for_acceptance == Some(tab_id) {
            None
        } else {
            s.waiting_for_acceptance
        },
        scheduled_launch: None,
        ..s
    }
}

pub open spec fn spec_consume(s: SchedulerView, tab_id: u16) -> (SchedulerView, bool) {
    if s.scheduled_launch == Some(tab_id) {
        (SchedulerView { scheduled_launch: None, ..s }, true)
    } else {
        (s, false)
    }
}

/// The delay handed out for a scheduled tab.
pub open spec fn delay_for(tab: Option<u16>, duration: Duration, reason: &'static str) -> Option<
    LaunchDelay,
> {
    match tab {
        Some(t) => Some(LaunchDelay { tab_id: t, duration, reason }),
        None => None,
    }
}

/// The scheduler's invariant while the run loop drives it: the next tab is
/// a tab number, a scheduled launch is always the next tab, and the tab
/// awaited is one already launched.
pub open spec fn scheduler_inv(s: SchedulerView) -> bool {
    &&& 1 <= s.next_tab
    &&& s.total_tabs < u16::MAX
    &&& s.next_tab as int <= s.total_tabs as int + 1
    &&& (s.scheduled_launch matches Some(t) ==> t == s.next_tab && t <= s.total_tabs)
    &&& (s.waiting_for_acceptance matches Some(w) ==> 1 <= w < s.next_tab)
}

impl LaunchScheduler {
    pub fn new(total_tabs: u16) -> (r: Self)
        ensures
            r@ == (SchedulerView {
                total_tabs,
                next_tab: 1,
                waiting_for_acceptance: None,
                scheduled_launch: None,
            }),
    {
        LaunchScheduler {
            total_tabs,
            next_tab: 1,
            waiting_for_acceptance: None,
            scheduled_launch: None,
        }
    }

    /// Takes the next tab to open, if any remain; the scheduler then waits
    /// for that tab's prompt to be accepted. The caller sends the tab's
    /// commands to the bridge.
    pub fn launch_next(&mut self) -> (r: Option<u16>)
        ensures
            (final(self)@, r) == spec_launch_next(old(self)@),
    {
        if self.next_tab > self.total_tabs {
            return None;
        }
        let tab_id = self.next_tab;
        self.next_tab = self.next_tab.saturating_add(1);
        self.waiting_for_acceptance = Some(tab_id);
        Some(tab_id)
    }

    pub fn prompt_accepted(&mut self, tab_id: u16, delay: Duration) -> (r: Option<LaunchDelay>)
        ensures
            final(self)@ == spec_release_wait(old(self)@, tab_id).0,
            r == delay_for(spec_release_wait(old(self)@, tab_id).1, delay, "prompt-accepted"),
    {
        if self.waiting_for_acceptance != Some(tab_id) {
            return None;
        }
        self.waiting_for_acceptance = None;
        self.schedule_next(delay, "prompt-accepted")
    }

    pub fn tab_terminal(&mut self, tab_id: u16, delay: Duration) -> (r: Option<LaunchDelay>)
        ensures
            final(self)@ == spec_release_wait(old(self)@, tab_id).0,
            r == delay_for(
                spec_release_wait(old(self)@, tab_id).1,
                delay,
                "tab-terminal-before-prompt-accepted",
            ),
    {
        if self.waiting_for_acceptance != Some(tab_id) {
            return None;
        }
        self.waiting_for_acceptance = None;
        self.schedule_next(delay, "tab-terminal-before-prompt-accepted")
    }

    pub fn tab_failed(&mut self, tab_id: u16)
        ensures
            final(self)@ == spec_tab_failed(old(self)@, tab_id),
    {
        if self.waiting_for_acceptance == Some(tab_id) {
            self.waiting_for_acceptance = None;
        }
        self.scheduled_launch = None;
    }

    pub fn schedule_next(&mut self, duration: Duration, reason: &'static str) -> (r: Option<
        LaunchDelay,
    >)
        ensures
            final(self)@ == spec_schedule_next(old(self)@).0,
            r == delay_for(spec_schedule_next(old(self)@).1, duration, reason),
    {
        if self.next_tab > self.total_tabs || self.scheduled_launch.is_some() {
            return None;
        }
        let tab_id = self.next_tab;
        self.scheduled_launch = Some(tab_id);
        Some(LaunchDelay { tab_id, duration, reason })
    }

    pub fn consume_scheduled_launch(&mut self, tab_id: u16) -> (r: bool)
        ensures
            (final(self)@, r) == spec_consume(old(self)@, tab_id),
    {
        if self.scheduled_launch == Some(tab_id) {
            self.scheduled_launch = None;
            true
        } else {
            false
        }
    }
}

/// A new scheduler for fewer than `u16::MAX` tabs satisfies the invariant.
pub proof fn lemma_new_scheduler_inv(total_tabs: u16)
    requires
        total_tabs < u16::MAX,
    ensures
        scheduler_inv(
            SchedulerView {
                total_tabs,
                next_tab: 1,
                waiting_for_acceptance: None,
                scheduled_launch: None,
            },
        ),
{
}

/// Every operation keeps the invariant; a launch keeps it when no other
/// launch is scheduled, which is how the run loop uses it (it launches
/// first, and later only after consuming the scheduled launch).
pub proof fn lemma_operations_keep_inv(s: SchedulerView, tab_id: u16)
    requires
        scheduler_inv(s),
    ensures
        s.scheduled_launch is None ==> scheduler_inv(spec_launch_next(s).0),
        scheduler_inv(spec_schedule_next(s).0),
        scheduler_inv(spec_release_wait(s, tab_id).0),
        scheduler_inv(spec_tab_failed(s, tab_id)),
        scheduler_inv(spec_consume(s, tab_id).0),
{
}

/// Tabs launch in order, each at most once: a launch hands out the next
/// tab number and moves past it. (With `u16::MAX` tabs the last tab number
/// cannot be moved past, so this holds below that count.)
pub proof fn lemma_launches_are_increasing(s: SchedulerView)
    requires
        s.total_tabs < u16::MAX,
    ensures
        spec_launch_next(s).1 matches Some(t) ==> t == s.next_tab && spec_launch_next(
            s,
        ).0.next_tab == t + 1,
        spec_launch_next(s).1 is None ==> spec_launch_next(s).0 == s,
        s.next_tab <= spec_launch_next(s).0.next_tab,
{
}

/// At most one launch is scheduled at a time: scheduling again while a
/// launch is pending hands out nothing and changes nothing.
pub proof fn lemma_single_pending_launch(s: SchedulerView)
    requires
        s.scheduled_launch is Some,
    ensures
        spec_schedule_next(s) == (s, None::<u16>),
{
}

/// Only the tab the scheduler waits for can release the wait; any other
/// tab's acceptance is ignored.
pub proof fn lemma_only_awaited_tab_releases(s: SchedulerView, tab_id: u16)
    requires
        s.waiting_for_acceptance != Some(tab_id),
    ensures
        spec_release_wait(s, tab_id) == (s, None::<u16>),
{
}

/// A scheduled launch is consumed exactly once.
pub proof fn lemma_consume_once(s: SchedulerView, tab_id: u16)
    requires
        spec_consume(s, tab_id).1,
    ensures
        !spec_consume(spec_consume(s, tab_id).0, tab_id).1,
{
}

} // verus!
