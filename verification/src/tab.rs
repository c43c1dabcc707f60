//! Tab-level state machine.
//!
//! Each browser tab moves through a fixed lifecycle; the orchestrator feeds
//! it triggers derived from bridge events and gets the next state back, or
//! an error naming the state and trigger that had no transition.
use vstd::prelude::*;
use crate::text::opt_chars;

verus! {

/// Lifecycle state of one browser tab.
#[derive(Debug, Clone, PartialEq, Eq)]
pub enum TabState {
    Opening,
    Submitted,
    Generating,
    TarDiscovered,
    Downloading,
    Downloaded,
    Closed,
    Deploying,
    DeployComplete,
    Failed { reason: String },
}

/// What a tab state is, with the failure reason taken by its characters.
pub enum TabStateView {
    Opening,
    Submitted,
    Generating,
    TarDiscovered,
    Downloading,
    Downloaded,
    Closed,
    Deploying,
    DeployComplete,
    Failed(Seq<char>),
}

impl View for TabState {
    type V = TabStateView;

    open spec fn view(&self) -> TabStateView {
        match self {
            TabState::Opening => TabStateView::Opening,
            TabState::Submitted => TabStateView::Submitted,
            TabState::Generating => TabStateView::Generating,
            TabState::TarDiscovered => TabStateView::TarDiscovered,
            TabState::Downloading => TabStateView::Downloading,
            TabState::Downloaded => TabStateView::Downloaded,
            TabState::Closed => TabStateView::Closed,
            TabState::Deploying => TabStateView::Deploying,
            TabState::DeployComplete => TabStateView::DeployComplete,
            TabState::Failed { reason } => TabStateView::Failed(reason@),
        }
    }
}

/// Event that may move a tab to its next state.
#[derive(Debug, Clone, Copy, PartialEq, Eq)]
pub enum TabTrigger {
    TabOpened,
    ArchiveUploaded,
    PromptSubmitted,
    FirstProgress,
    TarLinkFound,
    DownloadStarted,
    DownloadComplete,
    GenerationStopped,
    TabClosed,
    DeployQueued,
    DeployFinishedSuccess,
    DeployFinishedFailure,
    ErrorFatal,
}

/// A trigger that has no transition from the state it arrived in.
#[derive(Debug, PartialEq, Eq)]
pub struct TabTransitionError {
    pub from: TabState,
    pub trigger: TabTrigger,
}

/// A tab state is terminal once its deploy completed or it failed.
pub open spec fn terminal(s: TabStateView) -> bool {
    s is DeployComplete || s is Failed
}

/// The failure reason given, or `default` when none was given.
pub open spec fn reason_or(reason: Option<Seq<char>>, default: Seq<char>) -> Seq<char> {
    match reason {
        Some(r) => r,
        None => default,
    }
}

/// The transition table: the state reached from `s` on trigger `t`, or
/// `None` when `t` is not accepted in `s`.
pub open spec fn transition(
    s: TabStateView,
    t: TabTrigger,
    reason: Option<Seq<char>>,
) -> Option<TabStateView> {
    match (s, t) {
        (TabStateView::Opening, TabTrigger::TabOpened) => Some(TabStateView::Opening),
        (TabStateView::Opening, TabTrigger::ArchiveUploaded) => Some(TabStateView::Opening),
        (TabStateView::Opening, TabTrigger::PromptSubmitted) => Some(TabStateView::Submitted),
        (TabStateView::Submitted, TabTrigger::FirstProgress) => Some(TabStateView::Generating),
        (TabStateView::Submitted, TabTrigger::TarLinkFound) => Some(TabStateView::TarDiscovered),
        (TabStateView::Generating, TabTrigger::TarLinkFound) => Some(TabStateView::TarDiscovered),
        (TabStateView::TarDiscovered, TabTrigger::DownloadStarted) => Some(
            TabStateView::Downloading,
        ),
        (TabStateView::Downloading, TabTrigger::DownloadComplete) => Some(
            TabStateView::Downloaded,
        ),
        (TabStateView::Downloaded, TabTrigger::GenerationStopped) => Some(
            TabStateView::Downloaded,
        ),
        (TabStateView::Downloaded, TabTrigger::TabClosed) => Some(TabStateView::Closed),
        (TabStateView::Closed, TabTrigger::DeployQueued) => Some(TabStateView::Deploying),
        (TabStateView::Deploying, TabTrigger::DeployFinishedSuccess) => Some(
            TabStateView::DeployComplete,
        ),
        (TabStateView::Deploying, TabTrigger::DeployFinishedFailure) => Some(
            TabStateView::Failed(reason_or(reason, "deploy failed"@)),
        ),
        (_, TabTrigger::ErrorFatal) => Some(
            TabStateView::Failed(reason_or(reason, "fatal bridge error"@)),
        ),
        _ => None,
    }
}

/// The position of a state along the tab lifecycle; failure comes last.
pub open spec fn lifecycle_rank(s: TabStateView) -> nat {
    match s {
        TabStateView::Opening => 0,
        TabStateView::Submitted => 1,
        TabStateView::Generating => 2,
        TabStateView::TarDiscovered => 3,
        TabStateView::Downloading => 4,
        TabStateView::Downloaded => 5,
        TabStateView::Closed => 6,
        TabStateView::Deploying => 7,
        TabStateView::DeployComplete => 8,
        TabStateView::Failed(_) => 9,
    }
}

fn failure_reason(reason: Option<String>, default: &str) -> (r: String)
    ensures
        r@ == reason_or(opt_chars(reason), default@),
{
    match reason {
        Some(r) => r,
        None => String::from_str(default),
    }
}

impl TabState {
    /// Whether the tab has reached a state it cannot leave but by a fatal error.
    pub fn is_terminal(&self) -> (r: bool)
        ensures
            r == terminal(self@),
    {
        match self {
            TabState::DeployComplete => true,
            TabState::Failed { .. } => true,
            _ => false,
        }
    }

    /// The state reached on `trigger`; `reason` names the failure for the
    /// failing triggers.
    pub fn next(self, trigger: TabTrigger, reason: Option<String>) -> (r: Result<
        TabState,
        TabTransitionError,
    >)
        ensures
            transition(self@, trigger, opt_chars(reason)) is Some <==> r is Ok,
            r matches Ok(n) ==> n@ == transition(self@, trigger, opt_chars(reason))->0,
            r matches Err(e) ==> e.from == self && e.trigger == trigger,
    {
        match (&self, trigger) {
            (TabState::Opening, TabTrigger::TabOpened) => Ok(TabState::Opening),
            (TabState::Opening, TabTrigger::ArchiveUploaded) => Ok(TabState::Opening),
            (TabState::Opening, TabTrigger::PromptSubmitted) => Ok(TabState::Submitted),
            (TabState::Submitted, TabTrigger::FirstProgress) => Ok(TabState::Generating),
            (TabState::Submitted, TabTrigger::TarLinkFound) => Ok(TabState::TarDiscovered),
            (TabState::Generating, TabTrigger::TarLinkFound) => Ok(TabState::TarDiscovered),
            (TabState::TarDiscovered, TabTrigger::DownloadStarted) => Ok(TabState::Downloading),
            (TabState::Downloading, TabTrigger::DownloadComplete) => Ok(TabState::Downloaded),
            (TabState::Downloaded, TabTrigger::GenerationStopped) => Ok(TabState::Downloaded),
            (TabState::Downloaded, TabTrigger::TabClosed) => Ok(TabState::Closed),
            (TabState::Closed, TabTrigger::DeployQueued) => Ok(TabState::Deploying),
            (TabState::Deploying, TabTrigger::DeployFinishedSuccess) => Ok(
                TabState::DeployComplete,
            ),
            (TabState::Deploying, TabTrigger::DeployFinishedFailure) => Ok(
                TabState::Failed { reason: failure_reason(reason, "deploy failed") },
            ),
            (_, TabTrigger::ErrorFatal) => Ok(
                TabState::Failed { reason: failure_reason(reason, "fatal bridge error") },
            ),
            _ => Err(TabTransitionError { from: self, trigger }),
        }
    }
}

/// A fatal error moves a tab in any state to `Failed`, carrying the given
/// reason or "fatal bridge error".
pub proof fn lemma_fatal_error_always_fails(s: TabStateView, reason: Option<Seq<char>>)
    ensures
        transition(s, TabTrigger::ErrorFatal, reason) == Some(
            TabStateView::Failed(reason_or(reason, "fatal bridge error"@)),
        ),
{
}

/// A terminal tab accepts no trigger but a fatal error.
pub proof fn lemma_terminal_states_only_accept_fatal_error(
    s: TabStateView,
    t: TabTrigger,
    reason: Option<Seq<char>>,
)
    requires
        terminal(s),
        t != TabTrigger::ErrorFatal,
    ensures
        transition(s, t, reason) is None,
{
}

/// Every accepted trigger moves a tab forward along its lifecycle or keeps
/// it where it is; no transition goes back to an earlier state.
pub proof fn lemma_transitions_never_go_back(
    s: TabStateView,
    t: TabTrigger,
    reason: Option<Seq<char>>,
)
    requires
        transition(s, t, reason) is Some,
    ensures
        lifecycle_rank(s) <= lifecycle_rank(transition(s, t, reason)->0),
{
}

/// The only way to reach `DeployComplete` is a successful deploy from
/// `Deploying`.
pub proof fn lemma_deploy_complete_only_after_deploying(
    s: TabStateView,
    t: TabTrigger,
    reason: Option<Seq<char>>,
)
    requires
        transition(s, t, reason) == Some(TabStateView::DeployComplete),
    ensures
        s is Deploying,
        t == TabTrigger::DeployFinishedSuccess,
{
}

} // verus!
