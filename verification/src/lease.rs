//! Leasing browser accounts for a run: the events that tell of the lease,
//! what each attempt to take it decides, and how a lease routes the run's
//! tabs to its accounts.
use vstd::prelude::*;
use std::collections::BTreeMap;
use crate::accounts::BrowserAccount;
use crate::config::RunOptions;
use crate::prepare::{apply_profile_env_with, profile_env_outcome};
use crate::run_event::{bool_text, EventKind, JailgunEvent, Severity};
use crate::supervisor::RunSummary;
use crate::text::{decimal, decimal_string, strings_chars};

verus! {

broadcast use vstd::std_specs::btree::group_btree_axioms;

/// Why the registry refused a lease (the kinds of its errors).
#[derive(Debug, Clone, Copy, PartialEq, Eq, Structural)]
pub enum LeaseErrorKind {
    MissingAccount,
    AccountNotReady,
    NoReadyAccounts,
    InsufficientAccountCapacity,
    LeaseBusy,
    LeaseUnavailable,
    Lock,
    Read,
    Parse,
    Write,
    CreatePrivateDir,
    DuplicateAccountId,
    LeaseInvalid,
    EmptyAccountId,
    InvalidAccountId,
}

/// The stable code of each refusal; a busy and an unavailable lease are
/// both "capacity busy".
pub open spec fn lease_error_code_spec(k: LeaseErrorKind) -> Seq<char> {
    match k {
        LeaseErrorKind::MissingAccount => "browser-account-not-registered"@,
        LeaseErrorKind::AccountNotReady => "browser-account-not-ready"@,
        LeaseErrorKind::NoReadyAccounts => "browser-account-none-ready"@,
        LeaseErrorKind::InsufficientAccountCapacity => "browser-account-insufficient-capacity"@,
        LeaseErrorKind::LeaseBusy => "browser-account-capacity-busy"@,
        LeaseErrorKind::LeaseUnavailable => "browser-account-capacity-busy"@,
        LeaseErrorKind::Lock => "browser-lease-lock-failed"@,
        LeaseErrorKind::Read => "browser-registry-read-failed"@,
        LeaseErrorKind::Parse => "browser-registry-parse-failed"@,
        LeaseErrorKind::Write => "browser-registry-write-failed"@,
        LeaseErrorKind::CreatePrivateDir => "browser-runtime-dir-failed"@,
        LeaseErrorKind::DuplicateAccountId => "browser-account-duplicate"@,
        LeaseErrorKind::LeaseInvalid => "browser-lease-invalid"@,
        LeaseErrorKind::EmptyAccountId => "browser-account-empty"@,
        LeaseErrorKind::InvalidAccountId => "browser-account-invalid"@,
    }
}

pub fn browser_lease_error_code(kind: LeaseErrorKind) -> (r: &'static str)
    ensures
        r@ == lease_error_code_spec(kind),
{
    match kind {
        LeaseErrorKind::MissingAccount => "browser-account-not-registered",
        LeaseErrorKind::AccountNotReady => "browser-account-not-ready",
        LeaseErrorKind::NoReadyAccounts => "browser-account-none-ready",
        LeaseErrorKind::InsufficientAccountCapacity => "browser-account-insufficient-capacity",
        LeaseErrorKind::LeaseBusy => "browser-account-capacity-busy",
        LeaseErrorKind::LeaseUnavailable => "browser-account-capacity-busy",
        LeaseErrorKind::Lock => "browser-lease-lock-failed",
        LeaseErrorKind::Read => "browser-registry-read-failed",
        LeaseErrorKind::Parse => "browser-registry-parse-failed",
        LeaseErrorKind::Write => "browser-registry-write-failed",
        LeaseErrorKind::CreatePrivateDir => "browser-runtime-dir-failed",
        LeaseErrorKind::DuplicateAccountId => "browser-account-duplicate",
        LeaseErrorKind::LeaseInvalid => "browser-lease-invalid",
        LeaseErrorKind::EmptyAccountId => "browser-account-empty",
        LeaseErrorKind::InvalidAccountId => "browser-account-invalid",
    }
}

/// What one attempt to take the lease gave.
#[derive(Debug, Clone, Copy, PartialEq, Eq, Structural)]
pub enum LeaseAttempt {
    Acquired,
    Refused(LeaseErrorKind),
}

/// What to do after an attempt.
#[derive(Debug, Clone, PartialEq, Eq)]
pub enum LeaseDecision {
    /// The lease is held: go on with the run.
    Proceed,
    /// The accounts are busy and the run may queue: try again later.
    Retry,
    /// The queue waited too long.
    TimedOut,
    /// The lease cannot be had, for the refusal with this code.
    Fail(String),
}

pub open spec fn lease_decision_spec(
    attempt: LeaseAttempt,
    allow_queueing: bool,
    waited_seconds: u64,
    queue_timeout_seconds: u64,
) -> LeaseDecisionView {
    match attempt {
        LeaseAttempt::Acquired => LeaseDecisionView::Proceed,
        LeaseAttempt::Refused(k) => if k == LeaseErrorKind::LeaseBusy && allow_queueing {
            if waited_seconds >= queue_timeout_seconds {
                LeaseDecisionView::TimedOut
            } else {
                LeaseDecisionView::Retry
            }
        } else {
            LeaseDecisionView::Fail(lease_error_code_spec(k))
        },
    }
}

/// A decision with its code taken by its characters.
pub enum LeaseDecisionView {
    Proceed,
    Retry,
    TimedOut,
    Fail(Seq<char>),
}

pub open spec fn decision_view(d: LeaseDecision) -> LeaseDecisionView {
    match d {
        LeaseDecision::Proceed => LeaseDecisionView::Proceed,
        LeaseDecision::Retry => LeaseDecisionView::Retry,
        LeaseDecision::TimedOut => LeaseDecisionView::TimedOut,
        LeaseDecision::Fail(c) => LeaseDecisionView::Fail(c@),
    }
}

/// Decides after an attempt: a busy registry is waited out while the run
/// may queue and the queue has not timed out; any other refusal fails the
/// run.
pub fn lease_decision(
    attempt: LeaseAttempt,
    allow_queueing: bool,
    waited_seconds: u64,
    queue_timeout_seconds: u64,
) -> (r: LeaseDecision)
    ensures
        decision_view(r) == lease_decision_spec(
            attempt,
            allow_queueing,
            waited_seconds,
            queue_timeout_seconds,
        ),
{
    match attempt {
        LeaseAttempt::Acquired => LeaseDecision::Proceed,
        LeaseAttempt::Refused(k) => if k == LeaseErrorKind::LeaseBusy && allow_queueing {
            if waited_seconds >= queue_timeout_seconds {
                LeaseDecision::TimedOut
            } else {
                LeaseDecision::Retry
            }
        } else {
            LeaseDecision::Fail(String::from_str(browser_lease_error_code(k)))
        },
    }
}

/// The event that tells a run is queued for browser capacity.
pub fn queued_event(
    run_id: String,
    requested_tabs: u16,
    requested_account_count: u64,
    allow_queueing: bool,
    queue_timeout_seconds: u64,
) -> (r: JailgunEvent)
    ensures
        crate::run_event::rfc3339_utc_text(r.timestamp@),
        r.run_id == run_id,
        r.kind == EventKind::RunQueued,
        r.severity == Severity::Info,
        r.tab_id is None,
        r.message@ == "browser account capacity queued"@,
        r.fields@ == map![
            "requested_tabs"@ => decimal(requested_tabs as nat),
            "requested_account_count"@ => decimal(requested_account_count as nat),
            "allow_queueing"@ => bool_text(allow_queueing),
            "queue_timeout_seconds"@ => decimal(queue_timeout_seconds as nat),
        ],
{
    let e = JailgunEvent::new(
        run_id,
        EventKind::RunQueued,
        String::from_str("browser account capacity queued"),
    ).with_field("requested_tabs", decimal_string(requested_tabs as u64)).with_field(
        "requested_account_count",
        decimal_string(requested_account_count),
    ).with_field("allow_queueing", crate::run_event::bool_string(allow_queueing)).with_field(
        "queue_timeout_seconds",
        decimal_string(queue_timeout_seconds),
    );
    assert(e.fields@ =~= map![
        "requested_tabs"@ => decimal(requested_tabs as nat),
        "requested_account_count"@ => decimal(requested_account_count as nat),
        "allow_queueing"@ => bool_text(allow_queueing),
        "queue_timeout_seconds"@ => decimal(queue_timeout_seconds as nat),
    ]);
    e
}

/// The event that tells the lease was taken.
pub fn acquired_event(
    run_id: String,
    leased_account_count: u64,
    leased_tab_count: u64,
    queue_wait_ms: u64,
) -> (r: JailgunEvent)
    ensures
        crate::run_event::rfc3339_utc_text(r.timestamp@),
        r.run_id == run_id,
        r.kind == EventKind::BrowserLeaseAcquired,
        r.severity == Severity::Info,
        r.tab_id is None,
        r.message@ == "browser account lease acquired"@,
        r.fields@ == map![
            "leased_account_count"@ => decimal(leased_account_count as nat),
            "leased_tab_count"@ => decimal(leased_tab_count as nat),
            "queue_wait_ms"@ => decimal(queue_wait_ms as nat),
        ],
{
    let e = JailgunEvent::new(
        run_id,
        EventKind::BrowserLeaseAcquired,
        String::from_str("browser account lease acquired"),
    ).with_field("leased_account_count", decimal_string(leased_account_count)).with_field(
        "leased_tab_count",
        decimal_string(leased_tab_count),
    ).with_field("queue_wait_ms", decimal_string(queue_wait_ms));
    assert(e.fields@ =~= map![
        "leased_account_count"@ => decimal(leased_account_count as nat),
        "leased_tab_count"@ => decimal(leased_tab_count as nat),
        "queue_wait_ms"@ => decimal(queue_wait_ms as nat),
    ]);
    e
}

/// The event that tells the lease was given back.
pub fn released_event(run_id: String, leased_account_count: u64, leased_tab_count: u64) -> (r:
    JailgunEvent)
    ensures
        crate::run_event::rfc3339_utc_text(r.timestamp@),
        r.run_id == run_id,
        r.kind == EventKind::BrowserLeaseReleased,
        r.severity == Severity::Info,
        r.tab_id is None,
        r.message@ == "browser account lease released"@,
        r.fields@ == map![
            "leased_account_count"@ => decimal(leased_account_count as nat),
            "leased_tab_count"@ => decimal(leased_tab_count as nat),
        ],
{
    let e = JailgunEvent::new(
        run_id,
        EventKind::BrowserLeaseReleased,
        String::from_str("browser account lease released"),
    ).with_field("leased_account_count", decimal_string(leased_account_count)).with_field(
        "leased_tab_count",
        decimal_string(leased_tab_count),
    );
    assert(e.fields@ =~= map![
        "leased_account_count"@ => decimal(leased_account_count as nat),
        "leased_tab_count"@ => decimal(leased_tab_count as nat),
    ]);
    e
}

/// The error event of a queue that timed out.
pub fn queue_timeout_event(run_id: String, requested_tabs: u16, queue_timeout_seconds: u64) -> (r:
    JailgunEvent)
    ensures
        crate::run_event::rfc3339_utc_text(r.timestamp@),
        r.run_id == run_id,
        r.kind == EventKind::Error,
        r.severity == Severity::Error,
        r.tab_id is None,
        r.message@ == "browser account queue timed out"@,
        r.fields@ == map![
            "kind"@ => "browser-lease-timeout"@,
            "requested_tabs"@ => decimal(requested_tabs as nat),
            "queue_timeout_seconds"@ => decimal(queue_timeout_seconds as nat),
        ],
{
    let e = JailgunEvent::new(
        run_id,
        EventKind::Error,
        String::from_str("browser account queue timed out"),
    ).with_severity(Severity::Error).with_field(
        "kind",
        String::from_str("browser-lease-timeout"),
    ).with_field("requested_tabs", decimal_string(requested_tabs as u64)).with_field(
        "queue_timeout_seconds",
        decimal_string(queue_timeout_seconds),
    );
    assert(e.fields@ =~= map![
        "kind"@ => "browser-lease-timeout"@,
        "requested_tabs"@ => decimal(requested_tabs as nat),
        "queue_timeout_seconds"@ => decimal(queue_timeout_seconds as nat),
    ]);
    e
}

/// The error event of a lease that cannot be had.
pub fn lease_failed_event(run_id: String, code: &str, requested_tabs: u16) -> (r: JailgunEvent)
    ensures
        crate::run_event::rfc3339_utc_text(r.timestamp@),
        r.run_id == run_id,
        r.kind == EventKind::Error,
        r.severity == Severity::Error,
        r.tab_id is None,
        r.message@ == "browser lease failed: "@ + code@,
        r.fields@ == map![
            "kind"@ => code@,
            "requested_tabs"@ => decimal(requested_tabs as nat),
        ],
{
    let mut m: Vec<char> = Vec::new();
    crate::text::push_str(&mut m, "browser lease failed: ");
    crate::text::push_str(&mut m, code);
    let e = JailgunEvent::new(run_id, EventKind::Error, crate::text::string_of(&m)).with_severity(
        Severity::Error,
    ).with_field("kind", String::from_str(code)).with_field(
        "requested_tabs",
        decimal_string(requested_tabs as u64),
    );
    assert(e.fields@ =~= map![
        "kind"@ => code@,
        "requested_tabs"@ => decimal(requested_tabs as nat),
    ]);
    e
}

/// The profile directories of the accounts, in order.
pub open spec fn profile_dirs(accounts: Seq<BrowserAccount>) -> Seq<Seq<char>> {
    accounts.map_values(|a: BrowserAccount| a.profile_dir@)
}

/// Routes a run over its leased accounts: the bridge environment over all
/// of them, the first one's profile as the run's, every profile in the
/// pool, and tab `i + 1` on the `i`-th tab account's profile; on a
/// platform whose main path separator is `main_sep`.
pub fn apply_browser_lease_to_options(
    opts: &mut RunOptions,
    accounts: &Vec<BrowserAccount>,
    tab_accounts: &Vec<BrowserAccount>,
    main_sep: char,
) -> (r: Result<(), String>)
    requires
        tab_accounts@.len() <= u16::MAX,
    ensures
        accounts@.len() == 0 ==> (r matches Err(m) && m@ == "browser lease returned no accounts"@
            && *final(opts) == *old(opts)),
        accounts@.len() > 0 ==> profile_env_outcome(
            old(opts).bridge_env@,
            old(opts).config,
            accounts@,
            Seq::empty(),
            accounts@[0].profile_dir@,
            None,
            main_sep,
            r,
            final(opts).bridge_env@,
        ),
        accounts@.len() > 0 && r is Ok ==> {
            &&& final(opts).profile_dir == accounts@[0].profile_dir
            &&& strings_chars(final(opts).profile_pool@) == profile_dirs(accounts@)
            &&& final(opts).tab_profile_dirs@.dom() == Set::new(
                |t: u16| 1 <= t <= tab_accounts@.len(),
            )
            &&& forall|t: u16|
                1 <= t <= tab_accounts@.len() ==> #[trigger] final(opts).tab_profile_dirs@[t]
                    == tab_accounts@[t - 1].profile_dir
        },
{
    if accounts.len() == 0 {
        return Err(String::from_str("browser lease returned no accounts"));
    }
    let primary_dir = accounts[0].profile_dir.clone();
    let no_pool: Vec<String> = Vec::new();
    assert(strings_chars(no_pool@) =~= Seq::<Seq<char>>::empty());
    let applied = apply_profile_env_with(
        &mut opts.bridge_env,
        &opts.config,
        accounts,
        &no_pool,
        primary_dir.as_str(),
        None,
        main_sep,
    );
    match applied {
        Ok(()) => {},
        Err(m) => {
            return Err(m);
        },
    }
    opts.profile_dir = primary_dir;
    let mut pool: Vec<String> = Vec::new();
    let mut i: usize = 0;
    while i < accounts.len()
        invariant
            i <= accounts.len(),
            strings_chars(pool@) == profile_dirs(accounts@.take(i as int)),
        decreases accounts.len() - i,
    {
        let ghost before = pool@;
        pool.push(accounts[i].profile_dir.clone());
        proof {
            assert(accounts@.take(i + 1) =~= accounts@.take(i as int).push(accounts@[i as int]));
            assert(strings_chars(pool@) =~= strings_chars(before).push(accounts@[i as int].profile_dir@));
            assert(profile_dirs(accounts@.take(i + 1)) =~= profile_dirs(accounts@.take(i as int)).push(
                accounts@[i as int].profile_dir@,
            ));
        }
        i = i + 1;
    }
    assert(accounts@.take(accounts.len() as int) =~= accounts@);
    opts.profile_pool = pool;
    let mut dirs: BTreeMap<u16, String> = BTreeMap::new();
    let mut j: usize = 0;
    while j < tab_accounts.len()
        invariant
            j <= tab_accounts.len(),
            tab_accounts@.len() <= u16::MAX,
            dirs@.dom() == Set::new(|t: u16| 1 <= t <= j),
            forall|t: u16| 1 <= t <= j ==> #[trigger] dirs@[t] == tab_accounts@[t - 1].profile_dir,
        decreases tab_accounts.len() - j,
    {
        let tab: u16 = (j + 1) as u16;
        dirs.insert(tab, tab_accounts[j].profile_dir.clone());
        assert(dirs@.dom() =~= Set::new(|t: u16| 1 <= t <= j + 1));
        j = j + 1;
    }
    opts.tab_profile_dirs = dirs;
    Ok(())
}

/// The summary of a run stopped at its runtime limit.
pub fn timed_out_summary(run_id: String, tabs: u16) -> (r: RunSummary)
    ensures
        r.run_id == run_id,
        r.total_tabs == tabs,
        r.downloaded == 0,
        r.deployed == 0,
        crate::supervisor::failure_list(r) == seq![(0u16, "agent max runtime exceeded"@)],
        r.denied_github_prompts == 0,
        r.allowed_info_prompts == 0,
{
    let mut failures: Vec<(u16, String)> = Vec::new();
    failures.push((0, String::from_str("agent max runtime exceeded")));
    let r = RunSummary {
        run_id,
        total_tabs: tabs,
        downloaded: 0,
        deployed: 0,
        failures,
        denied_github_prompts: 0,
        allowed_info_prompts: 0,
    };
    assert(crate::supervisor::failure_list(r) =~= seq![(0u16, "agent max runtime exceeded"@)]);
    r
}

} // verus!
