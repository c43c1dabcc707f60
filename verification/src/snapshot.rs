//! The server's board of runs: a snapshot per run, with one per tab,
//! kept up to date from the events the runs publish.
use vstd::prelude::*;
use crate::run_event::{EventKind, JailgunEvent};
use crate::text::{opt_chars, parse_u64, parse_u64_spec, str_eq};

verus! {

/// Where a run's deploys stand.
#[derive(Debug, Clone, Copy, PartialEq, Eq, Structural)]
pub enum DeployQueueState {
    Idle,
    Waiting,
    Done,
}

/// What the board shows of one tab.
#[derive(Debug, Clone)]
pub struct TabSnapshot {
    pub tab_id: u16,
    pub status: String,
    pub page_url: String,
    pub archive_sha256: Option<String>,
    pub download_latency_ms: Option<u64>,
    pub deploy_status: String,
    pub prompt_policy_decision: Option<String>,
}

/// A tab snapshot with its texts taken by their characters.
pub struct TabSnapshotView {
    pub tab_id: u16,
    pub status: Seq<char>,
    pub page_url: Seq<char>,
    pub archive_sha256: Option<Seq<char>>,
    pub download_latency_ms: Option<u64>,
    pub deploy_status: Seq<char>,
    pub prompt_policy_decision: Option<Seq<char>>,
}

impl View for TabSnapshot {
    type V = TabSnapshotView;

    open spec fn view(&self) -> TabSnapshotView {
        TabSnapshotView {
            tab_id: self.tab_id,
            status: self.status@,
            page_url: self.page_url@,
            archive_sha256: opt_chars(self.archive_sha256),
            download_latency_ms: self.download_latency_ms,
            deploy_status: self.deploy_status@,
            prompt_policy_decision: opt_chars(self.prompt_policy_decision),
        }
    }
}

/// What the board shows of one run.
#[derive(Debug, Clone)]
pub struct RunSnapshot {
    pub run_id: String,
    pub started_at: String,
    pub finished_at: Option<String>,
    pub status: String,
    pub tabs: Vec<TabSnapshot>,
    pub deploy_queue: DeployQueueState,
    pub denied_github_prompts: u32,
    pub allowed_info_prompts: u32,
}

/// A run snapshot with its texts taken by their characters.
pub struct RunSnapshotView {
    pub run_id: Seq<char>,
    pub started_at: Seq<char>,
    pub finished_at: Option<Seq<char>>,
    pub status: Seq<char>,
    pub tabs: Seq<TabSnapshotView>,
    pub deploy_queue: DeployQueueState,
    pub denied_github_prompts: u32,
    pub allowed_info_prompts: u32,
}

pub open spec fn tabs_view(tabs: Seq<TabSnapshot>) -> Seq<TabSnapshotView> {
    tabs.map_values(|t: TabSnapshot| t@)
}

impl View for RunSnapshot {
    type V = RunSnapshotView;

    open spec fn view(&self) -> RunSnapshotView {
        RunSnapshotView {
            run_id: self.run_id@,
            started_at: self.started_at@,
            finished_at: opt_chars(self.finished_at),
            status: self.status@,
            tabs: tabs_view(self.tabs@),
            deploy_queue: self.deploy_queue,
            denied_github_prompts: self.denied_github_prompts,
            allowed_info_prompts: self.allowed_info_prompts,
        }
    }
}

pub open spec fn runs_view(runs: Seq<RunSnapshot>) -> Seq<RunSnapshotView> {
    runs.map_values(|r: RunSnapshot| r@)
}

/// `key`'s value in `f`, else `current`.
pub open spec fn field_or(f: Map<Seq<char>, Seq<char>>, key: Seq<char>, current: Seq<char>) -> Seq<
    char,
> {
    if f.contains_key(key) {
        f[key]
    } else {
        current
    }
}

/// `key`'s value in `f` if set, else `current`.
pub open spec fn opt_field_or(
    f: Map<Seq<char>, Seq<char>>,
    key: Seq<char>,
    current: Option<Seq<char>>,
) -> Option<Seq<char>> {
    if f.contains_key(key) {
        Some(f[key])
    } else {
        current
    }
}

/// A tab after an event's fields: each field it carries replaces what the
/// tab showed; a latency that does not parse clears the latency.
pub open spec fn tab_with_fields(t: TabSnapshotView, f: Map<Seq<char>, Seq<char>>) -> TabSnapshotView {
    TabSnapshotView {
        tab_id: t.tab_id,
        status: field_or(f, "tab_status"@, t.status),
        page_url: field_or(f, "page_url"@, t.page_url),
        archive_sha256: opt_field_or(f, "sha256"@, t.archive_sha256),
        download_latency_ms: if f.contains_key("download_latency_ms"@) {
            parse_u64_spec(f["download_latency_ms"@])
        } else {
            t.download_latency_ms
        },
        deploy_status: field_or(f, "deploy_status"@, t.deploy_status),
        prompt_policy_decision: opt_field_or(f, "decision"@, t.prompt_policy_decision),
    }
}

/// A tab after an event: its fields, then what the event's kind says of
/// the tab.
pub open spec fn tab_after(t: TabSnapshotView, kind: EventKind, f: Map<Seq<char>, Seq<char>>) -> TabSnapshotView {
    let t1 = tab_with_fields(t, f);
    match kind {
        EventKind::TabOpened => if t1.status == "active"@ {
            TabSnapshotView { status: "opening"@, ..t1 }
        } else {
            t1
        },
        EventKind::PromptSubmitted => TabSnapshotView { status: "submitted"@, ..t1 },
        EventKind::TarDiscovered => TabSnapshotView { status: "tar-discovered"@, ..t1 },
        EventKind::DownloadReceipt => TabSnapshotView { status: "downloaded"@, ..t1 },
        EventKind::DeployFinished => TabSnapshotView {
            deploy_status: field_or(f, "outcome"@, "succeeded"@),
            ..t1
        },
        EventKind::RemoteSafety => TabSnapshotView {
            deploy_status: field_or(f, "policy"@, t1.deploy_status),
            ..t1
        },
        EventKind::Error => TabSnapshotView { status: "error"@, ..t1 },
        _ => t1,
    }
}

/// Applies an event to a tab's snapshot.
pub fn apply_tab_event(tab: &mut TabSnapshot, event: &JailgunEvent)
    ensures
        final(tab)@ == tab_after(old(tab)@, event.kind, event.fields@),
{
    if let Some(status) = event.fields.get("tab_status") {
        tab.status = status.clone();
    }
    if let Some(page_url) = event.fields.get("page_url") {
        tab.page_url = page_url.clone();
    }
    if let Some(sha256) = event.fields.get("sha256") {
        tab.archive_sha256 = Some(sha256.clone());
    }
    if let Some(latency) = event.fields.get("download_latency_ms") {
        tab.download_latency_ms = parse_u64(latency.as_str());
    }
    if let Some(deploy_status) = event.fields.get("deploy_status") {
        tab.deploy_status = deploy_status.clone();
    }
    if let Some(decision) = event.fields.get("decision") {
        tab.prompt_policy_decision = Some(decision.clone());
    }
    assert(tab@ == tab_with_fields(old(tab)@, event.fields@));
    match event.kind {
        EventKind::TabOpened => {
            if str_eq(tab.status.as_str(), "active") {
                tab.status = String::from_str("opening");
            }
        },
        EventKind::PromptSubmitted => {
            tab.status = String::from_str("submitted");
        },
        EventKind::TarDiscovered => {
            tab.status = String::from_str("tar-discovered");
        },
        EventKind::DownloadReceipt => {
            tab.status = String::from_str("downloaded");
        },
        EventKind::DeployFinished => {
            tab.deploy_status = match event.fields.get("outcome") {
                Some(o) => o.clone(),
                None => String::from_str("succeeded"),
            };
        },
        EventKind::RemoteSafety => {
            if let Some(policy) = event.fields.get("policy") {
                tab.deploy_status = policy.clone();
            }
        },
        EventKind::Error => {
            tab.status = String::from_str("error");
        },
        _ => {},
    }
}

/// The position of the first tab with `tab_id`, if any.
pub open spec fn tab_position(tabs: Seq<TabSnapshotView>, tab_id: u16) -> Option<int>
    decreases tabs.len(),
{
    if tabs.len() == 0 {
        None
    } else {
        match tab_position(tabs.drop_last(), tab_id) {
            Some(p) => Some(p),
            None => if tabs.last().tab_id == tab_id {
                Some(tabs.len() - 1)
            } else {
                None
            },
        }
    }
}

/// A tab seen for the first time: active, with its deploy pending.
pub open spec fn new_tab(tab_id: u16) -> TabSnapshotView {
    TabSnapshotView {
        tab_id,
        status: "active"@,
        page_url: Seq::empty(),
        archive_sha256: None,
        download_latency_ms: None,
        deploy_status: "pending"@,
        prompt_policy_decision: None,
    }
}

/// The tabs with `tab_id` present, and its position: the first tab with
/// that id, else a new tab at the end.
pub open spec fn upserted(tabs: Seq<TabSnapshotView>, tab_id: u16) -> (Seq<TabSnapshotView>, int) {
    match tab_position(tabs, tab_id) {
        Some(p) => (tabs, p),
        None => (tabs.push(new_tab(tab_id)), tabs.len() as int),
    }
}

proof fn lemma_tab_position(tabs: Seq<TabSnapshotView>, tab_id: u16, i: int)
    requires
        0 <= i <= tabs.len(),
        forall|j: int| 0 <= j < i ==> (#[trigger] tabs[j]).tab_id != tab_id,
    ensures
        tab_position(tabs.take(i), tab_id) is None,
        i < tabs.len() && tabs[i].tab_id == tab_id ==> tab_position(tabs.take(i + 1), tab_id)
            == Some(i),
    decreases i,
{
    if i > 0 {
        assert(tabs.take(i).drop_last() =~= tabs.take(i - 1));
        lemma_tab_position(tabs, tab_id, i - 1);
    }
    if i < tabs.len() {
        assert(tabs.take(i + 1).drop_last() =~= tabs.take(i));
    }
}

/// A position in a prefix is its position in the whole.
proof fn lemma_tab_position_extends(tabs: Seq<TabSnapshotView>, tab_id: u16, i: int)
    requires
        0 <= i <= tabs.len(),
        tab_position(tabs.take(i), tab_id) is Some,
    ensures
        tab_position(tabs, tab_id) == tab_position(tabs.take(i), tab_id),
    decreases tabs.len() - i,
{
    if i < tabs.len() {
        assert(tabs.take(i + 1).drop_last() =~= tabs.take(i));
        lemma_tab_position_extends(tabs, tab_id, i + 1);
    } else {
        assert(tabs.take(i) =~= tabs);
    }
}

proof fn lemma_tab_position_none(tabs: Seq<TabSnapshotView>, tab_id: u16)
    requires
        forall|j: int| 0 <= j < tabs.len() ==> (#[trigger] tabs[j]).tab_id != tab_id,
    ensures
        tab_position(tabs, tab_id) is None,
{
    lemma_tab_position(tabs, tab_id, tabs.len() as int);
    assert(tabs.take(tabs.len() as int) =~= tabs);
}

/// The position of the first tab with `tab_id`, if any.
fn find_tab(tabs: &Vec<TabSnapshot>, tab_id: u16) -> (r: Option<usize>)
    ensures
        match r {
            Some(p) => p < tabs@.len() && tab_position(tabs_view(tabs@), tab_id) == Some(p as int),
            None => tab_position(tabs_view(tabs@), tab_id) is None,
        },
{
    let ghost v = tabs_view(tabs@);
    let mut i: usize = 0;
    while i < tabs.len()
        invariant
            i <= tabs.len(),
            v == tabs_view(tabs@),
            forall|j: int| 0 <= j < i ==> (#[trigger] v[j]).tab_id != tab_id,
        decreases tabs.len() - i,
    {
        if tabs[i].tab_id == tab_id {
            proof {
                lemma_tab_position(v, tab_id, i as int);
                lemma_tab_position_extends(v, tab_id, i + 1);
            }
            return Some(i);
        }
        i = i + 1;
    }
    proof {
        lemma_tab_position_none(v, tab_id);
    }
    None
}

/// Whether a decision answers a GitHub prompt.
pub open spec fn is_deny(d: Option<Seq<char>>) -> bool {
    d == Some("deny"@)
}

pub open spec fn is_allow_info(d: Option<Seq<char>>) -> bool {
    d == Some("allow-info"@)
}

/// Whether the run's prompt counters can count one more prompt.
pub open spec fn counters_have_room(r: RunSnapshotView) -> bool {
    r.denied_github_prompts < u32::MAX && r.allowed_info_prompts < u32::MAX
}

/// A run after what an event's kind says of the run as a whole.
pub open spec fn run_fields_after(r: RunSnapshotView, e: JailgunEvent) -> RunSnapshotView {
    let f = e.fields@;
    match e.kind {
        EventKind::RunQueued => RunSnapshotView { status: "queued"@, ..r },
        EventKind::BrowserLeaseAcquired => RunSnapshotView { status: "starting"@, ..r },
        EventKind::RunStarted => RunSnapshotView {
            started_at: e.timestamp@,
            status: field_or(f, "status"@, "running"@),
            ..r
        },
        EventKind::DeployQueued => RunSnapshotView { deploy_queue: DeployQueueState::Waiting, ..r },
        EventKind::DeployFinished => RunSnapshotView {
            deploy_queue: DeployQueueState::Done,
            finished_at: Some(e.timestamp@),
            ..r
        },
        EventKind::Error => RunSnapshotView {
            status: "failed"@,
            finished_at: Some(e.timestamp@),
            ..r
        },
        EventKind::PromptPolicy => {
            let d = if f.contains_key("decision"@) {
                Some(f["decision"@])
            } else {
                None
            };
            if is_deny(d) {
                RunSnapshotView {
                    denied_github_prompts: (r.denied_github_prompts + 1) as u32,
                    ..r
                }
            } else if is_allow_info(d) {
                RunSnapshotView { allowed_info_prompts: (r.allowed_info_prompts + 1) as u32, ..r }
            } else {
                r
            }
        },
        _ => r,
    }
}

/// A run after an event: the run's fields, then the tab the event names,
/// added when first seen.
pub open spec fn run_after(r: RunSnapshotView, e: JailgunEvent) -> RunSnapshotView {
    let r1 = run_fields_after(r, e);
    match e.tab_id {
        Some(id) => {
            let (tabs, p) = upserted(r1.tabs, id);
            RunSnapshotView { tabs: tabs.update(p, tab_after(tabs[p], e.kind, e.fields@)), ..r1 }
        },
        None => r1,
    }
}

fn new_tab_snapshot(tab_id: u16) -> (r: TabSnapshot)
    ensures
        r@ == new_tab(tab_id),
{
    TabSnapshot {
        tab_id,
        status: String::from_str("active"),
        page_url: String::new(),
        archive_sha256: None,
        download_latency_ms: None,
        deploy_status: String::from_str("pending"),
        prompt_policy_decision: None,
    }
}

/// Counts a GitHub prompt the policy denied or answered for information.
pub fn bump_policy_counts(run: &mut RunSnapshot, event: &JailgunEvent)
    requires
        counters_have_room(old(run)@),
    ensures
        final(run)@ == ({
            let d = if event.fields@.contains_key("decision"@) {
                Some(event.fields@["decision"@])
            } else {
                None
            };
            if is_deny(d) {
                RunSnapshotView {
                    denied_github_prompts: (old(run)@.denied_github_prompts + 1) as u32,
                    ..old(run)@
                }
            } else if is_allow_info(d) {
                RunSnapshotView {
                    allowed_info_prompts: (old(run)@.allowed_info_prompts + 1) as u32,
                    ..old(run)@
                }
            } else {
                old(run)@
            }
        }),
{
    match event.fields.get("decision") {
        Some(d) => {
            if str_eq(d.as_str(), "deny") {
                run.denied_github_prompts = run.denied_github_prompts + 1;
            } else if str_eq(d.as_str(), "allow-info") {
                run.allowed_info_prompts = run.allowed_info_prompts + 1;
            }
        },
        None => {},
    }
}

/// Applies an event to its run's snapshot.
pub fn apply_event_to_run(run: &mut RunSnapshot, event: &JailgunEvent)
    requires
        event.kind == EventKind::PromptPolicy ==> counters_have_room(old(run)@),
    ensures
        final(run)@ == run_after(old(run)@, *event),
{
    match event.kind {
        EventKind::RunQueued => {
            run.status = String::from_str("queued");
        },
        EventKind::BrowserLeaseAcquired => {
            run.status = String::from_str("starting");
        },
        EventKind::RunStarted => {
            run.started_at = event.timestamp.clone();
            run.status = match event.fields.get("status") {
                Some(s) => s.clone(),
                None => String::from_str("running"),
            };
        },
        EventKind::DeployQueued => {
            run.deploy_queue = DeployQueueState::Waiting;
        },
        EventKind::DeployFinished => {
            run.deploy_queue = DeployQueueState::Done;
            run.finished_at = Some(event.timestamp.clone());
        },
        EventKind::Error => {
            run.status = String::from_str("failed");
            run.finished_at = Some(event.timestamp.clone());
        },
        EventKind::PromptPolicy => {
            bump_policy_counts(run, event);
        },
        _ => {},
    }
    assert(run@ == run_fields_after(old(run)@, *event));
    if let Some(tab_id) = event.tab_id {
        let ghost before = run.tabs@;
        let p = match find_tab(&run.tabs, tab_id) {
            Some(p) => p,
            None => {
                run.tabs.push(new_tab_snapshot(tab_id));
                assert(tabs_view(run.tabs@) =~= tabs_view(before).push(new_tab(tab_id)));
                run.tabs.len() - 1
            },
        };
        let ghost mid = run.tabs@;
        assert(upserted(tabs_view(before), tab_id) == (tabs_view(mid), p as int));
        let mut tab = run.tabs.remove(p);
        apply_tab_event(&mut tab, event);
        run.tabs.insert(p, tab);
        assert(tabs_view(run.tabs@) =~= tabs_view(mid).update(
            p as int,
            tab_after(tabs_view(mid)[p as int], event.kind, event.fields@),
        ));
    }
}

/// The position of the first run with `run_id`, if any.
pub open spec fn run_position(runs: Seq<RunSnapshotView>, run_id: Seq<char>) -> Option<int>
    decreases runs.len(),
{
    if runs.len() == 0 {
        None
    } else {
        match run_position(runs.drop_last(), run_id) {
            Some(p) => Some(p),
            None => if runs.last().run_id == run_id {
                Some(runs.len() - 1)
            } else {
                None
            },
        }
    }
}

proof fn lemma_run_position(runs: Seq<RunSnapshotView>, run_id: Seq<char>, i: int)
    requires
        0 <= i <= runs.len(),
        forall|j: int| 0 <= j < i ==> (#[trigger] runs[j]).run_id != run_id,
    ensures
        run_position(runs.take(i), run_id) is None,
        i < runs.len() && runs[i].run_id == run_id ==> run_position(runs.take(i + 1), run_id)
            == Some(i),
    decreases i,
{
    if i > 0 {
        assert(runs.take(i).drop_last() =~= runs.take(i - 1));
        lemma_run_position(runs, run_id, i - 1);
    }
    if i < runs.len() {
        assert(runs.take(i + 1).drop_last() =~= runs.take(i));
    }
}

proof fn lemma_run_position_extends(runs: Seq<RunSnapshotView>, run_id: Seq<char>, i: int)
    requires
        0 <= i <= runs.len(),
        run_position(runs.take(i), run_id) is Some,
    ensures
        run_position(runs, run_id) == run_position(runs.take(i), run_id),
    decreases runs.len() - i,
{
    if i < runs.len() {
        assert(runs.take(i + 1).drop_last() =~= runs.take(i));
        lemma_run_position_extends(runs, run_id, i + 1);
    } else {
        assert(runs.take(i) =~= runs);
    }
}

/// A run is found exactly when one has its id, at a position that has it.
pub proof fn lemma_run_position_found(runs: Seq<RunSnapshotView>, run_id: Seq<char>)
    ensures
        run_position(runs, run_id) is None <==> forall|j: int|
            0 <= j < runs.len() ==> (#[trigger] runs[j]).run_id != run_id,
        run_position(runs, run_id) matches Some(p) ==> 0 <= p < runs.len() && runs[p].run_id
            == run_id,
    decreases runs.len(),
{
    if runs.len() > 0 {
        lemma_run_position_found(runs.drop_last(), run_id);
        assert(forall|j: int| 0 <= j < runs.len() - 1 ==> #[trigger] runs.drop_last()[j] == runs[j]);
        if forall|j: int| 0 <= j < runs.len() ==> (#[trigger] runs[j]).run_id != run_id {
            assert(forall|j: int|
                0 <= j < runs.len() - 1 ==> (#[trigger] runs.drop_last()[j]).run_id != run_id);
        }
        if run_position(runs, run_id) is None {
            assert forall|j: int| 0 <= j < runs.len() implies (#[trigger] runs[j]).run_id != run_id by {
                if j < runs.len() - 1 {
                    assert(runs.drop_last()[j] == runs[j]);
                }
            }
        }
    }
}

/// The position of the first run with `run_id`, if any.
pub fn find_run(runs: &Vec<RunSnapshot>, run_id: &str) -> (r: Option<usize>)
    ensures
        match r {
            Some(p) => p < runs@.len() && run_position(runs_view(runs@), run_id@) == Some(p as int),
            None => run_position(runs_view(runs@), run_id@) is None,
        },
{
    let ghost v = runs_view(runs@);
    let mut i: usize = 0;
    while i < runs.len()
        invariant
            i <= runs.len(),
            v == runs_view(runs@),
            forall|j: int| 0 <= j < i ==> (#[trigger] v[j]).run_id != run_id@,
        decreases runs.len() - i,
    {
        if str_eq(runs[i].run_id.as_str(), run_id) {
            proof {
                lemma_run_position(v, run_id@, i as int);
                lemma_run_position_extends(v, run_id@, i + 1);
            }
            return Some(i);
        }
        i = i + 1;
    }
    proof {
        lemma_run_position(v, run_id@, v.len() as int);
        assert(v.take(v.len() as int) =~= v);
    }
    None
}

/// A run first seen through one of its events: running since the event.
pub open spec fn fresh_run(e: JailgunEvent) -> RunSnapshotView {
    RunSnapshotView {
        run_id: e.run_id@,
        started_at: e.timestamp@,
        finished_at: None,
        status: "running"@,
        tabs: Seq::empty(),
        deploy_queue: DeployQueueState::Idle,
        denied_github_prompts: 0,
        allowed_info_prompts: 0,
    }
}

/// The board after an event: its run updated, or a new run put first.
pub open spec fn recorded(runs: Seq<RunSnapshotView>, e: JailgunEvent) -> Seq<RunSnapshotView> {
    match run_position(runs, e.run_id@) {
        Some(p) => runs.update(p, run_after(runs[p], e)),
        None => seq![run_after(fresh_run(e), e)] + runs,
    }
}

/// Whether every run with the event's id can count one more prompt.
pub open spec fn board_has_room(runs: Seq<RunSnapshotView>, e: JailgunEvent) -> bool {
    e.kind == EventKind::PromptPolicy ==> forall|i: int|
        0 <= i < runs.len() && (#[trigger] runs[i]).run_id == e.run_id@ ==> counters_have_room(
            runs[i],
        )
}

fn fresh_run_snapshot(event: &JailgunEvent) -> (r: RunSnapshot)
    ensures
        r@ == fresh_run(*event),
{
    let r = RunSnapshot {
        run_id: event.run_id.clone(),
        started_at: event.timestamp.clone(),
        finished_at: None,
        status: String::from_str("running"),
        tabs: Vec::new(),
        deploy_queue: DeployQueueState::Idle,
        denied_github_prompts: 0,
        allowed_info_prompts: 0,
    };
    assert(tabs_view(r.tabs@) =~= Seq::<TabSnapshotView>::empty());
    r
}

/// Records an event: it joins the event log, and its run's snapshot is
/// updated, or created first on the board.
pub fn record_event(events: &mut Vec<JailgunEvent>, runs: &mut Vec<RunSnapshot>, event: JailgunEvent)
    requires
        board_has_room(runs_view(old(runs)@), event),
    ensures
        final(events)@ == old(events)@.push(event),
        runs_view(final(runs)@) == recorded(runs_view(old(runs)@), event),
{
    let ghost before = runs_view(runs@);
    match find_run(runs, event.run_id.as_str()) {
        Some(p) => {
            proof {
                lemma_run_position_found(before, event.run_id@);
            }
            let mut run = runs.remove(p);
            apply_event_to_run(&mut run, &event);
            runs.insert(p, run);
            assert(runs_view(runs@) =~= before.update(p as int, run_after(before[p as int], event)));
        },
        None => {
            let mut run = fresh_run_snapshot(&event);
            apply_event_to_run(&mut run, &event);
            runs.insert(0, run);
            assert(runs_view(runs@) =~= seq![run_after(fresh_run(event), event)] + before);
        },
    }
    events.push(event);
}

/// The board after a snapshot is put on it: it replaces the first run with
/// its id, or goes first.
pub open spec fn with_snapshot(runs: Seq<RunSnapshotView>, s: RunSnapshotView) -> Seq<RunSnapshotView> {
    match run_position(runs, s.run_id) {
        Some(p) => runs.update(p, s),
        None => seq![s] + runs,
    }
}

/// Puts a run's snapshot on the board: first, or in place of the run with
/// its id.
pub fn insert_run_snapshot(runs: &mut Vec<RunSnapshot>, snapshot: RunSnapshot)
    ensures
        runs_view(final(runs)@) == with_snapshot(runs_view(old(runs)@), snapshot@),
{
    let ghost before = runs_view(runs@);
    let ghost sv = snapshot@;
    match find_run(runs, snapshot.run_id.as_str()) {
        Some(p) => {
            runs.set(p, snapshot);
            assert(runs_view(runs@) =~= before.update(p as int, sv));
        },
        None => {
            runs.insert(0, snapshot);
            assert(runs_view(runs@) =~= seq![sv] + before);
        },
    }
}

/// The snapshot of a prepared run: queued while it waits for a browser
/// lease, running otherwise.
pub fn prepared_snapshot(run_id: String, started_at: String, uses_browser_lease: bool) -> (r: RunSnapshot)
    ensures
        r@ == (RunSnapshotView {
            run_id: run_id@,
            started_at: started_at@,
            finished_at: None,
            status: if uses_browser_lease {
                "queued"@
            } else {
                "running"@
            },
            tabs: Seq::empty(),
            deploy_queue: DeployQueueState::Idle,
            denied_github_prompts: 0,
            allowed_info_prompts: 0,
        }),
{
    let r = RunSnapshot {
        run_id,
        started_at,
        finished_at: None,
        status: if uses_browser_lease {
            String::from_str("queued")
        } else {
            String::from_str("running")
        },
        tabs: Vec::new(),
        deploy_queue: DeployQueueState::Idle,
        denied_github_prompts: 0,
        allowed_info_prompts: 0,
    };
    assert(tabs_view(r.tabs@) =~= Seq::<TabSnapshotView>::empty());
    r
}

/// What a finished summary says of its run on the board.
pub open spec fn with_summary(
    runs: Seq<RunSnapshotView>,
    run_id: Seq<char>,
    finished_at: Seq<char>,
    status: Seq<char>,
    denied: u32,
    allowed: u32,
) -> Seq<RunSnapshotView> {
    match run_position(runs, run_id) {
        Some(p) => runs.update(
            p,
            RunSnapshotView {
                finished_at: Some(finished_at),
                status,
                denied_github_prompts: denied,
                allowed_info_prompts: allowed,
                ..runs[p]
            },
        ),
        None => runs,
    }
}

/// Marks a run finished as its summary says.
pub fn apply_summary(
    runs: &mut Vec<RunSnapshot>,
    run_id: &str,
    finished_at: String,
    status: String,
    denied_github_prompts: u32,
    allowed_info_prompts: u32,
)
    ensures
        runs_view(final(runs)@) == with_summary(
            runs_view(old(runs)@),
            run_id@,
            finished_at@,
            status@,
            denied_github_prompts,
            allowed_info_prompts,
        ),
{
    let ghost before = runs_view(runs@);
    match find_run(runs, run_id) {
        Some(p) => {
            let mut run = runs.remove(p);
            run.finished_at = Some(finished_at);
            run.status = status;
            run.denied_github_prompts = denied_github_prompts;
            run.allowed_info_prompts = allowed_info_prompts;
            runs.insert(p, run);
            assert(runs_view(runs@) =~= with_summary(
                before,
                run_id@,
                finished_at@,
                status@,
                denied_github_prompts,
                allowed_info_prompts,
            ));
        },
        None => {},
    }
}

/// Whether no two runs share an id.
pub open spec fn distinct_run_ids(runs: Seq<RunSnapshotView>) -> bool {
    forall|i: int, j: int|
        0 <= i < j < runs.len() ==> (#[trigger] runs[i]).run_id != (#[trigger] runs[j]).run_id
}

/// Whether no two tabs of a run share an id.
pub open spec fn distinct_tab_ids(tabs: Seq<TabSnapshotView>) -> bool {
    forall|i: int, j: int|
        0 <= i < j < tabs.len() ==> (#[trigger] tabs[i]).tab_id != (#[trigger] tabs[j]).tab_id
}

/// A tab is found exactly when one has its id, at a position that has it.
pub proof fn lemma_tab_position_found(tabs: Seq<TabSnapshotView>, tab_id: u16)
    ensures
        tab_position(tabs, tab_id) is None <==> forall|j: int|
            0 <= j < tabs.len() ==> (#[trigger] tabs[j]).tab_id != tab_id,
        tab_position(tabs, tab_id) matches Some(p) ==> 0 <= p < tabs.len() && tabs[p].tab_id
            == tab_id,
    decreases tabs.len(),
{
    if tabs.len() > 0 {
        lemma_tab_position_found(tabs.drop_last(), tab_id);
        assert(forall|j: int| 0 <= j < tabs.len() - 1 ==> #[trigger] tabs.drop_last()[j] == tabs[j]);
        if forall|j: int| 0 <= j < tabs.len() ==> (#[trigger] tabs[j]).tab_id != tab_id {
            assert(forall|j: int|
                0 <= j < tabs.len() - 1 ==> (#[trigger] tabs.drop_last()[j]).tab_id != tab_id);
        }
        if tab_position(tabs, tab_id) is None {
            assert forall|j: int| 0 <= j < tabs.len() implies (#[trigger] tabs[j]).tab_id != tab_id by {
                if j < tabs.len() - 1 {
                    assert(tabs.drop_last()[j] == tabs[j]);
                }
            }
        }
    }
}

/// An event keeps a run's id, and keeps its tabs' ids distinct: a tab is
/// added only when none has its id.
pub proof fn lemma_event_keeps_run_shape(r: RunSnapshotView, e: JailgunEvent)
    requires
        distinct_tab_ids(r.tabs),
    ensures
        run_after(r, e).run_id == r.run_id,
        distinct_tab_ids(run_after(r, e).tabs),
{
    let r1 = run_fields_after(r, e);
    assert(r1.tabs == r.tabs);
    if let Some(id) = e.tab_id {
        lemma_tab_position_found(r1.tabs, id);
        let (tabs, p) = upserted(r1.tabs, id);
        let t2 = tabs.update(p, tab_after(tabs[p], e.kind, e.fields@));
        assert forall|i: int, j: int| 0 <= i < j < t2.len() implies (#[trigger] t2[i]).tab_id
            != (#[trigger] t2[j]).tab_id by {
            assert(t2[i].tab_id == tabs[i].tab_id);
            assert(t2[j].tab_id == tabs[j].tab_id);
        }
    }
}

/// After an event is recorded its run is on the board; the board grew by
/// one exactly when the run was new; and every other run is still there,
/// unchanged.
pub proof fn lemma_recorded_run_is_on_board(runs: Seq<RunSnapshotView>, e: JailgunEvent)
    ensures
        run_position(recorded(runs, e), e.run_id@) is Some,
        recorded(runs, e).len() == runs.len() + if run_position(runs, e.run_id@) is Some {
            0int
        } else {
            1int
        },
        forall|i: int|
            0 <= i < runs.len() && (#[trigger] runs[i]).run_id != e.run_id@ ==> exists|j: int|
                0 <= j < recorded(runs, e).len() && recorded(runs, e)[j] == runs[i],
{
    lemma_run_position_found(runs, e.run_id@);
    let out = recorded(runs, e);
    match run_position(runs, e.run_id@) {
        Some(p) => {
            assert(out[p].run_id == e.run_id@);
            assert forall|i: int|
                0 <= i < runs.len() && (#[trigger] runs[i]).run_id != e.run_id@ implies exists|
                j: int,
            | 0 <= j < out.len() && out[j] == runs[i] by {
                assert(out[i] == runs[i]);
            }
        },
        None => {
            assert(out[0].run_id == e.run_id@);
            assert forall|i: int|
                0 <= i < runs.len() && (#[trigger] runs[i]).run_id != e.run_id@ implies exists|
                j: int,
            | 0 <= j < out.len() && out[j] == runs[i] by {
                assert(out[i + 1] == runs[i]);
            }
        },
    }
    lemma_run_position_found(out, e.run_id@);
}

/// The tab an event names, on the run the event updates, shows what the
/// event says happened to it: a submitted prompt, a discovered archive, a
/// finished download, or an error.
proof fn lemma_run_after_sets_tab_status(r: RunSnapshotView, e: JailgunEvent, t: u16) -> (j: int)
    requires
        e.tab_id == Some(t),
    ensures
        run_after(r, e).run_id == r.run_id,
        0 <= j < run_after(r, e).tabs.len(),
        run_after(r, e).tabs[j].tab_id == t,
        e.kind == EventKind::Error ==> run_after(r, e).tabs[j].status == "error"@,
        e.kind == EventKind::PromptSubmitted ==> run_after(r, e).tabs[j].status == "submitted"@,
        e.kind == EventKind::TarDiscovered ==> run_after(r, e).tabs[j].status == "tar-discovered"@,
        e.kind == EventKind::DownloadReceipt ==> run_after(r, e).tabs[j].status == "downloaded"@,
{
    let r1 = run_fields_after(r, e);
    assert(r1.tabs == r.tabs && r1.run_id == r.run_id);
    lemma_tab_position_found(r1.tabs, t);
    let (tabs, q) = upserted(r1.tabs, t);
    assert(0 <= q < tabs.len() && tabs[q].tab_id == t);
    q
}

/// After an event that names a tab is recorded, the board holds the
/// event's run with that tab, showing the status the event's kind gives
/// it: `error` after an error, `submitted` after a submitted prompt,
/// `tar-discovered` after a discovered archive, `downloaded` after a
/// finished download.
pub proof fn lemma_recorded_tab_status(runs: Seq<RunSnapshotView>, e: JailgunEvent, t: u16)
    requires
        e.tab_id == Some(t),
    ensures
        exists|i: int, j: int|
            #![trigger recorded(runs, e)[i].tabs[j]]
            0 <= i < recorded(runs, e).len() && recorded(runs, e)[i].run_id == e.run_id@ && 0 <= j
                < recorded(runs, e)[i].tabs.len() && recorded(runs, e)[i].tabs[j].tab_id == t && (
            e.kind == EventKind::Error ==> recorded(runs, e)[i].tabs[j].status == "error"@) && (
            e.kind == EventKind::PromptSubmitted ==> recorded(runs, e)[i].tabs[j].status
                == "submitted"@) && (e.kind == EventKind::TarDiscovered ==> recorded(
                runs,
                e,
            )[i].tabs[j].status == "tar-discovered"@) && (e.kind == EventKind::DownloadReceipt
                ==> recorded(runs, e)[i].tabs[j].status == "downloaded"@),
{
    lemma_run_position_found(runs, e.run_id@);
    let out = recorded(runs, e);
    match run_position(runs, e.run_id@) {
        Some(p) => {
            let j = lemma_run_after_sets_tab_status(runs[p], e, t);
            assert(out[p] == run_after(runs[p], e));
            assert(out[p].tabs[j].tab_id == t);
        },
        None => {
            let j = lemma_run_after_sets_tab_status(fresh_run(e), e, t);
            assert(out[0] == run_after(fresh_run(e), e));
            assert(out[0].tabs[j].tab_id == t);
        },
    }
}

/// Recording an event keeps the runs' ids distinct and each run's tab ids
/// distinct.
pub proof fn lemma_record_keeps_board_distinct(runs: Seq<RunSnapshotView>, e: JailgunEvent)
    requires
        distinct_run_ids(runs),
        forall|i: int| 0 <= i < runs.len() ==> distinct_tab_ids(#[trigger] runs[i].tabs),
    ensures
        distinct_run_ids(recorded(runs, e)),
        forall|i: int|
            0 <= i < recorded(runs, e).len() ==> distinct_tab_ids(
                #[trigger] recorded(runs, e)[i].tabs,
            ),
{
    lemma_run_position_found(runs, e.run_id@);
    let out = recorded(runs, e);
    match run_position(runs, e.run_id@) {
        Some(p) => {
            lemma_event_keeps_run_shape(runs[p], e);
            assert forall|i: int, j: int| 0 <= i < j < out.len() implies (#[trigger] out[i]).run_id
                != (#[trigger] out[j]).run_id by {
                assert(out[i].run_id == runs[i].run_id);
                assert(out[j].run_id == runs[j].run_id);
            }
        },
        None => {
            let fresh = fresh_run(e);
            assert(distinct_tab_ids(fresh.tabs));
            lemma_event_keeps_run_shape(fresh, e);
            assert forall|i: int, j: int| 0 <= i < j < out.len() implies (#[trigger] out[i]).run_id
                != (#[trigger] out[j]).run_id by {
                if i == 0 {
                    assert(out[j] == runs[j - 1]);
                } else {
                    assert(out[i] == runs[i - 1]);
                    assert(out[j] == runs[j - 1]);
                }
            }
            assert forall|i: int| 0 <= i < out.len() implies distinct_tab_ids(
                #[trigger] out[i].tabs,
            ) by {
                if i > 0 {
                    assert(out[i] == runs[i - 1]);
                }
            }
        },
    }
}

/// Putting a snapshot on the board keeps the runs' ids distinct.
pub proof fn lemma_snapshot_keeps_ids_distinct(runs: Seq<RunSnapshotView>, s: RunSnapshotView)
    requires
        distinct_run_ids(runs),
    ensures
        distinct_run_ids(with_snapshot(runs, s)),
        run_position(with_snapshot(runs, s), s.run_id) is Some,
{
    lemma_run_position_found(runs, s.run_id);
    let out = with_snapshot(runs, s);
    match run_position(runs, s.run_id) {
        Some(p) => {
            assert forall|i: int, j: int| 0 <= i < j < out.len() implies (#[trigger] out[i]).run_id
                != (#[trigger] out[j]).run_id by {
                assert(out[i].run_id == runs[i].run_id);
                assert(out[j].run_id == runs[j].run_id);
            }
            lemma_run_position_found(out, s.run_id);
            assert(out[p].run_id == s.run_id);
        },
        None => {
            assert forall|i: int, j: int| 0 <= i < j < out.len() implies (#[trigger] out[i]).run_id
                != (#[trigger] out[j]).run_id by {
                if i == 0 {
                    assert(out[j] == runs[j - 1]);
                } else {
                    assert(out[i] == runs[i - 1]);
                    assert(out[j] == runs[j - 1]);
                }
            }
            lemma_run_position_found(out, s.run_id);
            assert(out[0].run_id == s.run_id);
        },
    }
}

/// Records that a run failed for `reason`: an error event, stamped now,
/// joins the log (last, for publishing) and marks the run failed and
/// finished.
pub fn mark_agent_run_failed(
    events: &mut Vec<JailgunEvent>,
    runs: &mut Vec<RunSnapshot>,
    run_id: &str,
    reason: String,
)
    ensures
        crate::run_event::rfc3339_utc_text(final(events)@.last().timestamp@),
        final(events)@.len() == old(events)@.len() + 1,
        final(events)@.drop_last() == old(events)@,
        final(events)@.last().run_id@ == run_id@,
        final(events)@.last().kind == EventKind::Error,
        final(events)@.last().severity == crate::run_event::Severity::Error,
        final(events)@.last().message == reason,
        final(events)@.last().tab_id is None,
        final(events)@.last().fields@ == Map::<Seq<char>, Seq<char>>::empty(),
        runs_view(final(runs)@) == recorded(runs_view(old(runs)@), final(events)@.last()),
{
    let event = JailgunEvent::new(String::from_str(run_id), EventKind::Error, reason).with_severity(
        crate::run_event::Severity::Error,
    );
    let ghost e = event;
    record_event(events, runs, event);
    assert(events@.drop_last() =~= old(events)@);
}

} // verus!
