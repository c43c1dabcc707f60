//! Run events published on the event bus, and how bridge events map to them.
use vstd::prelude::*;
use crate::bridge::event::{
    AuthCodeRequestedPayload, AuthStatePayload, BridgeEvent, BridgeLogPayload,
    DownloadCompletePayload, TabOpenedPayload,
};
use crate::fields::{Fields, lemma_assignments_concat};
use crate::text::{decimal, decimal_string, is_digit, str_eq};

verus! {

/// What happened in a run.
#[derive(Debug, Clone, Copy, PartialEq, Eq, Structural)]
pub enum EventKind {
    RunStarted,
    RunQueued,
    BrowserLeaseAcquired,
    BrowserLeaseReleased,
    TabOpened,
    PromptSubmitted,
    TarDiscovered,
    DownloadReceipt,
    DeployQueued,
    DeployFinished,
    PromptPolicy,
    RateLimitDetected,
    BrowserLog,
    AuthState,
    AuthActionNeeded,
    AuthCodeRequested,
    AuthCodeSubmitted,
    AuthComplete,
    AuthFailed,
    SessionExpired,
    RemoteSafety,
    Error,
}

/// How serious an event is.
#[derive(Debug, Clone, Copy, PartialEq, Eq, Structural)]
pub enum Severity {
    Debug,
    Info,
    Warn,
    Error,
}

/// One event of a run, as published on the bus and written to the event log.
#[derive(Debug, Clone)]
pub struct JailgunEvent {
    pub run_id: String,
    pub tab_id: Option<u16>,
    pub kind: EventKind,
    pub severity: Severity,
    pub message: String,
    pub fields: Fields,
    pub timestamp: String,
}

/// RFC 3339 text of a UTC instant as the `time` crate writes it:
/// `YYYY-MM-DDTHH:MM:SS`, then `.` and the nonzero fraction of a second
/// when there is one, then `Z`.
pub open spec fn rfc3339_utc_text(s: Seq<char>) -> bool {
    &&& s.len() >= 20
    &&& s[4] == '-' && s[7] == '-' && s[10] == 'T' && s[13] == ':' && s[16] == ':'
    &&& forall|i: int|
        0 <= i < 19 && i != 4 && i != 7 && i != 10 && i != 13 && i != 16 ==> is_digit(
            #[trigger] s[i],
        )
    &&& s.last() == 'Z'
    &&& s.len() > 20 ==> s[19] == '.' && forall|i: int|
        20 <= i < s.len() - 1 ==> is_digit(#[trigger] s[i])
}

/// The current UTC time in RFC 3339 (`time::OffsetDateTime::now_utc`,
/// formatted with `Rfc3339`; the Unix epoch if formatting fails). Which
/// instant comes back is the clock's reading: only the text's shape is
/// stated.
#[verifier::external_body]
pub fn timestamp_now() -> (r: String)
    ensures
        rfc3339_utc_text(r@),
{
    time::OffsetDateTime::now_utc()
        .format(&time::format_description::well_known::Rfc3339)
        .unwrap_or_else(|_| "1970-01-01T00:00:00Z".to_string())
}

impl JailgunEvent {
    /// An informational event of `kind` for `run_id`, stamped now, with no
    /// tab and no fields.
    pub fn new(run_id: String, kind: EventKind, message: String) -> (r: JailgunEvent)
        ensures
            r.run_id == run_id,
            r.tab_id is None,
            r.kind == kind,
            r.severity == Severity::Info,
            r.message == message,
            r.fields@ == Map::<Seq<char>, Seq<char>>::empty(),
            rfc3339_utc_text(r.timestamp@),
    {
        JailgunEvent {
            run_id,
            tab_id: None,
            kind,
            severity: Severity::Info,
            message,
            fields: Fields::new(),
            timestamp: timestamp_now(),
        }
    }

    pub fn with_tab(self, tab_id: u16) -> (r: JailgunEvent)
        ensures
            r == (JailgunEvent { tab_id: Some(tab_id), ..self }),
    {
        JailgunEvent { tab_id: Some(tab_id), ..self }
    }

    pub fn with_severity(self, severity: Severity) -> (r: JailgunEvent)
        ensures
            r == (JailgunEvent { severity, ..self }),
    {
        JailgunEvent { severity, ..self }
    }

    /// Sets field `key` to `value`.
    pub fn with_field(self, key: &str, value: String) -> (r: JailgunEvent)
        ensures
            r.fields@ == self.fields@.insert(key@, value@),
            r.run_id == self.run_id,
            r.tab_id == self.tab_id,
            r.kind == self.kind,
            r.severity == self.severity,
            r.message == self.message,
            r.timestamp == self.timestamp,
    {
        let mut e = self;
        e.fields.insert(String::from_str(key), value);
        e
    }
}

/// The text `bool::to_string` prints.
pub open spec fn bool_text(b: bool) -> Seq<char> {
    if b { "true"@ } else { "false"@ }
}

pub(crate) fn bool_string(b: bool) -> (r: String)
    ensures
        r@ == bool_text(b),
{
    if b { String::from_str("true") } else { String::from_str("false") }
}

/// What a mapped event holds besides its run, tab and timestamp.
pub struct EventShape {
    pub kind: EventKind,
    pub severity: Severity,
    pub message: Seq<char>,
    pub fields: Map<Seq<char>, Seq<char>>,
}

pub open spec fn shape(
    kind: EventKind,
    severity: Severity,
    message: Seq<char>,
    fields: Map<Seq<char>, Seq<char>>,
) -> Option<EventShape> {
    Some(EventShape { kind, severity, message, fields })
}

/// `m` with `k` set to `v` when `cond` holds.
pub open spec fn insert_if(
    m: Map<Seq<char>, Seq<char>>,
    cond: bool,
    k: Seq<char>,
    v: Seq<char>,
) -> Map<Seq<char>, Seq<char>> {
    if cond { m.insert(k, v) } else { m }
}

/// The severity a bridge log level maps to.
pub open spec fn log_severity(level: Seq<char>) -> Severity {
    if level == "debug"@ || level == "DEBUG"@ {
        Severity::Debug
    } else if level == "warn"@ || level == "WARN"@ || level == "warning"@ || level == "WARNING"@ {
        Severity::Warn
    } else if level == "error"@ || level == "ERROR"@ {
        Severity::Error
    } else {
        Severity::Info
    }
}

pub open spec fn tab_opened_fields(p: TabOpenedPayload) -> Map<Seq<char>, Seq<char>> {
    let m0 = Map::empty().insert("page_url"@, p.page_url@);
    let m1 = insert_if(m0, p.browser_profile@.len() > 0, "browser_profile"@, p.browser_profile@);
    let m2 = insert_if(
        m1,
        p.browser_profile_dir@.len() > 0,
        "browser_profile_dir"@,
        p.browser_profile_dir@,
    );
    let m3 = match p.browser_slot {
        Some(slot) => m2.insert("browser_slot"@, decimal(slot as nat)),
        None => m2,
    };
    insert_if(m3, p.cdp_url@.len() > 0, "cdp_url"@, p.cdp_url@)
}

pub open spec fn download_complete_fields(p: DownloadCompletePayload) -> Map<Seq<char>, Seq<char>> {
    let m = Map::empty().insert("sha256"@, p.sha256@).insert(
        "size_bytes"@,
        decimal(p.size_bytes as nat),
    ).insert("local_path"@, p.local_path@).insert("receipt_path"@, p.receipt_path@).insert(
        "original_name"@,
        p.original_name@,
    ).insert("local_name"@, p.local_name@);
    match p.file_kind {
        Some(k) => m.insert("file_kind"@, k@),
        None => m,
    }
}

pub open spec fn bridge_log_fields(p: BridgeLogPayload) -> Map<Seq<char>, Seq<char>> {
    Map::empty().insert("phase"@, p.phase@).insert("level"@, p.level@).union_prefer_right(p.fields@)
}

pub open spec fn auth_state_fields(p: AuthStatePayload) -> Map<Seq<char>, Seq<char>> {
    let m = Map::empty().insert("state"@, p.state@).insert("page_url"@, p.page_url@).insert(
        "composer_detected"@,
        bool_text(p.composer_detected),
    ).insert("code_requested"@, bool_text(p.code_requested));
    match p.reason {
        Some(r) => m.insert("reason"@, r@),
        None => m,
    }
}

pub open spec fn auth_code_requested_fields(p: AuthCodeRequestedPayload) -> Map<
    Seq<char>,
    Seq<char>,
> {
    let m = Map::empty().insert("channel"@, p.channel@);
    match p.destination_hint {
        Some(h) => m.insert("destination_hint"@, h@),
        None => m,
    }
}

/// What each bridge event becomes on the event bus: `None` for the events
/// that are not published (readiness, progress ticks, tool prompts,
/// generation stop, tab close, pong, shutdown).
pub open spec fn event_shape(e: BridgeEvent) -> Option<EventShape> {
    match e {
        BridgeEvent::BridgeReady(_) => None,
        BridgeEvent::TabOpened(p) => shape(
            EventKind::TabOpened,
            Severity::Info,
            "tab opened"@,
            tab_opened_fields(p),
        ),
        BridgeEvent::ArchiveUploaded(p) => shape(
            EventKind::TabOpened,
            Severity::Info,
            "archive uploaded"@,
            Map::empty().insert("sha256"@, p.sha256@).insert(
                "size_bytes"@,
                decimal(p.size_bytes as nat),
            ).insert("commit"@, p.commit@).insert("archive_filename"@, p.archive_filename@),
        ),
        BridgeEvent::PromptSubmitted(p) => shape(
            EventKind::PromptSubmitted,
            Severity::Info,
            "prompt submitted"@,
            Map::empty().insert("char_count"@, decimal(p.char_count as nat)),
        ),
        BridgeEvent::TabProgress(_) => None,
        BridgeEvent::TarDiscovered(_) => shape(
            EventKind::TarDiscovered,
            Severity::Info,
            "tar link discovered"@,
            Map::empty(),
        ),
        BridgeEvent::DownloadStarted(p) => shape(
            EventKind::TarDiscovered,
            Severity::Info,
            "download started"@,
            Map::empty().insert("remote_url"@, p.remote_url@).insert(
                "target_path"@,
                p.target_path@,
            ),
        ),
        BridgeEvent::DownloadComplete(p) => shape(
            EventKind::DownloadReceipt,
            Severity::Info,
            "download complete"@,
            download_complete_fields(p),
        ),
        BridgeEvent::ToolPromptDetected(_) => None,
        BridgeEvent::PromptPolicyApplied(p) => shape(
            EventKind::PromptPolicy,
            Severity::Info,
            "policy applied"@,
            Map::empty().insert("signature"@, p.signature@).insert(
                "decision"@,
                p.decision@,
            ).insert("clicked"@, bool_text(p.clicked)),
        ),
        BridgeEvent::RateLimitDetected(p) => shape(
            EventKind::RateLimitDetected,
            Severity::Warn,
            "rate limit modal detected"@,
            Map::empty().insert("dismissed"@, bool_text(p.dismissed)).insert(
                "excerpt"@,
                p.excerpt@,
            ),
        ),
        BridgeEvent::GenerationStopped(_) => None,
        BridgeEvent::TabClosed(_) => None,
        BridgeEvent::BridgeLog(p) => shape(
            EventKind::BrowserLog,
            log_severity(p.level@),
            p.message@,
            bridge_log_fields(p),
        ),
        BridgeEvent::AuthState(p) => shape(
            EventKind::AuthState,
            Severity::Info,
            "auth state updated"@,
            auth_state_fields(p),
        ),
        BridgeEvent::AuthActionNeeded(p) => shape(
            EventKind::AuthActionNeeded,
            Severity::Warn,
            "manual browser auth action needed"@,
            Map::empty().insert("action"@, p.action@).insert("reason"@, p.reason@),
        ),
        BridgeEvent::AuthCodeRequested(p) => shape(
            EventKind::AuthCodeRequested,
            Severity::Info,
            "auth email code requested"@,
            auth_code_requested_fields(p),
        ),
        BridgeEvent::AuthCodeSubmitted(p) => shape(
            EventKind::AuthCodeSubmitted,
            Severity::Info,
            "auth code submitted"@,
            Map::empty().insert("accepted"@, bool_text(p.accepted)),
        ),
        BridgeEvent::AuthComplete(p) => shape(
            EventKind::AuthComplete,
            Severity::Info,
            "auth complete"@,
            Map::empty().insert("page_url"@, p.page_url@).insert(
                "composer_detected"@,
                bool_text(p.composer_detected),
            ),
        ),
        BridgeEvent::AuthFailed(p) => shape(
            EventKind::AuthFailed,
            Severity::Error,
            "auth failed"@,
            Map::empty().insert("reason"@, p.reason@).insert(
                "manual_browser_required"@,
                bool_text(p.manual_browser_required),
            ),
        ),
        BridgeEvent::SessionExpired(p) => shape(
            EventKind::SessionExpired,
            Severity::Warn,
            "session expired"@,
            Map::empty().insert("page_url"@, p.page_url@).insert("reason"@, p.reason@),
        ),
        BridgeEvent::Pong => None,
        BridgeEvent::BridgeShuttingDown(_) => None,
        BridgeEvent::Error(p) => shape(
            EventKind::Error,
            Severity::Error,
            p.message@,
            Map::empty().insert("kind"@, p.kind@).insert("recoverable"@, bool_text(p.recoverable)),
        ),
    }
}

/// Which run event a bridge event is published as: each bridge event is
/// published under the event kind and message of what happened (an opened
/// tab or an uploaded archive as an opened tab, a submitted prompt as a
/// submitted prompt, a discovered archive or a started download as a
/// discovered archive, and so on); readiness, progress ticks, tool prompts,
/// stopped generation, closed tabs, pongs and shutdowns are not published.
pub proof fn lemma_published_event_kinds(e: BridgeEvent)
    ensures
        match e {
            BridgeEvent::TabOpened(_) => event_shape(e) matches Some(s) && s.kind
                == EventKind::TabOpened && s.message == "tab opened"@,
            BridgeEvent::ArchiveUploaded(_) => event_shape(e) matches Some(s) && s.kind
                == EventKind::TabOpened && s.message == "archive uploaded"@,
            BridgeEvent::PromptSubmitted(_) => event_shape(e) matches Some(s) && s.kind
                == EventKind::PromptSubmitted && s.message == "prompt submitted"@,
            BridgeEvent::TarDiscovered(_) => event_shape(e) matches Some(s) && s.kind
                == EventKind::TarDiscovered && s.message == "tar link discovered"@,
            BridgeEvent::DownloadStarted(_) => event_shape(e) matches Some(s) && s.kind
                == EventKind::TarDiscovered && s.message == "download started"@,
            BridgeEvent::DownloadComplete(_) => event_shape(e) matches Some(s) && s.kind
                == EventKind::DownloadReceipt && s.message == "download complete"@,
            BridgeEvent::PromptPolicyApplied(_) => event_shape(e) matches Some(s) && s.kind
                == EventKind::PromptPolicy && s.message == "policy applied"@,
            BridgeEvent::RateLimitDetected(_) => event_shape(e) matches Some(s) && s.kind
                == EventKind::RateLimitDetected && s.message == "rate limit modal detected"@,
            BridgeEvent::BridgeLog(p) => event_shape(e) matches Some(s) && s.kind
                == EventKind::BrowserLog && s.message == p.message@,
            BridgeEvent::AuthState(_) => event_shape(e) matches Some(s) && s.kind
                == EventKind::AuthState && s.message == "auth state updated"@,
            BridgeEvent::AuthActionNeeded(_) => event_shape(e) matches Some(s) && s.kind
                == EventKind::AuthActionNeeded && s.message
                == "manual browser auth action needed"@,
            BridgeEvent::AuthCodeRequested(_) => event_shape(e) matches Some(s) && s.kind
                == EventKind::AuthCodeRequested && s.message == "auth email code requested"@,
            BridgeEvent::AuthCodeSubmitted(_) => event_shape(e) matches Some(s) && s.kind
                == EventKind::AuthCodeSubmitted && s.message == "auth code submitted"@,
            BridgeEvent::AuthComplete(_) => event_shape(e) matches Some(s) && s.kind
                == EventKind::AuthComplete && s.message == "auth complete"@,
            BridgeEvent::AuthFailed(_) => event_shape(e) matches Some(s) && s.kind
                == EventKind::AuthFailed && s.message == "auth failed"@,
            BridgeEvent::SessionExpired(_) => event_shape(e) matches Some(s) && s.kind
                == EventKind::SessionExpired && s.message == "session expired"@,
            BridgeEvent::Error(p) => event_shape(e) matches Some(s) && s.kind == EventKind::Error
                && s.severity == Severity::Error && s.message == p.message@,
            _ => event_shape(e) is None,
        },
{
}

/// Whether `j` is the event `s` for `run_id` and `tab_id`.
pub open spec fn event_matches(
    j: JailgunEvent,
    run_id: Seq<char>,
    tab_id: Option<u16>,
    s: EventShape,
) -> bool {
    &&& j.run_id@ == run_id
    &&& j.tab_id == tab_id
    &&& j.kind == s.kind
    &&& j.severity == s.severity
    &&& j.message@ == s.message
    &&& j.fields@ == s.fields
    &&& rfc3339_utc_text(j.timestamp@)
}

fn base_event(run_id: &str, tab_id: Option<u16>, kind: EventKind, message: &str) -> (r:
    JailgunEvent)
    ensures
        r.run_id@ == run_id@,
        r.tab_id == tab_id,
        r.kind == kind,
        r.severity == Severity::Info,
        r.message@ == message@,
        r.fields@ == Map::<Seq<char>, Seq<char>>::empty(),
        rfc3339_utc_text(r.timestamp@),
{
    let j = JailgunEvent::new(String::from_str(run_id), kind, String::from_str(message));
    match tab_id {
        Some(t) => j.with_tab(t),
        None => j,
    }
}

fn log_level_severity(level: &str) -> (r: Severity)
    ensures
        r == log_severity(level@),
{
    if str_eq(level, "debug") || str_eq(level, "DEBUG") {
        Severity::Debug
    } else if str_eq(level, "warn") || str_eq(level, "WARN") || str_eq(level, "warning") || str_eq(
        level,
        "WARNING",
    ) {
        Severity::Warn
    } else if str_eq(level, "error") || str_eq(level, "ERROR") {
        Severity::Error
    } else {
        Severity::Info
    }
}

fn map_tab_opened(run_id: &str, tab_id: Option<u16>, p: &TabOpenedPayload) -> (r: JailgunEvent)
    ensures
        event_matches(r, run_id@, tab_id, event_shape(BridgeEvent::TabOpened(*p))->0),
{
    let mut event = base_event(run_id, tab_id, EventKind::TabOpened, "tab opened").with_field(
        "page_url",
        p.page_url.clone(),
    );
    if p.browser_profile.as_str().unicode_len() > 0 {
        event = event.with_field("browser_profile", p.browser_profile.clone());
    }
    if p.browser_profile_dir.as_str().unicode_len() > 0 {
        event = event.with_field("browser_profile_dir", p.browser_profile_dir.clone());
    }
    if let Some(slot) = p.browser_slot {
        event = event.with_field("browser_slot", decimal_string(slot as u64));
    }
    if p.cdp_url.as_str().unicode_len() > 0 {
        event = event.with_field("cdp_url", p.cdp_url.clone());
    }
    event
}

fn map_download_complete(run_id: &str, tab_id: Option<u16>, p: &DownloadCompletePayload) -> (r:
    JailgunEvent)
    ensures
        event_matches(r, run_id@, tab_id, event_shape(BridgeEvent::DownloadComplete(*p))->0),
{
    let mut event = base_event(run_id, tab_id, EventKind::DownloadReceipt, "download complete")
        .with_field("sha256", p.sha256.clone()).with_field(
        "size_bytes",
        decimal_string(p.size_bytes),
    ).with_field("local_path", p.local_path.clone()).with_field(
        "receipt_path",
        p.receipt_path.clone(),
    ).with_field("original_name", p.original_name.clone()).with_field(
        "local_name",
        p.local_name.clone(),
    );
    if let Some(file_kind) = &p.file_kind {
        event = event.with_field("file_kind", file_kind.clone());
    }
    event
}

fn map_bridge_log(run_id: &str, tab_id: Option<u16>, p: &BridgeLogPayload) -> (r: JailgunEvent)
    ensures
        event_matches(r, run_id@, tab_id, event_shape(BridgeEvent::BridgeLog(*p))->0),
{
    let severity = log_level_severity(p.level.as_str());
    let mut event = base_event(run_id, tab_id, EventKind::BrowserLog, p.message.as_str())
        .with_severity(severity).with_field("phase", p.phase.clone()).with_field(
        "level",
        p.level.clone(),
    );
    let ghost base_entries = event.fields.entries@;
    let mut i: usize = 0;
    while i < p.fields.entries.len()
        invariant
            i <= p.fields.entries.len(),
            event.fields.entries@ == base_entries + p.fields.entries@.take(i as int),
            event.run_id@ == run_id@,
            event.tab_id == tab_id,
            event.kind == EventKind::BrowserLog,
            event.severity == severity,
            event.message@ == p.message@,
            rfc3339_utc_text(event.timestamp@),
        decreases p.fields.entries.len() - i,
    {
        let entry = &p.fields.entries[i];
        event.fields.entries.push((entry.0.clone(), entry.1.clone()));
        assert(p.fields.entries@.take(i + 1) =~= p.fields.entries@.take(i as int).push(
            p.fields.entries@[i as int],
        ));
        assert(event.fields.entries@ =~= base_entries + p.fields.entries@.take(i + 1));
        i = i + 1;
    }
    proof {
        assert(p.fields.entries@.take(p.fields.entries.len() as int) =~= p.fields.entries@);
        lemma_assignments_concat(base_entries, p.fields.entries@);
    }
    event
}

/// The bus event for a bridge event of `run_id` (and tab `tab_id`), if the
/// event is published at all.
pub fn map_bridge_event(run_id: &str, tab_id: Option<u16>, event: &BridgeEvent) -> (r: Option<
    JailgunEvent,
>)
    ensures
        r is Some <==> event_shape(*event) is Some,
        r matches Some(j) ==> event_matches(j, run_id@, tab_id, event_shape(*event)->0),
{
    match event {
        BridgeEvent::BridgeReady(_) => None,
        BridgeEvent::TabOpened(p) => Some(map_tab_opened(run_id, tab_id, p)),
        BridgeEvent::ArchiveUploaded(p) => Some(
            base_event(run_id, tab_id, EventKind::TabOpened, "archive uploaded").with_field(
                "sha256",
                p.sha256.clone(),
            ).with_field("size_bytes", decimal_string(p.size_bytes)).with_field(
                "commit",
                p.commit.clone(),
            ).with_field("archive_filename", p.archive_filename.clone()),
        ),
        BridgeEvent::PromptSubmitted(p) => Some(
            base_event(run_id, tab_id, EventKind::PromptSubmitted, "prompt submitted").with_field(
                "char_count",
                decimal_string(p.char_count as u64),
            ),
        ),
        BridgeEvent::TabProgress(_) => None,
        BridgeEvent::TarDiscovered(_) => Some(
            base_event(run_id, tab_id, EventKind::TarDiscovered, "tar link discovered"),
        ),
        BridgeEvent::DownloadStarted(p) => Some(
            base_event(run_id, tab_id, EventKind::TarDiscovered, "download started").with_field(
                "remote_url",
                p.remote_url.clone(),
            ).with_field("target_path", p.target_path.clone()),
        ),
        BridgeEvent::DownloadComplete(p) => Some(map_download_complete(run_id, tab_id, p)),
        BridgeEvent::ToolPromptDetected(_) => None,
        BridgeEvent::PromptPolicyApplied(p) => Some(
            base_event(run_id, tab_id, EventKind::PromptPolicy, "policy applied").with_field(
                "signature",
                p.signature.clone(),
            ).with_field("decision", p.decision.clone()).with_field(
                "clicked",
                bool_string(p.clicked),
            ),
        ),
        BridgeEvent::RateLimitDetected(p) => Some(
            base_event(
                run_id,
                tab_id,
                EventKind::RateLimitDetected,
                "rate limit modal detected",
            ).with_severity(Severity::Warn).with_field("dismissed", bool_string(p.dismissed))
                .with_field("excerpt", p.excerpt.clone()),
        ),
        BridgeEvent::GenerationStopped(_) => None,
        BridgeEvent::TabClosed(_) => None,
        BridgeEvent::BridgeLog(p) => Some(map_bridge_log(run_id, tab_id, p)),
        BridgeEvent::AuthState(p) => {
            let mut e = base_event(run_id, tab_id, EventKind::AuthState, "auth state updated")
                .with_field("state", p.state.clone()).with_field(
                "page_url",
                p.page_url.clone(),
            ).with_field("composer_detected", bool_string(p.composer_detected)).with_field(
                "code_requested",
                bool_string(p.code_requested),
            );
            if let Some(reason) = &p.reason {
                e = e.with_field("reason", reason.clone());
            }
            Some(e)
        },
        BridgeEvent::AuthActionNeeded(p) => Some(
            base_event(
                run_id,
                tab_id,
                EventKind::AuthActionNeeded,
                "manual browser auth action needed",
            ).with_severity(Severity::Warn).with_field("action", p.action.clone()).with_field(
                "reason",
                p.reason.clone(),
            ),
        ),
        BridgeEvent::AuthCodeRequested(p) => {
            let mut e = base_event(
                run_id,
                tab_id,
                EventKind::AuthCodeRequested,
                "auth email code requested",
            ).with_field("channel", p.channel.clone());
            if let Some(hint) = &p.destination_hint {
                e = e.with_field("destination_hint", hint.clone());
            }
            Some(e)
        },
        BridgeEvent::AuthCodeSubmitted(p) => Some(
            base_event(run_id, tab_id, EventKind::AuthCodeSubmitted, "auth code submitted")
                .with_field("accepted", bool_string(p.accepted)),
        ),
        BridgeEvent::AuthComplete(p) => Some(
            base_event(run_id, tab_id, EventKind::AuthComplete, "auth complete").with_field(
                "page_url",
                p.page_url.clone(),
            ).with_field("composer_detected", bool_string(p.composer_detected)),
        ),
        BridgeEvent::AuthFailed(p) => Some(
            base_event(run_id, tab_id, EventKind::AuthFailed, "auth failed").with_severity(
                Severity::Error,
            ).with_field("reason", p.reason.clone()).with_field(
                "manual_browser_required",
                bool_string(p.manual_browser_required),
            ),
        ),
        BridgeEvent::SessionExpired(p) => Some(
            base_event(run_id, tab_id, EventKind::SessionExpired, "session expired")
                .with_severity(Severity::Warn).with_field("page_url", p.page_url.clone())
                .with_field("reason", p.reason.clone()),
        ),
        BridgeEvent::Pong => None,
        BridgeEvent::BridgeShuttingDown(_) => None,
        BridgeEvent::Error(p) => Some(
            base_event(run_id, tab_id, EventKind::Error, p.message.as_str()).with_severity(
                Severity::Error,
            ).with_field("kind", p.kind.clone()).with_field(
                "recoverable",
                bool_string(p.recoverable),
            ),
        ),
    }
}

} // verus!
