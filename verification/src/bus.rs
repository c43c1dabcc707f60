//! Where run events are published.
use vstd::prelude::*;
use crate::run_event::{EventKind, JailgunEvent};
use crate::text::decimal_string;

verus! {

/// Something run events are published to.
pub trait EventBus {
    fn publish(&self, event: JailgunEvent);
}

/// A bus that drops every event.
#[derive(Debug, Clone, Copy, PartialEq, Eq, Default)]
pub struct NoopBus;

impl EventBus for NoopBus {
    fn publish(&self, _event: JailgunEvent) {
    }
}

/// The warning a subscriber that fell behind gets in place of the events
/// it missed.
pub fn lagged_warning(dropped: u64) -> (r: JailgunEvent)
    ensures
        r.severity == crate::run_event::Severity::Info,
        crate::run_event::rfc3339_utc_text(r.timestamp@),
        r.run_id@ == "system"@,
        r.kind == EventKind::Error,
        r.message@ == "websocket lagged"@,
        r.tab_id is None,
        r.fields@ == map!["dropped"@ => crate::text::decimal(dropped as nat)],
{
    let e = JailgunEvent::new(
        String::from_str("system"),
        EventKind::Error,
        String::from_str("websocket lagged"),
    ).with_field("dropped", decimal_string(dropped));
    assert(e.fields@ =~= map!["dropped"@ => crate::text::decimal(dropped as nat)]);
    e
}

} // verus!
