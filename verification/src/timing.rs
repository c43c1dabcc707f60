//! How long a run may take and how long to wait between tab launches.
use vstd::prelude::*;
use crate::config::RunOptions;

verus! {

/// The derived run deadline in seconds: the tar wait (at least a minute),
/// plus the launch stagger of every tab after the first, plus a minute;
/// an explicit runtime cap lowers it.
pub open spec fn deadline_seconds(
    tar_wait_minutes: u16,
    submit_delay_seconds: u16,
    submit_jitter_seconds: u16,
    total_tabs: u16,
    max_runtime_seconds: Option<u64>,
) -> int {
    let tar_wait = (if tar_wait_minutes < 1 { 1 } else { tar_wait_minutes as int }) * 60;
    let stagger = (submit_delay_seconds + submit_jitter_seconds) * (if total_tabs == 0 {
        0
    } else {
        total_tabs - 1
    });
    let derived = tar_wait + stagger + 60;
    match max_runtime_seconds {
        Some(max) => if max < derived { max as int } else { derived },
        None => derived,
    }
}

/// How many seconds a run may take before it is stopped.
pub fn run_deadline(opts: &RunOptions, total_tabs: u16) -> (r: u64)
    ensures
        r == deadline_seconds(
            opts.config.browser.tar_wait_minutes,
            opts.config.browser.submit_delay_seconds,
            opts.config.browser.submit_jitter_seconds,
            total_tabs,
            opts.max_runtime_seconds,
        ),
{
    let minutes = opts.config.browser.tar_wait_minutes;
    let tar_wait_seconds: u64 = if minutes < 1 { 60 } else { minutes as u64 * 60 };
    let per_tab: u64 = opts.config.browser.submit_delay_seconds as u64
        + opts.config.browser.submit_jitter_seconds as u64;
    let later_tabs: u64 = if total_tabs == 0 { 0 } else { (total_tabs - 1) as u64 };
    assert(per_tab * later_tabs <= 131070 * 65535) by (nonlinear_arith)
        requires
            per_tab <= 131070,
            later_tabs <= 65535,
    ;
    let stagger_seconds = per_tab * later_tabs;
    let derived = tar_wait_seconds + stagger_seconds + 60;
    match opts.max_runtime_seconds {
        Some(max) => if max < derived { max } else { derived },
        None => derived,
    }
}

/// The launch delay in milliseconds given a clock reading of `nanos`
/// nanoseconds since the epoch: the configured delay plus a jitter of at
/// most the configured jitter, taken from the clock.
pub open spec fn delay_millis(delay_seconds: u16, jitter_seconds: u16, nanos: i128) -> int {
    let base = delay_seconds * 1000;
    let jitter = jitter_seconds as u128 * 1000;
    if jitter == 0 {
        base
    } else {
        base + ((nanos as u128) as int) % (jitter + 1)
    }
}

/// The launch delay for a clock reading of `nanos` (see `delay_millis`).
pub fn submit_delay_at(delay_seconds: u16, jitter_seconds: u16, nanos: i128) -> (r: u64)
    ensures
        r == delay_millis(delay_seconds, jitter_seconds, nanos),
        delay_seconds * 1000 <= r <= delay_seconds * 1000 + jitter_seconds * 1000,
{
    let base_ms: u64 = delay_seconds as u64 * 1000;
    let jitter_ms: u128 = jitter_seconds as u128 * 1000;
    if jitter_ms == 0 {
        base_ms
    } else {
        let j = (nanos as u128) % (jitter_ms + 1);
        base_ms + j as u64
    }
}

/// Nanoseconds since the Unix epoch by the system clock
/// (`time::OffsetDateTime::now_utc().unix_timestamp_nanos()`). Nothing is
/// stated of the result: it is the clock's reading.
#[verifier::external_body]
fn unix_timestamp_nanos() -> i128 {
    time::OffsetDateTime::now_utc().unix_timestamp_nanos()
}

/// The delay before the next tab launches, in milliseconds: the configured
/// delay plus a clock-derived jitter within the configured jitter.
pub fn submit_delay(opts: &RunOptions) -> (r: u64)
    ensures
        opts.config.browser.submit_delay_seconds * 1000 <= r,
        r <= opts.config.browser.submit_delay_seconds * 1000
            + opts.config.browser.submit_jitter_seconds * 1000,
        opts.config.browser.submit_jitter_seconds == 0 ==> r
            == opts.config.browser.submit_delay_seconds * 1000,
{
    let delay = opts.config.browser.submit_delay_seconds;
    let jitter = opts.config.browser.submit_jitter_seconds;
    if jitter == 0 {
        return submit_delay_at(delay, jitter, 0);
    }
    let nanos = unix_timestamp_nanos();
    submit_delay_at(delay, jitter, nanos)
}

} // verus!
