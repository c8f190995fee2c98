//! Debounce engine for search-as-you-type.
//!
//! A search dispatch is expensive, so it is issued only once the user has
//! paused typing. The decision is a pure function of the current buffer,
//! the last buffer that was dispatched, and the time since the last
//! keystroke; it is evaluated once per timer tick while a search modal is
//! open.

use vstd::prelude::*;

verus! {

/// Quiet period in milliseconds: no dispatch until this much time has
/// passed since the last keystroke.
pub const QUIET_PERIOD_MS: u64 = 500;

/// Minimum query length that triggers a search dispatch.
pub const MIN_QUERY_LEN: usize = 3;

/// A new search is dispatched if and only if the quiet period has elapsed,
/// the buffer is long enough, and the buffer differs from the one last
/// dispatched.
pub open spec fn spec_should_dispatch(
    query: Seq<char>,
    last_dispatched: Seq<char>,
    elapsed_ms: u64,
) -> bool {
    &&& elapsed_ms >= QUIET_PERIOD_MS
    &&& query.len() >= MIN_QUERY_LEN
    &&& query != last_dispatched
}

/// Decides whether a timer tick should trigger a new search dispatch.
pub fn should_dispatch(query: &String, last_dispatched: &String, elapsed_ms: u64) -> (r: bool)
    ensures
        r == spec_should_dispatch(query@, last_dispatched@, elapsed_ms),
{
    elapsed_ms >= QUIET_PERIOD_MS && query.as_str().unicode_len() >= MIN_QUERY_LEN
        && !query.eq(last_dispatched)
}

} // verus!
