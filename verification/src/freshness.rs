//! The freshness gate for the report file.
//!
//! The root resource is a report file regenerated by an external command.
//! Before serving it, the server decides from the file's modification time
//! whether the command must run again: a missing file is infinitely stale,
//! and one whose age exceeds 60 seconds is stale. An age of exactly 60
//! seconds is fresh (the comparison is strict). A modification time in the
//! future counts as an age of zero, hence fresh.
//!
//! Times are seconds. The caller reads the modification time and the clock
//! and hands both in; running the command is the caller's part too. If the
//! command fails, the caller is expected to keep serving whatever report
//! output is present rather than abort.

use vstd::prelude::*;

verus! {

/// The staleness threshold in seconds: a report older than this is remade.
pub const STALENESS_THRESHOLD_SECS: u64 = 60;

/// A report with modification time `modified` is stale at time `now` when it
/// is absent, or strictly more than 60 seconds old. A modification time in
/// the future counts as an age of zero.
pub open spec fn is_stale(modified: Option<u64>, now: u64) -> bool {
    match modified {
        None => true,
        Some(m) => m <= now && now - m > STALENESS_THRESHOLD_SECS,
    }
}

/// Decides whether the report file is stale: absent, or modified strictly
/// more than 60 seconds before `now`.
///
/// `modified` is the file's modification time in seconds, `None` when the
/// file is absent or its metadata cannot be read; `now` is the current time
/// in seconds.
pub fn is_file_older_than_60_seconds(modified: Option<u64>, now: u64) -> (stale: bool)
    ensures
        stale == is_stale(modified, now),
{
    match modified {
        None => true,
        Some(m) => m <= now && now - m > STALENESS_THRESHOLD_SECS,
    }
}

/// Decides whether the regeneration command must run before the root
/// resource is served: exactly when the report file is stale.
pub fn needs_regeneration(modified: Option<u64>, now: u64) -> (run: bool)
    ensures
        run == is_stale(modified, now),
{
    is_file_older_than_60_seconds(modified, now)
}

/// Once the report has been regenerated at time `gen`, a second root request
/// within 60 seconds of `gen` finds it fresh, so the command does not run a
/// second time.
pub proof fn lemma_regeneration_not_repeated(gen: u64, later: u64)
    requires
        gen <= later,
        later - gen <= STALENESS_THRESHOLD_SECS,
    ensures
        !is_stale(Some(gen), later),
{
}

/// A report whose age is exactly 60 seconds sits on the boundary and is
/// treated as fresh: staleness requires an age strictly greater than 60.
pub proof fn lemma_boundary_age_is_fresh(modified: u64, now: u64)
    requires
        modified <= now,
        now - modified == STALENESS_THRESHOLD_SECS,
    ensures
        !is_stale(Some(modified), now),
{
}

} // verus!
