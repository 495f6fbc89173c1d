//! The review log: one record per review event, and the per-entry report
//! rows derived from it.

use vstd::prelude::*;

verus! {

/// Kind of event a review-log entry records.
#[derive(Clone, Copy, PartialEq, Eq, Structural, Debug)]
pub enum RevlogReviewKind {
    Learning,
    Review,
    Relearning,
    Filtered,
    Manual,
    Rescheduled,
}

/// One recorded review event.
///
/// The identity `id` is the review's timestamp in epoch milliseconds; ids are
/// unique and ascending within a log, so identity order is chronological
/// order.
#[derive(Clone, Copy, PartialEq, Eq, Structural, Debug)]
pub struct RevlogEntry {
    /// Identity: epoch milliseconds of the review.
    pub id: i64,
    /// Outcome grade; `0` marks a pass-through or manual entry, `1..=4` a
    /// real answer.
    pub button_chosen: u8,
    /// Response duration in milliseconds.
    pub taken_millis: u32,
    /// Interval produced by the review: days when positive, seconds when
    /// negative.
    pub interval: i32,
    /// Ease signal recorded with the review.
    pub ease_factor: u32,
    /// What kind of event this entry records.
    pub review_kind: RevlogReviewKind,
}

/// One row of the per-entry report: the entry's facts plus the memory state
/// alignment attaches to it, when any.
#[derive(Clone, Copy, Debug)]
pub struct StatsRevlogEntry {
    /// Identity-derived timestamp, in epoch seconds.
    pub time: i64,
    pub review_kind: RevlogReviewKind,
    pub button_chosen: u32,
    /// Interval produced, in seconds.
    pub interval: u32,
    pub ease: u32,
    /// Response duration in milliseconds.
    pub taken_millis: u32,
    /// The model's memory state for this entry, absent where the model has
    /// no information.
    pub memory_state: Option<fsrs::MemoryState>,
}

/// The produced interval in seconds: a positive stored value counts days
/// (capped at `i32::MAX` seconds), a non-positive one counts seconds
/// directly.
pub open spec fn interval_seconds(interval: int) -> int {
    if interval > 0 {
        if interval * 86400 > 0x7fff_ffff {
            0x7fff_ffff
        } else {
            interval * 86400
        }
    } else {
        -interval
    }
}

/// An entry the report functions accept: a non-negative identity (it is an
/// epoch timestamp) and an interval whose negation fits its type.
pub open spec fn entry_in_range(e: RevlogEntry) -> bool {
    e.id >= 0 && e.interval > i32::MIN
}

pub open spec fn entries_in_range(s: Seq<RevlogEntry>) -> bool {
    forall|k: int| 0 <= k < s.len() ==> entry_in_range(s[k])
}

/// The report row for one entry, before any memory state is attached.
pub open spec fn stats_entry_of(e: RevlogEntry) -> StatsRevlogEntry {
    StatsRevlogEntry {
        time: (e.id as int / 1000) as i64,
        review_kind: e.review_kind,
        button_chosen: e.button_chosen as u32,
        interval: interval_seconds(e.interval as int) as u32,
        ease: e.ease_factor,
        taken_millis: e.taken_millis,
        memory_state: None,
    }
}

/// Builds the report row for one entry; no memory state is attached here.
pub fn stats_revlog_entry(entry: &RevlogEntry) -> (r: StatsRevlogEntry)
    requires
        entry_in_range(*entry),
    ensures
        r == stats_entry_of(*entry),
{
    let interval: u32 = if entry.interval > 0 {
        if entry.interval >= 24856 {
            0x7fff_ffff
        } else {
            (entry.interval * 86400) as u32
        }
    } else {
        (-entry.interval) as u32
    };
    StatsRevlogEntry {
        time: entry.id / 1000,
        review_kind: entry.review_kind,
        button_chosen: entry.button_chosen as u32,
        interval,
        ease: entry.ease_factor,
        taken_millis: entry.taken_millis,
        memory_state: None,
    }
}

/// The rows reversed: the reports list entries newest first.
pub fn reversed(rows: &Vec<StatsRevlogEntry>) -> (r: Vec<StatsRevlogEntry>)
    ensures
        r@.len() == rows@.len(),
        forall|k: int| 0 <= k < r@.len() ==> r@[k] == rows@[rows@.len() - 1 - k],
{
    let n = rows.len();
    let mut r: Vec<StatsRevlogEntry> = Vec::new();
    let mut k: usize = n;
    while k > 0
        invariant
            k <= n,
            n == rows@.len(),
            r@.len() == n - k,
            forall|t: int| 0 <= t < r@.len() ==> r@[t] == rows@[n - 1 - t],
        decreases k,
    {
        k = k - 1;
        r.push(rows[k]);
    }
    r
}

/// The full log as report rows, newest first, with no memory states: what
/// the review-log report returns.
pub fn get_review_logs(revlog: &Vec<RevlogEntry>) -> (r: Vec<StatsRevlogEntry>)
    requires
        entries_in_range(revlog@),
    ensures
        r@.len() == revlog@.len(),
        forall|k: int|
            0 <= k < r@.len() ==> r@[k] == stats_entry_of(revlog@[revlog@.len() - 1 - k]),
{
    let n = revlog.len();
    let mut out: Vec<StatsRevlogEntry> = Vec::new();
    let mut i: usize = n;
    while i > 0
        invariant
            i <= n,
            n == revlog@.len(),
            entries_in_range(revlog@),
            out@.len() == n - i,
            forall|k: int|
                0 <= k < out@.len() ==> out@[k] == stats_entry_of(revlog@[n - 1 - k]),
        decreases i,
    {
        i = i - 1;
        out.push(stats_revlog_entry(&revlog[i]));
    }
    out
}

} // verus!
