//! The card's persisted scheduling state, and the due-date, queue-position
//! and elapsed-time facts derived from it.

use vstd::prelude::*;

verus! {

/// Lifecycle stage of a card.
#[derive(Clone, Copy, PartialEq, Eq, Structural, Debug)]
pub enum CardType {
    New,
    Learn,
    Review,
    Relearn,
}

/// The per-card metadata the statistics read, as the storage collaborator
/// hands it over.
#[derive(Clone, Copy, Debug)]
pub struct Card {
    /// Identity: epoch milliseconds of the card's creation.
    pub id: i64,
    pub ctype: CardType,
    /// Stored due value: a day count, or an epoch timestamp in seconds when
    /// above the legacy threshold.
    pub due: i32,
    /// Due value before the card entered a filtered deck; `0` when unset.
    pub original_due: i32,
    /// Stored original queue position, when one was recorded.
    pub original_position: Option<u32>,
    /// Current interval in days.
    pub interval: u32,
    pub ease_factor: u16,
    pub reps: u32,
    pub lapses: u32,
    /// Cached time of the last review, epoch seconds.
    pub last_review_time: Option<i64>,
    /// Latest persisted memory state, when the model has produced one.
    pub memory_state: Option<fsrs::MemoryState>,
}

/// One snapshot of the clock collaborator, taken once per request.
#[derive(Clone, Copy, PartialEq, Eq, Structural, Debug)]
pub struct Timing {
    /// The current time, epoch seconds.
    pub now: i64,
    /// Whole days elapsed since the collection's creation day.
    pub days_elapsed: u32,
}

/// Boundary of the legacy due encoding: a stored due value above it is an
/// absolute epoch timestamp in seconds, one at or below it a day count.
pub const UNIX_EPOCH_THRESHOLD: i32 = 1_000_000_000;

/// Whether a stored due value is an absolute epoch timestamp rather than a
/// day count.
pub open spec fn spec_is_unix_epoch_timestamp(due: int) -> bool {
    due > 1_000_000_000
}

pub fn is_unix_epoch_timestamp(due: i32) -> (r: bool)
    ensures
        r == spec_is_unix_epoch_timestamp(due as int),
{
    due > UNIX_EPOCH_THRESHOLD
}

/// The stored due value the scheduler goes by: the original one when the
/// card sits in a filtered deck, else the current one.
pub open spec fn effective_due(card: Card) -> int {
    if card.original_due != 0 {
        card.original_due as int
    } else {
        card.due as int
    }
}

/// The next-due timestamp, epoch seconds: none for an unseen card; the
/// stored value itself when it already is an epoch timestamp; else the
/// current time shifted by the remaining whole days.
pub open spec fn spec_due_date(card: Card, timing: Timing) -> Option<i64> {
    match card.ctype {
        CardType::New => None,
        _ => {
            let due = effective_due(card);
            if !spec_is_unix_epoch_timestamp(due) {
                Some((timing.now + (due - timing.days_elapsed) * 86400) as i64)
            } else {
                Some(due as i64)
            }
        },
    }
}

/// The shifted timestamp fits its type: the one machine limit `due_date`
/// needs.
pub open spec fn due_date_in_range(card: Card, timing: Timing) -> bool {
    i64::MIN <= timing.now + (effective_due(card) - timing.days_elapsed) * 86400 <= i64::MAX
}

/// The enclosing collection as these statistics see it: one clock snapshot,
/// taken once per request. The storage and configuration the full collection
/// also holds are collaborators; their values come in as plain arguments.
#[derive(Clone, Copy, Debug)]
pub struct Collection {
    pub timing: Timing,
}

impl Collection {
    /// Derives the next-due timestamp from the card's lifecycle stage and
    /// its stored due value.
    pub fn due_date(&self, card: &Card) -> (r: Option<i64>)
        requires
            due_date_in_range(*card, self.timing),
        ensures
            r == spec_due_date(*card, self.timing),
    {
        match card.ctype {
            CardType::New => None,
            CardType::Review | CardType::Learn | CardType::Relearn => {
                let due: i32 = if card.original_due != 0 {
                    card.original_due
                } else {
                    card.due
                };
                if !is_unix_epoch_timestamp(due) {
                    let days_remaining: i64 = (due as i64) - (self.timing.days_elapsed as i64);
                    Some(self.timing.now + days_remaining * 86400)
                } else {
                    Some(due as i64)
                }
            },
        }
    }

    /// The queue position shown for the card.
    pub fn position(&self, card: &Card) -> (r: Option<i32>)
        requires
            card.original_position matches Some(p) ==> p <= i32::MAX,
        ensures
            r == spec_position(*card),
    {
        match card.original_position {
            Some(p) => Some(p as i32),
            None => match card.ctype {
                CardType::New => Some(card.due),
                _ => None,
            },
        }
    }
}

/// The queue position shown for the card: the stored original position when
/// one was recorded; else, for an unseen card, its raw due counter;
/// scheduled cards have none.
pub open spec fn spec_position(card: Card) -> Option<i32> {
    match card.original_position {
        Some(p) => Some(p as i32),
        None => match card.ctype {
            CardType::New => Some(card.due),
            _ => None,
        },
    }
}

/// The reference time retrievability decays from: the later of the card's
/// cached last-review time and the log's recorded one, whichever of the two
/// is present, or absent when neither is.
pub open spec fn last_review_reference(card: Card, log_last_review: Option<i64>) -> Option<i64> {
    match (card.last_review_time, log_last_review) {
        (Some(a), Some(b)) => Some(
            if a >= b {
                a
            } else {
                b
            },
        ),
        (Some(a), None) => Some(a),
        (None, Some(b)) => Some(b),
        (None, None) => None,
    }
}

/// Seconds elapsed since the last review, zero when none was ever recorded.
pub open spec fn spec_seconds_elapsed(card: Card, log_last_review: Option<i64>, now: int) -> int {
    match last_review_reference(card, log_last_review) {
        Some(t) => now - t,
        None => 0,
    }
}

/// The elapsed time is non-negative and fits its type: the machine limits
/// `seconds_elapsed` needs; a review never lies in the future.
pub open spec fn seconds_elapsed_in_range(
    card: Card,
    log_last_review: Option<i64>,
    now: int,
) -> bool {
    0 <= spec_seconds_elapsed(card, log_last_review, now) <= u32::MAX
}

/// Measures the time retrievability decays over.
pub fn seconds_elapsed(card: &Card, log_last_review: Option<i64>, now: i64) -> (r: u32)
    requires
        seconds_elapsed_in_range(*card, log_last_review, now as int),
    ensures
        r == spec_seconds_elapsed(*card, log_last_review, now as int),
{
    match (card.last_review_time, log_last_review) {
        (Some(a), Some(b)) => {
            let t: i64 = if a >= b {
                a
            } else {
                b
            };
            (now - t) as u32
        },
        (Some(a), None) => (now - a) as u32,
        (None, Some(b)) => (now - b) as u32,
        (None, None) => 0,
    }
}

} // verus!
