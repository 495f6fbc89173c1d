//! The report pipeline: aligned per-entry rows, and the assembled card
//! statistics.

use vstd::prelude::*;

use crate::align::aligned_entry_of;
use crate::align::attach_memory_states;
use crate::align::ids_of;
use crate::align::ids_within;
use crate::align::strictly_ascending;
use crate::durations::average_and_total_millis;
use crate::durations::real_answer_count;
use crate::durations::total_millis;
use crate::model::FilteredFit;
use crate::model::ModelError;
use crate::model::state_sequence;
use crate::revlog::RevlogEntry;
use crate::revlog::StatsRevlogEntry;
use crate::revlog::entries_in_range;
use crate::revlog::get_review_logs;
use crate::revlog::reversed;
use crate::revlog::stats_entry_of;
use crate::schedule::Card;
use crate::schedule::Collection;
use crate::schedule::due_date_in_range;
use crate::schedule::seconds_elapsed;
use crate::schedule::seconds_elapsed_in_range;
use crate::schedule::spec_due_date;
use crate::schedule::spec_position;
use crate::schedule::spec_seconds_elapsed;

verus! {

/// A filter result that fits the log it was cut from: well-formed, with its
/// retained identities ascending and all of them drawn from the log.
pub open spec fn fit_matches_log(log: Seq<RevlogEntry>, f: FilteredFit) -> bool {
    &&& f.wf()
    &&& strictly_ascending(f.filtered_ids@)
    &&& ids_within(f.filtered_ids@, ids_of(log))
}

/// The rows are the full log aligned, newest first, against the memory-state
/// sequence `sts`, which starts with the fit's starting state when one was
/// given.
pub open spec fn aligned_rows(
    log: Seq<RevlogEntry>,
    f: FilteredFit,
    sts: Seq<fsrs::MemoryState>,
    rows: Seq<StatsRevlogEntry>,
) -> bool {
    &&& sts.len() == f.filtered_ids@.len()
    &&& (f.starting_state matches Some(st) ==> sts.len() > 0 && sts[0] == st)
    &&& forall|k: int|
        0 <= k < rows.len() ==> rows[k] == aligned_entry_of(
            log,
            f.filtered_ids@,
            sts,
            log.len() - 1 - k,
        )
}

/// The derived statistics of one card, over plain values; presentation and
/// the storage lookups around it are the caller's concern.
#[derive(Clone, Debug)]
pub struct CardStats {
    pub card_id: i64,
    /// When the card was added, epoch seconds (identity-derived).
    pub added: i64,
    /// Time of the first recorded review, epoch seconds.
    pub first_review: Option<i64>,
    /// Time of the latest recorded review, epoch seconds.
    pub latest_review: Option<i64>,
    pub due_date: Option<i64>,
    pub due_position: Option<i32>,
    pub interval: u32,
    pub ease: u32,
    pub reviews: u32,
    pub lapses: u32,
    /// Average response time over real answers, milliseconds.
    pub average_millis: u64,
    /// Total response time, milliseconds.
    pub total_millis: u64,
    /// The card's persisted memory state, copied through.
    pub memory_state: Option<fsrs::MemoryState>,
    /// Seconds retrievability has decayed over — present exactly when the
    /// card has a memory state to decay from.
    pub retrievability_elapsed_secs: Option<u32>,
    /// Per-entry rows, newest first.
    pub revlog: Vec<StatsRevlogEntry>,
}

/// What the first (oldest) recorded review time reads as, epoch seconds.
pub open spec fn first_review_time(log: Seq<RevlogEntry>) -> Option<i64> {
    if log.len() == 0 {
        None
    } else {
        Some((log[0].id as int / 1000) as i64)
    }
}

/// What the latest recorded review time reads as, epoch seconds.
pub open spec fn latest_review_time(log: Seq<RevlogEntry>) -> Option<i64> {
    if log.len() == 0 {
        None
    } else {
        Some((log.last().id as int / 1000) as i64)
    }
}

impl Collection {
    /// Per-entry report rows, newest first. With a filter result, the
    /// model's memory states are derived and re-attached to every entry of
    /// the full log; without one, every row carries no memory state. Fails
    /// only when the model rejects the fit's inputs.
    pub fn stats_revlog_entries_with_memory_state(
        &self,
        model: &fsrs::FSRS,
        revlog: &Vec<RevlogEntry>,
        fit: Option<&FilteredFit>,
    ) -> (r: Result<Vec<StatsRevlogEntry>, ModelError>)
        requires
            strictly_ascending(ids_of(revlog@)),
            entries_in_range(revlog@),
            fit matches Some(f) ==> fit_matches_log(revlog@, *f),
        ensures
            fit is None ==> r is Ok,
            r is Err ==> fit is Some,
            r matches Ok(rows) ==> rows@.len() == revlog@.len(),
            (r matches Ok(rows) ==> fit is None ==> forall|k: int|
                0 <= k < rows@.len() ==> rows@[k] == stats_entry_of(
                    revlog@[revlog@.len() - 1 - k],
                )),
            (r matches Ok(rows) ==> fit matches Some(f) ==> exists|sts: Seq<fsrs::MemoryState>|
                aligned_rows(revlog@, *f, sts, rows@)),
    {
        match fit {
            None => Ok(get_review_logs(revlog)),
            Some(f) => match state_sequence(model, &f.reviews, f.starting_state) {
                Err(e) => Err(e),
                Ok(states) => {
                    let aligned = attach_memory_states(revlog, &f.filtered_ids, &states);
                    let rows = reversed(&aligned);
                    proof {
                        assert(aligned_rows(revlog@, *f, states@, rows@));
                    }
                    Ok(rows)
                },
            },
        }
    }

    /// The full review-log report: every entry as a report row, newest
    /// first, with no memory states attached.
    pub fn get_review_logs(&self, revlog: &Vec<RevlogEntry>) -> (r: Vec<StatsRevlogEntry>)
        requires
            entries_in_range(revlog@),
        ensures
            r@.len() == revlog@.len(),
            forall|k: int|
                0 <= k < r@.len() ==> r@[k] == stats_entry_of(revlog@[revlog@.len() - 1 - k]),
    {
        get_review_logs(revlog)
    }

    /// Assembles the card's derived statistics: scheduling facts, duration
    /// aggregates, the retrievability inputs, and the aligned per-entry
    /// rows. Fails only when the model rejects the fit's inputs; a missing
    /// fit, an empty log or a log without real answers are well-defined,
    /// not errors.
    pub fn card_stats(
        &self,
        card: &Card,
        revlog: &Vec<RevlogEntry>,
        log_last_review: Option<i64>,
        fit: Option<&FilteredFit>,
        model: &fsrs::FSRS,
    ) -> (r: Result<CardStats, ModelError>)
        requires
            card.id >= 0,
            strictly_ascending(ids_of(revlog@)),
            entries_in_range(revlog@),
            revlog@.len() <= 0xffff_ffff,
            fit matches Some(f) ==> fit_matches_log(revlog@, *f),
            due_date_in_range(*card, self.timing),
            card.original_position matches Some(p) ==> p <= i32::MAX,
            seconds_elapsed_in_range(*card, log_last_review, self.timing.now as int),
        ensures
            fit is None ==> r is Ok,
            r is Err ==> fit is Some,
            r matches Ok(s) ==> {
                &&& s.card_id == card.id
                &&& s.added == card.id as int / 1000
                &&& s.first_review == first_review_time(revlog@)
                &&& s.latest_review == latest_review_time(revlog@)
                &&& s.due_date == spec_due_date(*card, self.timing)
                &&& s.due_position == spec_position(*card)
                &&& s.interval == card.interval
                &&& s.ease == card.ease_factor as u32
                &&& s.reviews == card.reps
                &&& s.lapses == card.lapses
                &&& ((real_answer_count(revlog@) == 0 || total_millis(revlog@) == 0)
                    ==> s.average_millis == 0 && s.total_millis == 0)
                &&& (real_answer_count(revlog@) > 0 && total_millis(revlog@) > 0
                    ==> s.total_millis == total_millis(revlog@) && s.average_millis
                    == total_millis(revlog@) / real_answer_count(revlog@))
                &&& s.memory_state == card.memory_state
                &&& s.retrievability_elapsed_secs == (if card.memory_state is Some {
                    Some(spec_seconds_elapsed(*card, log_last_review, self.timing.now as int)
                        as u32)
                } else {
                    None
                })
                &&& s.revlog@.len() == revlog@.len()
                &&& (fit is None ==> forall|k: int|
                    0 <= k < s.revlog@.len() ==> s.revlog@[k] == stats_entry_of(
                        revlog@[revlog@.len() - 1 - k],
                    ))
                &&& (fit matches Some(f) ==> exists|sts: Seq<fsrs::MemoryState>|
                    aligned_rows(revlog@, *f, sts, s.revlog@))
            },
    {
        let rows = match self.stats_revlog_entries_with_memory_state(model, revlog, fit) {
            Ok(rows) => rows,
            Err(e) => {
                return Err(e);
            },
        };
        let (average_millis, total) = average_and_total_millis(revlog);
        let elapsed = seconds_elapsed(card, log_last_review, self.timing.now);
        let retrievability_elapsed_secs: Option<u32> = if card.memory_state.is_some() {
            Some(elapsed)
        } else {
            None
        };
        let first_review: Option<i64> = if revlog.len() > 0 {
            Some(revlog[0].id / 1000)
        } else {
            None
        };
        let latest_review: Option<i64> = if revlog.len() > 0 {
            Some(revlog[revlog.len() - 1].id / 1000)
        } else {
            None
        };
        Ok(
            CardStats {
                card_id: card.id,
                added: card.id / 1000,
                first_review,
                latest_review,
                due_date: self.due_date(card),
                due_position: self.position(card),
                interval: card.interval,
                ease: card.ease_factor as u32,
                reviews: card.reps,
                lapses: card.lapses,
                average_millis,
                total_millis: total,
                memory_state: card.memory_state,
                retrievability_elapsed_secs,
                revlog: rows,
            },
        )
    }
}

} // verus!
