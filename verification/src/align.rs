//! The alignment engine: re-attaches the memory-state sequence derived from
//! a filtered subsequence of the review log to every entry of the full log.
//!
//! Alignment is a single forward pass with one monotonically advancing
//! pointer into the filtered sequence. Each full-log entry gets
//! - its own state, where the filtered subsequence retains it;
//! - no state, where it lies before the first retained entry;
//! - the last known state, where it was excluded later in the log.

use vstd::prelude::*;

use crate::revlog::RevlogEntry;
use crate::revlog::StatsRevlogEntry;
use crate::revlog::entries_in_range;
use crate::revlog::stats_entry_of;
use crate::revlog::stats_revlog_entry;

verus! {

/// The identities of a review log, in log order.
pub open spec fn ids_of(s: Seq<RevlogEntry>) -> Seq<i64> {
    Seq::new(s.len(), |k: int| s[k].id)
}

/// Identities strictly ascending: identity order is chronological order.
pub open spec fn strictly_ascending(ids: Seq<i64>) -> bool {
    forall|a: int, b: int| 0 <= a < b < ids.len() ==> ids[a] < ids[b]
}

/// Every identity of `filt` occurs in `full`: the filtered sequence is,
/// with both sequences ascending, a subsequence of the full one.
pub open spec fn ids_within(filt: Seq<i64>, full: Seq<i64>) -> bool {
    forall|k: int| 0 <= k < filt.len() ==> full.contains(filt[k])
}

/// How many of the first `i` entries of the full log the filtered
/// subsequence retains: where the alignment pointer stands before entry `i`.
pub open spec fn matched_before(full: Seq<i64>, filt: Seq<i64>, i: int) -> int
    decreases i,
{
    if i <= 0 {
        0
    } else {
        matched_before(full, filt, i - 1) + (if filt.contains(full[i - 1]) {
            1int
        } else {
            0int
        })
    }
}

/// The index into the memory-state sequence that alignment assigns to entry
/// `i` of the full log, or `None` where the model has no information:
/// a retained entry takes the state derived for it; an excluded entry before
/// the first retained one has none; any other excluded entry keeps the state
/// of the nearest retained entry before it.
pub open spec fn aligned_state_index(full: Seq<i64>, filt: Seq<i64>, i: int) -> Option<int> {
    let j = matched_before(full, filt, i);
    if filt.contains(full[i]) {
        Some(j)
    } else if j == 0 {
        None
    } else {
        Some(j - 1)
    }
}

/// The report row alignment produces for entry `i` of the full log.
pub open spec fn aligned_entry_of(
    log: Seq<RevlogEntry>,
    filt: Seq<i64>,
    states: Seq<fsrs::MemoryState>,
    i: int,
) -> StatsRevlogEntry {
    match aligned_state_index(ids_of(log), filt, i) {
        Some(x) => StatsRevlogEntry { memory_state: Some(states[x]), ..stats_entry_of(log[i]) },
        None => stats_entry_of(log[i]),
    }
}

/// Filtered identity `k` occurs among the first `i` entries of the full log.
pub open spec fn matched_within(full: Seq<i64>, filt: Seq<i64>, i: int, k: int) -> bool {
    exists|p: int| 0 <= p < i && full[p] == filt[k]
}

/// Facts the advancing pointer maintains: it never passes the end of the
/// filtered sequence, everything behind it was seen, and the entry it points
/// at was not.
pub proof fn lemma_pointer_invariants(full: Seq<i64>, filt: Seq<i64>, i: int)
    requires
        strictly_ascending(full),
        strictly_ascending(filt),
        ids_within(filt, full),
        0 <= i <= full.len(),
    ensures
        0 <= matched_before(full, filt, i) <= filt.len(),
        forall|k: int|
            0 <= k < matched_before(full, filt, i) ==> #[trigger] matched_within(full, filt, i, k),
        matched_before(full, filt, i) < filt.len() ==> forall|p: int|
            0 <= p < i ==> full[p] != filt[matched_before(full, filt, i)],
    decreases i, 0int,
{
    if i > 0 {
        lemma_pointer_invariants(full, filt, i - 1);
        let j = matched_before(full, filt, i - 1);
        lemma_match_iff(full, filt, i - 1);
        assert forall|k: int|
            0 <= k < matched_before(full, filt, i) implies #[trigger] matched_within(
            full,
            filt,
            i,
            k,
        ) by {
            if k < j {
                assert(matched_within(full, filt, i - 1, k));
                let p = choose|p: int| 0 <= p < i - 1 && full[p] == filt[k];
                assert(0 <= p < i && full[p] == filt[k]);
            } else {
                // only one new identity can have been matched: the entry
                // just processed, which then witnesses itself
                assert(filt.contains(full[i - 1]));
                assert(full[i - 1] == filt[j]);
            }
        }
        if filt.contains(full[i - 1]) {
            assert(full[i - 1] == filt[j]);
            if j + 1 < filt.len() {
                assert forall|p: int| 0 <= p < i implies full[p] != filt[j + 1] by {
                    assert(filt[j] < filt[j + 1]);
                    if p < i - 1 {
                        assert(full[p] < full[i - 1]);
                    }
                }
            }
        } else {
            assert(matched_before(full, filt, i) == j);
            if j < filt.len() {
                assert forall|p: int| 0 <= p < i implies full[p] != filt[j] by {
                    if p == i - 1 {
                        assert(full[i - 1] != filt[j]);
                    }
                }
            }
        }
    }
}

/// At each position the pointer matches exactly when the entry's identity is
/// retained at all: the greedy pointer finds every retained identity.
pub proof fn lemma_match_iff(full: Seq<i64>, filt: Seq<i64>, i: int)
    requires
        strictly_ascending(full),
        strictly_ascending(filt),
        ids_within(filt, full),
        0 <= i < full.len(),
    ensures
        filt.contains(full[i]) <==> (matched_before(full, filt, i) < filt.len() && full[i]
            == filt[matched_before(full, filt, i)]),
    decreases i, 1int,
{
    lemma_pointer_invariants(full, filt, i);
    let j = matched_before(full, filt, i);
    if filt.contains(full[i]) {
        let k = choose|k: int| 0 <= k < filt.len() && filt[k] == full[i];
        if j == filt.len() {
            // every filtered identity was already matched strictly earlier,
            // so none of them can equal the current, strictly larger one
            assert(matched_within(full, filt, i, k));
            let p = choose|p: int| 0 <= p < i && full[p] == filt[k];
            assert(full[p] < full[i]);
            assert(false);
        }
        if k < j {
            assert(matched_within(full, filt, i, k));
            let p = choose|p: int| 0 <= p < i && full[p] == filt[k];
            assert(full[p] < full[i]);
            assert(false);
        }
        if k > j {
            // filt[j] is smaller than the current identity yet occurs in the
            // full log only at or after position i — impossible
            assert(filt[j] < filt[k]);
            assert(full.contains(filt[j]));
            let q = choose|q: int| 0 <= q < full.len() && full[q] == filt[j];
            assert(q >= i);
            assert(full[q] >= full[i]) by {
                if q > i {
                    assert(full[i] < full[q]);
                }
            }
            assert(false);
        }
        assert(k == j);
    }
}

/// The pointer only advances.
pub proof fn lemma_matched_before_mono(full: Seq<i64>, filt: Seq<i64>, a: int, b: int)
    requires
        0 <= a <= b,
    ensures
        matched_before(full, filt, a) <= matched_before(full, filt, b),
    decreases b - a,
{
    if a < b {
        lemma_matched_before_mono(full, filt, a, b - 1);
    }
}

/// Where no identity in `[a, b)` is retained, the pointer stands still.
pub proof fn lemma_matched_before_stable(full: Seq<i64>, filt: Seq<i64>, a: int, b: int)
    requires
        0 <= a <= b,
        forall|t: int| a <= t < b ==> !(#[trigger] filt.contains(full[t])),
    ensures
        matched_before(full, filt, b) == matched_before(full, filt, a),
    decreases b - a,
{
    if a < b {
        lemma_matched_before_stable(full, filt, a, b - 1);
    }
}

/// Front-exclusion law: where the first `k` entries of the full log are
/// absent from the filtered subsequence and entry `k` is its first retained
/// one, those `k` aligned entries carry no memory state, and every entry
/// from `k` onward carries one.
pub proof fn lemma_front_exclusion(full: Seq<i64>, filt: Seq<i64>, k: int)
    requires
        strictly_ascending(full),
        strictly_ascending(filt),
        ids_within(filt, full),
        1 <= k < full.len(),
        forall|t: int| 0 <= t < k ==> !(#[trigger] filt.contains(full[t])),
        filt.len() > 0,
        full[k] == filt[0],
    ensures
        forall|t: int| 0 <= t < k ==> #[trigger] aligned_state_index(full, filt, t) is None,
        forall|t: int|
            k <= t < full.len() ==> #[trigger] aligned_state_index(full, filt, t) is Some,
{
    assert(filt.contains(full[k]));
    assert forall|t: int| 0 <= t < k implies #[trigger] aligned_state_index(full, filt, t)
        is None by {
        lemma_matched_before_stable(full, filt, 0, t);
        assert(matched_before(full, filt, t) == 0);
        assert(!filt.contains(full[t]));
    }
    assert forall|t: int| k <= t < full.len() implies #[trigger] aligned_state_index(full, filt, t)
        is Some by {
        lemma_matched_before_stable(full, filt, 0, k);
        if t > k {
            assert(matched_before(full, filt, k + 1) == 1);
            lemma_matched_before_mono(full, filt, k + 1, t);
            assert(matched_before(full, filt, t) >= 1);
        }
    }
}

/// Persistence-of-last-known-state law: an entry excluded after the last
/// retained one keeps the final filtered state.
pub proof fn lemma_trailing_exclusion(full: Seq<i64>, filt: Seq<i64>, p: int, i: int)
    requires
        strictly_ascending(full),
        strictly_ascending(filt),
        ids_within(filt, full),
        0 <= p < i < full.len(),
        filt.len() >= 1,
        full[p] == filt[filt.len() - 1],
        !filt.contains(full[i]),
    ensures
        aligned_state_index(full, filt, i) == Some(filt.len() - 1),
{
    let m = filt.len();
    lemma_pointer_invariants(full, filt, i);
    let j = matched_before(full, filt, i);
    if j < m {
        // filt[j] is still unmatched below i, yet it lies at or before
        // filt[m - 1] == full[p] with p < i — impossible in ascending order
        if j == m - 1 {
            assert(full[p] == filt[j]);
            assert(false);
        } else {
            assert(filt[j] < filt[m - 1]);
            assert(full.contains(filt[j]));
            let q = choose|q: int| 0 <= q < full.len() && full[q] == filt[j];
            assert(q >= i);
            assert(full[p] < full[q]);
            assert(false);
        }
    }
}

/// Interior-exclusion law: an entry excluded strictly between two retained
/// entries keeps the state of the nearest retained entry before it — an
/// earlier state than that of any retained entry after it.
pub proof fn lemma_interior_exclusion(full: Seq<i64>, filt: Seq<i64>, p: int, i: int, q: int)
    requires
        strictly_ascending(full),
        strictly_ascending(filt),
        ids_within(filt, full),
        0 <= p < i < q < full.len(),
        filt.contains(full[p]),
        !filt.contains(full[i]),
        filt.contains(full[q]),
        forall|t: int| p < t < i ==> !(#[trigger] filt.contains(full[t])),
    ensures
        aligned_state_index(full, filt, i) == aligned_state_index(full, filt, p),
        aligned_state_index(full, filt, p) matches Some(x) ==> (aligned_state_index(full, filt, q)
            matches Some(y) ==> x < y),
{
    let jp = matched_before(full, filt, p);
    lemma_matched_before_mono(full, filt, 0, p);
    assert(jp >= 0);
    lemma_matched_before_stable(full, filt, p + 1, i);
    assert(matched_before(full, filt, p + 1) == jp + 1);
    assert(matched_before(full, filt, i) == jp + 1);
    assert(aligned_state_index(full, filt, i) == Some(jp));
    assert(aligned_state_index(full, filt, p) == Some(jp));
    assert(matched_before(full, filt, i + 1) == jp + 1);
    lemma_matched_before_mono(full, filt, i + 1, q);
    assert(matched_before(full, filt, q) >= jp + 1);
}

/// Idempotence law: alignment is a pure function of its inputs — any two
/// outputs meeting the contract of `attach_memory_states` on the same
/// inputs are equal.
pub proof fn lemma_alignment_deterministic(
    log: Seq<RevlogEntry>,
    filt: Seq<i64>,
    states: Seq<fsrs::MemoryState>,
    r1: Seq<StatsRevlogEntry>,
    r2: Seq<StatsRevlogEntry>,
)
    requires
        r1.len() == log.len(),
        r2.len() == log.len(),
        forall|k: int| 0 <= k < log.len() ==> r1[k] == aligned_entry_of(log, filt, states, k),
        forall|k: int| 0 <= k < log.len() ==> r2[k] == aligned_entry_of(log, filt, states, k),
    ensures
        r1 == r2,
{
    assert(r1 =~= r2);
}

/// Alignment engine: one report row per full-log entry, in original
/// chronological order, each carrying the memory state (or none) that the
/// forward pass assigns to it.
///
/// With an empty filtered sequence every row carries no state.
pub fn attach_memory_states(
    revlog: &Vec<RevlogEntry>,
    filtered_ids: &Vec<i64>,
    states: &Vec<fsrs::MemoryState>,
) -> (r: Vec<StatsRevlogEntry>)
    requires
        strictly_ascending(ids_of(revlog@)),
        strictly_ascending(filtered_ids@),
        ids_within(filtered_ids@, ids_of(revlog@)),
        states@.len() == filtered_ids@.len(),
        entries_in_range(revlog@),
    ensures
        r@.len() == revlog@.len(),
        forall|k: int|
            0 <= k < r@.len() ==> r@[k] == aligned_entry_of(revlog@, filtered_ids@, states@, k),
{
    let ghost full = ids_of(revlog@);
    let ghost filt = filtered_ids@;
    let n = revlog.len();
    let m = filtered_ids.len();
    let mut fwd: Vec<StatsRevlogEntry> = Vec::new();
    let mut j: usize = 0;
    let mut i: usize = 0;
    while i < n
        invariant
            i <= n,
            j <= m,
            n == revlog@.len(),
            m == filtered_ids@.len(),
            m == states@.len(),
            full == ids_of(revlog@),
            filt == filtered_ids@,
            strictly_ascending(full),
            strictly_ascending(filt),
            ids_within(filt, full),
            entries_in_range(revlog@),
            j as int == matched_before(full, filt, i as int),
            fwd@.len() == i,
            forall|k: int|
                0 <= k < i ==> fwd@[k] == aligned_entry_of(revlog@, filt, states@, k),
        decreases n - i,
    {
        proof {
            lemma_pointer_invariants(full, filt, i as int);
            lemma_match_iff(full, filt, i as int);
            assert(full[i as int] == revlog@[i as int].id);
        }
        let mut entry = stats_revlog_entry(&revlog[i]);
        if j < m && revlog[i].id == filtered_ids[j] {
            entry.memory_state = Some(states[j]);
            j = j + 1;
        } else if j > 0 {
            entry.memory_state = Some(states[j - 1]);
        }
        fwd.push(entry);
        i = i + 1;
    }
    fwd
}

} // verus!
