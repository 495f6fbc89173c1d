//! Aggregate duration statistics over the review log.

use vstd::prelude::*;

use crate::revlog::RevlogEntry;

verus! {

/// Sum of the recorded response durations, in milliseconds.
pub open spec fn total_millis(s: Seq<RevlogEntry>) -> int
    decreases s.len(),
{
    if s.len() == 0 {
        0
    } else {
        total_millis(s.drop_last()) + s.last().taken_millis
    }
}

/// How many entries answer the card for real: a grade of zero marks a
/// pass-through or manual entry.
pub open spec fn real_answer_count(s: Seq<RevlogEntry>) -> int
    decreases s.len(),
{
    if s.len() == 0 {
        0
    } else {
        real_answer_count(s.drop_last()) + (if s.last().button_chosen > 0 {
            1int
        } else {
            0int
        })
    }
}

/// Average and total response time over the log, in milliseconds, in that
/// order. The total sums every entry's duration; the average divides it by
/// the number of real answers. Both are zero when there is no real answer or
/// no recorded time at all — degenerate logs never divide by zero.
pub fn average_and_total_millis(revlog: &Vec<RevlogEntry>) -> (r: (u64, u64))
    requires
        revlog@.len() <= 0xffff_ffff,
    ensures
        (real_answer_count(revlog@) == 0 || total_millis(revlog@) == 0) ==> (r.0 == 0 && r.1
            == 0),
        real_answer_count(revlog@) > 0 && total_millis(revlog@) > 0 ==> (r.1 == total_millis(
            revlog@,
        ) && r.0 == total_millis(revlog@) / real_answer_count(revlog@)),
{
    let n = revlog.len();
    let mut total: u64 = 0;
    let mut real_answers: u64 = 0;
    let mut i: usize = 0;
    while i < n
        invariant
            i <= n,
            n == revlog@.len(),
            n <= 0xffff_ffff,
            total == total_millis(revlog@.take(i as int)),
            real_answers == real_answer_count(revlog@.take(i as int)),
            total <= i * 0xffff_ffff,
            real_answers <= i,
        decreases n - i,
    {
        proof {
            assert(revlog@.take(i + 1).drop_last() =~= revlog@.take(i as int));
            assert(revlog@.take(i + 1).last() == revlog@[i as int]);
        }
        total = total + (revlog[i].taken_millis as u64);
        if revlog[i].button_chosen > 0 {
            real_answers = real_answers + 1;
        }
        i = i + 1;
    }
    proof {
        assert(revlog@.take(n as int) =~= revlog@);
    }
    if real_answers == 0 || total == 0 {
        (0, 0)
    } else {
        (total / real_answers, total)
    }
}

} // verus!
