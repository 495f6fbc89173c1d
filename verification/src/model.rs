//! The decay-model boundary: declarations of the `fsrs` crate's types and
//! the one trusted call into it, plus the verified adapter around that call.

use vstd::prelude::*;

verus! {

/// The forgetting-curve model of the `fsrs` crate. Opaque here: it is built
/// from numeric parameters by the caller and only handed through.
#[verifier::external_type_specification]
#[verifier::external_body]
pub struct ExFsrs(fsrs::FSRS);

/// The model's latent memory state (stability and difficulty). Opaque here:
/// memory states are produced only by the model and carried through.
#[verifier::external_type_specification]
#[verifier::external_body]
pub struct ExMemoryState(fsrs::MemoryState);

/// The `fsrs` crate's error type. Opaque here.
#[verifier::external_type_specification]
#[verifier::external_body]
pub struct ExFsrsError(fsrs::FSRSError);

/// One review as the model consumes it: the outcome rating and the number
/// of days since the review before it.
#[derive(Clone, Copy, PartialEq, Eq, Structural, Debug)]
pub struct ReviewInput {
    /// Outcome rating, `1..=4`; `0` marks a pass-through entry.
    pub rating: u32,
    /// Days elapsed since the previous review; `0` for the first.
    pub delta_t: u32,
}

/// The decay model rejected its numeric inputs.
#[derive(Debug)]
pub struct ModelError {
    pub source: fsrs::FSRSError,
}

/// Relies on `fsrs::FSRS::historical_memory_states`: on success it returns
/// the given starting state, when one is given, followed by one memory state
/// per review, in review order.
#[verifier::external_body]
fn run_historical_memory_states(
    model: &fsrs::FSRS,
    reviews: &Vec<ReviewInput>,
    starting_state: Option<fsrs::MemoryState>,
) -> (r: Result<Vec<fsrs::MemoryState>, fsrs::FSRSError>)
    ensures
        (r matches Ok(states) ==> states@.len() == reviews@.len() + (if starting_state is Some {
            1int
        } else {
            0int
        })),
        (r matches Ok(states) && starting_state matches Some(s) ==> states@[0] == s),
{
    let item = fsrs::FSRSItem {
        reviews: reviews
            .iter()
            .map(|r| fsrs::FSRSReview { rating: r.rating, delta_t: r.delta_t })
            .collect(),
    };
    model.historical_memory_states(item, starting_state)
}

/// The filter collaborator's result: the identities of the filtered
/// subsequence the model was fit on, the reviews the model consumes, and the
/// starting memory state, when the front of the log was cut off.
///
/// When a starting state is present it stands for the first filtered entry,
/// whose review the model does not consume again; the well-formedness
/// condition below keeps one memory state per filtered entry.
pub struct FilteredFit {
    /// Identities of the retained entries, ascending.
    pub filtered_ids: Vec<i64>,
    /// The reviews handed to the model, in order.
    pub reviews: Vec<ReviewInput>,
    /// State at the first retained entry, when the log was cut off before it.
    pub starting_state: Option<fsrs::MemoryState>,
}

impl FilteredFit {
    /// One memory state will come back per retained entry.
    pub open spec fn wf(self) -> bool {
        self.filtered_ids@.len() == self.reviews@.len() + (if self.starting_state is Some {
            1int
        } else {
            0int
        })
    }
}

/// Decay-model adapter: the ordered memory states the model assigns — the
/// starting state first when one is given, then one state per review — or a
/// `ModelError` when the model rejects its inputs.
pub fn state_sequence(
    model: &fsrs::FSRS,
    reviews: &Vec<ReviewInput>,
    starting_state: Option<fsrs::MemoryState>,
) -> (r: Result<Vec<fsrs::MemoryState>, ModelError>)
    ensures
        (r matches Ok(states) ==> states@.len() == reviews@.len() + (if starting_state is Some {
            1int
        } else {
            0int
        })),
        (r matches Ok(states) && starting_state matches Some(s) ==> states@[0] == s),
{
    match run_historical_memory_states(model, reviews, starting_state) {
        Ok(states) => Ok(states),
        Err(source) => Err(ModelError { source }),
    }
}

} // verus!
