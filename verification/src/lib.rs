//! Verified statistics for a single card's review history.
//!
//! The crate reconstructs, for one tracked card with an append-only log of
//! review events, the memory state a forgetting-curve model assigns to each
//! log entry — including entries the model was never fit on — and derives
//! point-in-time retrievability inputs, due-date and queue-position facts,
//! and duration aggregates from the card's persisted state.
//!
//! The model itself comes from the `fsrs` crate and is called behind a small
//! trusted boundary in [`model`]; everything that decides, merges or counts
//! is verified.

pub mod align;
pub mod durations;
pub mod model;
pub mod revlog;
pub mod schedule;
pub mod stats;

pub use align::attach_memory_states;
pub use durations::average_and_total_millis;
pub use model::FilteredFit;
pub use model::ModelError;
pub use model::ReviewInput;
pub use model::state_sequence;
pub use revlog::RevlogEntry;
pub use revlog::RevlogReviewKind;
pub use revlog::StatsRevlogEntry;
pub use revlog::get_review_logs;
pub use revlog::stats_revlog_entry;
pub use schedule::Card;
pub use schedule::CardType;
pub use schedule::Collection;
pub use schedule::Timing;
pub use schedule::is_unix_epoch_timestamp;
pub use schedule::seconds_elapsed;
pub use stats::CardStats;
