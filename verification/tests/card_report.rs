use card_stats::Card;
use card_stats::CardType;
use card_stats::Collection;
use card_stats::FilteredFit;
use card_stats::ReviewInput;
use card_stats::RevlogEntry;
use card_stats::RevlogReviewKind;
use card_stats::Timing;
use card_stats::state_sequence;
use card_stats::stats_revlog_entry;

fn entry(id: i64, interval: i32) -> RevlogEntry {
    RevlogEntry {
        id,
        button_chosen: 3,
        taken_millis: 4000,
        interval,
        ease_factor: 2500,
        review_kind: RevlogReviewKind::Review,
    }
}

fn base_card() -> Card {
    Card {
        id: 1_600_000_000_000,
        ctype: CardType::Review,
        due: 5,
        original_due: 0,
        original_position: None,
        interval: 10,
        ease_factor: 2500,
        reps: 3,
        lapses: 0,
        last_review_time: Some(1_699_000_000),
        memory_state: None,
    }
}

fn collection() -> Collection {
    Collection { timing: Timing { now: 1_700_000_000, days_elapsed: 2 } }
}

#[test]
fn entry_rows_convert_intervals_and_times() {
    let row = stats_revlog_entry(&entry(1_700_000_123_456, 3));
    assert_eq!(row.time, 1_700_000_123);
    assert_eq!(row.interval, 3 * 86_400);
    assert_eq!(row.button_chosen, 3);
    assert_eq!(row.taken_millis, 4000);
    assert!(row.memory_state.is_none());
    // a negative stored interval already counts seconds
    assert_eq!(stats_revlog_entry(&entry(1000, -300)).interval, 300);
    // a huge day count saturates instead of wrapping
    assert_eq!(stats_revlog_entry(&entry(1000, 30_000)).interval, i32::MAX as u32);
}

#[test]
fn review_log_report_is_newest_first() {
    let revlog = vec![entry(1_000, 1), entry(2_000, 2), entry(3_000, 3)];
    let rows = collection().get_review_logs(&revlog);
    assert_eq!(rows.len(), 3);
    assert_eq!(rows[0].time, 3);
    assert_eq!(rows[1].time, 2);
    assert_eq!(rows[2].time, 1);
    assert!(rows.iter().all(|r| r.memory_state.is_none()));
}

#[test]
fn model_states_are_derived_and_attached() {
    let model = fsrs::FSRS::new(&[]).unwrap();
    let revlog = vec![entry(1_000, 1), entry(2_000, 2), entry(3_000, 3)];
    let fit = FilteredFit {
        filtered_ids: vec![1_000, 2_000, 3_000],
        reviews: vec![
            ReviewInput { rating: 3, delta_t: 0 },
            ReviewInput { rating: 3, delta_t: 1 },
            ReviewInput { rating: 3, delta_t: 3 },
        ],
        starting_state: None,
    };
    let rows = collection().stats_revlog_entries_with_memory_state(&model, &revlog, Some(&fit)).unwrap();
    assert_eq!(rows.len(), 3);
    for row in &rows {
        let state = row.memory_state.expect("every entry was retained");
        assert!(state.stability > 0.0 && state.stability.is_finite());
        assert!(state.difficulty > 0.0 && state.difficulty.is_finite());
    }
}

#[test]
fn starting_state_stands_for_the_first_retained_entry() {
    let model = fsrs::FSRS::new(&[]).unwrap();
    let starting = fsrs::MemoryState { stability: 123.5, difficulty: 4.25 };
    let revlog = vec![entry(1_000, 1), entry(2_000, 2)];
    let fit = FilteredFit {
        filtered_ids: vec![1_000, 2_000],
        reviews: vec![ReviewInput { rating: 3, delta_t: 5 }],
        starting_state: Some(starting),
    };
    let rows = collection().stats_revlog_entries_with_memory_state(&model, &revlog, Some(&fit)).unwrap();
    // newest first: the oldest row carries the starting state itself
    let oldest = rows[1].memory_state.unwrap();
    assert_eq!(oldest.stability, 123.5);
    assert_eq!(oldest.difficulty, 4.25);
    assert!(rows[0].memory_state.unwrap().stability.is_finite());
}

#[test]
fn model_rejecting_its_inputs_is_reported() {
    let model = fsrs::FSRS::new(&[]).unwrap();
    let bad_state = fsrs::MemoryState { stability: f32::NAN, difficulty: 1.0 };
    let revlog = vec![entry(1_000, 1), entry(2_000, 2)];
    let fit = FilteredFit {
        filtered_ids: vec![1_000, 2_000],
        reviews: vec![ReviewInput { rating: 3, delta_t: 1 }],
        starting_state: Some(bad_state),
    };
    let err = state_sequence(&model, &fit.reviews, fit.starting_state).unwrap_err();
    assert_eq!(err.source, fsrs::FSRSError::InvalidInput);
    let report = collection().card_stats(&base_card(), &revlog, None, Some(&fit), &model);
    assert!(report.is_err());
}

#[test]
fn missing_memory_state_means_absent_retrievability() {
    let model = fsrs::FSRS::new(&[]).unwrap();
    let revlog = vec![entry(1_000, 1), entry(2_000, 2)];
    let stats = collection().card_stats(&base_card(), &revlog, None, None, &model).unwrap();
    assert!(stats.memory_state.is_none());
    assert_eq!(stats.retrievability_elapsed_secs, None);
}

#[test]
fn present_memory_state_means_elapsed_seconds_are_reported() {
    let model = fsrs::FSRS::new(&[]).unwrap();
    let mut card = base_card();
    card.memory_state = Some(fsrs::MemoryState { stability: 10.0, difficulty: 5.0 });
    let revlog = vec![entry(1_000, 1)];
    let stats = collection().card_stats(&card, &revlog, None, None, &model).unwrap();
    assert_eq!(stats.retrievability_elapsed_secs, Some(1_000_000));
    let state = stats.memory_state.unwrap();
    assert_eq!(state.stability, 10.0);
}

#[test]
fn assembled_report_carries_scheduling_and_duration_facts() {
    let model = fsrs::FSRS::new(&[]).unwrap();
    let revlog = vec![entry(1_000_000, 1), entry(2_000_000, 2), entry(3_000_000, 3)];
    let stats = collection().card_stats(&base_card(), &revlog, None, None, &model).unwrap();
    assert_eq!(stats.card_id, 1_600_000_000_000);
    assert_eq!(stats.added, 1_600_000_000);
    assert_eq!(stats.first_review, Some(1_000));
    assert_eq!(stats.latest_review, Some(3_000));
    assert_eq!(stats.due_date, Some(1_700_000_000 + 3 * 86_400));
    assert_eq!(stats.due_position, None);
    assert_eq!(stats.interval, 10);
    assert_eq!(stats.ease, 2500);
    assert_eq!(stats.reviews, 3);
    assert_eq!(stats.lapses, 0);
    assert_eq!(stats.total_millis, 12_000);
    assert_eq!(stats.average_millis, 4_000);
    assert_eq!(stats.revlog.len(), 3);
}

#[test]
fn empty_log_yields_wholly_absent_report_fields() {
    let model = fsrs::FSRS::new(&[]).unwrap();
    let revlog: Vec<RevlogEntry> = Vec::new();
    let mut card = base_card();
    card.last_review_time = None;
    let stats = collection().card_stats(&card, &revlog, None, None, &model).unwrap();
    assert_eq!(stats.first_review, None);
    assert_eq!(stats.latest_review, None);
    assert_eq!(stats.total_millis, 0);
    assert_eq!(stats.average_millis, 0);
    assert_eq!(stats.revlog.len(), 0);
}

#[test]
fn empty_fit_leaves_every_state_absent() {
    let model = fsrs::FSRS::new(&[]).unwrap();
    let revlog = vec![entry(1_000, 1), entry(2_000, 2), entry(3_000, 3)];
    let fit = FilteredFit { filtered_ids: Vec::new(), reviews: Vec::new(), starting_state: None };
    let rows = collection().stats_revlog_entries_with_memory_state(&model, &revlog, Some(&fit)).unwrap();
    assert_eq!(rows.len(), 3);
    assert!(rows.iter().all(|r| r.memory_state.is_none()));
    let no_fit = collection().stats_revlog_entries_with_memory_state(&model, &revlog, None).unwrap();
    assert_eq!(no_fit.len(), 3);
    assert!(no_fit.iter().all(|r| r.memory_state.is_none()));
}
