use card_stats::Card;
use card_stats::CardType;
use card_stats::Collection;
use card_stats::RevlogEntry;
use card_stats::RevlogReviewKind;
use card_stats::Timing;
use card_stats::average_and_total_millis;
use card_stats::seconds_elapsed;

fn card(ctype: CardType) -> Card {
    Card {
        id: 1_700_000_000_000,
        ctype,
        due: 0,
        original_due: 0,
        original_position: None,
        interval: 10,
        ease_factor: 2500,
        reps: 3,
        lapses: 1,
        last_review_time: None,
        memory_state: None,
    }
}

fn timed_entry(taken_millis: u32, button_chosen: u8) -> RevlogEntry {
    RevlogEntry {
        id: 1_700_000_000_000,
        button_chosen,
        taken_millis,
        interval: 1,
        ease_factor: 2500,
        review_kind: RevlogReviewKind::Review,
    }
}

fn collection(now: i64, days_elapsed: u32) -> Collection {
    Collection { timing: Timing { now, days_elapsed } }
}

#[test]
fn new_cards_have_no_due_date() {
    let col = collection(1_700_000_000, 100);
    assert_eq!(col.due_date(&card(CardType::New)), None);
}

#[test]
fn day_offset_due_counts_days_from_now() {
    let col = collection(1_700_000_000, 10);
    let mut c = card(CardType::Review);
    c.due = 15;
    assert_eq!(col.due_date(&c), Some(1_700_000_000 + 5 * 86_400));
    let mut learn = card(CardType::Learn);
    learn.due = 15;
    assert_eq!(col.due_date(&learn), Some(1_700_000_000 + 5 * 86_400));
}

#[test]
fn epoch_due_is_returned_verbatim() {
    let col = collection(1_700_000_000, 10);
    let mut c = card(CardType::Relearn);
    c.due = 1_600_000_000;
    assert_eq!(col.due_date(&c), Some(1_600_000_000));
}

#[test]
fn original_due_wins_over_current_due() {
    let col = collection(1_700_000_000, 0);
    let mut c = card(CardType::Review);
    c.due = 1_600_000_000;
    c.original_due = 3;
    assert_eq!(col.due_date(&c), Some(1_700_000_000 + 3 * 86_400));
}

#[test]
fn position_prefers_stored_original_position() {
    let col = collection(1_700_000_000, 0);
    let mut c = card(CardType::Review);
    c.original_position = Some(7);
    assert_eq!(col.position(&c), Some(7));
}

#[test]
fn new_card_position_is_raw_due_counter() {
    let col = collection(1_700_000_000, 0);
    let mut c = card(CardType::New);
    c.due = 42;
    assert_eq!(col.position(&c), Some(42));
    let scheduled = card(CardType::Review);
    assert_eq!(col.position(&scheduled), None);
}

#[test]
fn elapsed_counts_from_the_later_known_review_time() {
    let mut c = card(CardType::Review);
    c.last_review_time = Some(1_699_999_000);
    // the cached time is the later one
    assert_eq!(seconds_elapsed(&c, Some(1_000), 1_700_000_000), 1_000);
    // the log records a review after the cached time
    assert_eq!(seconds_elapsed(&c, Some(1_699_999_900), 1_700_000_000), 100);
}

#[test]
fn elapsed_falls_back_to_either_time_alone_then_zero() {
    let c = card(CardType::Review);
    assert_eq!(seconds_elapsed(&c, Some(1_699_999_900), 1_700_000_000), 100);
    assert_eq!(seconds_elapsed(&c, None, 1_700_000_000), 0);
    let mut cached = card(CardType::Review);
    cached.last_review_time = Some(1_699_999_990);
    assert_eq!(seconds_elapsed(&cached, None, 1_700_000_000), 10);
}

#[test]
fn average_divides_total_by_real_answers() {
    // durations 30s, 0s (manual), 45s; grades 2, 0, 3: two real answers
    let revlog = vec![
        timed_entry(30_000, 2),
        timed_entry(0, 0),
        timed_entry(45_000, 3),
    ];
    let (average, total) = average_and_total_millis(&revlog);
    assert_eq!(total, 75_000);
    assert_eq!(average, 37_500);
}

#[test]
fn no_real_answers_yield_zero_average_and_total() {
    let revlog = vec![timed_entry(30_000, 0), timed_entry(45_000, 0)];
    assert_eq!(average_and_total_millis(&revlog), (0, 0));
    assert_eq!(average_and_total_millis(&Vec::new()), (0, 0));
}

#[test]
fn zero_total_yields_zero_average() {
    let revlog = vec![timed_entry(0, 2), timed_entry(0, 3)];
    assert_eq!(average_and_total_millis(&revlog), (0, 0));
}
