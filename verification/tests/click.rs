use ui_kit::click::{is_double_click, ClickAction, ClickTracker, DOUBLE_CLICK_COOLDOWN_NS};

const MS: u64 = 1_000_000;

#[test]
fn only_the_second_click_is_a_double_click() {
    assert!(!is_double_click(0));
    assert!(!is_double_click(1));
    assert!(is_double_click(2));
    assert!(!is_double_click(3));
}

#[test]
fn new_tracker_has_nothing_pending() {
    let t = ClickTracker::new(250);
    assert_eq!(t.delay_ms, 250);
    assert!(!t.pending_single);
    assert_eq!(t.last_double_ns, None);
}

#[test]
fn single_click_waits_then_fires_once() {
    let mut t = ClickTracker::new(250);
    assert_eq!(t.on_click(1, 10 * MS), ClickAction::ScheduleSingle { delay_ms: 250 });
    assert!(t.pending_single);
    assert_eq!(t.on_delay_elapsed(), ClickAction::FireSingle);
    assert!(!t.pending_single);
    assert_eq!(t.on_delay_elapsed(), ClickAction::Ignore);
}

#[test]
fn double_click_fires_at_once_and_cancels_pending_single() {
    let mut t = ClickTracker::new(300);
    assert_eq!(t.on_click(1, 0), ClickAction::ScheduleSingle { delay_ms: 300 });
    assert_eq!(t.on_click(2, 120 * MS), ClickAction::FireDouble);
    assert!(!t.pending_single);
    assert_eq!(t.last_double_ns, Some(120 * MS));
    assert_eq!(t.on_delay_elapsed(), ClickAction::Ignore);
}

#[test]
fn clicks_inside_cooldown_are_swallowed() {
    let mut t = ClickTracker::new(200);
    let double_at = 1_000 * MS;
    assert_eq!(t.on_click(2, double_at), ClickAction::FireDouble);
    let before = t;
    // the third click of a quick burst
    assert_eq!(t.on_click(3, double_at + 100 * MS), ClickAction::Ignore);
    assert_eq!(t, before);
    assert_eq!(t.on_click(1, double_at + DOUBLE_CLICK_COOLDOWN_NS - 1), ClickAction::Ignore);
    assert_eq!(t, before);
    assert!(!t.pending_single);
}

#[test]
fn cooldown_ends_after_half_a_second() {
    let mut t = ClickTracker::new(200);
    assert_eq!(t.on_click(2, 0), ClickAction::FireDouble);
    assert_eq!(
        t.on_click(1, DOUBLE_CLICK_COOLDOWN_NS),
        ClickAction::ScheduleSingle { delay_ms: 200 }
    );
    assert_eq!(DOUBLE_CLICK_COOLDOWN_NS, 500 * MS);
}

#[test]
fn a_clock_reading_before_the_double_click_counts_as_no_time_elapsed() {
    let mut t = ClickTracker::new(200);
    assert_eq!(t.on_click(2, 10_000 * MS), ClickAction::FireDouble);
    assert_eq!(t.on_click(1, 5_000 * MS), ClickAction::Ignore);
}

#[test]
fn a_second_single_click_rearms_the_single_click() {
    let mut t = ClickTracker::new(400);
    assert_eq!(t.on_click(1, 0), ClickAction::ScheduleSingle { delay_ms: 400 });
    assert_eq!(t.on_click(1, 1_000 * MS), ClickAction::ScheduleSingle { delay_ms: 400 });
    assert_eq!(t.on_delay_elapsed(), ClickAction::FireSingle);
    assert_eq!(t.on_delay_elapsed(), ClickAction::Ignore);
}

#[test]
fn double_click_restarts_cooldown() {
    let mut t = ClickTracker::new(100);
    assert_eq!(t.on_click(2, 0), ClickAction::FireDouble);
    assert_eq!(t.on_click(2, 400 * MS), ClickAction::FireDouble);
    assert_eq!(t.on_click(1, 800 * MS), ClickAction::Ignore);
    assert_eq!(t.on_click(1, 900 * MS), ClickAction::ScheduleSingle { delay_ms: 100 });
}
