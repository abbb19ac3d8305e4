use notify_scheduler::clock::LocalDateTime;
use notify_scheduler::registry::{AppState, NotificationMessage};
use notify_scheduler::scheduler::{Plan, ScheduleError};

fn msg(id: u64, time: &str, message: &str) -> NotificationMessage {
    NotificationMessage::new(id, time.to_string(), message.to_string())
}

fn at(year: i32, month: u32, day: u32, hour: u32, minute: u32, second: u32, nanosecond: u32) -> LocalDateTime {
    LocalDateTime { year, month, day, hour, minute, second, nanosecond }
}

#[test]
fn add_and_remove_message() {
    let mut st = AppState::new();
    assert!(!st.contains(1));
    st.add_message(msg(1, "2025-06-01T14:30", "a"));
    st.add_message(msg(2, "2025-06-01T14:31", "b"));
    assert!(st.contains(1));
    assert!(st.contains(2));
    assert!(st.remove_message(1));
    assert!(!st.contains(1));
    assert!(st.contains(2));
    assert!(!st.remove_message(1));
}

#[test]
fn add_message_same_id_overwrites() {
    let mut st = AppState::default();
    st.add_message(msg(5, "2025-06-01T14:30", "first"));
    st.add_message(msg(5, "2025-06-01T14:31", "second"));
    assert!(st.remove_message(5));
    assert!(!st.contains(5));
    assert!(!st.remove_message(5));
}

#[test]
fn schedule_after_positive_delay_registers() {
    let mut st = AppState::new();
    assert_eq!(st.schedule_after(msg(3, "t", "m"), 42), Plan::FireAfter(42));
    assert!(st.contains(3));
}

#[test]
fn schedule_after_zero_or_negative_delay_drops() {
    let mut st = AppState::new();
    assert_eq!(st.schedule_after(msg(3, "t", "m"), 0), Plan::Dropped);
    assert_eq!(st.schedule_after(msg(4, "t", "m"), -7), Plan::Dropped);
    assert!(!st.contains(3));
    assert!(!st.contains(4));
}

#[test]
fn schedule_at_whole_seconds() {
    let mut st = AppState::new();
    let fire = at(2025, 6, 1, 14, 30, 0, 0);
    let now = at(2025, 6, 1, 14, 29, 30, 0);
    assert_eq!(st.schedule_at(msg(1, "2025-06-01T14:30", "x"), fire, now), Plan::FireAfter(30));
    assert!(st.contains(1));
}

#[test]
fn schedule_at_across_leap_day() {
    let mut st = AppState::new();
    let fire = at(2024, 3, 1, 0, 0, 0, 0);
    let now = at(2024, 2, 28, 0, 0, 0, 0);
    assert_eq!(st.schedule_at(msg(1, "2024-03-01T00:00", "x"), fire, now), Plan::FireAfter(172800));
}

#[test]
fn schedule_at_under_one_second_drops() {
    let mut st = AppState::new();
    let fire = at(2025, 6, 1, 14, 30, 0, 0);
    let now = at(2025, 6, 1, 14, 29, 59, 500_000_000);
    assert_eq!(st.schedule_at(msg(1, "2025-06-01T14:30", "x"), fire, now), Plan::Dropped);
    assert!(!st.contains(1));
}

#[test]
fn schedule_at_past_drops() {
    let mut st = AppState::new();
    let fire = at(2025, 6, 1, 14, 30, 0, 0);
    let now = at(2025, 6, 1, 15, 0, 0, 0);
    assert_eq!(st.schedule_at(msg(1, "2025-06-01T14:30", "x"), fire, now), Plan::Dropped);
    assert!(!st.contains(1));
}

#[test]
fn past_time_registration_is_dropped() {
    let mut st = AppState::new();
    assert_eq!(st.schedule_notification(msg(1, "2000-01-01T00:00", "x")), Ok(Plan::Dropped));
    assert!(!st.contains(1));
}

#[test]
fn malformed_time_is_refused() {
    let mut st = AppState::new();
    assert_eq!(
        st.schedule_notification(msg(2, "not-a-date", "x")),
        Err(ScheduleError::InvalidTimeFormat)
    );
    assert!(!st.contains(2));
}

#[test]
fn impossible_date_is_refused() {
    let mut st = AppState::new();
    assert_eq!(
        st.schedule_notification(msg(2, "2025-02-30T10:00", "x")),
        Err(ScheduleError::InvalidTimeFormat)
    );
    assert_eq!(
        st.schedule_notification(msg(2, "2025-06-01T24:00", "x")),
        Err(ScheduleError::InvalidTimeFormat)
    );
    assert!(!st.contains(2));
}

#[test]
fn future_time_registration_contains() {
    let mut st = AppState::new();
    match st.schedule_notification(msg(7, "2999-01-01T00:00", "later")) {
        Ok(Plan::FireAfter(d)) => assert!(d > 0),
        other => panic!("unexpected {:?}", other),
    }
    assert!(st.contains(7));
}

#[test]
fn error_message_text() {
    assert_eq!(ScheduleError::InvalidTimeFormat.message(), "無效的時間格式");
}

#[test]
fn due_schedule_and_cancel_in_either_order() {
    let mut st = AppState::new();
    assert_eq!(st.schedule_after(msg(1, "t", "x"), 0), Plan::Dropped);
    st.cancel_notification(1);
    assert!(!st.contains(1));

    let mut st = AppState::new();
    st.cancel_notification(1);
    assert_eq!(st.schedule_after(msg(1, "t", "x"), -5), Plan::Dropped);
    assert!(!st.contains(1));
}

#[test]
fn cancel_wins_over_late_timer() {
    let mut st = AppState::new();
    assert_eq!(st.schedule_after(msg(1, "t", "x"), 86_400), Plan::FireAfter(86_400));
    st.cancel_notification(1);
    assert!(!st.fire(1));
    assert!(!st.contains(1));
}

#[test]
fn fire_wins_and_delivers_once() {
    let mut st = AppState::new();
    assert_eq!(st.schedule_after(msg(1, "t", "x"), 1), Plan::FireAfter(1));
    assert!(st.fire(1));
    assert!(!st.contains(1));
    assert!(!st.fire(1));
    st.cancel_notification(1);
    assert!(!st.contains(1));
}

#[test]
fn cancel_is_idempotent() {
    let mut st = AppState::new();
    st.cancel_notification(99);
    assert!(!st.contains(99));
    st.schedule_after(msg(1, "t", "x"), 10);
    st.schedule_after(msg(2, "t", "y"), 10);
    st.cancel_notification(1);
    st.cancel_notification(1);
    assert!(!st.contains(1));
    assert!(st.contains(2));
}

#[test]
fn distinct_ids_are_independent() {
    let mut st = AppState::new();
    let now = at(2025, 6, 1, 12, 0, 0, 0);
    assert_eq!(
        st.schedule_at(msg(10, "2025-06-01T12:01", "a"), at(2025, 6, 1, 12, 1, 0, 0), now),
        Plan::FireAfter(60)
    );
    assert_eq!(
        st.schedule_at(msg(11, "2025-06-01T12:02", "b"), at(2025, 6, 1, 12, 2, 0, 0), now),
        Plan::FireAfter(120)
    );
    st.cancel_notification(10);
    assert!(!st.fire(10));
    assert!(st.contains(11));
    assert!(st.fire(11));
    assert!(!st.contains(11));
}
