use desk_buddy_core::domain::hydration::{
    ReminderConfig, SnoozeConfig, DEFAULT_REMINDER_MESSAGE, DEFAULT_REMINDER_MINUTES,
    DEFAULT_SNOOZE_MINUTES,
};
use std::time::Duration;

#[test]
fn default_config_is_30_minutes() {
    assert_eq!(ReminderConfig::default().interval_minutes, 30);
}

#[test]
fn zero_interval_is_clamped_to_one_minute() {
    assert_eq!(ReminderConfig::new(0).interval_minutes, 1);
}

#[test]
fn default_snooze_is_10_minutes() {
    assert_eq!(SnoozeConfig::default().snooze_minutes, 10);
}

#[test]
fn zero_snooze_is_clamped_to_one_minute() {
    assert_eq!(SnoozeConfig::new(0).snooze_minutes, 1);
}

#[test]
fn constants_hold_the_defaults() {
    assert_eq!(DEFAULT_REMINDER_MESSAGE, "Reminder: drink water!");
    assert_eq!(DEFAULT_REMINDER_MINUTES, 30);
    assert_eq!(DEFAULT_SNOOZE_MINUTES, 10);
}

#[test]
fn new_interval_is_the_larger_of_request_and_one() {
    for requested in [0u64, 1, 2, 29, 30, 31, 1440, u64::MAX - 1, u64::MAX] {
        assert_eq!(ReminderConfig::new(requested).interval_minutes, requested.max(1));
        assert_eq!(SnoozeConfig::new(requested).snooze_minutes, requested.max(1));
    }
}

#[test]
fn one_minute_is_left_alone() {
    assert_eq!(ReminderConfig::new(1).interval_minutes, 1);
    assert_eq!(SnoozeConfig::new(1).snooze_minutes, 1);
}

#[test]
fn configs_compare_by_their_minutes() {
    assert_eq!(ReminderConfig::new(0), ReminderConfig::new(1));
    assert_ne!(ReminderConfig::new(2), ReminderConfig::new(3));
    assert_eq!(ReminderConfig::default(), ReminderConfig::new(30));
    assert_eq!(SnoozeConfig::default(), SnoozeConfig::new(10));
}

#[test]
fn interval_seconds_is_sixty_per_minute() {
    assert_eq!(ReminderConfig::new(1).interval_seconds(), 60);
    assert_eq!(ReminderConfig::new(30).interval_seconds(), 1800);
    assert_eq!(ReminderConfig::new(1440).interval_seconds(), 86_400);
}

#[test]
fn interval_seconds_saturates() {
    let largest_exact: u64 = u64::MAX / 60;
    assert_eq!(ReminderConfig::new(largest_exact).interval_seconds(), largest_exact * 60);
    assert_eq!(ReminderConfig::new(largest_exact + 1).interval_seconds(), u64::MAX);
    assert_eq!(ReminderConfig::new(u64::MAX).interval_seconds(), u64::MAX);
}

#[test]
fn interval_duration_is_minutes_times_sixty_seconds() {
    assert_eq!(ReminderConfig::new(2).interval_duration(), Duration::from_secs(120));
    assert_eq!(ReminderConfig::default().interval_duration(), Duration::from_secs(1800));
    assert_eq!(ReminderConfig::new(0).interval_duration(), Duration::from_secs(60));
}

#[test]
fn interval_duration_saturates_instead_of_wrapping() {
    assert_eq!(ReminderConfig::new(u64::MAX).interval_duration(), Duration::from_secs(u64::MAX));
    let direct = ReminderConfig { interval_minutes: u64::MAX / 60 + 1 };
    assert_eq!(direct.interval_duration(), Duration::from_secs(u64::MAX));
}
