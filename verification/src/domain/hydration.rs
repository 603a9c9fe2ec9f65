//! Domain types and policies for hydration reminder behavior.
use std::time::Duration;
use vstd::prelude::*;

verus! {

/// The message of every hydration reminder.
pub const DEFAULT_REMINDER_MESSAGE: &'static str = "Reminder: drink water!";

/// Minutes between reminders where no interval is configured.
pub const DEFAULT_REMINDER_MINUTES: u64 = 30;

/// Minutes of a snooze where none are configured.
pub const DEFAULT_SNOOZE_MINUTES: u64 = 10;

/// Smallest number of minutes a reminder or snooze setting may hold.
pub const MIN_MINUTES: u64 = 1;

/// Seconds in a minute.
pub const SECONDS_PER_MINUTE: u64 = 60;

/// A requested number of minutes, raised to the minimum of one.
pub open spec fn clamp_minutes(requested: u64) -> u64 {
    if requested < MIN_MINUTES {
        MIN_MINUTES
    } else {
        requested
    }
}

/// Clamping is taking the larger of the request and one, leaves valid values
/// alone, and so changes nothing when applied twice.
pub proof fn lemma_clamp_minutes(requested: u64)
    ensures
        clamp_minutes(requested) == vstd::math::max(requested as int, 1),
        clamp_minutes(requested) >= MIN_MINUTES,
        requested >= MIN_MINUTES ==> clamp_minutes(requested) == requested,
        clamp_minutes(clamp_minutes(requested)) == clamp_minutes(requested),
{
}

/// The length of `minutes` minutes in whole seconds, held at `u64::MAX`
/// where the product does not fit.
pub open spec fn saturating_seconds(minutes: u64) -> u64 {
    if minutes * SECONDS_PER_MINUTE > u64::MAX {
        u64::MAX
    } else {
        (minutes * SECONDS_PER_MINUTE) as u64
    }
}

/// The `Duration` that `Duration::from_secs` makes of a number of whole seconds.
pub uninterp spec fn duration_of_secs(secs: u64) -> Duration;

/// `Duration::from_secs`: the result is the duration of exactly `secs` whole
/// seconds, a function of `secs` alone.
#[verifier::external_body]
fn duration_from_secs(secs: u64) -> (duration: Duration)
    ensures
        duration == duration_of_secs(secs),
{
    Duration::from_secs(secs)
}

#[derive(Debug, Clone, Copy, PartialEq, Eq, Structural)]
pub struct ReminderConfig {
    pub interval_minutes: u64,
}

#[derive(Debug, Clone, Copy, PartialEq, Eq, Structural)]
pub struct SnoozeConfig {
    pub snooze_minutes: u64,
}

impl ReminderConfig {
    /// A config is valid when its interval is at least one minute.
    pub open spec fn valid(self) -> bool {
        self.interval_minutes >= MIN_MINUTES
    }

    /// Creates a reminder config and clamps the interval to at least one minute.
    pub fn new(interval_minutes: u64) -> (config: Self)
        ensures
            config.interval_minutes == clamp_minutes(interval_minutes),
            config.interval_minutes == vstd::math::max(interval_minutes as int, 1),
            config.valid(),
    {
        Self { interval_minutes: if interval_minutes < MIN_MINUTES { MIN_MINUTES } else { interval_minutes } }
    }

    /// The configured interval in whole seconds, saturating at `u64::MAX`.
    pub fn interval_seconds(self) -> (secs: u64)
        ensures
            secs == saturating_seconds(self.interval_minutes),
    {
        if self.interval_minutes > u64::MAX / SECONDS_PER_MINUTE {
            u64::MAX
        } else {
            self.interval_minutes * SECONDS_PER_MINUTE
        }
    }

    /// Converts the configured interval (minutes) into a `Duration`.
    pub fn interval_duration(self) -> (duration: Duration)
        ensures
            duration == duration_of_secs(saturating_seconds(self.interval_minutes)),
    {
        duration_from_secs(self.interval_seconds())
    }
}

impl SnoozeConfig {
    /// A config is valid when it snoozes for at least one minute.
    pub open spec fn valid(self) -> bool {
        self.snooze_minutes >= MIN_MINUTES
    }

    /// Creates a snooze config and clamps the value to at least one minute.
    pub fn new(snooze_minutes: u64) -> (config: Self)
        ensures
            config.snooze_minutes == clamp_minutes(snooze_minutes),
            config.snooze_minutes == vstd::math::max(snooze_minutes as int, 1),
            config.valid(),
    {
        Self { snooze_minutes: if snooze_minutes < MIN_MINUTES { MIN_MINUTES } else { snooze_minutes } }
    }
}

impl Default for ReminderConfig {
    fn default() -> (config: Self)
        ensures
            config.interval_minutes == DEFAULT_REMINDER_MINUTES,
            config.valid(),
    {
        Self { interval_minutes: DEFAULT_REMINDER_MINUTES }
    }
}

impl Default for SnoozeConfig {
    fn default() -> (config: Self)
        ensures
            config.snooze_minutes == DEFAULT_SNOOZE_MINUTES,
            config.valid(),
    {
        Self { snooze_minutes: DEFAULT_SNOOZE_MINUTES }
    }
}

} // verus!
