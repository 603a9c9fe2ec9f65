//! Settings use cases for reading and writing reminder configuration.
use crate::domain::hydration::{
    clamp_minutes, ReminderConfig, SnoozeConfig, DEFAULT_REMINDER_MINUTES, DEFAULT_SNOOZE_MINUTES,
    MIN_MINUTES,
};
use crate::error::CoreError;
use crate::ports::settings_repository::{SettingsRepository, StoredSettings};
use vstd::prelude::*;

verus! {

/// The minutes that a stored value stands for: the value itself where it is
/// at least one minute. A value below that counts as absent, like one that
/// was never stored.
pub open spec fn valid_stored_minutes(stored: Option<u64>) -> Option<u64> {
    match stored {
        Some(minutes) => if minutes >= MIN_MINUTES {
            Some(minutes)
        } else {
            None
        },
        None => None,
    }
}

/// The reminder config in effect for a stored interval: the stored minutes
/// where they are valid, the default where they are absent or invalid.
pub open spec fn effective_reminder_config(stored: Option<u64>) -> ReminderConfig {
    match valid_stored_minutes(stored) {
        Some(minutes) => ReminderConfig { interval_minutes: minutes },
        None => ReminderConfig { interval_minutes: DEFAULT_REMINDER_MINUTES },
    }
}

/// The snooze config in effect for stored snooze minutes: the stored
/// minutes where they are valid, the default where they are absent or
/// invalid.
pub open spec fn effective_snooze_config(stored: Option<u64>) -> SnoozeConfig {
    match valid_stored_minutes(stored) {
        Some(minutes) => SnoozeConfig { snooze_minutes: minutes },
        None => SnoozeConfig { snooze_minutes: DEFAULT_SNOOZE_MINUTES },
    }
}

/// What a write returns once the store's call has ended in `written`: the
/// value written after a success, the store's error unchanged otherwise.
pub open spec fn write_outcome_of<T>(value: T, written: Result<(), CoreError>) -> Result<
    T,
    CoreError,
> {
    match written {
        Ok(_) => Ok(value),
        Err(error) => Err(error),
    }
}

/// What a read of the reminder config returns once the store's call has
/// ended in `read`: the config in effect for what was found, the store's
/// error unchanged otherwise. Nothing that is found makes the read fail.
pub open spec fn reminder_read_outcome_of(read: Result<Option<u64>, CoreError>) -> Result<
    ReminderConfig,
    CoreError,
> {
    match read {
        Ok(stored) => Ok(effective_reminder_config(stored)),
        Err(error) => Err(error),
    }
}

/// What a read of the snooze config returns once the store's call has ended
/// in `read`: the config in effect for what was found, the store's error
/// unchanged otherwise.
pub open spec fn snooze_read_outcome_of(read: Result<Option<u64>, CoreError>) -> Result<
    SnoozeConfig,
    CoreError,
> {
    match read {
        Ok(stored) => Ok(effective_snooze_config(stored)),
        Err(error) => Err(error),
    }
}

/// Turns the end of the store's write into what the service returns.
pub fn write_outcome<T>(value: T, written: Result<(), CoreError>) -> (outcome: Result<T, CoreError>)
    ensures
        outcome == write_outcome_of(value, written),
{
    match written {
        Ok(_) => Ok(value),
        Err(error) => Err(error),
    }
}

/// Whatever is stored, the config in effect is valid.
pub proof fn lemma_effective_configs_are_valid(stored: Option<u64>)
    ensures
        effective_reminder_config(stored).valid(),
        effective_snooze_config(stored).valid(),
{
}

/// After a successful write of any requested interval, the stored interval
/// is the request clamped, so at least one minute, and the config read back
/// holds exactly that value. The snooze minutes are as they were.
pub proof fn lemma_interval_round_trip(before: StoredSettings, requested: u64)
    ensures
        ({
            let after = before.after_interval_write(clamp_minutes(requested), true);
            &&& after.interval_minutes == Some(clamp_minutes(requested))
            &&& clamp_minutes(requested) >= 1
            &&& effective_reminder_config(after.interval_minutes).interval_minutes
                == clamp_minutes(requested)
            &&& after.snooze_minutes == before.snooze_minutes
        }),
{
}

/// After a successful write of any requested snooze minutes, the stored
/// value is the request clamped, and the config read back holds exactly
/// that value. The interval is as it was.
pub proof fn lemma_snooze_round_trip(before: StoredSettings, requested: u64)
    ensures
        ({
            let after = before.after_snooze_write(clamp_minutes(requested), true);
            &&& after.snooze_minutes == Some(clamp_minutes(requested))
            &&& clamp_minutes(requested) >= 1
            &&& effective_snooze_config(after.snooze_minutes).snooze_minutes == clamp_minutes(
                requested,
            )
            &&& after.interval_minutes == before.interval_minutes
        }),
{
}

/// What the service writes is clamped, so its writes keep a valid row
/// valid, whether they succeed or fail.
pub proof fn lemma_service_writes_keep_row_valid(
    before: StoredSettings,
    requested: u64,
    written: bool,
)
    requires
        before.valid(),
    ensures
        before.after_interval_write(clamp_minutes(requested), written).valid(),
        before.after_snooze_write(clamp_minutes(requested), written).valid(),
{
}

pub struct SettingsService<S: SettingsRepository> {
    repository: S,
}

impl<S: SettingsRepository> SettingsService<S> {
    /// The settings repository this service writes to and reads from.
    pub closed spec fn repository(&self) -> S {
        self.repository
    }

    /// The settings row as it stands, where the repository models it.
    pub open spec fn stored(&self) -> Option<StoredSettings> {
        self.repository().stored()
    }

    /// Whether setting the interval to `requested` would succeed, where the
    /// repository can tell beforehand: exactly when the write of the clamped
    /// request does.
    pub open spec fn interval_set_succeeds(&self, requested: u64) -> Option<bool> {
        self.repository().interval_write_succeeds(clamp_minutes(requested))
    }

    /// Whether reading the reminder config would succeed, where the
    /// repository can tell beforehand: exactly when the read of the
    /// interval does, whatever it finds.
    pub open spec fn interval_read_succeeds(&self) -> Option<bool> {
        self.repository().interval_read_succeeds()
    }

    /// Whether setting the snooze minutes to `requested` would succeed,
    /// where the repository can tell beforehand.
    pub open spec fn snooze_set_succeeds(&self, requested: u64) -> Option<bool> {
        self.repository().snooze_write_succeeds(clamp_minutes(requested))
    }

    /// Whether reading the snooze config would succeed, where the
    /// repository can tell beforehand.
    pub open spec fn snooze_read_succeeds(&self) -> Option<bool> {
        self.repository().snooze_read_succeeds()
    }

    /// Builds the settings use-case service with a settings repository.
    pub fn new(repository: S) -> (service: Self)
        ensures
            service.repository() == repository,
    {
        Self { repository }
    }

    /// The reminder config that a loaded interval stands for. A value below
    /// one minute is treated as absent, not as an error.
    pub fn reminder_config_from_stored(stored: Option<u64>) -> (config: ReminderConfig)
        ensures
            config == effective_reminder_config(stored),
            config.valid(),
    {
        match stored {
            Some(minutes) => if minutes >= MIN_MINUTES {
                ReminderConfig::new(minutes)
            } else {
                ReminderConfig::default()
            },
            None => ReminderConfig::default(),
        }
    }

    /// The snooze config that loaded snooze minutes stand for. A value below
    /// one minute is treated as absent, not as an error.
    pub fn snooze_config_from_stored(stored: Option<u64>) -> (config: SnoozeConfig)
        ensures
            config == effective_snooze_config(stored),
            config.valid(),
    {
        match stored {
            Some(minutes) => if minutes >= MIN_MINUTES {
                SnoozeConfig::new(minutes)
            } else {
                SnoozeConfig::default()
            },
            None => SnoozeConfig::default(),
        }
    }

    /// Turns the end of the store's read into what reading the reminder
    /// config returns.
    pub fn reminder_config_from_read(read: Result<Option<u64>, CoreError>) -> (outcome: Result<
        ReminderConfig,
        CoreError,
    >)
        ensures
            outcome == reminder_read_outcome_of(read),
    {
        match read {
            Ok(stored) => Ok(Self::reminder_config_from_stored(stored)),
            Err(error) => Err(error),
        }
    }

    /// Turns the end of the store's read into what reading the snooze
    /// config returns.
    pub fn snooze_config_from_read(read: Result<Option<u64>, CoreError>) -> (outcome: Result<
        SnoozeConfig,
        CoreError,
    >)
        ensures
            outcome == snooze_read_outcome_of(read),
    {
        match read {
            Ok(stored) => Ok(Self::snooze_config_from_stored(stored)),
            Err(error) => Err(error),
        }
    }

    /// Persists hydration interval minutes and returns the normalized config.
    ///
    /// What is written and returned is the request clamped to at least one
    /// minute, never the raw request.
    pub fn set_hydration_interval_minutes(&mut self, interval_minutes: u64) -> (outcome: Result<
        ReminderConfig,
        CoreError,
    >)
        ensures
            outcome matches Ok(config) ==> config.interval_minutes == clamp_minutes(
                interval_minutes,
            ) && config.valid(),
            old(self).stored() matches Some(before) ==> final(self).stored() == Some(
                before.after_interval_write(clamp_minutes(interval_minutes), outcome is Ok),
            ),
            old(self).interval_set_succeeds(interval_minutes) matches Some(expected) ==> (outcome
                is Ok) == expected,
    {
        let config: ReminderConfig = ReminderConfig::new(interval_minutes);
        let written = self.repository.set_hydration_interval_minutes(config.interval_minutes);
        write_outcome(config, written)
    }

    /// Loads hydration reminder config from storage or falls back to the
    /// default, where nothing valid is stored.
    pub fn hydration_reminder_config(&self) -> (outcome: Result<ReminderConfig, CoreError>)
        ensures
            outcome matches Ok(config) ==> config.valid(),
            self.stored() matches Some(row) ==> (outcome matches Ok(config) ==> config
                == effective_reminder_config(row.interval_minutes)),
            self.interval_read_succeeds() matches Some(expected) ==> (outcome is Ok) == expected,
    {
        let read = self.repository.hydration_interval_minutes();
        Self::reminder_config_from_read(read)
    }

    /// Persists hydration snooze minutes and returns the normalized config.
    pub fn set_hydration_snooze_minutes(&mut self, snooze_minutes: u64) -> (outcome: Result<
        SnoozeConfig,
        CoreError,
    >)
        ensures
            outcome matches Ok(config) ==> config.snooze_minutes == clamp_minutes(snooze_minutes)
                && config.valid(),
            old(self).stored() matches Some(before) ==> final(self).stored() == Some(
                before.after_snooze_write(clamp_minutes(snooze_minutes), outcome is Ok),
            ),
            old(self).snooze_set_succeeds(snooze_minutes) matches Some(expected) ==> (outcome
                is Ok) == expected,
    {
        let config: SnoozeConfig = SnoozeConfig::new(snooze_minutes);
        let written = self.repository.set_hydration_snooze_minutes(config.snooze_minutes);
        write_outcome(config, written)
    }

    /// Loads hydration snooze config from storage or falls back to the
    /// default, where nothing valid is stored.
    pub fn hydration_snooze_config(&self) -> (outcome: Result<SnoozeConfig, CoreError>)
        ensures
            outcome matches Ok(config) ==> config.valid(),
            self.stored() matches Some(row) ==> (outcome matches Ok(config) ==> config
                == effective_snooze_config(row.snooze_minutes)),
            self.snooze_read_succeeds() matches Some(expected) ==> (outcome is Ok) == expected,
    {
        let read = self.repository.hydration_snooze_minutes();
        Self::snooze_config_from_read(read)
    }
}

} // verus!
