//! Output port for reading and writing persisted settings.
use crate::error::CoreError;
use vstd::prelude::*;

verus! {

/// The singleton settings row: each setting is absent until first written.
pub struct StoredSettings {
    pub interval_minutes: Option<u64>,
    pub snooze_minutes: Option<u64>,
}

impl StoredSettings {
    /// The row before anything was configured.
    pub open spec fn unset() -> Self {
        StoredSettings { interval_minutes: None, snooze_minutes: None }
    }

    /// A row is valid when each setting it holds is at least one minute.
    pub open spec fn valid(self) -> bool {
        &&& self.interval_minutes matches Some(minutes) ==> minutes >= 1
        &&& self.snooze_minutes matches Some(minutes) ==> minutes >= 1
    }

    /// The row after an attempt to write the interval.
    pub open spec fn after_interval_write(self, minutes: u64, written: bool) -> Self {
        if written {
            StoredSettings { interval_minutes: Some(minutes), snooze_minutes: self.snooze_minutes }
        } else {
            self
        }
    }

    /// The row after an attempt to write the snooze minutes.
    pub open spec fn after_snooze_write(self, minutes: u64, written: bool) -> Self {
        if written {
            StoredSettings { interval_minutes: self.interval_minutes, snooze_minutes: Some(minutes) }
        } else {
            self
        }
    }
}

pub trait SettingsRepository {
    /// The settings row as it stands, where the implementation models it.
    open spec fn stored(&self) -> Option<StoredSettings> {
        None
    }

    /// Whether a write of `minutes` as the interval would succeed, where the
    /// implementation can tell beforehand.
    open spec fn interval_write_succeeds(&self, minutes: u64) -> Option<bool> {
        None
    }

    /// Whether a read of the interval would succeed, where the
    /// implementation can tell beforehand.
    open spec fn interval_read_succeeds(&self) -> Option<bool> {
        None
    }

    /// Whether a write of `minutes` as the snooze minutes would succeed,
    /// where the implementation can tell beforehand.
    open spec fn snooze_write_succeeds(&self, minutes: u64) -> Option<bool> {
        None
    }

    /// Whether a read of the snooze minutes would succeed, where the
    /// implementation can tell beforehand.
    open spec fn snooze_read_succeeds(&self) -> Option<bool> {
        None
    }

    /// Saves the hydration interval in minutes, replacing any earlier value.
    fn set_hydration_interval_minutes(&mut self, interval_minutes: u64) -> (outcome: Result<
        (),
        CoreError,
    >)
        ensures
            old(self).stored() matches Some(before) ==> final(self).stored() == Some(
                before.after_interval_write(interval_minutes, outcome is Ok),
            ),
            old(self).interval_write_succeeds(interval_minutes) matches Some(expected) ==> (outcome
                is Ok) == expected,
    ;

    /// Loads the hydration interval in minutes, if configured.
    fn hydration_interval_minutes(&self) -> (outcome: Result<Option<u64>, CoreError>)
        ensures
            self.stored() matches Some(row) ==> (outcome matches Ok(minutes) ==> minutes
                == row.interval_minutes),
            self.interval_read_succeeds() matches Some(expected) ==> (outcome is Ok) == expected,
    ;

    /// Saves hydration snooze minutes, replacing any earlier value.
    fn set_hydration_snooze_minutes(&mut self, snooze_minutes: u64) -> (outcome: Result<
        (),
        CoreError,
    >)
        ensures
            old(self).stored() matches Some(before) ==> final(self).stored() == Some(
                before.after_snooze_write(snooze_minutes, outcome is Ok),
            ),
            old(self).snooze_write_succeeds(snooze_minutes) matches Some(expected) ==> (outcome
                is Ok) == expected,
    ;

    /// Loads hydration snooze minutes, if configured.
    fn hydration_snooze_minutes(&self) -> (outcome: Result<Option<u64>, CoreError>)
        ensures
            self.stored() matches Some(row) ==> (outcome matches Ok(minutes) ==> minutes
                == row.snooze_minutes),
            self.snooze_read_succeeds() matches Some(expected) ==> (outcome is Ok) == expected,
    ;
}

} // verus!
