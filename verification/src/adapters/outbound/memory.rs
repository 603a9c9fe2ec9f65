//! In-memory implementations of the output ports. Each keeps what it was
//! given in plain collections and models itself in full, so everything the
//! ports' contracts say is proved of it.
use crate::error::CoreError;
use crate::ports::hydration_log_repository::{log_after_insert, HydrationLogRepository};
use crate::ports::reminder_event_sink::{emitted_after, ReminderEventSink};
use crate::ports::settings_repository::{SettingsRepository, StoredSettings};
use crate::text::texts;
use vstd::prelude::*;
use vstd::string::StringExecFns;

verus! {

/// The largest number of entries an in-memory log takes, so that its count
/// always fits the port's signed 64-bit result.
pub const MAX_LOG_ENTRIES: u64 = 0x7fff_ffff_ffff_ffff;

/// An append-only hydration log held in memory.
pub struct InMemoryHydrationLog {
    entries: Vec<String>,
}

impl InMemoryHydrationLog {
    /// The logged messages, oldest first.
    pub closed spec fn messages(&self) -> Seq<Seq<char>> {
        texts(self.entries@)
    }

    /// Creates an empty log.
    pub fn new() -> (log: Self)
        ensures
            log.messages() == Seq::<Seq<char>>::empty(),
    {
        let log = Self { entries: Vec::new() };
        assert(log.messages() =~= Seq::<Seq<char>>::empty());
        log
    }

    /// The logged messages, oldest first.
    pub fn entries(&self) -> (entries: &Vec<String>)
        ensures
            texts(entries@) == self.messages(),
    {
        &self.entries
    }
}

impl HydrationLogRepository for InMemoryHydrationLog {
    open spec fn logged(&self) -> Option<Seq<Seq<char>>> {
        Some(self.messages())
    }

    /// An insert succeeds on every log that is not full.
    open spec fn insert_succeeds(&self, message: Seq<char>) -> Option<bool> {
        Some(self.messages().len() < MAX_LOG_ENTRIES)
    }

    /// A count succeeds on every log that inserts alone have filled, since
    /// those stop at `MAX_LOG_ENTRIES`.
    open spec fn count_succeeds(&self) -> Option<bool> {
        Some(self.messages().len() <= MAX_LOG_ENTRIES)
    }

    /// Appends the message. Fails only on a log that is full.
    fn insert_hydration_log(&mut self, message: &str) -> (outcome: Result<(), CoreError>) {
        if self.entries.len() as u64 >= MAX_LOG_ENTRIES {
            return Err(CoreError::Io(String::from_str("hydration log is full")));
        }
        self.entries.push(String::from_str(message));
        assert(self.messages() =~= old(self).messages().push(message@));
        Ok(())
    }

    /// Counts the entries.
    fn hydration_log_count(&self) -> (outcome: Result<i64, CoreError>) {
        if self.entries.len() as u64 > MAX_LOG_ENTRIES {
            return Err(CoreError::Io(String::from_str("hydration log is too long to count")));
        }
        Ok(self.entries.len() as i64)
    }
}

/// The settings row held in memory.
pub struct InMemorySettings {
    interval_minutes: Option<u64>,
    snooze_minutes: Option<u64>,
}

impl InMemorySettings {
    /// The row as it stands.
    pub closed spec fn row(&self) -> StoredSettings {
        StoredSettings {
            interval_minutes: self.interval_minutes,
            snooze_minutes: self.snooze_minutes,
        }
    }

    /// Creates a store in which nothing is configured yet.
    pub fn new() -> (settings: Self)
        ensures
            settings.row() == StoredSettings::unset(),
    {
        Self { interval_minutes: None, snooze_minutes: None }
    }
}

impl SettingsRepository for InMemorySettings {
    open spec fn stored(&self) -> Option<StoredSettings> {
        Some(self.row())
    }

    /// Writes of the interval never fail.
    open spec fn interval_write_succeeds(&self, minutes: u64) -> Option<bool> {
        Some(true)
    }

    /// Reads of the interval never fail.
    open spec fn interval_read_succeeds(&self) -> Option<bool> {
        Some(true)
    }

    /// Writes of the snooze minutes never fail.
    open spec fn snooze_write_succeeds(&self, minutes: u64) -> Option<bool> {
        Some(true)
    }

    /// Reads of the snooze minutes never fail.
    open spec fn snooze_read_succeeds(&self) -> Option<bool> {
        Some(true)
    }

    /// Replaces the stored interval.
    fn set_hydration_interval_minutes(&mut self, interval_minutes: u64) -> (outcome: Result<
        (),
        CoreError,
    >) {
        self.interval_minutes = Some(interval_minutes);
        Ok(())
    }

    /// Reads the stored interval.
    fn hydration_interval_minutes(&self) -> (outcome: Result<Option<u64>, CoreError>) {
        Ok(self.interval_minutes)
    }

    /// Replaces the stored snooze minutes.
    fn set_hydration_snooze_minutes(&mut self, snooze_minutes: u64) -> (outcome: Result<
        (),
        CoreError,
    >) {
        self.snooze_minutes = Some(snooze_minutes);
        Ok(())
    }

    /// Reads the stored snooze minutes.
    fn hydration_snooze_minutes(&self) -> (outcome: Result<Option<u64>, CoreError>) {
        Ok(self.snooze_minutes)
    }
}

/// A sink that keeps every reminder it is given.
pub struct RecordingReminderSink {
    delivered: Vec<String>,
}

impl RecordingReminderSink {
    /// The reminders delivered so far, oldest first.
    pub closed spec fn messages(&self) -> Seq<Seq<char>> {
        texts(self.delivered@)
    }

    /// Creates a sink that has delivered nothing.
    pub fn new() -> (sink: Self)
        ensures
            sink.messages() == Seq::<Seq<char>>::empty(),
    {
        let sink = Self { delivered: Vec::new() };
        assert(sink.messages() =~= Seq::<Seq<char>>::empty());
        sink
    }

    /// The reminders delivered so far, oldest first.
    pub fn delivered(&self) -> (delivered: &Vec<String>)
        ensures
            texts(delivered@) == self.messages(),
    {
        &self.delivered
    }
}

impl ReminderEventSink for RecordingReminderSink {
    open spec fn emitted(&self) -> Option<Seq<Seq<char>>> {
        Some(self.messages())
    }

    /// Emissions never fail.
    open spec fn emit_succeeds(&self, message: Seq<char>) -> Option<bool> {
        Some(true)
    }

    /// Keeps the message.
    fn emit_hydration_reminder(&mut self, message: &str) -> (outcome: Result<(), CoreError>) {
        self.delivered.push(String::from_str(message));
        assert(self.messages() =~= old(self).messages().push(message@));
        Ok(())
    }
}

} // verus!
