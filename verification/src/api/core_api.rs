//! Pure core API that delegates to application services and ports.
use crate::application::hydration_service::{reminder_ticked, trigger_and_emit, HydrationService};
use crate::application::settings_service::{effective_reminder_config, SettingsService};
use crate::domain::hydration::{clamp_minutes, ReminderConfig};
use crate::error::CoreError;
use crate::ports::hydration_log_repository::HydrationLogRepository;
use crate::ports::reminder_event_sink::ReminderEventSink;
use crate::ports::settings_repository::{SettingsRepository, StoredSettings};
use vstd::prelude::*;

verus! {

pub struct CoreApi<L: HydrationLogRepository, S: SettingsRepository, K: ReminderEventSink> {
    hydration_service: HydrationService<L>,
    settings_service: SettingsService<S>,
    reminder_sink: K,
}

impl<L: HydrationLogRepository, S: SettingsRepository, K: ReminderEventSink> CoreApi<L, S, K> {
    /// The hydration service behind this API.
    pub closed spec fn hydration_service(&self) -> HydrationService<L> {
        self.hydration_service
    }

    /// The settings service behind this API.
    pub closed spec fn settings_service(&self) -> SettingsService<S> {
        self.settings_service
    }

    /// The sink through which this API emits reminders.
    pub closed spec fn reminder_sink(&self) -> K {
        self.reminder_sink
    }

    /// The reminders logged so far, where the log repository models its log.
    pub open spec fn logged(&self) -> Option<Seq<Seq<char>>> {
        self.hydration_service().logged()
    }

    /// The settings row as it stands, where the settings repository models it.
    pub open spec fn stored(&self) -> Option<StoredSettings> {
        self.settings_service().stored()
    }

    /// The reminders emitted so far, where the sink models its channel.
    pub open spec fn emitted(&self) -> Option<Seq<Seq<char>>> {
        self.reminder_sink().emitted()
    }

    /// Creates a core API from already-wired services and output ports.
    pub fn new(
        hydration_service: HydrationService<L>,
        settings_service: SettingsService<S>,
        reminder_sink: K,
    ) -> (api: Self)
        ensures
            api.hydration_service() == hydration_service,
            api.settings_service() == settings_service,
            api.reminder_sink() == reminder_sink,
    {
        Self { hydration_service, settings_service, reminder_sink }
    }

    /// Triggers one hydration reminder and emits it through the event sink.
    pub fn trigger_hydration_reminder_once(&mut self) -> (outcome: Result<String, CoreError>)
        ensures
            triggered_once(*old(self), *final(self), outcome),
    {
        trigger_and_emit(&mut self.hydration_service, &mut self.reminder_sink)
    }

    /// Returns the number of hydration reminder log entries.
    pub fn hydration_log_count(&self) -> (outcome: Result<i64, CoreError>)
        ensures
            counted_log(*self, outcome),
    {
        self.hydration_service.reminder_count()
    }

    /// Persists hydration interval minutes and returns the normalized value.
    pub fn set_hydration_interval_minutes(&mut self, interval_minutes: u64) -> (outcome: Result<
        u64,
        CoreError,
    >)
        ensures
            interval_set(*old(self), *final(self), interval_minutes, outcome),
    {
        let set = self.settings_service.set_hydration_interval_minutes(interval_minutes);
        normalized_minutes(set)
    }

    /// Reads the effective hydration reminder configuration.
    pub fn hydration_reminder_config(&self) -> (outcome: Result<ReminderConfig, CoreError>)
        ensures
            config_read(*self, outcome),
    {
        self.settings_service.hydration_reminder_config()
    }
}

/// What setting the interval returns once the settings service has ended
/// in `set`: the minutes of the config it stored, or its error unchanged.
pub open spec fn normalized_minutes_of(set: Result<ReminderConfig, CoreError>) -> Result<
    u64,
    CoreError,
> {
    match set {
        Ok(config) => Ok(config.interval_minutes),
        Err(error) => Err(error),
    }
}

/// Turns the end of the settings service's call into what setting the
/// interval returns.
pub fn normalized_minutes(set: Result<ReminderConfig, CoreError>) -> (outcome: Result<
    u64,
    CoreError,
>)
    ensures
        outcome == normalized_minutes_of(set),
{
    match set {
        Ok(config) => Ok(config.interval_minutes),
        Err(error) => Err(error),
    }
}

/// What one trigger-once call does to an API and returns.
///
/// The message returned is the fixed reminder message. The log gains that
/// message, or else the call failed with the log as it was and the sink not
/// called. The sink gains the message exactly on success. The settings are
/// not touched.
pub open spec fn triggered_once<L, S, K>(
    before: CoreApi<L, S, K>,
    after: CoreApi<L, S, K>,
    outcome: Result<String, CoreError>,
) -> bool where L: HydrationLogRepository, S: SettingsRepository, K: ReminderEventSink {
    &&& reminder_ticked(
        before.hydration_service(),
        after.hydration_service(),
        before.reminder_sink(),
        after.reminder_sink(),
        outcome,
    )
    &&& after.settings_service() == before.settings_service()
}

/// What a count of the log returns: on success, the number of entries. It
/// succeeds exactly when the repository's count does.
pub open spec fn counted_log<L, S, K>(api: CoreApi<L, S, K>, outcome: Result<i64, CoreError>) -> bool where
    L: HydrationLogRepository,
    S: SettingsRepository,
    K: ReminderEventSink,
 {
    &&& api.logged() matches Some(entries) ==> (outcome matches Ok(count) ==> count
        == entries.len())
    &&& api.hydration_service().count_succeeds() matches Some(expected) ==> (outcome is Ok)
        == expected
}

/// What setting the interval does to an API and returns: the request
/// clamped to at least one minute is what is stored and what is returned.
/// The call succeeds exactly when the repository's write does. The log and
/// the sink are not touched.
pub open spec fn interval_set<L, S, K>(
    before: CoreApi<L, S, K>,
    after: CoreApi<L, S, K>,
    requested: u64,
    outcome: Result<u64, CoreError>,
) -> bool where L: HydrationLogRepository, S: SettingsRepository, K: ReminderEventSink {
    &&& outcome matches Ok(normalized) ==> normalized == clamp_minutes(requested)
    &&& before.stored() matches Some(row) ==> after.stored() == Some(
        row.after_interval_write(clamp_minutes(requested), outcome is Ok),
    )
    &&& before.settings_service().interval_set_succeeds(requested) matches Some(expected)
        ==> (outcome is Ok) == expected
    &&& after.hydration_service() == before.hydration_service()
    &&& after.reminder_sink() == before.reminder_sink()
}

/// What a read of the reminder config returns: on success, a valid config,
/// the stored interval where it is valid, else the default. It
/// succeeds exactly when the repository's read does.
pub open spec fn config_read<L, S, K>(
    api: CoreApi<L, S, K>,
    outcome: Result<ReminderConfig, CoreError>,
) -> bool where L: HydrationLogRepository, S: SettingsRepository, K: ReminderEventSink {
    &&& outcome matches Ok(config) ==> config.valid()
    &&& api.stored() matches Some(row) ==> (outcome matches Ok(config) ==> config
        == effective_reminder_config(row.interval_minutes))
    &&& api.settings_service().interval_read_succeeds() matches Some(expected) ==> (outcome is Ok)
        == expected
}

} // verus!
