use desk_buddy_core::adapters::inbound::core_facade::CoreFacade;
use desk_buddy_core::adapters::outbound::memory::{
    InMemoryHydrationLog, InMemorySettings, RecordingReminderSink,
};
use desk_buddy_core::api::core_api::{normalized_minutes, CoreApi};
use desk_buddy_core::application::hydration_service::{
    emission_outcome, trigger_and_emit, HydrationService,
};
use desk_buddy_core::application::settings_service::{write_outcome, SettingsService};
use desk_buddy_core::domain::hydration::{ReminderConfig, SnoozeConfig, DEFAULT_REMINDER_MESSAGE};
use desk_buddy_core::error::CoreError;
use desk_buddy_core::ports::hydration_log_repository::HydrationLogRepository;
use desk_buddy_core::ports::reminder_event_sink::ReminderEventSink;
use desk_buddy_core::ports::settings_repository::SettingsRepository;

/// A log whose inserts and counts always fail.
struct BrokenLog;

impl HydrationLogRepository for BrokenLog {
    fn insert_hydration_log(&mut self, _message: &str) -> Result<(), CoreError> {
        Err(CoreError::Sqlite("insert failed".to_string()))
    }

    fn hydration_log_count(&self) -> Result<i64, CoreError> {
        Err(CoreError::Sqlite("count failed".to_string()))
    }
}

/// A settings store that fails every call, or answers reads with a fixed value.
struct ScriptedSettings {
    interval: Result<Option<u64>, String>,
    snooze: Result<Option<u64>, String>,
    writes: Vec<u64>,
    fail_writes: bool,
}

impl ScriptedSettings {
    fn reading(interval: Option<u64>, snooze: Option<u64>) -> Self {
        Self { interval: Ok(interval), snooze: Ok(snooze), writes: Vec::new(), fail_writes: false }
    }

    fn broken() -> Self {
        Self {
            interval: Err("read failed".to_string()),
            snooze: Err("read failed".to_string()),
            writes: Vec::new(),
            fail_writes: true,
        }
    }
}

impl SettingsRepository for ScriptedSettings {
    fn set_hydration_interval_minutes(&mut self, interval_minutes: u64) -> Result<(), CoreError> {
        self.writes.push(interval_minutes);
        if self.fail_writes {
            Err(CoreError::Sqlite("write failed".to_string()))
        } else {
            Ok(())
        }
    }

    fn hydration_interval_minutes(&self) -> Result<Option<u64>, CoreError> {
        self.interval.clone().map_err(CoreError::Sqlite)
    }

    fn set_hydration_snooze_minutes(&mut self, snooze_minutes: u64) -> Result<(), CoreError> {
        self.writes.push(snooze_minutes);
        if self.fail_writes {
            Err(CoreError::Sqlite("write failed".to_string()))
        } else {
            Ok(())
        }
    }

    fn hydration_snooze_minutes(&self) -> Result<Option<u64>, CoreError> {
        self.snooze.clone().map_err(CoreError::Sqlite)
    }
}

/// A sink that refuses every reminder and counts how often it was asked.
struct RefusingSink {
    calls: usize,
}

impl ReminderEventSink for RefusingSink {
    fn emit_hydration_reminder(&mut self, _message: &str) -> Result<(), CoreError> {
        self.calls += 1;
        Err(CoreError::Io("sink refused".to_string()))
    }
}

type MemoryApi = CoreApi<InMemoryHydrationLog, InMemorySettings, RecordingReminderSink>;

fn memory_api() -> MemoryApi {
    CoreApi::new(
        HydrationService::new(InMemoryHydrationLog::new()),
        SettingsService::new(InMemorySettings::new()),
        RecordingReminderSink::new(),
    )
}

type MemoryFacade = CoreFacade<InMemoryHydrationLog, InMemorySettings, RecordingReminderSink, (), ()>;

fn memory_facade() -> MemoryFacade {
    CoreFacade::new(InMemoryHydrationLog::new(), InMemorySettings::new(), RecordingReminderSink::new())
}

#[test]
fn core_facade_trigger_once_writes_to_sqlite() {
    let mut core = memory_facade();

    let _: String = core.trigger_hydration_reminder_once().unwrap();

    assert_eq!(core.hydration_log_count().unwrap(), 1);
}

#[test]
fn core_facade_hydration_interval_defaults_then_round_trips() {
    let mut core = memory_facade();

    assert_eq!(
        core.hydration_reminder_config().unwrap().interval_minutes,
        ReminderConfig::default().interval_minutes
    );

    let persisted: u64 = core.set_hydration_interval_minutes(0).unwrap();
    assert_eq!(persisted, 1);
    assert_eq!(core.hydration_reminder_config().unwrap().interval_minutes, 1);
}

#[test]
fn core_builder_trigger_once_writes_to_sqlite() {
    let mut api = memory_api();

    let _: String = api.trigger_hydration_reminder_once().unwrap();

    assert_eq!(api.hydration_log_count().unwrap(), 1);
}

#[test]
fn core_builder_hydration_interval_defaults_then_round_trips() {
    let mut api = memory_api();

    assert_eq!(
        api.hydration_reminder_config().unwrap().interval_minutes,
        ReminderConfig::default().interval_minutes
    );

    let persisted: u64 = api.set_hydration_interval_minutes(0).unwrap();
    assert_eq!(persisted, 1);
    assert_eq!(api.hydration_reminder_config().unwrap().interval_minutes, 1);
}

#[test]
fn trigger_once_returns_the_fixed_message_and_logs_it() {
    let mut api = memory_api();
    assert_eq!(api.hydration_log_count().unwrap(), 0);

    let message = api.trigger_hydration_reminder_once().unwrap();

    assert_eq!(message, "Reminder: drink water!");
    assert_eq!(message, DEFAULT_REMINDER_MESSAGE);
    assert_eq!(api.hydration_log_count().unwrap(), 1);
}

#[test]
fn log_count_equals_number_of_triggers() {
    for n in [0i64, 1, 2, 7, 50] {
        let mut api = memory_api();
        for _ in 0..n {
            api.trigger_hydration_reminder_once().unwrap();
        }
        assert_eq!(api.hydration_log_count().unwrap(), n);
    }
}

#[test]
fn service_trigger_appends_the_fixed_message() {
    let mut log = InMemoryHydrationLog::new();
    log.insert_hydration_log("earlier entry").unwrap();
    let mut service = HydrationService::new(log);

    assert_eq!(service.trigger_reminder().unwrap(), DEFAULT_REMINDER_MESSAGE);
    assert_eq!(service.trigger_reminder().unwrap(), DEFAULT_REMINDER_MESSAGE);

    assert_eq!(service.reminder_count().unwrap(), 3);
}

#[test]
fn in_memory_log_keeps_entries_in_order() {
    let mut log = InMemoryHydrationLog::new();
    assert!(log.entries().is_empty());
    log.insert_hydration_log("first").unwrap();
    log.insert_hydration_log("second").unwrap();
    assert_eq!(log.entries(), &vec!["first".to_string(), "second".to_string()]);
    assert_eq!(log.hydration_log_count().unwrap(), 2);
}

#[test]
fn recording_sink_keeps_what_it_was_given() {
    let mut sink = RecordingReminderSink::new();
    assert!(sink.delivered().is_empty());
    sink.emit_hydration_reminder("one").unwrap();
    sink.emit_hydration_reminder("two").unwrap();
    assert_eq!(sink.delivered(), &vec!["one".to_string(), "two".to_string()]);
}

#[test]
fn trigger_and_emit_logs_then_emits_the_same_message() {
    let mut service = HydrationService::new(InMemoryHydrationLog::new());
    let mut sink = RecordingReminderSink::new();

    let message = trigger_and_emit(&mut service, &mut sink).unwrap();

    assert_eq!(message, DEFAULT_REMINDER_MESSAGE);
    assert_eq!(service.reminder_count().unwrap(), 1);
    assert_eq!(sink.delivered(), &vec![DEFAULT_REMINDER_MESSAGE.to_string()]);
}

#[test]
fn storage_failure_is_returned_and_nothing_is_emitted() {
    let mut service = HydrationService::new(BrokenLog);
    let mut sink = RecordingReminderSink::new();

    let outcome = trigger_and_emit(&mut service, &mut sink);

    assert!(matches!(outcome, Err(CoreError::Sqlite(ref text)) if text == "insert failed"));
    assert!(sink.delivered().is_empty());
}

#[test]
fn sink_failure_is_returned_after_the_entry_was_logged() {
    let mut service = HydrationService::new(InMemoryHydrationLog::new());
    let mut sink = RefusingSink { calls: 0 };

    let outcome = trigger_and_emit(&mut service, &mut sink);

    assert!(matches!(outcome, Err(CoreError::Io(ref text)) if text == "sink refused"));
    assert_eq!(sink.calls, 1);
    assert_eq!(service.reminder_count().unwrap(), 1);
}

#[test]
fn count_failure_is_returned_unchanged() {
    let service = HydrationService::new(BrokenLog);
    assert!(matches!(
        service.reminder_count(),
        Err(CoreError::Sqlite(ref text)) if text == "count failed"
    ));
}

#[test]
fn reminder_outcome_follows_the_insert() {
    let ok = HydrationService::<InMemoryHydrationLog>::reminder_outcome(Ok(()));
    assert_eq!(ok.unwrap(), DEFAULT_REMINDER_MESSAGE);
    let failed = HydrationService::<InMemoryHydrationLog>::reminder_outcome(Err(
        CoreError::Sqlite("disk full".to_string()),
    ));
    assert!(matches!(failed, Err(CoreError::Sqlite(ref text)) if text == "disk full"));
}

#[test]
fn emission_outcome_follows_the_sink() {
    let delivered = emission_outcome("hello".to_string(), Ok(()));
    assert_eq!(delivered.unwrap(), "hello");
    let refused = emission_outcome("hello".to_string(), Err(CoreError::Io("closed".to_string())));
    assert!(matches!(refused, Err(CoreError::Io(ref text)) if text == "closed"));
}

#[test]
fn set_interval_stores_and_returns_the_clamped_value() {
    let mut service = SettingsService::new(ScriptedSettings::reading(None, None));

    assert_eq!(service.set_hydration_interval_minutes(0).unwrap(), ReminderConfig::new(1));
    assert_eq!(service.set_hydration_interval_minutes(45).unwrap().interval_minutes, 45);
    assert_eq!(service.set_hydration_snooze_minutes(0).unwrap(), SnoozeConfig::new(1));
    assert_eq!(service.set_hydration_snooze_minutes(15).unwrap().snooze_minutes, 15);
}

#[test]
fn the_store_is_handed_the_clamped_value() {
    let mut store = ScriptedSettings::reading(None, None);
    store.fail_writes = true;
    let mut service = SettingsService::new(store);
    assert!(service.set_hydration_interval_minutes(0).is_err());

    let mut memory = SettingsService::new(InMemorySettings::new());
    memory.set_hydration_interval_minutes(0).unwrap();
    memory.set_hydration_snooze_minutes(0).unwrap();
    assert_eq!(memory.hydration_reminder_config().unwrap().interval_minutes, 1);
    assert_eq!(memory.hydration_snooze_config().unwrap().snooze_minutes, 1);
}

#[test]
fn in_memory_settings_round_trip() {
    let mut store = InMemorySettings::new();
    assert_eq!(store.hydration_interval_minutes().unwrap(), None);
    assert_eq!(store.hydration_snooze_minutes().unwrap(), None);
    store.set_hydration_interval_minutes(25).unwrap();
    assert_eq!(store.hydration_interval_minutes().unwrap(), Some(25));
    assert_eq!(store.hydration_snooze_minutes().unwrap(), None);
    store.set_hydration_snooze_minutes(5).unwrap();
    store.set_hydration_interval_minutes(26).unwrap();
    assert_eq!(store.hydration_interval_minutes().unwrap(), Some(26));
    assert_eq!(store.hydration_snooze_minutes().unwrap(), Some(5));
}

#[test]
fn missing_settings_fall_back_to_defaults() {
    let service = SettingsService::new(InMemorySettings::new());
    assert_eq!(service.hydration_reminder_config().unwrap().interval_minutes, 30);
    assert_eq!(service.hydration_snooze_config().unwrap().snooze_minutes, 10);
}

#[test]
fn stored_values_below_one_count_as_absent() {
    let service = SettingsService::new(ScriptedSettings::reading(Some(0), Some(0)));
    assert_eq!(service.hydration_reminder_config().unwrap().interval_minutes, 30);
    assert_eq!(service.hydration_snooze_config().unwrap().snooze_minutes, 10);
}

#[test]
fn valid_stored_settings_are_read_as_they_are() {
    let service = SettingsService::new(ScriptedSettings::reading(Some(1), Some(1)));
    assert_eq!(service.hydration_reminder_config().unwrap().interval_minutes, 1);
    assert_eq!(service.hydration_snooze_config().unwrap().snooze_minutes, 1);

    let service = SettingsService::new(ScriptedSettings::reading(Some(90), Some(20)));
    assert_eq!(service.hydration_reminder_config().unwrap().interval_minutes, 90);
    assert_eq!(service.hydration_snooze_config().unwrap().snooze_minutes, 20);

    let service = SettingsService::new(ScriptedSettings::reading(Some(u64::MAX), Some(u64::MAX)));
    assert_eq!(service.hydration_reminder_config().unwrap().interval_minutes, u64::MAX);
    assert_eq!(service.hydration_snooze_config().unwrap().snooze_minutes, u64::MAX);
}

#[test]
fn invalid_value_in_a_store_reads_as_the_default() {
    let mut store = InMemorySettings::new();
    store.set_hydration_interval_minutes(0).unwrap();
    store.set_hydration_snooze_minutes(0).unwrap();
    let service = SettingsService::new(store);
    assert_eq!(service.hydration_reminder_config().unwrap(), ReminderConfig::default());
    assert_eq!(service.hydration_snooze_config().unwrap(), SnoozeConfig::default());
}

#[test]
fn config_from_stored_value() {
    type Service = SettingsService<InMemorySettings>;
    assert_eq!(Service::reminder_config_from_stored(None).interval_minutes, 30);
    assert_eq!(Service::reminder_config_from_stored(Some(0)).interval_minutes, 30);
    assert_eq!(Service::reminder_config_from_stored(Some(1)).interval_minutes, 1);
    assert_eq!(Service::reminder_config_from_stored(Some(12)).interval_minutes, 12);
    assert_eq!(Service::snooze_config_from_stored(None).snooze_minutes, 10);
    assert_eq!(Service::snooze_config_from_stored(Some(0)).snooze_minutes, 10);
    assert_eq!(Service::snooze_config_from_stored(Some(1)).snooze_minutes, 1);
    assert_eq!(Service::snooze_config_from_stored(Some(3)).snooze_minutes, 3);
}

#[test]
fn config_from_read_keeps_the_error_of_the_store() {
    type Service = SettingsService<InMemorySettings>;
    assert_eq!(Service::reminder_config_from_read(Ok(None)).unwrap().interval_minutes, 30);
    assert_eq!(Service::reminder_config_from_read(Ok(Some(0))).unwrap().interval_minutes, 30);
    assert_eq!(Service::reminder_config_from_read(Ok(Some(8))).unwrap().interval_minutes, 8);
    assert!(matches!(
        Service::reminder_config_from_read(Err(CoreError::Sqlite("locked".to_string()))),
        Err(CoreError::Sqlite(ref text)) if text == "locked"
    ));
    assert_eq!(Service::snooze_config_from_read(Ok(None)).unwrap().snooze_minutes, 10);
    assert_eq!(Service::snooze_config_from_read(Ok(Some(0))).unwrap().snooze_minutes, 10);
    assert_eq!(Service::snooze_config_from_read(Ok(Some(4))).unwrap().snooze_minutes, 4);
    assert!(matches!(
        Service::snooze_config_from_read(Err(CoreError::Io("gone".to_string()))),
        Err(CoreError::Io(ref text)) if text == "gone"
    ));
}

#[test]
fn write_outcome_keeps_the_error_of_the_store() {
    assert_eq!(write_outcome(ReminderConfig::new(5), Ok(())).unwrap(), ReminderConfig::new(5));
    assert_eq!(write_outcome(SnoozeConfig::new(2), Ok(())).unwrap(), SnoozeConfig::new(2));
    assert!(matches!(
        write_outcome(ReminderConfig::new(5), Err(CoreError::Sqlite("full".to_string()))),
        Err(CoreError::Sqlite(ref text)) if text == "full"
    ));
}

#[test]
fn normalized_minutes_keeps_the_error_of_the_service() {
    assert_eq!(normalized_minutes(Ok(ReminderConfig::new(0))).unwrap(), 1);
    assert_eq!(normalized_minutes(Ok(ReminderConfig::new(45))).unwrap(), 45);
    assert!(matches!(
        normalized_minutes(Err(CoreError::Sqlite("busy".to_string()))),
        Err(CoreError::Sqlite(ref text)) if text == "busy"
    ));
}

#[test]
fn settings_failures_are_returned_unchanged() {
    let mut service = SettingsService::new(ScriptedSettings::broken());
    assert!(matches!(
        service.hydration_reminder_config(),
        Err(CoreError::Sqlite(ref text)) if text == "read failed"
    ));
    assert!(matches!(
        service.hydration_snooze_config(),
        Err(CoreError::Sqlite(ref text)) if text == "read failed"
    ));
    assert!(matches!(
        service.set_hydration_interval_minutes(5),
        Err(CoreError::Sqlite(ref text)) if text == "write failed"
    ));
    assert!(matches!(
        service.set_hydration_snooze_minutes(5),
        Err(CoreError::Sqlite(ref text)) if text == "write failed"
    ));
}

#[test]
fn set_interval_zero_returns_one_and_reads_back_one() {
    let mut api = memory_api();
    assert_eq!(api.set_hydration_interval_minutes(0).unwrap(), 1);
    assert_eq!(api.hydration_reminder_config().unwrap().interval_minutes, 1);
}

#[test]
fn set_interval_round_trips_for_many_values() {
    for requested in [0u64, 1, 2, 30, 59, 1440, u64::MAX] {
        let mut api = memory_api();
        let normalized = api.set_hydration_interval_minutes(requested).unwrap();
        assert_eq!(normalized, requested.max(1));
        assert_eq!(api.hydration_reminder_config().unwrap().interval_minutes, normalized);
    }
}

#[test]
fn setting_the_interval_leaves_the_log_alone() {
    let mut api = memory_api();
    api.trigger_hydration_reminder_once().unwrap();
    api.set_hydration_interval_minutes(5).unwrap();
    assert_eq!(api.hydration_log_count().unwrap(), 1);
}
