//! One object for every core operation: the use cases and the scheduler
//! behind a single owner.
use crate::adapters::inbound::scheduler::hydration_scheduler::{
    after_start, after_stop, run_interval, start_outcome, stop_result, HydrationScheduler,
    RunHandles, TaskExit,
};
use crate::api::core_api::{config_read, counted_log, interval_set, triggered_once, CoreApi};
use crate::application::hydration_service::HydrationService;
use crate::application::settings_service::SettingsService;
use crate::bootstrap::core_runtime::{is_saved_config, saved_start_outcome_matches, CoreRuntime};
use crate::domain::hydration::ReminderConfig;
use crate::error::CoreError;
use crate::ports::hydration_log_repository::HydrationLogRepository;
use crate::ports::reminder_event_sink::ReminderEventSink;
use crate::ports::settings_repository::SettingsRepository;
use std::time::Duration;
use vstd::prelude::*;
use vstd::string::StringExecFns;

verus! {

/// The database URL of an in-memory SQLite database.
pub const IN_MEMORY_DATABASE_URL: &'static str = "sqlite::memory:";

/// The database URL used where none is given.
pub const DEFAULT_DATABASE_URL: &'static str = "sqlite://desk-buddy.db";

#[derive(Debug, Clone)]
pub struct CoreOptions {
    pub database_url: String,
}

impl CoreOptions {
    /// Returns options configured for an in-memory SQLite database.
    pub fn in_memory() -> (options: Self)
        ensures
            options.database_url@ == IN_MEMORY_DATABASE_URL@,
    {
        Self { database_url: String::from_str(IN_MEMORY_DATABASE_URL) }
    }
}

impl Default for CoreOptions {
    fn default() -> (options: Self)
        ensures
            options.database_url@ == DEFAULT_DATABASE_URL@,
    {
        Self { database_url: String::from_str(DEFAULT_DATABASE_URL) }
    }
}

pub struct CoreFacade<L, S, K, Tx, Jh> where
    L: HydrationLogRepository,
    S: SettingsRepository,
    K: ReminderEventSink,
 {
    runtime: CoreRuntime<L, S, K, Tx, Jh>,
}

impl<L, S, K, Tx, Jh> CoreFacade<L, S, K, Tx, Jh> where
    L: HydrationLogRepository,
    S: SettingsRepository,
    K: ReminderEventSink,
 {
    /// The use cases behind this facade.
    pub closed spec fn api_view(&self) -> CoreApi<L, S, K> {
        self.runtime.api_view()
    }

    /// The scheduler behind this facade.
    pub closed spec fn scheduler(&self) -> HydrationScheduler<Tx, Jh> {
        self.runtime.scheduler()
    }

    /// Builds the core facade over the given repositories and sink, with an
    /// idle scheduler.
    pub fn new(hydration_repository: L, settings_repository: S, reminder_sink: K) -> (facade: Self)
        ensures
            facade.api_view().hydration_service().repository() == hydration_repository,
            facade.api_view().settings_service().repository() == settings_repository,
            facade.api_view().reminder_sink() == reminder_sink,
            !facade.scheduler().running(),
    {
        let hydration_service = HydrationService::new(hydration_repository);
        let settings_service = SettingsService::new(settings_repository);
        let api = CoreApi::new(hydration_service, settings_service, reminder_sink);
        Self { runtime: CoreRuntime::new(api) }
    }

    /// Returns true when the scheduler's loop is running.
    pub fn is_running(&self) -> (running: bool)
        ensures
            running == self.scheduler().running(),
    {
        self.runtime.is_running()
    }

    /// Triggers one hydration reminder and emits it through the event sink.
    pub fn trigger_hydration_reminder_once(&mut self) -> (outcome: Result<String, CoreError>)
        ensures
            triggered_once(old(self).api_view(), final(self).api_view(), outcome),
            final(self).scheduler() == old(self).scheduler(),
    {
        self.runtime.api_mut().trigger_hydration_reminder_once()
    }

    /// Returns the number of hydration reminder log entries.
    pub fn hydration_log_count(&self) -> (outcome: Result<i64, CoreError>)
        ensures
            counted_log(self.api_view(), outcome),
    {
        self.runtime.api().hydration_log_count()
    }

    /// Persists hydration interval minutes and returns the normalized value.
    pub fn set_hydration_interval_minutes(&mut self, interval_minutes: u64) -> (outcome: Result<
        u64,
        CoreError,
    >)
        ensures
            interval_set(old(self).api_view(), final(self).api_view(), interval_minutes, outcome),
            final(self).scheduler() == old(self).scheduler(),
    {
        self.runtime.api_mut().set_hydration_interval_minutes(interval_minutes)
    }

    /// Reads the effective hydration reminder configuration.
    pub fn hydration_reminder_config(&self) -> (outcome: Result<ReminderConfig, CoreError>)
        ensures
            config_read(self.api_view(), outcome),
    {
        self.runtime.api().hydration_reminder_config()
    }

    /// Starts the scheduler using interval configuration stored in settings.
    pub fn start_with_saved_hydration_config<F>(&mut self, launch: F) -> (outcome: Result<
        (),
        CoreError,
    >) where F: FnOnce(Duration) -> RunHandles<Tx, Jh>
        requires
            !old(self).scheduler().running() ==> forall|config: ReminderConfig|
                is_saved_config(old(self).api_view(), config) ==> #[trigger] launch.requires(
                    (run_interval(config),),
                ),
        ensures
            final(self).api_view() == old(self).api_view(),
            outcome is Err ==> final(self).scheduler().run() == old(self).scheduler().run(),
            saved_start_outcome_matches(
                old(self).api_view(),
                old(self).scheduler().running(),
                outcome,
            ),
            outcome is Ok ==> !old(self).scheduler().running() && (final(self).scheduler().run()
                matches Some(handles) && exists|config: ReminderConfig|
                is_saved_config(old(self).api_view(), config) && #[trigger] launch.ensures(
                    (run_interval(config),),
                    handles,
                )),
    {
        self.runtime.start_with_saved_hydration_config(launch)
    }

    /// Starts the scheduler with an explicit reminder configuration.
    pub fn start<F>(&mut self, config: ReminderConfig, launch: F) -> (outcome: Result<
        (),
        CoreError,
    >) where F: FnOnce(Duration) -> RunHandles<Tx, Jh>
        requires
            !old(self).scheduler().running() ==> launch.requires((run_interval(config),)),
        ensures
            final(self).api_view() == old(self).api_view(),
            outcome == start_outcome(old(self).scheduler().run()),
            final(self).scheduler().run() matches Some(handles) && final(self).scheduler().run()
                == after_start(old(self).scheduler().run(), handles) && (!old(self).scheduler().running()
                ==> launch.ensures((run_interval(config),), handles)),
    {
        self.runtime.start(config, launch)
    }

    /// Stops the running scheduler task, if any.
    pub fn stop<FS, FJ>(&mut self, signal: FS, join: FJ) -> (outcome: Result<(), CoreError>) where
        FS: FnOnce(Tx),
        FJ: FnOnce(Jh) -> TaskExit,

        requires
            old(self).scheduler().run() matches Some(handles) ==> signal.requires(
                (handles.shutdown,),
            ) && (signal.ensures((handles.shutdown,), ()) ==> join.requires((handles.task,))),
        ensures
            final(self).api_view() == old(self).api_view(),
            final(self).scheduler().run() == after_stop(old(self).scheduler().run()),
            !old(self).scheduler().running() ==> outcome == Ok::<(), CoreError>(()),
            old(self).scheduler().run() matches Some(handles) ==> signal.ensures(
                (handles.shutdown,),
                (),
            ) && exists|exit: TaskExit| #[trigger]
                join.ensures((handles.task,), exit) && outcome == stop_result(
                    old(self).scheduler().run(),
                    exit,
                ),
    {
        self.runtime.stop(signal, join)
    }
}

} // verus!
