//! Runtime container that owns scheduler state and exposes a pure API.
use crate::adapters::inbound::scheduler::hydration_scheduler::{
    after_start, after_stop, run_interval, start_outcome, stop_result, HydrationScheduler,
    RunHandles, TaskExit,
};
use crate::api::core_api::CoreApi;
use crate::application::settings_service::effective_reminder_config;
use crate::domain::hydration::ReminderConfig;
use crate::error::CoreError;
use crate::ports::hydration_log_repository::HydrationLogRepository;
use crate::ports::reminder_event_sink::ReminderEventSink;
use crate::ports::settings_repository::SettingsRepository;
use std::time::Duration;
use vstd::prelude::*;

verus! {

/// Whether `config` may be what a read of the settings in `api` returned.
pub open spec fn is_saved_config<L, S, K>(api: CoreApi<L, S, K>, config: ReminderConfig) -> bool where
    L: HydrationLogRepository,
    S: SettingsRepository,
    K: ReminderEventSink,
 {
    &&& config.valid()
    &&& api.stored() matches Some(row) ==> config == effective_reminder_config(
        row.interval_minutes,
    )
}

/// Whether `outcome` is what a start with the saved config returns, where
/// the settings repository can tell beforehand whether its read succeeds: a
/// failed read fails the start, and after a successful read the start is
/// rejected exactly while a loop is running.
pub open spec fn saved_start_outcome_matches<L, S, K>(
    api: CoreApi<L, S, K>,
    running: bool,
    outcome: Result<(), CoreError>,
) -> bool where L: HydrationLogRepository, S: SettingsRepository, K: ReminderEventSink {
    match api.settings_service().interval_read_succeeds() {
        Some(true) => if running {
            outcome == Err::<(), CoreError>(CoreError::SchedulerAlreadyRunning)
        } else {
            outcome == Ok::<(), CoreError>(())
        },
        Some(false) => outcome is Err,
        None => running ==> outcome is Err,
    }
}

pub struct CoreRuntime<L, S, K, Tx, Jh> where
    L: HydrationLogRepository,
    S: SettingsRepository,
    K: ReminderEventSink,
 {
    api: CoreApi<L, S, K>,
    scheduler: HydrationScheduler<Tx, Jh>,
}

impl<L, S, K, Tx, Jh> CoreRuntime<L, S, K, Tx, Jh> where
    L: HydrationLogRepository,
    S: SettingsRepository,
    K: ReminderEventSink,
 {
    /// The API this runtime exposes.
    pub closed spec fn api_view(&self) -> CoreApi<L, S, K> {
        self.api
    }

    /// The scheduler this runtime owns.
    pub closed spec fn scheduler(&self) -> HydrationScheduler<Tx, Jh> {
        self.scheduler
    }

    /// Creates a runtime wrapper around a prewired core API.
    pub fn new(api: CoreApi<L, S, K>) -> (runtime: Self)
        ensures
            runtime.api_view() == api,
            !runtime.scheduler().running(),
    {
        Self { api, scheduler: HydrationScheduler::new() }
    }

    /// Returns the pure core API for use-case calls.
    pub fn api(&self) -> (api: &CoreApi<L, S, K>)
        ensures
            *api == self.api_view(),
    {
        &self.api
    }

    /// Returns the core API for use-case calls that write. The scheduler is
    /// out of its reach.
    pub fn api_mut(&mut self) -> (api: &mut CoreApi<L, S, K>)
        ensures
            *api == old(self).api_view(),
            final(self).api_view() == *final(api),
            final(self).scheduler() == old(self).scheduler(),
    {
        &mut self.api
    }

    /// Returns true when the scheduler's loop is running.
    pub fn is_running(&self) -> (running: bool)
        ensures
            running == self.scheduler().running(),
    {
        self.scheduler.is_running()
    }

    /// Starts the scheduler using interval configuration stored in settings.
    ///
    /// The settings are read first: where that fails, the error is returned
    /// and the scheduler is not touched. Otherwise the call is `start` with
    /// the config read, so `launch` need accept only the interval of a
    /// config that may be the saved one.
    pub fn start_with_saved_hydration_config<F>(&mut self, launch: F) -> (outcome: Result<
        (),
        CoreError,
    >) where F: FnOnce(Duration) -> RunHandles<Tx, Jh>
        requires
            !old(self).scheduler().running() ==> forall|config: ReminderConfig|
                is_saved_config(old(self).api_view(), config) ==> #[trigger] launch.requires(
                    (run_interval(config),),
                ),
        ensures
            final(self).api_view() == old(self).api_view(),
            outcome is Err ==> final(self).scheduler().run() == old(self).scheduler().run(),
            saved_start_outcome_matches(
                old(self).api_view(),
                old(self).scheduler().running(),
                outcome,
            ),
            outcome is Ok ==> !old(self).scheduler().running() && (final(self).scheduler().run() matches Some(handles) && exists|config: ReminderConfig|
                is_saved_config(old(self).api_view(), config) && #[trigger] launch.ensures(
                    (run_interval(config),),
                    handles,
                )),
    {
        match self.api.hydration_reminder_config() {
            Err(error) => Err(error),
            Ok(config) => self.start(config, launch),
        }
    }

    /// Starts the scheduler with an explicit reminder configuration.
    pub fn start<F>(&mut self, config: ReminderConfig, launch: F) -> (outcome: Result<
        (),
        CoreError,
    >) where F: FnOnce(Duration) -> RunHandles<Tx, Jh>
        requires
            !old(self).scheduler().running() ==> launch.requires((run_interval(config),)),
        ensures
            final(self).api_view() == old(self).api_view(),
            outcome == start_outcome(old(self).scheduler().run()),
            final(self).scheduler().run() matches Some(handles) && final(self).scheduler().run()
                == after_start(old(self).scheduler().run(), handles) && (!old(self).scheduler().running() ==> launch.ensures((run_interval(config),), handles)),
    {
        self.scheduler.start(config, launch)
    }

    /// Stops the running scheduler task, if any.
    pub fn stop<FS, FJ>(&mut self, signal: FS, join: FJ) -> (outcome: Result<(), CoreError>) where
        FS: FnOnce(Tx),
        FJ: FnOnce(Jh) -> TaskExit,

        requires
            old(self).scheduler().run() matches Some(handles) ==> signal.requires(
                (handles.shutdown,),
            ) && (signal.ensures((handles.shutdown,), ()) ==> join.requires((handles.task,))),
        ensures
            final(self).api_view() == old(self).api_view(),
            final(self).scheduler().run() == after_stop(old(self).scheduler().run()),
            !old(self).scheduler().running() ==> outcome == Ok::<(), CoreError>(()),
            old(self).scheduler().run() matches Some(handles) ==> signal.ensures(
                (handles.shutdown,),
                (),
            ) && exists|exit: TaskExit| #[trigger]
                join.ensures((handles.task,), exit) && outcome == stop_result(
                    old(self).scheduler().run(),
                    exit,
                ),
    {
        self.scheduler.stop(signal, join)
    }
}

} // verus!
