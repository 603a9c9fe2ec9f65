//! Lifecycle of the background reminder loop and the decisions inside it.
//!
//! The scheduler owns the handles of at most one running loop. Launching a
//! task, signalling it and waiting for it are done by the caller's functions;
//! when they are called, with what, and what becomes of their results is
//! decided here.
use crate::application::hydration_service::{reminder_ticked, trigger_and_emit, HydrationService};
use crate::domain::hydration::{duration_of_secs, saturating_seconds, ReminderConfig};
use crate::error::CoreError;
use crate::ports::hydration_log_repository::HydrationLogRepository;
use crate::ports::reminder_event_sink::ReminderEventSink;
use std::time::Duration;
use vstd::prelude::*;

verus! {

/// The two handles of a running loop: the sender of its shutdown signal and
/// the handle on which its end is awaited.
pub struct RunHandles<S, J> {
    pub shutdown: S,
    pub task: J,
}

/// How a background task ended: by returning its own result, or abnormally,
/// with the reason as text.
pub enum TaskExit {
    Completed(Result<(), CoreError>),
    Aborted(String),
}

/// What one wake-up of the loop observed of its shutdown signal.
#[derive(Debug, Clone, Copy, PartialEq, Eq, Structural)]
pub enum ShutdownSignal {
    /// No change of the signal was observed.
    Unchanged,
    /// The signal changed and now reads `requested`.
    Changed { requested: bool },
    /// The sending side is gone.
    Closed,
}

/// One wake-up of the loop: whether the interval has elapsed and what the
/// shutdown signal showed.
#[derive(Debug, Clone, Copy, PartialEq, Eq, Structural)]
pub struct Wake {
    pub interval_elapsed: bool,
    pub shutdown: ShutdownSignal,
}

/// What the loop does after a wake-up.
#[derive(Debug, Clone, Copy, PartialEq, Eq, Structural)]
pub enum LoopStep {
    /// Trigger and emit one reminder, then wait again.
    Tick,
    /// Wait again.
    Wait,
    /// Leave the loop and complete successfully.
    Exit,
}

/// The interval at which a run started with `config` ticks.
pub open spec fn run_interval(config: ReminderConfig) -> Duration {
    duration_of_secs(saturating_seconds(config.interval_minutes))
}

/// Whether a shutdown observation ends the loop.
pub open spec fn ends_loop(shutdown: ShutdownSignal) -> bool {
    match shutdown {
        ShutdownSignal::Unchanged => false,
        ShutdownSignal::Changed { requested } => requested,
        ShutdownSignal::Closed => true,
    }
}

/// The step taken after a wake-up. Shutdown has priority: where a wake-up
/// shows both an elapsed interval and a shutdown, the loop exits without
/// another tick.
pub open spec fn step_after(wake: Wake) -> LoopStep {
    if ends_loop(wake.shutdown) {
        LoopStep::Exit
    } else if wake.interval_elapsed {
        LoopStep::Tick
    } else {
        LoopStep::Wait
    }
}

/// What `stop` returns for the way the task ended.
pub open spec fn stop_outcome_of(exit: TaskExit) -> Result<(), CoreError> {
    match exit {
        TaskExit::Completed(result) => result,
        TaskExit::Aborted(reason) => Err(CoreError::TaskJoin(reason)),
    }
}

/// What `start` returns from a scheduler whose handles are `before`: the
/// call is rejected exactly while a loop is running.
pub open spec fn start_outcome<S, J>(before: Option<RunHandles<S, J>>) -> Result<(), CoreError> {
    if before is Some {
        Err(CoreError::SchedulerAlreadyRunning)
    } else {
        Ok(())
    }
}

/// The handles a scheduler holds after `start`: those it held, while a loop
/// is running; those of the loop just launched, from idle.
pub open spec fn after_start<S, J>(
    before: Option<RunHandles<S, J>>,
    launched: RunHandles<S, J>,
) -> Option<RunHandles<S, J>> {
    if before is Some {
        before
    } else {
        Some(launched)
    }
}

/// The handles a scheduler holds after `stop`: none.
pub open spec fn after_stop<S, J>(before: Option<RunHandles<S, J>>) -> Option<RunHandles<S, J>> {
    None
}

/// What `stop` returns from a scheduler whose handles are `before`, where
/// the task, if there was one, ended in `exit`.
pub open spec fn stop_result<S, J>(before: Option<RunHandles<S, J>>, exit: TaskExit) -> Result<
    (),
    CoreError,
> {
    if before is Some {
        stop_outcome_of(exit)
    } else {
        Ok(())
    }
}

/// A wake-up that shows a requested shutdown, or a sender that is gone,
/// ends the loop whether or not the interval has elapsed; a tick is taken
/// only on an elapsed interval with no such shutdown.
pub proof fn lemma_shutdown_has_priority(wake: Wake)
    ensures
        ends_loop(wake.shutdown) ==> step_after(wake) == LoopStep::Exit,
        step_after(wake) == LoopStep::Tick <==> wake.interval_elapsed && !ends_loop(wake.shutdown),
        step_after(wake) == LoopStep::Exit <==> ends_loop(wake.shutdown),
{
}

/// A second `start` with no `stop` in between is rejected with
/// `SchedulerAlreadyRunning` and leaves the first run's handles in place.
pub proof fn lemma_second_start_is_rejected<S, J>(
    before: Option<RunHandles<S, J>>,
    first: RunHandles<S, J>,
    second: RunHandles<S, J>,
)
    ensures
        start_outcome(after_start(before, first)) == Err::<(), CoreError>(
            CoreError::SchedulerAlreadyRunning,
        ),
        after_start(after_start(before, first), second) == after_start(before, first),
{
}

/// `stop` on an idle scheduler succeeds and changes nothing, however a task
/// might have ended.
pub proof fn lemma_stop_when_idle_is_noop<S, J>(exit: TaskExit)
    ensures
        stop_result(None::<RunHandles<S, J>>, exit) == Ok::<(), CoreError>(()),
        after_stop(None::<RunHandles<S, J>>) == None::<RunHandles<S, J>>,
{
}

/// After `start` and then `stop` the scheduler is idle, whatever `stop`
/// returned, and the next `start` succeeds and holds the new run's handles.
pub proof fn lemma_restart_after_stop<S, J>(
    before: Option<RunHandles<S, J>>,
    first: RunHandles<S, J>,
    second: RunHandles<S, J>,
)
    ensures
        after_stop(after_start(before, first)) is None,
        start_outcome(after_stop(after_start(before, first))) == Ok::<(), CoreError>(()),
        after_start(after_stop(after_start(before, first)), second) == Some(second),
{
}

/// Decides what the loop does after a wake-up.
pub fn next_step(wake: Wake) -> (step: LoopStep)
    ensures
        step == step_after(wake),
{
    let ends = match wake.shutdown {
        ShutdownSignal::Unchanged => false,
        ShutdownSignal::Changed { requested } => requested,
        ShutdownSignal::Closed => true,
    };
    if ends {
        LoopStep::Exit
    } else if wake.interval_elapsed {
        LoopStep::Tick
    } else {
        LoopStep::Wait
    }
}

/// Decides what the loop does after a tick: `None` to wait again, `Some` of
/// the task's result to end at once. A failed tick is not retried.
pub fn after_tick(ticked: Result<(), CoreError>) -> (finished: Option<Result<(), CoreError>>)
    ensures
        ticked is Ok ==> finished is None,
        ticked matches Err(error) ==> finished == Some(Err::<(), CoreError>(error)),
{
    match ticked {
        Ok(_) => None,
        Err(error) => Some(Err(error)),
    }
}

/// Handles one wake-up of the loop: decides on the step, runs the tick where
/// one is due, and says whether the loop goes on.
///
/// `None` means wait again. `Some` holds the result with which the task
/// ends: success after a shutdown, the error of a failed tick. Ticks never
/// overlap, since each is finished before this returns, and nothing is
/// written unless the step is a tick.
pub fn handle_wake<R, K>(service: &mut HydrationService<R>, sink: &mut K, wake: Wake) -> (finished:
    Option<Result<(), CoreError>>) where R: HydrationLogRepository, K: ReminderEventSink
    ensures
        match step_after(wake) {
            LoopStep::Exit => finished == Some(Ok::<(), CoreError>(())) && *final(service) == *old(service) && *final(sink) == *old(sink),
            LoopStep::Wait => finished is None && *final(service) == *old(service) && *final(sink)
                == *old(sink),
            LoopStep::Tick => exists|ticked: Result<String, CoreError>|
                {
                    &&& #[trigger] reminder_ticked(
                        *old(service),
                        *final(service),
                        *old(sink),
                        *final(sink),
                        ticked,
                    )
                    &&& ticked is Ok ==> finished is None
                    &&& ticked matches Err(error) ==> finished == Some(
                        Err::<(), CoreError>(error),
                    )
                },
        },
{
    match next_step(wake) {
        LoopStep::Exit => Some(Ok(())),
        LoopStep::Wait => None,
        LoopStep::Tick => {
            let ticked = trigger_and_emit(service, sink);
            match ticked {
                Ok(_) => after_tick(Ok(())),
                Err(error) => after_tick(Err(error)),
            }
        },
    }
}

/// Turns the way the task ended into what `stop` returns.
pub fn stop_outcome(exit: TaskExit) -> (outcome: Result<(), CoreError>)
    ensures
        outcome == stop_outcome_of(exit),
{
    match exit {
        TaskExit::Completed(result) => result,
        TaskExit::Aborted(reason) => Err(CoreError::TaskJoin(reason)),
    }
}

pub struct HydrationScheduler<S, J> {
    run: Option<RunHandles<S, J>>,
}

impl<S, J> HydrationScheduler<S, J> {
    /// The handles of the running loop; `None` when idle.
    pub closed spec fn run(&self) -> Option<RunHandles<S, J>> {
        self.run
    }

    /// Whether a loop is running.
    pub open spec fn running(&self) -> bool {
        self.run() is Some
    }

    /// Creates an idle hydration scheduler.
    pub fn new() -> (scheduler: Self)
        ensures
            !scheduler.running(),
    {
        Self { run: None }
    }

    /// Returns true when a scheduler task is currently active.
    pub fn is_running(&self) -> (running: bool)
        ensures
            running == self.running(),
    {
        self.run.is_some()
    }

    /// Starts the background reminder loop using the provided config.
    ///
    /// While a loop is running the call fails, `launch` is not called and
    /// the running loop's handles stay as they are. From idle, `launch` is
    /// called once with the config's interval and the scheduler keeps the
    /// handles it returns.
    pub fn start<F>(&mut self, config: ReminderConfig, launch: F) -> (outcome: Result<
        (),
        CoreError,
    >) where F: FnOnce(Duration) -> RunHandles<S, J>
        requires
            !old(self).running() ==> launch.requires((run_interval(config),)),
        ensures
            outcome == start_outcome(old(self).run()),
            final(self).run() matches Some(handles) && final(self).run() == after_start(
                old(self).run(),
                handles,
            ) && (!old(self).running() ==> launch.ensures((run_interval(config),), handles)),
    {
        if self.is_running() {
            return Err(CoreError::SchedulerAlreadyRunning);
        }
        let handles = launch(config.interval_duration());
        self.run = Some(handles);
        Ok(())
    }

    /// Stops the background reminder loop and waits for task shutdown.
    ///
    /// Idle, the call succeeds and calls neither function. Running, it calls
    /// `signal` with the shutdown sender, then `join` with the task handle,
    /// and returns what the task's end stands for. The task is waited for
    /// only once it has been signalled: `join` need accept the task handle
    /// only after `signal` has done its part. Either way the scheduler is
    /// idle afterwards.
    pub fn stop<FS, FJ>(&mut self, signal: FS, join: FJ) -> (outcome: Result<(), CoreError>) where
        FS: FnOnce(S),
        FJ: FnOnce(J) -> TaskExit,

        requires
            old(self).run() matches Some(handles) ==> signal.requires((handles.shutdown,))
                && (signal.ensures((handles.shutdown,), ()) ==> join.requires((handles.task,))),
        ensures
            final(self).run() == after_stop(old(self).run()),
            !old(self).running() ==> outcome == Ok::<(), CoreError>(()),
            old(self).run() matches Some(handles) ==> signal.ensures((handles.shutdown,), ())
                && exists|exit: TaskExit| #[trigger]
                join.ensures((handles.task,), exit) && outcome == stop_result(
                    old(self).run(),
                    exit,
                ),
    {
        match self.run.take() {
            None => Ok(()),
            Some(handles) => {
                signal(handles.shutdown);
                let exit = join(handles.task);
                stop_outcome(exit)
            },
        }
    }
}

impl<S, J> Default for HydrationScheduler<S, J> {
    fn default() -> (scheduler: Self)
        ensures
            !scheduler.running(),
    {
        Self::new()
    }
}

} // verus!
