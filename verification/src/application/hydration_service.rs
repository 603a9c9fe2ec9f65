//! Hydration use cases: record a reminder, count the reminders recorded.
use crate::domain::hydration::DEFAULT_REMINDER_MESSAGE;
use crate::error::CoreError;
use crate::ports::hydration_log_repository::{log_after_insert, HydrationLogRepository};
use crate::ports::reminder_event_sink::{emitted_after, ReminderEventSink};
use vstd::prelude::*;
use vstd::string::StringExecFns;

verus! {

/// What a reminder trigger returns once the insert has ended in `inserted`:
/// the fixed reminder message after a successful insert, the store's error
/// otherwise.
pub open spec fn reminder_outcome_matches(
    inserted: Result<(), CoreError>,
    outcome: Result<String, CoreError>,
) -> bool {
    match inserted {
        Ok(_) => outcome matches Ok(message) && message@ == DEFAULT_REMINDER_MESSAGE@,
        Err(error) => outcome == Err::<String, CoreError>(error),
    }
}

/// The log after `count` successful reminder triggers on a log that held
/// `before`.
pub open spec fn log_after_triggers(before: Seq<Seq<char>>, count: nat) -> Seq<Seq<char>>
    decreases count,
{
    if count == 0 {
        before
    } else {
        log_after_triggers(before, (count - 1) as nat).push(DEFAULT_REMINDER_MESSAGE@)
    }
}

/// Every successful trigger adds exactly one entry, the fixed reminder
/// message, behind those that were there.
pub proof fn lemma_log_after_triggers(before: Seq<Seq<char>>, count: nat)
    ensures
        log_after_triggers(before, count).len() == before.len() + count,
        forall|i: int|
            0 <= i < before.len() ==> #[trigger] log_after_triggers(before, count)[i] == before[i],
        forall|i: int|
            before.len() <= i < before.len() + count ==> #[trigger] log_after_triggers(
                before,
                count,
            )[i] == DEFAULT_REMINDER_MESSAGE@,
        log_after_triggers(before, count + 1) == log_after_insert(
            log_after_triggers(before, count),
            DEFAULT_REMINDER_MESSAGE@,
            true,
        ),
    decreases count,
{
    if count > 0 {
        lemma_log_after_triggers(before, (count - 1) as nat);
    }
}

/// On fresh storage, after `count` successful triggers the log holds
/// `count` entries, which is what a successful count then returns.
pub proof fn lemma_fresh_log_counts_triggers(count: nat)
    ensures
        log_after_triggers(Seq::<Seq<char>>::empty(), count).len() == count,
{
    lemma_log_after_triggers(Seq::<Seq<char>>::empty(), count);
}

/// What a reminder returns once its emission has ended in `emitted`: the
/// message after a confirmed delivery, the sink's error otherwise.
pub open spec fn emission_outcome_matches(
    message: String,
    emitted: Result<(), CoreError>,
    outcome: Result<String, CoreError>,
) -> bool {
    match emitted {
        Ok(_) => outcome == Ok::<String, CoreError>(message),
        Err(error) => outcome == Err::<String, CoreError>(error),
    }
}

/// Turns the end of the emission into what the reminder returns.
pub fn emission_outcome(message: String, emitted: Result<(), CoreError>) -> (outcome: Result<
    String,
    CoreError,
>)
    ensures
        emission_outcome_matches(message, emitted, outcome),
{
    match emitted {
        Ok(_) => Ok(message),
        Err(error) => Err(error),
    }
}

/// Whether a reminder tick would succeed, where the log and the sink can
/// tell beforehand: it succeeds when both the insert and the emission do,
/// and fails as soon as either of them is known to fail.
pub open spec fn tick_succeeds<R, K>(service: HydrationService<R>, sink: K) -> Option<bool> where
    R: HydrationLogRepository,
    K: ReminderEventSink,
 {
    let inserts = service.trigger_succeeds();
    let emits = sink.emit_succeeds(DEFAULT_REMINDER_MESSAGE@);
    if inserts == Some(false) || emits == Some(false) {
        Some(false)
    } else if inserts == Some(true) && emits == Some(true) {
        Some(true)
    } else {
        None
    }
}

/// What one reminder tick does to a service and a sink, and returns.
///
/// The message returned is the fixed reminder message. The log gains that
/// message exactly where the insert succeeds, also where the emission then
/// fails: nothing is rolled back and nothing is retried. Where the insert
/// fails, the tick fails with the log as it was and the sink not called.
/// The sink gains the message exactly on success. The tick succeeds exactly
/// when the insert and the emission both do.
pub open spec fn reminder_ticked<R, K>(
    service_before: HydrationService<R>,
    service_after: HydrationService<R>,
    sink_before: K,
    sink_after: K,
    outcome: Result<String, CoreError>,
) -> bool where R: HydrationLogRepository, K: ReminderEventSink {
    &&& outcome matches Ok(message) ==> message@ == DEFAULT_REMINDER_MESSAGE@
    &&& service_before.logged() matches Some(entries) ==> {
        ||| (service_after.logged() == Some(entries.push(DEFAULT_REMINDER_MESSAGE@))
            && service_before.trigger_succeeds() != Some(false))
        ||| (service_after.logged() == Some(entries) && outcome is Err && sink_after
            == sink_before && service_before.trigger_succeeds() != Some(true))
    }
    &&& sink_before.emitted() matches Some(delivered) ==> sink_after.emitted() == Some(
        emitted_after(delivered, DEFAULT_REMINDER_MESSAGE@, outcome is Ok),
    )
    &&& tick_succeeds(service_before, sink_before) matches Some(expected) ==> (outcome is Ok)
        == expected
    &&& service_before.trigger_succeeds() == Some(false) ==> sink_after == sink_before
}

/// Triggers one reminder and emits it: first the insert into the log, then,
/// only after the insert has succeeded, the emission of the logged message.
pub fn trigger_and_emit<R, K>(service: &mut HydrationService<R>, sink: &mut K) -> (outcome: Result<
    String,
    CoreError,
>) where R: HydrationLogRepository, K: ReminderEventSink
    ensures
        reminder_ticked(*old(service), *final(service), *old(sink), *final(sink), outcome),
{
    match service.trigger_reminder() {
        Err(error) => Err(error),
        Ok(message) => {
            let emitted = sink.emit_hydration_reminder(message.as_str());
            emission_outcome(message, emitted)
        },
    }
}

pub struct HydrationService<R: HydrationLogRepository> {
    repository: R,
}

impl<R: HydrationLogRepository> HydrationService<R> {
    /// The log repository this service writes to and reads from.
    pub closed spec fn repository(&self) -> R {
        self.repository
    }

    /// The reminders logged so far, where the repository models its log.
    pub open spec fn logged(&self) -> Option<Seq<Seq<char>>> {
        self.repository().logged()
    }

    /// Whether a trigger would succeed, where the repository can tell
    /// beforehand: exactly when the insert of the fixed message does.
    pub open spec fn trigger_succeeds(&self) -> Option<bool> {
        self.repository().insert_succeeds(DEFAULT_REMINDER_MESSAGE@)
    }

    /// Whether a count would succeed, where the repository can tell
    /// beforehand.
    pub open spec fn count_succeeds(&self) -> Option<bool> {
        self.repository().count_succeeds()
    }

    /// Builds the hydration use-case service with a log repository implementation.
    pub fn new(repository: R) -> (service: Self)
        ensures
            service.repository() == repository,
    {
        Self { repository }
    }

    /// Turns the end of the insert into what the trigger returns.
    pub fn reminder_outcome(inserted: Result<(), CoreError>) -> (outcome: Result<String, CoreError>)
        ensures
            reminder_outcome_matches(inserted, outcome),
    {
        match inserted {
            Ok(_) => Ok(String::from_str(DEFAULT_REMINDER_MESSAGE)),
            Err(error) => Err(error),
        }
    }

    /// Records one hydration reminder event and returns the emitted message.
    ///
    /// The insert is the only effect: the log gains the fixed reminder
    /// message exactly when the call succeeds.
    pub fn trigger_reminder(&mut self) -> (outcome: Result<String, CoreError>)
        ensures
            outcome matches Ok(message) ==> message@ == DEFAULT_REMINDER_MESSAGE@,
            old(self).logged() matches Some(before) ==> final(self).logged() == Some(
                log_after_insert(before, DEFAULT_REMINDER_MESSAGE@, outcome is Ok),
            ),
            old(self).trigger_succeeds() matches Some(expected) ==> (outcome is Ok) == expected,
    {
        let inserted = self.repository.insert_hydration_log(DEFAULT_REMINDER_MESSAGE);
        Self::reminder_outcome(inserted)
    }

    /// Returns how many hydration reminders have been logged.
    pub fn reminder_count(&self) -> (outcome: Result<i64, CoreError>)
        ensures
            self.logged() matches Some(entries) ==> (outcome matches Ok(count) ==> count
                == entries.len()),
            self.count_succeeds() matches Some(expected) ==> (outcome is Ok) == expected,
    {
        self.repository.hydration_log_count()
    }
}

} // verus!
