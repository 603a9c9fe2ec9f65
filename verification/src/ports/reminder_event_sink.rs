//! Output port for emitting reminder events to external channels.
use crate::error::CoreError;
use vstd::prelude::*;

verus! {

/// What a sink has delivered after an attempt to emit `message`.
pub open spec fn emitted_after(
    before: Seq<Seq<char>>,
    message: Seq<char>,
    delivered: bool,
) -> Seq<Seq<char>> {
    if delivered {
        before.push(message)
    } else {
        before
    }
}

pub trait ReminderEventSink {
    /// The messages delivered so far, oldest first, where the implementation
    /// models its channel.
    open spec fn emitted(&self) -> Option<Seq<Seq<char>>> {
        None
    }

    /// Whether an emission of `message` would succeed, where the
    /// implementation can tell beforehand.
    open spec fn emit_succeeds(&self, message: Seq<char>) -> Option<bool> {
        None
    }

    /// Emits a hydration reminder event to the configured output channel.
    /// Only a confirmed delivery counts as emitted.
    fn emit_hydration_reminder(&mut self, message: &str) -> (outcome: Result<(), CoreError>)
        ensures
            old(self).emitted() matches Some(before) ==> final(self).emitted() == Some(
                emitted_after(before, message@, outcome is Ok),
            ),
            old(self).emit_succeeds(message@) matches Some(expected) ==> (outcome is Ok)
                == expected,
    ;
}

} // verus!
