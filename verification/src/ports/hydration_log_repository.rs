//! Output port for persisting and querying hydration reminder logs.
use crate::error::CoreError;
use vstd::prelude::*;

verus! {

/// The log after an attempt to insert `message`: one entry longer where the
/// insert succeeded, as it was where it failed.
pub open spec fn log_after_insert(
    before: Seq<Seq<char>>,
    message: Seq<char>,
    inserted: bool,
) -> Seq<Seq<char>> {
    if inserted {
        before.push(message)
    } else {
        before
    }
}

pub trait HydrationLogRepository {
    /// The messages logged so far, oldest first, where the implementation
    /// models its log.
    open spec fn logged(&self) -> Option<Seq<Seq<char>>> {
        None
    }

    /// Whether an insert of `message` would succeed, where the
    /// implementation can tell beforehand.
    open spec fn insert_succeeds(&self, message: Seq<char>) -> Option<bool> {
        None
    }

    /// Whether a count would succeed, where the implementation can tell
    /// beforehand.
    open spec fn count_succeeds(&self) -> Option<bool> {
        None
    }

    /// Persists a hydration reminder log entry. The log is append-only: a
    /// failed insert leaves it as it was.
    fn insert_hydration_log(&mut self, message: &str) -> (outcome: Result<(), CoreError>)
        ensures
            old(self).logged() matches Some(before) ==> final(self).logged() == Some(
                log_after_insert(before, message@, outcome is Ok),
            ),
            old(self).insert_succeeds(message@) matches Some(expected) ==> (outcome is Ok)
                == expected,
    ;

    /// Returns the number of hydration reminder log entries.
    fn hydration_log_count(&self) -> (outcome: Result<i64, CoreError>)
        ensures
            self.logged() matches Some(entries) ==> (outcome matches Ok(count) ==> count
                == entries.len()),
            self.count_succeeds() matches Some(expected) ==> (outcome is Ok) == expected,
    ;
}

} // verus!
