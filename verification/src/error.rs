//! Shared core error type used across modules.
use crate::text::{decimal, decimal_text};
use vstd::prelude::*;
use vstd::string::StringExecFns;

verus! {

pub type CoreResult<T> = Result<T, CoreError>;

/// What can go wrong in the core. A failure of an outside component is held
/// as the text in which that component described it.
#[derive(Debug)]
#[allow(inconsistent_fields)]
pub enum CoreError {
    Io(String),
    ConfigParse(String),
    SqliteMigrate(String),
    InvalidConfigValue { field: &'static str, value: String, expected: &'static str },
    Sqlite(String),
    InvalidPersistedValue { field: &'static str, value: i64 },
    SchedulerAlreadyRunning,
    TaskJoin(String),
}

impl CoreError {
    /// The text that describes this error to a reader.
    pub open spec fn message_text(self) -> Seq<char> {
        match self {
            CoreError::Io(text) => "io error: "@ + text@,
            CoreError::ConfigParse(text) => "config parse error: "@ + text@,
            CoreError::SqliteMigrate(text) => "sqlite migration error: "@ + text@,
            CoreError::InvalidConfigValue { field, value, expected } => "invalid config value for "@
                + field@ + ": "@ + value@ + " (expected "@ + expected@ + ")"@,
            CoreError::Sqlite(text) => "sqlite error: "@ + text@,
            CoreError::InvalidPersistedValue { field, value } => "invalid persisted value for "@
                + field@ + ": "@ + decimal(value),
            CoreError::SchedulerAlreadyRunning => "scheduler is already running"@,
            CoreError::TaskJoin(text) => "scheduler task join error: "@ + text@,
        }
    }

    /// Describes this error to a reader.
    pub fn message(&self) -> (message: String)
        ensures
            message@ == self.message_text(),
    {
        match self {
            CoreError::Io(text) => String::from_str("io error: ").concat(text.as_str()),
            CoreError::ConfigParse(text) => String::from_str("config parse error: ").concat(
                text.as_str(),
            ),
            CoreError::SqliteMigrate(text) => String::from_str("sqlite migration error: ").concat(
                text.as_str(),
            ),
            CoreError::InvalidConfigValue { field, value, expected } => String::from_str(
                "invalid config value for ",
            ).concat(field).concat(": ").concat(value.as_str()).concat(" (expected ").concat(
                expected,
            ).concat(")"),
            CoreError::Sqlite(text) => String::from_str("sqlite error: ").concat(text.as_str()),
            CoreError::InvalidPersistedValue { field, value } => String::from_str(
                "invalid persisted value for ",
            ).concat(field).concat(": ").concat(decimal_text(*value).as_str()),
            CoreError::SchedulerAlreadyRunning => String::from_str("scheduler is already running"),
            CoreError::TaskJoin(text) => String::from_str("scheduler task join error: ").concat(
                text.as_str(),
            ),
        }
    }
}

} // verus!
