//! Options and builder from which a core is put together.
use crate::api::core_api::CoreApi;
use crate::application::hydration_service::HydrationService;
use crate::application::settings_service::SettingsService;
use crate::bootstrap::core_runtime::CoreRuntime;
use crate::ports::hydration_log_repository::HydrationLogRepository;
use crate::ports::reminder_event_sink::ReminderEventSink;
use crate::ports::settings_repository::SettingsRepository;
use crate::text::{replace_char, with_replaced};
use vstd::prelude::*;
use vstd::string::StringExecFns;

verus! {

/// The database URL of an in-memory SQLite database.
pub const IN_MEMORY_DATABASE_URL: &'static str = "sqlite::memory:";

/// Prefix of the URL of a file-based SQLite database.
pub const SQLITE_FILE_PREFIX: &'static str = "sqlite://";

/// The URL of the database file at `path`: `sqlite://` and the path, written
/// with forward slashes.
pub open spec fn url_of_path(path: Seq<char>) -> Seq<char> {
    SQLITE_FILE_PREFIX@ + with_replaced(path, '\\', '/')
}

/// The database URL that names the file at `path`.
pub fn database_url_for_path(path: &str) -> (url: String)
    ensures
        url@ == url_of_path(path@),
{
    proof {
        reveal_strlit("/");
    }
    let normalized_path: String = replace_char(path, '\\', "/");
    String::from_str(SQLITE_FILE_PREFIX).concat(normalized_path.as_str())
}

#[derive(Debug, Clone)]
pub struct CoreOptions {
    pub database_url: String,
}

impl CoreOptions {
    /// Returns options configured for an in-memory SQLite database.
    pub fn in_memory() -> (options: Self)
        ensures
            options.database_url@ == IN_MEMORY_DATABASE_URL@,
    {
        Self { database_url: String::from_str(IN_MEMORY_DATABASE_URL) }
    }

    /// Returns options for the database file at `path`.
    pub fn for_database_file(path: &str) -> (options: Self)
        ensures
            options.database_url@ == url_of_path(path@),
    {
        Self { database_url: database_url_for_path(path) }
    }
}

pub struct CoreBuilder {
    options: CoreOptions,
}

impl CoreBuilder {
    /// The options this builder will build from.
    pub closed spec fn options(self) -> CoreOptions {
        self.options
    }

    /// Creates a builder that will construct a wired core runtime.
    pub fn new(options: CoreOptions) -> (builder: Self)
        ensures
            builder.options() == options,
    {
        Self { options }
    }

    /// The URL of the database the runtime is to be built over.
    pub fn database_url(&self) -> (url: &str)
        ensures
            url@ == self.options().database_url@,
    {
        self.options.database_url.as_str()
    }

    /// Builds the runtime by wiring adapters, services, and the core API.
    /// The adapters are those the caller has opened over the builder's
    /// database; the scheduler starts idle.
    pub fn build<L, S, K, Tx, Jh>(
        self,
        hydration_repository: L,
        settings_repository: S,
        reminder_sink: K,
    ) -> (runtime: CoreRuntime<L, S, K, Tx, Jh>) where
        L: HydrationLogRepository,
        S: SettingsRepository,
        K: ReminderEventSink,

        ensures
            runtime.api_view().hydration_service().repository() == hydration_repository,
            runtime.api_view().settings_service().repository() == settings_repository,
            runtime.api_view().reminder_sink() == reminder_sink,
            !runtime.scheduler().running(),
    {
        let hydration_service = HydrationService::new(hydration_repository);
        let settings_service = SettingsService::new(settings_repository);
        let api = CoreApi::new(hydration_service, settings_service, reminder_sink);
        CoreRuntime::new(api)
    }
}

} // verus!
