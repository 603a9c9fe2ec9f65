//! Bootstrap configuration resolver with precedence: env -> config file -> defaults.
//!
//! Reading the environment and the config file is the caller's part; what
//! the values read resolve to is decided here.
use crate::bootstrap::core_builder::{CoreOptions, SQLITE_FILE_PREFIX};
use crate::error::CoreError;
use crate::text::{is_part_of, strip_text_prefix, text_of, trim_text, trimmed, without_prefix};
use vstd::prelude::*;
use vstd::string::StringExecFns;

verus! {

/// Name of the environment variable that overrides the database URL.
pub const DATABASE_URL_VARIABLE: &'static str = "DESK_BUDDY_DATABASE_URL";

/// Name of the config file's database URL field.
pub const DATABASE_URL_FIELD: &'static str = "bootstrap.database_url";

/// What is expected of the config file's database URL.
pub const FILE_URL_EXPECTATION: &'static str = "sqlite URL";

/// What is expected of the environment's database URL where it is not Unicode.
pub const UNICODE_URL_EXPECTATION: &'static str = "utf-8 sqlite URL";

/// Stands for a value that is not Unicode and so cannot be shown.
pub const NON_UNICODE_VALUE: &'static str = "<non-unicode>";

#[derive(Debug, Clone)]
pub struct RuntimeConfig {
    /// Resolved core options passed into the bootstrap builder.
    pub options: CoreOptions,
}

/// The `[bootstrap]` table of the config file.
#[derive(Debug, Default)]
pub struct BootstrapFileConfig {
    pub database_url: Option<String>,
}

/// The config file's contents; everything in it is optional.
#[derive(Debug, Default)]
pub struct FileConfig {
    pub bootstrap: Option<BootstrapFileConfig>,
}

/// What a lookup of an environment variable found.
#[derive(Debug)]
pub enum EnvValue {
    /// The variable is set to this text.
    Present(String),
    /// The variable is not set.
    NotPresent,
    /// The variable is set to something that is not valid Unicode.
    NotUnicode,
}

/// The database URL of the config file, if it names one.
pub open spec fn file_database_url(file_config: FileConfig) -> Option<String> {
    match file_config.bootstrap {
        Some(bootstrap) => bootstrap.database_url,
        None => None,
    }
}

/// Whether `outcome` is what validating a required field returns, where
/// `kept` is the value without its surrounding whitespace: `kept` itself if
/// anything is left of it, else an error that names the field, the value as
/// it was given and what was expected.
pub open spec fn non_empty_outcome_matches(
    field: &'static str,
    value: String,
    kept: Seq<char>,
    expected: &'static str,
    outcome: Result<String, CoreError>,
) -> bool {
    if kept.len() == 0 {
        outcome == Err::<String, CoreError>(
            CoreError::InvalidConfigValue { field, value, expected },
        )
    } else {
        outcome matches Ok(text) && text@ == kept
    }
}

/// Whether `outcome` is what the three sources resolve to. The environment
/// has priority over the config file, and the config file over the default.
/// A value that is set must be more than whitespace.
pub open spec fn resolved_url_matches(
    env: EnvValue,
    file_config: FileConfig,
    default_database_url: String,
    outcome: Result<String, CoreError>,
) -> bool {
    match env {
        EnvValue::Present(value) => non_empty_outcome_matches(
            DATABASE_URL_VARIABLE,
            value,
            trimmed(value@),
            DATABASE_URL_VARIABLE,
            outcome,
        ),
        EnvValue::NotUnicode => outcome matches Err(
            CoreError::InvalidConfigValue { field, value, expected },
        ) && field == DATABASE_URL_VARIABLE && value@ == NON_UNICODE_VALUE@ && expected
            == UNICODE_URL_EXPECTATION,
        EnvValue::NotPresent => match file_database_url(file_config) {
            Some(value) => non_empty_outcome_matches(
                DATABASE_URL_FIELD,
                value,
                trimmed(value@),
                FILE_URL_EXPECTATION,
                outcome,
            ),
            None => outcome == Ok::<String, CoreError>(default_database_url),
        },
    }
}

/// Whether a text holds nothing but whitespace. A config file that is blank
/// counts as one that is absent. The empty text is blank.
pub fn is_blank(text: &str) -> (blank: bool)
    ensures
        blank == (trimmed(text@).len() == 0),
        text@.len() == 0 ==> blank,
{
    trim_text(text).as_str().is_empty()
}

/// Decides on a required value once its surrounding whitespace is removed:
/// what is left is returned, and an empty rest is rejected.
pub fn non_empty_or_invalid(
    field: &'static str,
    value: String,
    kept: String,
    expected: &'static str,
) -> (outcome: Result<String, CoreError>)
    ensures
        non_empty_outcome_matches(field, value, kept@, expected, outcome),
{
    if kept.as_str().is_empty() {
        return Err(CoreError::InvalidConfigValue { field, value, expected });
    }
    Ok(kept)
}

/// Rejects empty string values for required config fields. What is
/// accepted is returned without its surrounding whitespace, a part of the
/// value given; the empty value is always rejected.
pub fn validate_non_empty(field: &'static str, value: String, expected: &'static str) -> (outcome:
    Result<String, CoreError>)
    ensures
        non_empty_outcome_matches(field, value, trimmed(value@), expected, outcome),
        outcome matches Ok(text) ==> is_part_of(text@, value@),
        value@.len() == 0 ==> outcome == Err::<String, CoreError>(
            CoreError::InvalidConfigValue { field, value, expected },
        ),
{
    let kept: String = trim_text(value.as_str());
    non_empty_or_invalid(field, value, kept, expected)
}

/// Resolves database URL precedence: env -> config file -> default path.
pub fn resolve_database_url(
    env: EnvValue,
    file_config: &FileConfig,
    default_database_url: String,
) -> (outcome: Result<String, CoreError>)
    ensures
        resolved_url_matches(env, *file_config, default_database_url, outcome),
        env matches EnvValue::Present(value) ==> (value@.len() == 0 ==> outcome is Err),
        env is NotPresent ==> (file_database_url(*file_config) matches Some(value)
            ==> (value@.len() == 0 ==> outcome is Err)),
{
    match env {
        EnvValue::Present(value) => validate_non_empty(
            DATABASE_URL_VARIABLE,
            value,
            DATABASE_URL_VARIABLE,
        ),
        EnvValue::NotPresent => match &file_config.bootstrap {
            Some(bootstrap) => match &bootstrap.database_url {
                Some(value) => validate_non_empty(
                    DATABASE_URL_FIELD,
                    value.clone(),
                    FILE_URL_EXPECTATION,
                ),
                None => Ok(default_database_url),
            },
            None => Ok(default_database_url),
        },
        EnvValue::NotUnicode => Err(
            CoreError::InvalidConfigValue {
                field: DATABASE_URL_VARIABLE,
                value: String::from_str(NON_UNICODE_VALUE),
                expected: UNICODE_URL_EXPECTATION,
            },
        ),
    }
}

/// The path of the database file that a URL names: what follows
/// `sqlite://`. A URL without that prefix, such as that of an in-memory
/// database, names no file.
pub fn database_file_path(database_url: &str) -> (path: Option<String>)
    ensures
        text_of(path) == without_prefix(database_url@, SQLITE_FILE_PREFIX@),
{
    strip_text_prefix(database_url, SQLITE_FILE_PREFIX)
}

pub struct ConfigResolver;

impl ConfigResolver {
    /// Resolves bootstrap config from what the environment and the config
    /// file hold, using precedence: env -> config file -> default.
    pub fn resolve(env: EnvValue, file_config: &FileConfig, default_database_url: String) -> (outcome:
        Result<RuntimeConfig, CoreError>)
        ensures
            outcome matches Ok(config) ==> resolved_url_matches(
                env,
                *file_config,
                default_database_url,
                Ok(config.options.database_url),
            ),
            outcome matches Err(error) ==> resolved_url_matches(
                env,
                *file_config,
                default_database_url,
                Err(error),
            ),
    {
        match resolve_database_url(env, file_config, default_database_url) {
            Ok(database_url) => Ok(RuntimeConfig { options: CoreOptions { database_url } }),
            Err(error) => Err(error),
        }
    }
}

} // verus!
