//! Verified core of a desktop hydration reminder: the reminder configuration,
//! the services that log reminders and keep the settings, and the lifecycle
//! of the background reminder loop.
pub mod adapters;
pub mod api;
pub mod application;
pub mod bootstrap;
pub mod domain;
pub mod error;
pub mod ports;
pub mod text;

pub use api::CoreApi;
pub use bootstrap::{ConfigResolver, CoreBuilder, CoreOptions, CoreRuntime, RuntimeConfig};
pub use domain::hydration::{ReminderConfig, SnoozeConfig, DEFAULT_REMINDER_MESSAGE};
pub use error::{CoreError, CoreResult};
