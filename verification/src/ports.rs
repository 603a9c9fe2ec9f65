//! Output ports: the capabilities the core asks of its surroundings.
//!
//! Each port may describe itself to verified code through a model: spec
//! functions that return `Some` of what the implementation holds and of
//! whether a call on it would succeed. The contracts of a port speak of that
//! model only; an implementation that keeps the default model, `None`,
//! promises nothing beyond its signatures.
pub mod hydration_log_repository;
pub mod reminder_event_sink;
pub mod settings_repository;

pub use hydration_log_repository::HydrationLogRepository;
pub use reminder_event_sink::ReminderEventSink;
pub use settings_repository::{SettingsRepository, StoredSettings};
