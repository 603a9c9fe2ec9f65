//! Use cases over the output ports.
pub mod hydration_service;
pub mod settings_service;

pub use hydration_service::HydrationService;
pub use settings_service::SettingsService;
