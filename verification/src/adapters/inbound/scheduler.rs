//! Background scheduling of hydration reminders.
pub mod hydration_scheduler;

pub use hydration_scheduler::HydrationScheduler;
