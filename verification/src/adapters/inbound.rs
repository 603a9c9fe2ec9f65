//! Inbound adapters: the facade callers use and the scheduler that drives
//! reminders.
pub mod core_facade;
pub mod scheduler;
