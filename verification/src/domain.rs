//! Domain types and policies.
pub mod hydration;
