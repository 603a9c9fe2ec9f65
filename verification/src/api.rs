//! The core's use-case API.
pub mod core_api;

pub use core_api::CoreApi;
