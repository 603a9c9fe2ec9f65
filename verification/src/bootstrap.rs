//! Bootstrap layer: the options a core is built from and how they are resolved.
pub mod config_resolver;
pub mod core_builder;
pub mod core_runtime;

pub use config_resolver::{ConfigResolver, RuntimeConfig};
pub use core_builder::{CoreBuilder, CoreOptions};
pub use core_runtime::CoreRuntime;
