//! Adapters around the core: what drives it and what it drives.
pub mod inbound;
pub mod outbound;
