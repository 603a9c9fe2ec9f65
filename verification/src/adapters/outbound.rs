//! Outbound adapters: implementations of the output ports, and the rules by
//! which the SQLite store holds the core's values.
pub mod memory;
pub mod sqlite;
