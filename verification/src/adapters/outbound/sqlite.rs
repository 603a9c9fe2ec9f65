//! What the SQLite store needs decided: how settings are held in its signed
//! columns, and which migrations are still to be applied.
pub mod migrations;
pub mod settings_repository;
