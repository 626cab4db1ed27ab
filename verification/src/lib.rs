//! Configuration presets, column mappings and planning logic for applications
//! that keep their data in SQLite.
//!
//! Everything here is pure computation: the statements that reach a database,
//! and the conversions to and from the driver's own types, live with the caller.

pub mod functions;
pub mod index_advisor;
pub mod migration;
pub mod pool;
pub mod pragma;
pub mod records;
pub mod seed;
pub mod sql_text;
pub mod status;
pub mod time_column;
pub mod tuning;
pub mod uuid_column;
pub mod value;
