//! Decisions of a bridge that consumes messages from a topic and stores each
//! one as a record `{id, message}` in a key-value table.
//!
//! The network clients live outside the library: the library says what to do
//! next and checks what it is handed back.

pub mod config;
pub mod record;
pub mod schema;
pub mod ingest;
pub mod delivery;
