//! Session core of a terminal client for a document database: the session
//! state machine, connection history, connection-string parsing and the
//! construction of query filters.

pub mod controller;
pub mod error;
pub mod filter;
pub mod history;
pub mod models;
pub mod state;
pub mod text;
pub mod uri;
