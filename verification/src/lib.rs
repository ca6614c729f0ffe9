//! Verified session logic of a TestKit backend for a Neo4j driver.
//!
//! The library decides how a session answers the requests of a TestKit
//! frontend: which record buffer serves a result, what a transaction that is
//! out of scope answers, when a transaction function is retried, and which
//! error a retry hands back. Running queries against the database and moving
//! messages between threads is left to the caller.
pub mod errors;
pub mod ids;
pub mod record_buffer;
pub mod tracker;
pub mod scope;
pub mod session;
pub mod steps;
pub mod attempt;
pub mod run;
