//! A task store that never touches the database itself.
//!
//! Every operation on the task table is a small state machine: it names the
//! query to run next, takes the backend's reply, and either names another
//! query or finishes with a result. Whoever owns the connection runs the
//! queries; every decision in between is made, and proved, here.

pub mod models;
pub mod merge;
pub mod store;
pub mod table;
pub mod laws;
pub mod dispatch;
