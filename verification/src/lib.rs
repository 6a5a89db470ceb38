//! Decision logic of an issue-tracking backend: for each entity (boards,
//! columns, issues, epics, dependencies) the functions here turn a request and
//! the outcome of one store operation into the caller's response and the
//! outcome event for the event bus.

pub use vstd::view::View;

pub mod board;
pub mod column;
pub mod dependency;
pub mod epic;
pub mod event;
pub mod ident;
pub mod instant;
pub mod issue;
pub mod laws;
pub mod notifier;
pub mod record;
pub mod search;
pub mod status;
pub mod store;
pub mod stream;
pub mod table;
