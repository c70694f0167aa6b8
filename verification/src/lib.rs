//! Core of a small tool that lists the OpenPGP keys of a key store and lets
//! an operator pick one of them as the identity that signs git commits.
//!
//! The crate holds the decisions of that tool: how a key of the store
//! becomes a record, what a report and a selection menu show of a record,
//! how the selection dialog moves from state to state, and which entries a
//! chosen identity writes to a repository's configuration. Reading the key
//! store, driving the terminal and writing the configuration are left to the
//! caller.

pub mod dates;
pub mod error;
pub mod git;
pub mod keylist;
pub mod report;
pub mod selector;
pub mod table;
pub mod theme;
