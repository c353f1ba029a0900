//! A line-oriented bulletin-board service: users register, log in, post and
//! read messages over a plain text connection.
//!
//! This crate holds the verified core: the per-session state machine that
//! turns input lines into state transitions and output lines, the
//! phase-partitioned command registry, and the shared store of users and
//! messages with its invariants.  Network and file I/O live outside the
//! library; the session engine hands them plain actions to perform.

pub mod ansi;
pub mod commands;
pub mod config;
pub mod session;
pub mod store;
pub mod text;
