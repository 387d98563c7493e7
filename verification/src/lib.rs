//! Per-repository background-daemon lifecycle management.
//!
//! The crate keeps at most one long-lived server process per repository
//! root, lets client invocations connect to (or lazily spawn) that
//! process, and lets the server retire itself after a configurable
//! period of client inactivity. Three pieces cooperate:
//!
//! - [`bump_timeout`]: a deadline that any number of callers can push
//!   further into the future, and that a waiter can sleep towards
//!   without ever waking early;
//! - [`server`]: the state a running server keeps — its idle deadline,
//!   its shutdown flag and its artifact paths — and how each incoming
//!   operation changes it;
//! - [`connector`]: the client-side state machine that locates or
//!   spawns a server without ever creating two live servers for the
//!   same repository;
//! - [`command`]: what every invocation shares — the subcommands and
//!   the capabilities they grant, the error kinds, the status record,
//!   and the idle-timeout configuration.
//!
//! Clock readings, sockets, the lock file and process management live
//! with the caller; every decision taken on their outcomes is made — and
//! verified — here, over instants expressed as plain milliseconds.

pub mod bump_timeout;
pub mod command;
pub mod connector;
pub mod server;
