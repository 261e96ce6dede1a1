//! A local notification hook for an automated coding agent.
//!
//! The library receives one lifecycle event per process invocation (a tool is
//! about to run, a tool finished, a session started or stopped, user input is
//! needed), classifies it into at most one human-readable notification, and
//! prepares a line-diff preview for file-mutating tools.  All decision logic
//! is verified; reading standard input, probing the filesystem and delivering
//! the notification over the local channel are left to the thin binary that
//! drives the library.

pub mod args;
pub mod danger;
pub mod event;
pub mod hook;
pub mod ingest;
pub mod notify;
pub mod paths;
pub mod post_tool;
pub mod pre_tool;
pub mod preview;
pub mod text;
