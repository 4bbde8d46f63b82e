//! A verified core for a file-mailbox bridge between a desktop application
//! and an external messaging-automation service.
//!
//! The two processes share one directory and nothing else. This crate holds
//! the decisions of that protocol: how a session status is read and cached,
//! when a status or pairing-code event is due, how an outbound request is
//! prepared and when its exchange has settled, and when an inbound message
//! file is delivered. Reading and writing the files, sleeping between polls
//! and emitting events are left to the host program.
//!
//! It also holds the name sanitizers and the stored-credential format that
//! the host's file commands rely on.

pub mod credentials;
pub mod dispatch;
pub mod json;
pub mod listener;
pub mod monitor;
pub mod sanitize;
pub mod status;
pub mod text;
