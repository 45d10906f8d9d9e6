//! Session, power and setup logic for a remote-host manager.
//!
//! The crate models the decision layer of a small operations tool: waking a
//! powered-off host with a magic packet, authenticating remote-shell
//! sessions, running one-shot commands, driving an interactive shell over a
//! non-blocking channel, and orchestrating best-effort remote shutdown.
//! All network and process I/O is performed by the embedding application;
//! this library computes every payload, message and decision, and proves
//! what it computes.

pub mod auth;
pub mod command;
pub mod power;
pub mod records;
pub mod session;
pub mod setup;
pub mod shell;
pub mod terminal;
pub mod text;
pub mod wake;

