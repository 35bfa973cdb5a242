//! Verified supervision logic for a local worker process: port selection,
//! binary discovery, launch, health checking and status publication, plus
//! the small configuration and shell decisions of the desktop host.
//!
//! The supervisor is a state machine: the host performs each action it asks
//! for (probe, existence check, spawn, sleep) and reports the event back.

pub mod port;
pub mod health;
pub mod text;
pub mod locator;
pub mod status;
pub mod supervisor;
pub mod config;
pub mod shell;
