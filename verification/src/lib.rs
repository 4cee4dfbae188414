//! Snapshot support for commands. A runnable (a configured command, a
//! list of tokens, or either with a payload for standard input attached)
//! is resolved to one process configuration and described by an
//! invocation descriptor that is the same on every run; what the process
//! produced is rendered as a snapshot text of a fixed format.
//!
//! This crate decides and computes, it does not execute: `Spawn` hands
//! out a `Launch` for a driver to execute, and `spawn::conclude` says how
//! the run ended from the driver's report.

pub mod cargo;
pub mod command;
pub mod environ;
pub mod info;
pub mod order;
pub mod platform;
pub mod snapshot;
pub mod spawn;
pub mod text;

pub use crate::cargo::{get_cargo_bin, get_cargo_example};
pub use crate::command::Command;
pub use crate::info::Info;
pub use crate::snapshot::Output;
pub use crate::spawn::{Spawn, SpawnExt, SpawnWithStdin, StdinCommand};
