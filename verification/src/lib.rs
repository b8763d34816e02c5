//! Startup logic of a desktop shell that launches a bundled backend process.
//!
//! The shell's one job at startup is sidecar supervision: resolve the
//! per-user application data directory, make sure it exists, spawn the
//! bundled backend binary with that directory and a fixed port, and keep
//! the child handle alive for the shell's whole lifetime. In development
//! builds the backend is run by the developer and the shell only prints a
//! reminder.
//!
//! This crate verifies the decisions of that startup sequence. The host
//! runtime performs the outside work (path lookup, directory creation,
//! process spawn) and reports each outcome back as an event; the verified
//! state machine in [`orchestrator`] says what to do next, and
//! [`invocation`] builds the exact argument vector the child must see.

pub mod error;
pub mod invocation;
pub mod orchestrator;
