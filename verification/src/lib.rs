//! Command-dispatch and initialization-lifecycle core for a plugin-hosted
//! desktop application shell.
//!
//! The shell owns a registry of named commands, populated once while the
//! application is setting up and immutable once it is ready. Invoking a name
//! looks up its handler and returns the handler's result, or reports that no
//! such command exists; setup runs a fixed sequence of steps exactly once and
//! refuses to make the shell ready when a required step fails. The hosting
//! framework (windows, the event loop, the persistence plugin's internals) is
//! an external collaborator and stays outside this crate.

pub mod command;
pub mod errors;
pub mod setup;
pub mod shell;
