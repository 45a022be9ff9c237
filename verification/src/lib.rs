//! The control protocol of a persistent-process script execution harness.
//!
//! A driver process feeds scripts to a long-lived harness over a handful of
//! inherited file descriptors. This crate holds every decision the harness
//! makes about that conversation: which bytes are a valid command, how many
//! payload bytes are owed, when a transfer counts as complete, what status
//! word answers an execution, and in which order all of it happens. It performs
//! no I/O itself; the embedding program carries out the actions it is told to
//! and reports back what happened.

pub mod fault;
pub mod machine;
pub mod session;
pub mod status;
pub mod transport;
pub mod violation;
pub mod wire;
