//! Lifecycle of the local backend server that a desktop shell starts on a
//! free loopback port, publishes to its user interface, and stops when the
//! main window goes away.
//!
//! The library holds the decisions: which port is usable, how the backend is
//! invoked, and which process handle must be signalled on shutdown. Creating
//! and killing the OS process is left to the caller, who hands the outcomes
//! back as plain values.

pub mod error;
pub mod launch;
pub mod port;
pub mod supervisor;

pub use error::StartupError;
pub use launch::{launch_plan, LaunchPlan};
pub use port::{allocate, port_from_pick, port_text};
pub use supervisor::{Phase, ProcessState, Supervisor};
