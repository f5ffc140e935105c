//! Verified core of a Windows service wrapper: it keeps a program running as a
//! service, restarts it with exponential backoff when it crashes, shuts it down
//! gracefully, and stores its configuration in the registry.
//!
//! The modules compute; the caller performs the I/O (service control manager,
//! registry, processes, console) and drives the two state machines,
//! [`monitor::Monitor`] and [`termination::Stopper`].
pub mod backoff;
pub mod cli;
pub mod commands;
pub mod config;
pub mod launch;
pub mod monitor;
pub mod termination;
pub mod text;
