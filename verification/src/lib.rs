//! Inter-process communication for a small embedded kernel.
//!
//! Isolated processes find each other by name, notify each other through
//! deferred tasks, and may share one read-write buffer per notification.
//! The process table, the per-process grant records, the task queues and the
//! memory-protection regions are plain data here, so that every rule of the
//! mechanism is stated as a contract and proved.

pub mod error;
pub mod process;
pub mod table;
pub mod ipc;
pub mod laws;
