//! Device synchronization engine for script development on a remote
//! controller: the decisions of the change watcher, the reconciliation
//! protocol, the device RPC framing and the log stream, as pure functions
//! with proved contracts. Transport, file access and timing are left to
//! the caller.

pub mod action;
pub mod file_checker;
pub mod json;
pub mod logger;
pub mod service;
pub mod text;
