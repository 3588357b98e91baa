//! Plugin selection, error reporting and boundary marshalling for compute
//! backends.
//!
//! A compute runtime reaches its backends through two native plugins: one for
//! the GPU vendors and one for the CPU and remote backends. This crate holds
//! the decisions made around those plugins: which plugin serves a device
//! name, what file it is expected in, how a failed load is reported, how
//! results and diagnostics cross the foreign boundary, and how log messages
//! coming back from a plugin are classified. Every function is verified
//! against the contract written on it.

pub mod text;
pub mod error;
pub mod plugin;
pub mod context;
pub mod logging;
pub mod marshal;
pub mod backend;
pub mod interface;
pub mod builtin;
