//! Sans-IO core of a tool that runs a command under the identity of a
//! privileged host service.
//!
//! Every operating-system interaction is described as a value
//! ([`syscall::SysCall`]) that the embedding program performs; the answer comes
//! back as a [`syscall::Reply`]. The state machines in this crate decide what to
//! ask next and what the final outcome is, and the laws proved beside them hold
//! for every sequence of answers the operating system may give.

pub mod constants;
pub mod text;
pub mod error;
pub mod config;
pub mod logging;
pub mod cli;
pub mod syscall;
pub mod handle;
pub mod machine;
pub mod models;
pub mod service;
pub mod process;
pub mod privilege;
pub mod token;
pub mod elevation;
pub mod report;
pub mod services;
