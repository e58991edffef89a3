//! Verified core of a three-stage focus timer: the stage cycle, the worker
//! state machine that a daemon drives, the frame codec of its wire protocol,
//! and the decisions that the daemon's router and the client make around it.

mod buffer;
pub mod client;
pub mod config;
pub mod connection;
pub mod entity;
pub mod frame;
pub mod init;
pub mod protocol;
pub mod server;
pub mod span;
pub mod stage;
pub mod worker;
