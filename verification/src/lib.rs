//! Supervisor core for a local gateway daemon.
//!
//! The crate decides; its caller performs. Every function here works on plain
//! values: what a probe, a file read or a finished command reported goes in,
//! and a message, a path, a command line or the next step to perform comes out.

pub mod command;
pub mod config;
pub mod control;
pub mod dashboard;
pub mod files;
pub mod identity;
pub mod lifecycle;
pub mod logs;
pub mod paths;
pub mod platform;
pub mod status;
pub mod text;

pub use status::{GatewayDiagnostics, GatewayStatus};
