//! Terminal-driven desktop portal backend: verified core.

pub mod builtins;
pub mod cli;
pub mod client;
pub mod codec;
pub mod daemon;
pub mod files;
pub mod ipc;
pub mod number;
pub mod paths;
pub mod portal;
pub mod portal_type;
pub mod protocol;
pub mod submission;
pub mod text;
pub mod types;
