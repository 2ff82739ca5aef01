//! Messages between the daemon, its sessions and the command-line tool.

pub mod context;
pub mod daemon;
pub mod file_chooser;
pub mod frame;
pub mod protocol;
pub mod queue;
pub mod screenshot;
pub mod session;
