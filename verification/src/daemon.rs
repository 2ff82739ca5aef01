//! The daemon: configuration, session registry, session engine and portal
//! handlers.

pub mod config;
pub mod daemon_socket;
pub mod dbus;
pub mod portal;
pub mod server;
pub mod session;
