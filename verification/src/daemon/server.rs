//! The daemon as a whole: its configuration and its state.

use crate::daemon::config::Config;
use crate::daemon::daemon_socket::DaemonState;
use std::sync::Arc;
use vstd::prelude::*;

verus! {

/// The daemon before it is started.
#[derive(Debug)]
pub struct Daemon {
    /// The configuration, shared with the portal handlers.
    pub config: Arc<Config>,
    /// The state that the handlers and the control socket will share.
    pub state: DaemonState,
}

impl Daemon {
    /// A daemon with this configuration and no session.
    pub fn new(config: Config) -> (d: Daemon)
        ensures
            *d.config == config,
            d.state.sessions@.len() == 0,
            d.state.queue.pending@.len() == 0,
            d.state.queue.submissions@.len() == 0,
    {
        Daemon { config: Arc::new(config), state: DaemonState::new() }
    }
}

} // verus!
