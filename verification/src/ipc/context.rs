//! The options of a session, whatever its portal.

use crate::ipc::file_chooser::{env_views, SessionOptions};
use crate::ipc::screenshot::ScreenshotSessionOptions;
use crate::types::file_chooser::opt_str;
use vstd::prelude::*;

verus! {

/// Portal-specific context carried by a session.
///
/// Each portal type has its own options. The session machinery dispatches on
/// this enum to derive environment variables, title, selection behavior, etc.
#[derive(Debug, Clone)]
pub enum PortalContext {
    FileChooser(SessionOptions),
    Screenshot(ScreenshotSessionOptions),
}

impl PortalContext {
    /// The variables that describe the options.
    pub open spec fn env_spec(self) -> Seq<(Seq<char>, Seq<char>)> {
        match self {
            PortalContext::FileChooser(o) => crate::ipc::file_chooser::options_env(o),
            PortalContext::Screenshot(o) => crate::ipc::screenshot::options_env(o),
        }
    }

    /// The title of the session: that of a file chooser unless it is empty.
    pub open spec fn title_spec(self) -> Option<Seq<char>> {
        match self {
            PortalContext::FileChooser(o) => if o.title@.len() > 0 {
                Some(o.title@)
            } else {
                None
            },
            PortalContext::Screenshot(_) => None,
        }
    }

    /// Get environment variables for this portal context.
    pub fn env(&self) -> (out: Vec<(String, String)>)
        ensures
            env_views(out@) == self.env_spec(),
    {
        match self {
            PortalContext::FileChooser(opts) => opts.env(),
            PortalContext::Screenshot(opts) => opts.env(),
        }
    }

    /// Get session title (if any).
    pub fn title(&self) -> (out: Option<&str>)
        ensures
            opt_str(out) == self.title_spec(),
    {
        match self {
            PortalContext::FileChooser(opts) => {
                if opts.title.as_str().unicode_len() == 0 {
                    None
                } else {
                    Some(opts.title.as_str())
                }
            },
            PortalContext::Screenshot(_) => None,
        }
    }
}

} // verus!
