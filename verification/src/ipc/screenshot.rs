//! Screenshot session options as the session's environment shows them.

use crate::ipc::file_chooser::{env_views, maybe};
pub use crate::portal::screenshot::ScreenshotMode;
use crate::text::{bool_string, bool_text};
use vstd::prelude::*;

verus! {

/// Session options for screenshot portal.
#[derive(Debug, Clone)]
pub struct ScreenshotSessionOptions {
    /// Operation mode.
    pub mode: ScreenshotMode,
    /// Application ID requesting the screenshot.
    pub app_id: String,
    /// Whether the dialog should be modal.
    pub modal: bool,
}

/// The variables that describe screenshot options: the mode; whether the
/// shot is interactive, for a screenshot only; the application; whether the
/// dialog is modal.
pub open spec fn options_env(o: ScreenshotSessionOptions) -> Seq<(Seq<char>, Seq<char>)> {
    seq![
        (
            "PORTTY_MODE"@,
            match o.mode {
                ScreenshotMode::Screenshot { .. } => "Screenshot"@,
                ScreenshotMode::PickColor => "PickColor"@,
            },
        ),
    ] + maybe(
        o.mode is Screenshot,
        "PORTTY_INTERACTIVE"@,
        bool_text(o.mode matches ScreenshotMode::Screenshot { interactive: true }),
    ) + seq![("PORTTY_APP_ID"@, o.app_id@), ("PORTTY_MODAL"@, bool_text(o.modal))]
}

impl ScreenshotSessionOptions {
    /// The environment variables that describe the options.
    pub fn env(&self) -> (out: Vec<(String, String)>)
        ensures
            env_views(out@) == options_env(*self),
    {
        let mut out: Vec<(String, String)> = Vec::new();
        match self.mode {
            ScreenshotMode::Screenshot { interactive } => {
                out.push(("PORTTY_MODE".to_owned(), "Screenshot".to_owned()));
                out.push(("PORTTY_INTERACTIVE".to_owned(), bool_string(interactive)));
            },
            ScreenshotMode::PickColor => {
                out.push(("PORTTY_MODE".to_owned(), "PickColor".to_owned()));
            },
        }
        out.push(("PORTTY_APP_ID".to_owned(), self.app_id.clone()));
        out.push(("PORTTY_MODAL".to_owned(), bool_string(self.modal)));
        assert(env_views(out@) =~= options_env(*self));
        out
    }
}

} // verus!
