//! The screenshot handler: session options for each request, and the reply
//! for each end of a session.

use crate::daemon::config::Config;
use crate::daemon::dbus::screenshot::{ScreenshotError, ScreenshotOptions, ScreenshotResult};
use crate::daemon::portal::SessionError;
use crate::ipc::screenshot::{ScreenshotMode, ScreenshotSessionOptions};
use crate::portal::screenshot::{classify_color, color_syntax, ColorSyntax};
use crate::text::{from_chars, push_all, push_str, strip_prefix_or_same, to_chars, without_prefix};
use std::sync::Arc;
use vstd::prelude::*;

verus! {

/// Screenshot handler that serves requests through terminal sessions.
pub struct TtyScreenshot<S> {
    pub config: Arc<Config>,
    pub state: S,
}

impl<S> TtyScreenshot<S> {
    pub fn new(config: Arc<Config>, state: S) -> (h: TtyScreenshot<S>)
        ensures
            h.config == config,
            h.state == state,
    {
        TtyScreenshot { config, state }
    }
}

/// The session options for a Screenshot request.
pub fn screenshot(app_id: String, options: &ScreenshotOptions) -> (o: ScreenshotSessionOptions)
    ensures
        o.mode == (ScreenshotMode::Screenshot { interactive: options.interactive == Some(true) }),
        o.app_id == app_id,
        o.modal == (options.modal == Some(true)),
{
    let interactive = match options.interactive() {
        Some(b) => b,
        None => false,
    };
    let modal = match options.modal() {
        Some(b) => b,
        None => false,
    };
    ScreenshotSessionOptions { mode: ScreenshotMode::Screenshot { interactive }, app_id, modal }
}

/// The session options for a PickColor request.
pub fn pick_color(app_id: String) -> (o: ScreenshotSessionOptions)
    ensures
        o.mode == ScreenshotMode::PickColor,
        o.app_id == app_id,
        !o.modal,
{
    ScreenshotSessionOptions { mode: ScreenshotMode::PickColor, app_id, modal: false }
}

/// The error of the session as the screenshot portal reports it.
fn portal_error(e: SessionError) -> (r: ScreenshotError)
    ensures
        match e {
            SessionError::Cancelled => r is Cancelled,
            SessionError::Other(msg) => r matches ScreenshotError::Other(m) && m == msg,
        },
{
    match e {
        SessionError::Cancelled => ScreenshotError::Cancelled,
        SessionError::Other(msg) => ScreenshotError::Other(msg),
    }
}

/// The reply to a Screenshot request: the first entry of the session is the
/// URI of the shot.
pub fn screenshot_reply(result: Result<Vec<String>, SessionError>) -> (r: Result<
    ScreenshotResult,
    ScreenshotError,
>)
    ensures
        match result {
            Ok(uris) => if uris@.len() > 0 {
                r matches Ok(res) && res.uri@ == uris@[0]@
            } else {
                r matches Err(ScreenshotError::Other(m)) && m@ == "no URI returned from session"@
            },
            Err(SessionError::Cancelled) => r matches Err(ScreenshotError::Cancelled),
            Err(SessionError::Other(msg)) => r matches Err(ScreenshotError::Other(m)) && m == msg,
        },
{
    match result {
        Ok(uris) => {
            if uris.len() > 0 {
                Ok(ScreenshotResult::new(uris[0].as_str()))
            } else {
                Err(ScreenshotError::Other("no URI returned from session".to_owned()))
            }
        },
        Err(e) => Err(portal_error(e)),
    }
}

/// The color that a session picked, still as text.
#[derive(Debug, Clone)]
pub enum PickedColor {
    /// The three channels, 0 to 255; each is 255 times the fraction that the
    /// portal wants.
    Channels(u8, u8, u8),
    /// Three words to be read as fractions.
    Fractions(String),
}

/// The reply to a PickColor request: the first entry of the session, without
/// a leading `file://`, read as a color.
pub fn pick_color_reply(result: Result<Vec<String>, SessionError>) -> (r: Result<
    PickedColor,
    ScreenshotError,
>)
    ensures
        match result {
            Ok(uris) => if uris@.len() == 0 {
                r matches Err(ScreenshotError::Other(m)) && m@
                    == "no color returned from session"@
            } else {
                let color = without_prefix(uris@[0]@, "file://"@);
                match color_syntax(color) {
                    ColorSyntax::Channels(red, green, blue) => r matches Ok(
                        PickedColor::Channels(x, y, z),
                    ) && x == red && y == green && z == blue,
                    ColorSyntax::Fractions => r matches Ok(PickedColor::Fractions(t)) && t@
                        == color,
                    ColorSyntax::Invalid => r matches Err(ScreenshotError::Other(m)) && m@
                        == "invalid color format: '"@ + color
                        + "' (expected #rrggbb, 'R G B' floats, or rgb(r,g,b))"@,
                }
            },
            Err(SessionError::Cancelled) => r matches Err(ScreenshotError::Cancelled),
            Err(SessionError::Other(msg)) => r matches Err(ScreenshotError::Other(m)) && m == msg,
        },
{
    match result {
        Ok(uris) => {
            if uris.len() == 0 {
                return Err(ScreenshotError::Other("no color returned from session".to_owned()));
            }
            let raw = to_chars(uris[0].as_str());
            let c = strip_prefix_or_same(raw.as_slice(), "file://");
            let color = from_chars(c.as_slice());
            match classify_color(color.as_str()) {
                ColorSyntax::Channels(red, green, blue) => Ok(
                    PickedColor::Channels(red, green, blue),
                ),
                ColorSyntax::Fractions => Ok(PickedColor::Fractions(color)),
                ColorSyntax::Invalid => {
                    let mut msg = to_chars("invalid color format: '");
                    push_all(&mut msg, c.as_slice());
                    push_str(&mut msg, "' (expected #rrggbb, 'R G B' floats, or rgb(r,g,b))");
                    Err(ScreenshotError::Other(from_chars(msg.as_slice())))
                },
            }
        },
        Err(e) => Err(portal_error(e)),
    }
}

} // verus!
