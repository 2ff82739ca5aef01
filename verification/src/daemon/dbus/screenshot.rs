//! The screenshot portal: request options, the reply and its codes.

use vstd::prelude::*;
use vstd::std_specs::convert::FromSpecImpl;

verus! {

/// Options for Screenshot request.
#[derive(Debug, Clone)]
pub struct ScreenshotOptions {
    pub modal: Option<bool>,
    pub interactive: Option<bool>,
    pub permission_store_checked: Option<bool>,
}

impl ScreenshotOptions {
    pub fn modal(&self) -> (out: Option<bool>)
        ensures
            out == self.modal,
    {
        self.modal
    }

    pub fn interactive(&self) -> (out: Option<bool>)
        ensures
            out == self.interactive,
    {
        self.interactive
    }
}

impl Default for ScreenshotOptions {
    fn default() -> (o: ScreenshotOptions)
        ensures
            o.modal is None,
            o.interactive is None,
            o.permission_store_checked is None,
    {
        ScreenshotOptions { modal: None, interactive: None, permission_store_checked: None }
    }
}

/// Options for PickColor request.
#[derive(Debug, Clone, Copy)]
pub struct PickColorOptions {

}

/// Response codes from portal.
#[derive(Debug, Clone, Copy, PartialEq, Eq, Structural)]
pub enum ResponseCode {
    Success,
    Cancelled,
    Other,
}

impl ResponseCode {
    /// The number that stands for the code on the wire.
    pub open spec fn number(self) -> u32 {
        match self {
            ResponseCode::Success => 0,
            ResponseCode::Cancelled => 1,
            ResponseCode::Other => 2,
        }
    }
}

impl From<ResponseCode> for u32 {
    fn from(v: ResponseCode) -> (r: u32) {
        match v {
            ResponseCode::Success => 0,
            ResponseCode::Cancelled => 1,
            ResponseCode::Other => 2,
        }
    }
}

impl FromSpecImpl<ResponseCode> for u32 {
    open spec fn obeys_from_spec() -> bool {
        true
    }

    open spec fn from_spec(v: ResponseCode) -> u32 {
        v.number()
    }
}

/// Result from screenshot operation.
#[derive(Debug, Clone)]
pub struct ScreenshotResult {
    pub uri: String,
}

impl ScreenshotResult {
    pub fn new(uri: &str) -> (r: ScreenshotResult)
        ensures
            r.uri@ == uri@,
    {
        ScreenshotResult { uri: uri.to_owned() }
    }
}

impl Default for ScreenshotResult {
    fn default() -> (r: ScreenshotResult)
        ensures
            r.uri@.len() == 0,
    {
        ScreenshotResult { uri: String::new() }
    }
}

/// Error type for Screenshot operations.
#[derive(Debug, Clone)]
pub enum ScreenshotError {
    Cancelled,
    Other(String),
}

/// What the bus layer sends back for the outcome of a handler.
pub enum Reply<T> {
    /// Answer with this code and result.
    Answer(ResponseCode, T),
    /// Fail the call with this message.
    Failed(String),
}

/// The reply for the outcome of a handler; `aborted` says that the caller
/// closed the request before the handler ended. Success carries the result,
/// cancellation and abortion carry `empty`, any other error fails the call.
pub fn reply_for<T>(outcome: Result<T, ScreenshotError>, aborted: bool, empty: T) -> (r: Reply<T>)
    ensures
        aborted ==> r == Reply::Answer(ResponseCode::Cancelled, empty),
        !aborted ==> (match outcome {
            Ok(result) => r == Reply::Answer(ResponseCode::Success, result),
            Err(ScreenshotError::Cancelled) => r == Reply::Answer(ResponseCode::Cancelled, empty),
            Err(ScreenshotError::Other(msg)) => r == Reply::<T>::Failed(msg),
        }),
{
    if aborted {
        return Reply::Answer(ResponseCode::Cancelled, empty);
    }
    match outcome {
        Ok(result) => Reply::Answer(ResponseCode::Success, result),
        Err(ScreenshotError::Cancelled) => Reply::Answer(ResponseCode::Cancelled, empty),
        Err(ScreenshotError::Other(msg)) => Reply::Failed(msg),
    }
}

/// The Screenshot portal implementation wrapper.
pub struct ScreenshotPortal<H> {
    pub handler: H,
}

impl<H> ScreenshotPortal<H> {
    pub fn new(handler: H) -> (p: ScreenshotPortal<H>)
        ensures
            p.handler == handler,
    {
        ScreenshotPortal { handler }
    }
}

} // verus!
