//! The portals that the daemon serves.

use crate::text::{from_chars, is_str, push_str, to_chars};
use vstd::prelude::*;

verus! {

/// Supported portal types.
#[derive(Debug, Clone, Copy, PartialEq, Eq, Hash, Structural)]
#[non_exhaustive]
pub enum PortalType {
    FileChooser,
    Screenshot,
}

impl PortalType {
    /// The identifier used in configuration and on the bus.
    pub open spec fn name(self) -> Seq<char> {
        match self {
            PortalType::FileChooser => "file-chooser"@,
            PortalType::Screenshot => "screenshot"@,
        }
    }

    /// Get the string identifier used in config and D-Bus.
    pub fn as_str(&self) -> (out: &'static str)
        ensures
            out@ == self.name(),
    {
        match self {
            PortalType::FileChooser => "file-chooser",
            PortalType::Screenshot => "screenshot",
        }
    }

    /// The portal that `s` names, or the error that carries `s`.
    pub fn parse(s: &str) -> (r: Result<PortalType, ParsePortalTypeError>)
        ensures
            s@ == "file-chooser"@ ==> r == Ok::<PortalType, ParsePortalTypeError>(
                PortalType::FileChooser,
            ),
            s@ == "screenshot"@ ==> r == Ok::<PortalType, ParsePortalTypeError>(
                PortalType::Screenshot,
            ),
            s@ != "file-chooser"@ && s@ != "screenshot"@ ==> (r matches Err(e) && e.0@ == s@),
    {
        proof {
            lemma_portal_names_differ();
        }
        let chars = to_chars(s);
        if is_str(chars.as_slice(), "file-chooser") {
            Ok(PortalType::FileChooser)
        } else if is_str(chars.as_slice(), "screenshot") {
            Ok(PortalType::Screenshot)
        } else {
            Err(ParsePortalTypeError(from_chars(chars.as_slice())))
        }
    }

    /// The name of the portal, as an owned string.
    pub fn to_string(&self) -> (out: String)
        ensures
            out@ == self.name(),
    {
        let chars = to_chars(self.as_str());
        from_chars(chars.as_slice())
    }
}

/// Whether `r` is what the text `s` parses to: the portal of that name, or
/// for any other text the error that carries the text.
pub open spec fn parsed_as(s: Seq<char>, r: Result<PortalType, ParsePortalTypeError>) -> bool {
    if s == PortalType::FileChooser.name() {
        r matches Ok(PortalType::FileChooser)
    } else if s == PortalType::Screenshot.name() {
        r matches Ok(PortalType::Screenshot)
    } else {
        r matches Err(e) && e.0@ == s
    }
}

/// The two portal names differ, so a name tells the portal.
pub proof fn lemma_portal_names_differ()
    ensures
        PortalType::FileChooser.name() != PortalType::Screenshot.name(),
{
    reveal_strlit("file-chooser");
    reveal_strlit("screenshot");
    assert("file-chooser"@.len() != "screenshot"@.len());
}

/// Error returned when parsing an unknown portal type string.
#[derive(Debug, Clone)]
pub struct ParsePortalTypeError(pub String);

impl ParsePortalTypeError {
    /// The message: `unknown portal type: <name>`.
    pub fn to_string(&self) -> (out: String)
        ensures
            out@ == "unknown portal type: "@ + self.0@,
    {
        let mut msg: Vec<char> = Vec::new();
        push_str(&mut msg, "unknown portal type: ");
        push_str(&mut msg, self.0.as_str());
        from_chars(msg.as_slice())
    }
}

impl std::str::FromStr for PortalType {
    type Err = ParsePortalTypeError;

    /// The portal that `s` names, or the error that carries `s`.
    fn from_str(s: &str) -> (r: Result<PortalType, ParsePortalTypeError>)
        ensures
            parsed_as(s@, r),
    {
        PortalType::parse(s)
    }
}

} // verus!
