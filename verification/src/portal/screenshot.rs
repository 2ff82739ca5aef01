//! Screenshot submissions: one entry, and for a picked color its syntax.

use crate::files::{rendered, write_lines};
use crate::number::{
    decimal, hex_digit, hex_lower, hex_lower_digit, hex_value, parse_u64, parse_u64_spec,
    u64_to_decimal,
};
use crate::portal::AddResult;
use crate::text::{
    from_chars, has_prefix, has_suffix, is_str, push_all, push_str, slice_copy, split,
    split_chars, split_words, starts_with_str, strip_prefix_or_same, to_chars, trim, trimmed,
    vec_views, views, without_prefix, words,
};
use vstd::prelude::*;

verus! {

/// Screenshot operation mode.
#[derive(Debug, Clone, Copy, PartialEq, Eq, Structural)]
pub enum ScreenshotMode {
    /// Take a screenshot (optionally interactive).
    Screenshot { interactive: bool },
    /// Pick a color from the screen.
    PickColor,
}

impl ScreenshotMode {
    /// The name shown to people.
    pub open spec fn label(self) -> Seq<char> {
        match self {
            ScreenshotMode::Screenshot { interactive: true } => "Screenshot (interactive)"@,
            ScreenshotMode::Screenshot { interactive: false } => "Screenshot"@,
            ScreenshotMode::PickColor => "PickColor"@,
        }
    }

    /// The name shown to people.
    pub fn to_string(&self) -> (out: String)
        ensures
            out@ == self.label(),
    {
        match self {
            ScreenshotMode::Screenshot { interactive: true } => "Screenshot (interactive)".to_owned(),
            ScreenshotMode::Screenshot { interactive: false } => "Screenshot".to_owned(),
            ScreenshotMode::PickColor => "PickColor".to_owned(),
        }
    }
}

/// Session options for screenshot portal.
#[derive(Debug, Clone)]
pub struct SessionOptions {
    /// Operation mode.
    pub mode: ScreenshotMode,
    /// Application ID requesting the screenshot.
    pub app_id: String,
    /// Whether the dialog should be modal.
    pub modal: bool,
}

/// How a text spells a color.
#[derive(Debug, Clone, Copy, PartialEq, Eq, Structural)]
pub enum ColorSyntax {
    /// `#rrggbb` or `rgb(r,g,b)`: the three channels, 0 to 255.
    Channels(u8, u8, u8),
    /// Three words separated by white space, to be read as fractions.
    Fractions,
    /// No color.
    Invalid,
}

/// The channel that two hexadecimal digits spell.
pub open spec fn hex_pair(hi: char, lo: char) -> Option<nat> {
    match (hex_value(hi), hex_value(lo)) {
        (Some(h), Some(l)) => Some(h * 16 + l),
        _ => None,
    }
}

/// The channel that a decimal text spells: a number up to 255, white space
/// around it ignored.
pub open spec fn channel_of(part: Seq<char>) -> Option<nat> {
    match parse_u64_spec(trimmed(part)) {
        Ok(v) => if v <= 255 {
            Some(v as nat)
        } else {
            None
        },
        Err(_) => None,
    }
}

/// The channels that `#` and six hexadecimal digits spell.
pub open spec fn hex_color(s: Seq<char>) -> ColorSyntax {
    if s.len() != 7 {
        ColorSyntax::Invalid
    } else {
        match (hex_pair(s[1], s[2]), hex_pair(s[3], s[4]), hex_pair(s[5], s[6])) {
            (Some(r), Some(g), Some(b)) => ColorSyntax::Channels(r as u8, g as u8, b as u8),
            _ => ColorSyntax::Invalid,
        }
    }
}

/// The channels that `rgb(`, three numbers separated by commas, and `)`
/// spell.
pub open spec fn rgb_color(s: Seq<char>) -> ColorSyntax {
    if !has_suffix(s, seq![')']) || s.len() < 5 {
        ColorSyntax::Invalid
    } else {
        let parts = split(s.subrange(4, s.len() - 1), ',');
        if parts.len() != 3 {
            ColorSyntax::Invalid
        } else {
            match (channel_of(parts[0]), channel_of(parts[1]), channel_of(parts[2])) {
                (Some(r), Some(g), Some(b)) => ColorSyntax::Channels(r as u8, g as u8, b as u8),
                _ => ColorSyntax::Invalid,
            }
        }
    }
}

/// How `text` spells a color, white space around it ignored: `#rrggbb` in
/// either case, `rgb(r,g,b)` with numbers up to 255, or three words.
pub open spec fn color_syntax(text: Seq<char>) -> ColorSyntax {
    let s = trimmed(text);
    if has_prefix(s, seq!['#']) {
        hex_color(s)
    } else if has_prefix(s, "rgb("@) {
        rgb_color(s)
    } else if words(s).len() == 3 {
        ColorSyntax::Fractions
    } else {
        ColorSyntax::Invalid
    }
}

/// The channel of two hexadecimal digits.
fn read_hex_pair(hi: char, lo: char) -> (r: Option<u8>)
    ensures
        match hex_pair(hi, lo) {
            Some(v) => r == Some(v as u8) && v < 256,
            None => r is None,
        },
{
    match hex_digit(hi) {
        Some(h) => match hex_digit(lo) {
            Some(l) => Some(h * 16 + l),
            None => None,
        },
        None => None,
    }
}

/// The channel of a decimal text.
fn read_channel(part: &[char]) -> (r: Option<u8>)
    ensures
        match channel_of(part@) {
            Some(v) => r == Some(v as u8) && v < 256,
            None => r is None,
        },
{
    let t = trim(part);
    match parse_u64(t.as_slice()) {
        Ok(v) => {
            if v <= 255 {
                Some(v as u8)
            } else {
                None
            }
        },
        Err(_) => None,
    }
}

/// Reads the `#rrggbb` form.
fn read_hex_color(s: &[char]) -> (r: ColorSyntax)
    ensures
        r == hex_color(s@),
{
    if s.len() != 7 {
        return ColorSyntax::Invalid;
    }
    let r = read_hex_pair(s[1], s[2]);
    let g = read_hex_pair(s[3], s[4]);
    let b = read_hex_pair(s[5], s[6]);
    match (r, g, b) {
        (Some(r), Some(g), Some(b)) => ColorSyntax::Channels(r, g, b),
        _ => ColorSyntax::Invalid,
    }
}

/// Reads the `rgb(r,g,b)` form.
fn read_rgb_color(s: &[char]) -> (r: ColorSyntax)
    ensures
        r == rgb_color(s@),
{
    if s.len() < 5 || s[s.len() - 1] != ')' {
        proof {
            if s.len() >= 1 {
                assert(s@.skip(s.len() - 1)[0] == s@[s.len() - 1]);
            }
        }
        return ColorSyntax::Invalid;
    }
    proof {
        assert(s@.skip(s.len() - 1) =~= seq![')']);
    }
    let inner = slice_copy(s, 4, s.len() - 1);
    let parts = split_chars(inner.as_slice(), ',');
    assert(vec_views(parts@).len() == parts@.len());
    if parts.len() != 3 {
        return ColorSyntax::Invalid;
    }
    assert(forall|i: int| 0 <= i < 3 ==> vec_views(parts@)[i] == parts@[i]@);
    let r = read_channel(parts[0].as_slice());
    let g = read_channel(parts[1].as_slice());
    let b = read_channel(parts[2].as_slice());
    match (r, g, b) {
        (Some(r), Some(g), Some(b)) => ColorSyntax::Channels(r, g, b),
        _ => ColorSyntax::Invalid,
    }
}

/// Tells how a text spells a color.
pub fn classify_color(text: &str) -> (r: ColorSyntax)
    ensures
        r == color_syntax(text@),
{
    proof {
        reveal_strlit("rgb(");
    }
    let raw = to_chars(text);
    let s = trim(raw.as_slice());
    if s.len() > 0 && s[0] == '#' {
        assert(s@.take(1) =~= seq!['#']);
        return read_hex_color(s.as_slice());
    }
    proof {
        if s.len() > 0 {
            assert(s@.take(1)[0] == s@[0]);
        }
    }
    if starts_with_str(s.as_slice(), "rgb(") {
        return read_rgb_color(s.as_slice());
    }
    let tokens = split_words(s.as_slice());
    assert(vec_views(tokens@).len() == tokens@.len());
    if tokens.len() == 3 {
        ColorSyntax::Fractions
    } else {
        ColorSyntax::Invalid
    }
}

/// The three words of a color given as fractions; nothing for any other text.
/// Whether each of them is a number from 0 to 1 is for the caller to tell.
pub fn fraction_words(text: &str) -> (r: Option<(String, String, String)>)
    ensures
        color_syntax(text@) == ColorSyntax::Fractions <==> r is Some,
        r matches Some(t) ==> seq![t.0@, t.1@, t.2@] == words(trimmed(text@)),
{
    if classify_color(text) != ColorSyntax::Fractions {
        return None;
    }
    let raw = to_chars(text);
    let s = trim(raw.as_slice());
    let tokens = split_words(s.as_slice());
    assert(vec_views(tokens@).len() == tokens@.len());
    assert(forall|i: int| 0 <= i < 3 ==> vec_views(tokens@)[i] == tokens@[i]@);
    let a = from_chars(tokens[0].as_slice());
    let b = from_chars(tokens[1].as_slice());
    let c = from_chars(tokens[2].as_slice());
    assert(seq![a@, b@, c@] =~= vec_views(tokens@));
    Some((a, b, c))
}

/// The canonical text of a color given by its channels: `#` and six
/// lower-case hexadecimal digits.
pub open spec fn channels_text(r: u8, g: u8, b: u8) -> Seq<char> {
    seq![
        '#',
        hex_lower((r / 16) as nat),
        hex_lower((r % 16) as nat),
        hex_lower((g / 16) as nat),
        hex_lower((g % 16) as nat),
        hex_lower((b / 16) as nat),
        hex_lower((b % 16) as nat),
    ]
}

/// The canonical text of a color: for channels `#rrggbb` in lower case, for
/// fractions the three words with one space between them.
pub open spec fn canonical_color(text: Seq<char>) -> Seq<char> {
    match color_syntax(text) {
        ColorSyntax::Channels(r, g, b) => channels_text(r, g, b),
        ColorSyntax::Fractions => {
            let w = words(trimmed(text));
            w[0] + seq![' '] + w[1] + seq![' '] + w[2]
        },
        ColorSyntax::Invalid => text,
    }
}

/// What a screenshot submission is worth.
///
/// It takes exactly one entry. For `pick-color` the entry, without a leading
/// `file://`, must spell a color, and the canonical text of that color is
/// given back; `fractions_ok` says whether the three words of a color given
/// as fractions are numbers from 0 to 1. Any other operation gives the entry
/// back as it is.
pub open spec fn validated(
    operation: Seq<char>,
    entries: Seq<Seq<char>>,
    fractions_ok: bool,
) -> Result<
    Seq<Seq<char>>,
    Seq<char>,
> {
    if entries.len() == 0 {
        Err("No entries in submission"@)
    } else if entries.len() > 1 {
        Err("Screenshot expects 1 entry, got "@ + decimal(entries.len()))
    } else if operation == "pick-color"@ {
        let color = without_prefix(entries[0], "file://"@);
        let good = match color_syntax(color) {
            ColorSyntax::Channels(_, _, _) => true,
            ColorSyntax::Fractions => fractions_ok,
            ColorSyntax::Invalid => false,
        };
        if good {
            Ok(seq![canonical_color(color)])
        } else {
            Err(
                "invalid color format: '"@ + color
                    + "' (expected #rrggbb, 'R G B' floats, or rgb(r,g,b))"@,
            )
        }
    } else {
        Ok(entries)
    }
}

/// The canonical text of a color given by its channels.
pub fn channels_string(r: u8, g: u8, b: u8) -> (out: String)
    ensures
        out@ == channels_text(r, g, b),
{
    let mut out: Vec<char> = Vec::new();
    out.push('#');
    out.push(hex_lower_digit(r / 16));
    out.push(hex_lower_digit(r % 16));
    out.push(hex_lower_digit(g / 16));
    out.push(hex_lower_digit(g % 16));
    out.push(hex_lower_digit(b / 16));
    out.push(hex_lower_digit(b % 16));
    assert(out@ =~= channels_text(r, g, b));
    from_chars(out.as_slice())
}

/// Validate and transform screenshot submission.
///
/// For screenshot: validates single entry, passes through as-is.
/// For pick-color: validates single entry and color format, strips the
/// file:// prefix, and gives the color in canonical form. `fractions_ok`
/// says whether the words of a color given as fractions are numbers from 0
/// to 1.
pub fn validate(operation: &str, entries: &[String], fractions_ok: bool) -> (r: Result<
    Vec<String>,
    String,
>)
    ensures
        match validated(operation@, views(entries@), fractions_ok) {
            Ok(out) => r matches Ok(v) && views(v@) == out,
            Err(msg) => r matches Err(e) && e@ == msg,
        },
{
    if entries.len() == 0 {
        return Err("No entries in submission".to_owned());
    }
    if entries.len() > 1 {
        let mut msg = to_chars("Screenshot expects 1 entry, got ");
        let n = u64_to_decimal(entries.len() as u64);
        push_all(&mut msg, n.as_slice());
        return Err(from_chars(msg.as_slice()));
    }
    assert(views(entries@)[0] == entries@[0]@);
    let op = to_chars(operation);
    if !is_str(op.as_slice(), "pick-color") {
        let mut out: Vec<String> = Vec::new();
        out.push(entries[0].clone());
        assert(views(out@) =~= views(entries@));
        return Ok(out);
    }
    let e = to_chars(entries[0].as_str());
    let c = strip_prefix_or_same(e.as_slice(), "file://");
    let color = from_chars(c.as_slice());
    let canonical = match classify_color(color.as_str()) {
        ColorSyntax::Channels(r, g, b) => Some(channels_string(r, g, b)),
        ColorSyntax::Fractions => {
            if fractions_ok {
                match fraction_words(color.as_str()) {
                    Some(t) => {
                        let mut s = to_chars(t.0.as_str());
                        s.push(' ');
                        push_str(&mut s, t.1.as_str());
                        s.push(' ');
                        push_str(&mut s, t.2.as_str());
                        proof {
                            let w = words(trimmed(color@));
                            assert(w[0] == t.0@ && w[1] == t.1@ && w[2] == t.2@) by {
                                assert(seq![t.0@, t.1@, t.2@][0] == t.0@);
                                assert(seq![t.0@, t.1@, t.2@][1] == t.1@);
                                assert(seq![t.0@, t.1@, t.2@][2] == t.2@);
                            }
                            assert(s@ =~= w[0] + seq![' '] + w[1] + seq![' '] + w[2]);
                        }
                        Some(from_chars(s.as_slice()))
                    },
                    None => None,
                }
            } else {
                None
            }
        },
        ColorSyntax::Invalid => None,
    };
    match canonical {
        Some(text) => {
            let mut out: Vec<String> = Vec::new();
            out.push(text);
            assert(views(out@) =~= seq![text@]);
            Ok(out)
        },
        None => {
            let mut msg = to_chars("invalid color format: '");
            push_all(&mut msg, c.as_slice());
            push_str(&mut msg, "' (expected #rrggbb, 'R G B' floats, or rgb(r,g,b))");
            Err(from_chars(msg.as_slice()))
        },
    }
}

/// Smart add entries: screenshot always replaces (single entry). Gives what
/// was done and the new text of the submission file.
pub fn add_entries(entries: &[String]) -> (r: (AddResult, String))
    ensures
        r.0 == AddResult::Replaced,
        r.1@ == rendered(views(entries@)),
{
    (AddResult::Replaced, write_lines(entries))
}

} // verus!
