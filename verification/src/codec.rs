//! Reading and writing the messages of the control socket.

use crate::protocol::{
    decode_request, decode_session_chars, decode_session_line, Request, RequestView, Response,
    ResponseView, SessionInfo, SessionInfoView, info_views,
};
use crate::text::{
    find, find_from, from_chars, has_prefix, is_str, push_str, slice_copy, starts_with_str,
    to_chars,
};
use vstd::prelude::*;

verus! {

/// IPC communication errors.
#[derive(Debug, Clone)]
pub enum IpcError {
    /// The peer is gone, or the stream failed.
    Io(String),
    /// A line is not what the protocol allows.
    Protocol(String),
}

/// What an `IpcError` says.
pub enum IpcErrorView {
    Io(Seq<char>),
    Protocol(Seq<char>),
}

impl View for IpcError {
    type V = IpcErrorView;

    open spec fn view(&self) -> IpcErrorView {
        match *self {
            IpcError::Io(m) => IpcErrorView::Io(m@),
            IpcError::Protocol(m) => IpcErrorView::Protocol(m@),
        }
    }
}

impl IpcError {
    /// The message shown for the error.
    pub open spec fn text(self) -> Seq<char> {
        match self@ {
            IpcErrorView::Io(m) => "IO error: "@ + m,
            IpcErrorView::Protocol(m) => "protocol error: "@ + m,
        }
    }

    /// The message shown for the error.
    pub fn to_string(&self) -> (out: String)
        ensures
            out@ == self.text(),
    {
        let mut out: Vec<char> = Vec::new();
        match self {
            IpcError::Io(m) => {
                push_str(&mut out, "IO error: ");
                push_str(&mut out, m.as_str());
            },
            IpcError::Protocol(m) => {
                push_str(&mut out, "protocol error: ");
                push_str(&mut out, m.as_str());
            },
        }
        from_chars(out.as_slice())
    }
}

/// Text that is read line by line.
#[derive(Debug)]
pub struct LineReader {
    text: Vec<char>,
    pos: usize,
}

impl LineReader {
    #[verifier::type_invariant]
    spec fn in_bounds(self) -> bool {
        self.pos <= self.text@.len()
    }

    /// What is still to be read.
    pub closed spec fn remaining(self) -> Seq<char> {
        self.text@.skip(self.pos as int)
    }

    /// A reader at the start of `text`.
    pub fn new(text: &str) -> (r: LineReader)
        ensures
            r.remaining() == text@,
    {
        let text = to_chars(text);
        assert(text@.skip(0) =~= text@);
        LineReader { text, pos: 0 }
    }

    /// Reads the next line, its line feed included; the rest of the text if
    /// no line feed is left; nothing at the end.
    pub fn read_line(&mut self) -> (line: Vec<char>)
        ensures
            line@ == first_line(old(self).remaining()),
            final(self).remaining() == old(self).remaining().skip(line@.len() as int),
    {
        proof {
            use_type_invariant(&*self);
        }
        let k = find_from(self.text.as_slice(), '\n', self.pos);
        let end: usize = if k < self.text.len() {
            k + 1
        } else {
            k
        };
        let line = slice_copy(self.text.as_slice(), self.pos, end);
        proof {
            let rest = self.text@.skip(self.pos as int);
            assert(rest.take(end - self.pos) =~= self.text@.subrange(self.pos as int, end as int));
            if k >= self.text.len() {
                assert(rest.take(end - self.pos) =~= rest);
            }
            assert(rest.skip(end - self.pos) =~= self.text@.skip(end as int));
        }
        self.pos = end;
        line
    }
}

/// The first line of a text, its line feed included; the whole text if it
/// holds no line feed.
pub open spec fn first_line(s: Seq<char>) -> Seq<char> {
    let k = find(s, '\n');
    if 0 <= k < s.len() {
        s.take(k + 1)
    } else {
        s
    }
}

/// `s` without the characters `c` that close it.
pub open spec fn without_trailing(s: Seq<char>, c: char) -> Seq<char>
    decreases s.len(),
{
    if s.len() > 0 && s.last() == c {
        without_trailing(s.drop_last(), c)
    } else {
        s
    }
}

/// A line without its end: trailing line feeds are dropped, then trailing
/// carriage returns.
pub open spec fn line_body(line: Seq<char>) -> Seq<char> {
    without_trailing(without_trailing(line, '\n'), '\r')
}

/// Drops the characters `c` that close `s`.
fn trim_trailing(s: &[char], c: char) -> (out: Vec<char>)
    ensures
        out@ == without_trailing(s@, c),
{
    let mut end: usize = s.len();
    proof {
        assert(s@.take(s.len() as int) =~= s@);
    }
    while end > 0 && s[end - 1] == c
        invariant
            end <= s.len(),
            without_trailing(s@, c) == without_trailing(s@.take(end as int), c),
        decreases end,
    {
        proof {
            assert(s@.take(end as int).drop_last() =~= s@.take(end - 1));
        }
        end = end - 1;
    }
    let out = slice_copy(s, 0, end);
    assert(s@.subrange(0, end as int) =~= s@.take(end as int));
    out
}

/// Write a request: appends its line to `writer`.
pub fn write_request(writer: &mut String, req: &Request) -> (r: Result<(), IpcError>)
    ensures
        r is Ok,
        final(writer)@ == old(writer)@ + req@.encode(),
{
    let line = req.encode();
    let mut out = to_chars(writer.as_str());
    push_str(&mut out, line.as_str());
    *writer = from_chars(out.as_slice());
    Ok(())
}

/// What reading a request from the text `s` gives: the request of the first
/// line. No text at all means that the peer is gone.
pub open spec fn request_read(s: Seq<char>) -> Result<RequestView, IpcErrorView> {
    if s.len() == 0 {
        Err(IpcErrorView::Io("connection closed"@))
    } else {
        match decode_request(first_line(s)) {
            Ok(r) => Ok(r),
            Err(m) => Err(IpcErrorView::Protocol(m)),
        }
    }
}

/// Read a request: the next line of `reader`.
pub fn read_request(reader: &mut LineReader) -> (r: Result<Request, IpcError>)
    ensures
        match request_read(old(reader).remaining()) {
            Ok(v) => r matches Ok(req) && req@ == v,
            Err(e) => r matches Err(x) && x@ == e,
        },
        final(reader).remaining() == old(reader).remaining().skip(
            first_line(old(reader).remaining()).len() as int,
        ),
{
    let line = reader.read_line();
    if line.len() == 0 {
        proof {
            crate::text::lemma_find(old(reader).remaining(), '\n');
        }
        return Err(IpcError::Io("connection closed".to_owned()));
    }
    let text = from_chars(line.as_slice());
    match Request::decode(text.as_str()) {
        Ok(req) => Ok(req),
        Err(m) => Err(IpcError::Protocol(m)),
    }
}

/// Write a response: appends its lines to `writer`.
pub fn write_response(writer: &mut String, resp: &Response) -> (r: Result<(), IpcError>)
    ensures
        r is Ok,
        final(writer)@ == old(writer)@ + resp@.encode(),
{
    let text = resp.encode();
    let mut out = to_chars(writer.as_str());
    push_str(&mut out, text.as_str());
    *writer = from_chars(out.as_slice());
    Ok(())
}

/// What reading a response from the text `s` gives, `seen` being the session
/// lines read so far, and what is left of the text after it.
///
/// Line by line: `ok` ends the response, with the sessions seen if there are
/// any; a line that starts with `error: ` ends it with that error; any other
/// line must be a session line. Text that ends before the response does
/// means that the peer is gone.
pub open spec fn response_read(s: Seq<char>, seen: Seq<SessionInfoView>) -> (
    Result<ResponseView, IpcErrorView>,
    Seq<char>,
)
    decreases s.len(),
{
    if s.len() == 0 {
        (Err(IpcErrorView::Io("connection closed while reading response"@)), s)
    } else {
        let line = first_line(s);
        let rest = s.skip(line.len() as int);
        let body = line_body(line);
        if body == "ok"@ {
            (
                Ok(
                    if seen.len() == 0 {
                        ResponseView::Okay
                    } else {
                        ResponseView::Sessions(seen)
                    },
                ),
                rest,
            )
        } else if has_prefix(body, "error: "@) {
            (Ok(ResponseView::Error(body.skip("error: "@.len() as int))), rest)
        } else {
            match decode_session_line(body) {
                Ok(info) => if line.len() > 0 {
                    response_read(rest, seen.push(info))
                } else {
                    (Err(IpcErrorView::Io("connection closed while reading response"@)), s)
                },
                Err(m) => (Err(IpcErrorView::Protocol(m)), rest),
            }
        }
    }
}

/// Read a response: the lines of `reader` up to the one that ends it.
pub fn read_response(reader: &mut LineReader) -> (r: Result<Response, IpcError>)
    ensures
        match response_read(old(reader).remaining(), Seq::empty()).0 {
            Ok(v) => r matches Ok(resp) && resp@ == v,
            Err(e) => r matches Err(x) && x@ == e,
        },
        final(reader).remaining() == response_read(old(reader).remaining(), Seq::empty()).1,
{
    let mut sessions: Vec<SessionInfo> = Vec::new();
    let ghost start = reader.remaining();
    proof {
        assert(info_views(sessions@) =~= Seq::<SessionInfoView>::empty());
    }
    loop
        invariant
            start == old(reader).remaining(),
            response_read(start, Seq::empty()) == response_read(
                reader.remaining(),
                info_views(sessions@),
            ),
        decreases reader.remaining().len(),
    {
        let ghost before = reader.remaining();
        let ghost seen = info_views(sessions@);
        let line = reader.read_line();
        proof {
            crate::text::lemma_find(before, '\n');
        }
        if line.len() == 0 {
            return Err(IpcError::Io("connection closed while reading response".to_owned()));
        }
        let no_lf = trim_trailing(line.as_slice(), '\n');
        let body = trim_trailing(no_lf.as_slice(), '\r');
        if is_str(body.as_slice(), "ok") {
            return if sessions.len() == 0 {
                Ok(Response::Okay)
            } else {
                Ok(Response::Sessions(sessions))
            };
        }
        if starts_with_str(body.as_slice(), "error: ") {
            let p = to_chars("error: ");
            let msg = slice_copy(body.as_slice(), p.len(), body.len());
            assert(body@.subrange(p.len() as int, body.len() as int) =~= body@.skip(
                "error: "@.len() as int,
            ));
            return Ok(Response::Error(from_chars(msg.as_slice())));
        }
        match decode_session_chars(body.as_slice()) {
            Ok(info) => {
                sessions.push(info);
                proof {
                    assert(info_views(sessions@) =~= seen.push(info@));
                }
            },
            Err(e) => {
                return Err(IpcError::Protocol(e));
            },
        }
    }
}

} // verus!
