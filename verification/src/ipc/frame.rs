//! Message framing: a length of four bytes, least significant first, then
//! that many bytes of payload.

use vstd::bytes::{
    lemma_auto_spec_u32_to_from_le_bytes, spec_u32_from_le_bytes, spec_u32_to_le_bytes,
    u32_from_le_bytes, u32_to_le_bytes,
};
use vstd::prelude::*;
use vstd::slice::slice_subrange;

verus! {

/// Why bytes are no frame, or a payload cannot be framed.
#[derive(Debug, Clone, Copy, PartialEq, Eq, Structural)]
pub enum FrameError {
    /// The payload is longer than a length of four bytes can say.
    TooLong,
    /// Fewer than four bytes: the length is not all there.
    IncompleteLength,
    /// Fewer bytes follow the length than it announces.
    IncompletePayload,
}

impl FrameError {
    /// The message shown for the error.
    pub fn to_string(&self) -> (out: String)
        ensures
            out@ == match *self {
                FrameError::TooLong => "IO error: message too long"@,
                FrameError::IncompleteLength => "IO error: failed to fill whole buffer"@,
                FrameError::IncompletePayload => "IO error: failed to fill whole buffer"@,
            },
    {
        match self {
            FrameError::TooLong => "IO error: message too long".to_owned(),
            FrameError::IncompleteLength => "IO error: failed to fill whole buffer".to_owned(),
            FrameError::IncompletePayload => "IO error: failed to fill whole buffer".to_owned(),
        }
    }
}

/// The frame that carries `payload`.
pub open spec fn framed(payload: Seq<u8>) -> Seq<u8>
    recommends
        payload.len() <= u32::MAX,
{
    spec_u32_to_le_bytes(payload.len() as u32) + payload
}

/// The length that the first four bytes announce.
pub open spec fn announced(bytes: Seq<u8>) -> int
    recommends
        bytes.len() >= 4,
{
    spec_u32_from_le_bytes(bytes.take(4)) as int
}

/// Puts the length of `payload` in front of it.
pub fn write_message(payload: &[u8]) -> (r: Result<Vec<u8>, FrameError>)
    ensures
        payload@.len() <= u32::MAX ==> (r matches Ok(out) && out@ == framed(payload@)),
        payload@.len() > u32::MAX ==> r == Err::<Vec<u8>, FrameError>(FrameError::TooLong),
{
    if payload.len() > u32::MAX as usize {
        return Err(FrameError::TooLong);
    }
    let mut out = u32_to_le_bytes(payload.len() as u32);
    out.extend_from_slice(payload);
    Ok(out)
}

/// Takes the first frame off `bytes`: its payload, and how many bytes the
/// frame took.
pub fn read_message(bytes: &[u8]) -> (r: Result<(Vec<u8>, usize), FrameError>)
    ensures
        bytes@.len() < 4 ==> r == Err::<(Vec<u8>, usize), FrameError>(
            FrameError::IncompleteLength,
        ),
        bytes@.len() >= 4 && bytes@.len() - 4 < announced(bytes@) ==> r == Err::<
            (Vec<u8>, usize),
            FrameError,
        >(FrameError::IncompletePayload),
        bytes@.len() >= 4 && bytes@.len() - 4 >= announced(bytes@) ==> (r matches Ok(p) && p.0@
            == bytes@.subrange(4, 4 + announced(bytes@)) && p.1 == 4 + announced(bytes@)),
{
    if bytes.len() < 4 {
        return Err(FrameError::IncompleteLength);
    }
    let head = slice_subrange(bytes, 0, 4);
    assert(head@ =~= bytes@.take(4));
    let len = u32_from_le_bytes(head) as usize;
    if bytes.len() - 4 < len {
        return Err(FrameError::IncompletePayload);
    }
    let body = slice_subrange(bytes, 4, 4 + len);
    let mut payload: Vec<u8> = Vec::new();
    payload.extend_from_slice(body);
    Ok((payload, 4 + len))
}

/// A framed payload, whatever follows it, reads back as that payload, and
/// the frame is four bytes longer.
pub proof fn law_frame_round_trip(payload: Seq<u8>, rest: Seq<u8>)
    requires
        payload.len() <= u32::MAX,
    ensures
        announced(framed(payload) + rest) == payload.len(),
        (framed(payload) + rest).subrange(4, 4 + payload.len() as int) == payload,
        (framed(payload) + rest).len() >= 4 + payload.len(),
{
    lemma_auto_spec_u32_to_from_le_bytes();
    let head = spec_u32_to_le_bytes(payload.len() as u32);
    assert(head.len() == 4);
    let all = framed(payload) + rest;
    assert(all.take(4) =~= head);
    assert(all.subrange(4, 4 + payload.len() as int) =~= payload);
}

} // verus!
