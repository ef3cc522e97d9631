//! The bytes of an envelope, for transports that carry nothing but bytes.
//!
//! An envelope starts with one byte that tells its kind. A message follows
//! with the length of its payload in eight bytes, least significant first,
//! and the payload; a grant with its amount in eight bytes, least
//! significant first; an error with one byte that tells its kind. The end
//! of the stream is its kind byte alone.

use vstd::prelude::*;
use vstd::bytes::{
    lemma_auto_spec_u64_to_from_le_bytes,
    spec_u64_from_le_bytes,
    spec_u64_to_le_bytes,
    u64_from_le_bytes,
    u64_to_le_bytes,
};
use vstd::slice::{slice_subrange, slice_to_vec};
use crate::envelope::{Envelope, Frame};
use crate::error::RpcError;

verus! {

/// The kind byte of a message.
pub const KIND_DATA: u8 = 0;

/// The kind byte of a grant.
pub const KIND_CREDIT: u8 = 1;

/// The kind byte of the end of the stream.
pub const KIND_END_OF_STREAM: u8 = 2;

/// The kind byte of an error.
pub const KIND_ERROR: u8 = 3;

/// The byte that tells the kind of an error on the wire.
pub open spec fn error_code(error: RpcError) -> u8 {
    match error {
        RpcError::TransportError => 0,
        RpcError::SerializationError => 1,
        RpcError::UnknownMethod => 2,
        RpcError::DuplicateMethod => 3,
        RpcError::ShapeMismatch => 4,
        RpcError::OutOfOrderChunk => 5,
        RpcError::SessionClosed => 6,
        RpcError::ChunkTooLarge => 7,
        RpcError::BlobTooLarge => 8,
        RpcError::Cancelled => 9,
        RpcError::Timeout => 10,
    }
}

/// The kind of error that `code` tells, if it tells one.
pub open spec fn error_of(code: u8) -> Option<RpcError> {
    if code == 0 {
        Some(RpcError::TransportError)
    } else if code == 1 {
        Some(RpcError::SerializationError)
    } else if code == 2 {
        Some(RpcError::UnknownMethod)
    } else if code == 3 {
        Some(RpcError::DuplicateMethod)
    } else if code == 4 {
        Some(RpcError::ShapeMismatch)
    } else if code == 5 {
        Some(RpcError::OutOfOrderChunk)
    } else if code == 6 {
        Some(RpcError::SessionClosed)
    } else if code == 7 {
        Some(RpcError::ChunkTooLarge)
    } else if code == 8 {
        Some(RpcError::BlobTooLarge)
    } else if code == 9 {
        Some(RpcError::Cancelled)
    } else if code == 10 {
        Some(RpcError::Timeout)
    } else {
        None
    }
}

impl RpcError {
    /// The byte that tells this kind of error on the wire.
    pub fn code(self) -> (r: u8)
        ensures
            r == error_code(self),
    {
        match self {
            RpcError::TransportError => 0,
            RpcError::SerializationError => 1,
            RpcError::UnknownMethod => 2,
            RpcError::DuplicateMethod => 3,
            RpcError::ShapeMismatch => 4,
            RpcError::OutOfOrderChunk => 5,
            RpcError::SessionClosed => 6,
            RpcError::ChunkTooLarge => 7,
            RpcError::BlobTooLarge => 8,
            RpcError::Cancelled => 9,
            RpcError::Timeout => 10,
        }
    }

    /// The kind of error that `code` tells, or `None` where it tells none.
    pub fn from_code(code: u8) -> (r: Option<RpcError>)
        ensures
            r == error_of(code),
    {
        if code == 0 {
            Some(RpcError::TransportError)
        } else if code == 1 {
            Some(RpcError::SerializationError)
        } else if code == 2 {
            Some(RpcError::UnknownMethod)
        } else if code == 3 {
            Some(RpcError::DuplicateMethod)
        } else if code == 4 {
            Some(RpcError::ShapeMismatch)
        } else if code == 5 {
            Some(RpcError::OutOfOrderChunk)
        } else if code == 6 {
            Some(RpcError::SessionClosed)
        } else if code == 7 {
            Some(RpcError::ChunkTooLarge)
        } else if code == 8 {
            Some(RpcError::BlobTooLarge)
        } else if code == 9 {
            Some(RpcError::Cancelled)
        } else if code == 10 {
            Some(RpcError::Timeout)
        } else {
            None
        }
    }
}

/// Every kind of error has a code of its own, and the code tells it back.
pub proof fn lemma_error_codes_round_trip(error: RpcError, code: u8)
    ensures
        error_of(error_code(error)) == Some(error),
        error_of(code) matches Some(e) ==> error_code(e) == code,
{
}

/// The bytes of an envelope with this content.
pub open spec fn frame_bytes(frame: Frame) -> Seq<u8> {
    match frame {
        Frame::Data(payload) => seq![KIND_DATA] + spec_u64_to_le_bytes(payload.len() as u64)
            + payload,
        Frame::Credit(n) => seq![KIND_CREDIT] + spec_u64_to_le_bytes(n),
        Frame::EndOfStream => seq![KIND_END_OF_STREAM],
        Frame::Error(e) => seq![KIND_ERROR, error_code(e)],
    }
}

/// What the start of a run of bytes holds.
pub ghost enum Parsed {
    /// One whole envelope with this content, in this many bytes.
    Complete(Frame, nat),
    /// The start of an envelope; more bytes are needed.
    Incomplete,
    /// Nothing that could become an envelope.
    Malformed,
}

/// What the start of `bytes` holds.
pub open spec fn parse(bytes: Seq<u8>) -> Parsed {
    if bytes.len() == 0 {
        Parsed::Incomplete
    } else if bytes[0] == KIND_DATA {
        if bytes.len() < 9 {
            Parsed::Incomplete
        } else {
            let size = spec_u64_from_le_bytes(bytes.subrange(1, 9));
            if bytes.len() - 9 < size {
                Parsed::Incomplete
            } else {
                Parsed::Complete(Frame::Data(bytes.subrange(9, 9 + size)), (9 + size) as nat)
            }
        }
    } else if bytes[0] == KIND_CREDIT {
        if bytes.len() < 9 {
            Parsed::Incomplete
        } else {
            Parsed::Complete(Frame::Credit(spec_u64_from_le_bytes(bytes.subrange(1, 9))), 9)
        }
    } else if bytes[0] == KIND_END_OF_STREAM {
        Parsed::Complete(Frame::EndOfStream, 1)
    } else if bytes[0] == KIND_ERROR {
        if bytes.len() < 2 {
            Parsed::Incomplete
        } else {
            match error_of(bytes[1]) {
                Some(e) => Parsed::Complete(Frame::Error(e), 2),
                None => Parsed::Malformed,
            }
        }
    } else {
        Parsed::Malformed
    }
}

/// The bytes of an envelope, followed by anything, parse to that envelope
/// and to the number of bytes it took.
pub proof fn lemma_parse_encoded(frame: Frame, rest: Seq<u8>)
    requires
        frame matches Frame::Data(payload) ==> payload.len() <= u64::MAX,
    ensures
        parse(frame_bytes(frame) + rest) == Parsed::Complete(frame, frame_bytes(frame).len()),
{
    lemma_auto_spec_u64_to_from_le_bytes();
    let bytes = frame_bytes(frame) + rest;
    match frame {
        Frame::Data(payload) => {
            let size = payload.len() as u64;
            assert(bytes[0] == KIND_DATA);
            assert(bytes.subrange(1, 9) =~= spec_u64_to_le_bytes(size));
            assert(bytes.subrange(9, 9 + size) =~= payload);
        },
        Frame::Credit(n) => {
            assert(bytes[0] == KIND_CREDIT);
            assert(bytes.subrange(1, 9) =~= spec_u64_to_le_bytes(n));
        },
        Frame::EndOfStream => {
            assert(bytes[0] == KIND_END_OF_STREAM);
        },
        Frame::Error(e) => {
            assert(bytes[0] == KIND_ERROR);
            assert(bytes[1] == error_code(e));
        },
    }
}

/// What parses to an envelope starts with exactly the bytes of that envelope.
pub proof fn lemma_encode_parsed(bytes: Seq<u8>)
    requires
        parse(bytes) is Complete,
    ensures
        parse(bytes)->Complete_1 <= bytes.len(),
        frame_bytes(parse(bytes)->Complete_0) == bytes.take(parse(bytes)->Complete_1 as int),
{
    lemma_auto_spec_u64_to_from_le_bytes();
    let frame = parse(bytes)->Complete_0;
    let used = parse(bytes)->Complete_1;
    match frame {
        Frame::Data(payload) => {
            let head = bytes.subrange(1, 9);
            assert(spec_u64_to_le_bytes(spec_u64_from_le_bytes(head)) == head);
            assert(frame_bytes(frame) =~= bytes.take(used as int));
        },
        Frame::Credit(n) => {
            let head = bytes.subrange(1, 9);
            assert(spec_u64_to_le_bytes(spec_u64_from_le_bytes(head)) == head);
            assert(frame_bytes(frame) =~= bytes.take(used as int));
        },
        Frame::EndOfStream => {
            assert(frame_bytes(frame) =~= bytes.take(used as int));
        },
        Frame::Error(e) => {
            assert(frame_bytes(frame) =~= bytes.take(used as int));
        },
    }
}

impl Envelope {
    /// The bytes of this envelope.
    pub fn encode(&self) -> (r: Vec<u8>)
        ensures
            r@ == frame_bytes(self@),
    {
        let mut bytes: Vec<u8> = Vec::new();
        match self {
            Envelope::Data(payload) => {
                bytes.push(KIND_DATA);
                let size: usize = payload.len();
                let mut length = u64_to_le_bytes(size as u64);
                bytes.append(&mut length);
                let ghost head = bytes@;
                bytes.extend_from_slice(payload.as_slice());
                assert(bytes@ =~= head + payload@);
                assert(bytes@ =~= frame_bytes(self@));
            },
            Envelope::Credit(n) => {
                bytes.push(KIND_CREDIT);
                let mut amount = u64_to_le_bytes(*n);
                bytes.append(&mut amount);
                assert(bytes@ =~= frame_bytes(self@));
            },
            Envelope::EndOfStream => {
                bytes.push(KIND_END_OF_STREAM);
                assert(bytes@ =~= frame_bytes(self@));
            },
            Envelope::Error(e) => {
                bytes.push(KIND_ERROR);
                bytes.push(e.code());
                assert(bytes@ =~= frame_bytes(self@));
            },
        }
        bytes
    }

    /// Reads one envelope from the start of `bytes`.
    ///
    /// `Ok(Some(..))` holds the envelope and the number of bytes it took;
    /// `Ok(None)` says that the bytes so far are the start of an envelope
    /// and more are needed; `SerializationError` says that no envelope
    /// starts like this.
    pub fn decode(bytes: &[u8]) -> (r: Result<Option<(Envelope, usize)>, RpcError>)
        ensures
            match parse(bytes@) {
                Parsed::Complete(frame, used) => r matches Ok(Some((envelope, taken)))
                    && envelope@ == frame && taken == used,
                Parsed::Incomplete => r matches Ok(None),
                Parsed::Malformed => r matches Err(e) && e == RpcError::SerializationError,
            },
    {
        let total: usize = bytes.len();
        if total == 0 {
            return Ok(None);
        }
        let kind: u8 = bytes[0];
        if kind == KIND_DATA {
            if total < 9 {
                return Ok(None);
            }
            let size: u64 = u64_from_le_bytes(slice_subrange(bytes, 1, 9));
            let available: usize = total - 9;
            if (available as u64) < size {
                return Ok(None);
            }
            let end: usize = 9 + size as usize;
            let payload = slice_to_vec(slice_subrange(bytes, 9, end));
            Ok(Some((Envelope::Data(payload), end)))
        } else if kind == KIND_CREDIT {
            if total < 9 {
                return Ok(None);
            }
            let n: u64 = u64_from_le_bytes(slice_subrange(bytes, 1, 9));
            Ok(Some((Envelope::Credit(n), 9)))
        } else if kind == KIND_END_OF_STREAM {
            Ok(Some((Envelope::EndOfStream, 1)))
        } else if kind == KIND_ERROR {
            if total < 2 {
                return Ok(None);
            }
            match RpcError::from_code(bytes[1]) {
                Some(e) => Ok(Some((Envelope::Error(e), 2))),
                None => Err(RpcError::SerializationError),
            }
        } else {
            Err(RpcError::SerializationError)
        }
    }
}

} // verus!
