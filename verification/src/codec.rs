//! The wire form of a chunk: eight bytes of sequence number, least
//! significant first, one flag byte that is 1 on the final chunk and 0 on
//! any other, then the payload.

use vstd::prelude::*;
use vstd::bytes::{
    lemma_auto_spec_u64_to_from_le_bytes,
    spec_u64_from_le_bytes,
    spec_u64_to_le_bytes,
    u64_from_le_bytes,
    u64_to_le_bytes,
};
use vstd::slice::{slice_subrange, slice_to_vec};
use crate::chunk::ChunkDescriptor;
use crate::error::RpcError;

verus! {

/// The number of bytes that precede the payload in an encoded chunk.
pub const CHUNK_HEADER_LEN: usize = 9;

/// The flag byte of a chunk.
pub open spec fn flag_byte(is_final: bool) -> u8 {
    if is_final {
        1u8
    } else {
        0u8
    }
}

/// The bytes that carry a chunk with these fields.
pub open spec fn encoding(sequence_number: u64, payload: Seq<u8>, is_final: bool) -> Seq<u8> {
    spec_u64_to_le_bytes(sequence_number) + seq![flag_byte(is_final)] + payload
}

/// The fields of the chunk that `bytes` carries, if it carries one: it must
/// hold a whole header whose flag byte is 0 or 1.
pub open spec fn decoding(bytes: Seq<u8>) -> Option<(u64, Seq<u8>, bool)> {
    if bytes.len() < CHUNK_HEADER_LEN || bytes[8] > 1 {
        None
    } else {
        Some(
            (
                spec_u64_from_le_bytes(bytes.subrange(0, 8)),
                bytes.subrange(CHUNK_HEADER_LEN as int, bytes.len() as int),
                bytes[8] == 1,
            ),
        )
    }
}

/// Decoding what was encoded gives the fields back.
pub proof fn lemma_decode_encoded(sequence_number: u64, payload: Seq<u8>, is_final: bool)
    ensures
        decoding(encoding(sequence_number, payload, is_final)) == Some(
            (sequence_number, payload, is_final),
        ),
        encoding(sequence_number, payload, is_final).len() == CHUNK_HEADER_LEN + payload.len(),
{
    lemma_auto_spec_u64_to_from_le_bytes();
    let bytes = encoding(sequence_number, payload, is_final);
    assert(bytes.subrange(0, 8) =~= spec_u64_to_le_bytes(sequence_number));
    assert(bytes.subrange(CHUNK_HEADER_LEN as int, bytes.len() as int) =~= payload);
}

/// Encoding what was decoded gives the bytes back.
pub proof fn lemma_encode_decoded(bytes: Seq<u8>)
    requires
        decoding(bytes) is Some,
    ensures
        ({
            let (sequence_number, payload, is_final) = decoding(bytes)->Some_0;
            encoding(sequence_number, payload, is_final) == bytes
        }),
{
    lemma_auto_spec_u64_to_from_le_bytes();
    let (sequence_number, payload, is_final) = decoding(bytes)->Some_0;
    let head = bytes.subrange(0, 8);
    assert(spec_u64_to_le_bytes(spec_u64_from_le_bytes(head)) == head);
    assert(encoding(sequence_number, payload, is_final) =~= bytes);
}

/// Whether `payloads` are the encodings of `chunks`, one for one.
pub open spec fn carries(payloads: Seq<Vec<u8>>, chunks: Seq<ChunkDescriptor>) -> bool {
    &&& payloads.len() == chunks.len()
    &&& forall|i: int|
        0 <= i < chunks.len() ==> (#[trigger] payloads[i])@ == encoding(
            chunks[i].sequence_number,
            chunks[i].payload@,
            chunks[i].is_final,
        )
}

/// Encodes each chunk of `chunks`, in order.
pub fn encode_all(chunks: &Vec<ChunkDescriptor>) -> (r: Vec<Vec<u8>>)
    ensures
        carries(r@, chunks@),
{
    let count: usize = chunks.len();
    let mut payloads: Vec<Vec<u8>> = Vec::new();
    let mut i: usize = 0;
    while i < count
        invariant
            count == chunks@.len(),
            i <= count,
            carries(payloads@, chunks@.take(i as int)),
        decreases count - i,
    {
        payloads.push(chunks[i].encode());
        i += 1;
        assert(carries(payloads@, chunks@.take(i as int)));
    }
    assert(chunks@.take(count as int) =~= chunks@);
    payloads
}

impl ChunkDescriptor {
    /// The bytes that carry this chunk.
    pub fn encode(&self) -> (r: Vec<u8>)
        ensures
            r@ == encoding(self.sequence_number, self.payload@, self.is_final),
    {
        let mut bytes = u64_to_le_bytes(self.sequence_number);
        let flag: u8 = if self.is_final {
            1
        } else {
            0
        };
        bytes.push(flag);
        let ghost head = bytes@;
        bytes.extend_from_slice(self.payload.as_slice());
        assert(bytes@ =~= head + self.payload@);
        bytes
    }

    /// The chunk that `bytes` carries, or `SerializationError` where it
    /// carries none.
    pub fn decode(bytes: &[u8]) -> (r: Result<ChunkDescriptor, RpcError>)
        ensures
            match decoding(bytes@) {
                Some((sequence_number, payload, is_final)) => r matches Ok(chunk)
                    && chunk.sequence_number == sequence_number && chunk.payload@ == payload
                    && chunk.is_final == is_final,
                None => r matches Err(e) && e == RpcError::SerializationError,
            },
    {
        let total: usize = bytes.len();
        if total < CHUNK_HEADER_LEN {
            return Err(RpcError::SerializationError);
        }
        let flag: u8 = bytes[8];
        if flag > 1 {
            return Err(RpcError::SerializationError);
        }
        let sequence_number = u64_from_le_bytes(slice_subrange(bytes, 0, 8));
        let payload = slice_to_vec(slice_subrange(bytes, CHUNK_HEADER_LEN, total));
        Ok(ChunkDescriptor { sequence_number, payload, is_final: flag == 1 })
    }
}

} // verus!
