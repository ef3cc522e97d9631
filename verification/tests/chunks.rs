use stac_proto::chunk::{reassemble, split_blob, ChunkDescriptor, ReassemblyLimits, ReassemblySession, SessionState};
use stac_proto::error::RpcError;

fn limits(max_chunk: usize, max_blob: usize) -> ReassemblyLimits {
    ReassemblyLimits { max_chunk, max_blob }
}

fn chunk(sequence_number: u64, payload: &[u8], is_final: bool) -> ChunkDescriptor {
    ChunkDescriptor { sequence_number, payload: payload.to_vec(), is_final }
}

#[test]
fn chunks_in_order_are_joined() {
    let mut session = ReassemblySession::new(limits(8, 64));
    assert_eq!(session.accept(&chunk(0, b"ab", false)), Ok(None));
    assert_eq!(session.len(), 2);
    assert_eq!(session.accept(&chunk(1, b"cde", false)), Ok(None));
    assert_eq!(session.len(), 5);
    assert_eq!(session.accept(&chunk(2, b"f", true)), Ok(Some(b"abcdef".to_vec())));
    assert_eq!(session.state(), SessionState::Closed);
    assert_eq!(session.len(), 0);
}

#[test]
fn blob_length_is_sum_of_payload_lengths() {
    let sizes = [100usize, 100, 50];
    let mut chunks = Vec::new();
    for (i, size) in sizes.iter().enumerate() {
        chunks.push(ChunkDescriptor {
            sequence_number: i as u64,
            payload: vec![i as u8; *size],
            is_final: i + 1 == sizes.len(),
        });
    }
    let blob = reassemble(limits(100, 250), &chunks).unwrap();
    assert_eq!(blob.len(), 250);
    assert_eq!(&blob[..100], &[0u8; 100][..]);
    assert_eq!(&blob[100..200], &[1u8; 100][..]);
    assert_eq!(&blob[200..], &[2u8; 50][..]);
}

#[test]
fn single_final_chunk_is_a_whole_blob() {
    let mut session = ReassemblySession::new(limits(8, 8));
    assert_eq!(session.accept(&chunk(0, b"x", true)), Ok(Some(b"x".to_vec())));
}

#[test]
fn empty_final_chunk_gives_empty_blob() {
    let mut session = ReassemblySession::new(limits(0, 0));
    assert_eq!(session.accept(&chunk(0, b"", true)), Ok(Some(Vec::new())));
}

#[test]
fn first_chunk_must_be_number_zero() {
    let mut session = ReassemblySession::new(limits(8, 64));
    assert_eq!(session.accept(&chunk(1, b"ab", false)), Err(RpcError::OutOfOrderChunk));
    assert_eq!(session.state(), SessionState::Aborted);
}

#[test]
fn gap_is_out_of_order() {
    let mut session = ReassemblySession::new(limits(8, 64));
    assert_eq!(session.accept(&chunk(0, b"ab", false)), Ok(None));
    assert_eq!(session.accept(&chunk(2, b"cd", false)), Err(RpcError::OutOfOrderChunk));
    assert_eq!(session.len(), 0);
}

#[test]
fn duplicate_is_out_of_order() {
    let mut session = ReassemblySession::new(limits(8, 64));
    assert_eq!(session.accept(&chunk(0, b"ab", false)), Ok(None));
    assert_eq!(session.accept(&chunk(0, b"ab", false)), Err(RpcError::OutOfOrderChunk));
}

#[test]
fn out_of_order_wins_over_payload_size() {
    let mut session = ReassemblySession::new(limits(1, 1));
    assert_eq!(session.accept(&chunk(5, b"far too large", true)), Err(RpcError::OutOfOrderChunk));
}

#[test]
fn chunk_after_final_is_session_closed() {
    let mut session = ReassemblySession::new(limits(8, 64));
    assert_eq!(session.accept(&chunk(0, b"ab", true)), Ok(Some(b"ab".to_vec())));
    assert_eq!(session.accept(&chunk(1, b"cd", false)), Err(RpcError::SessionClosed));
    assert_eq!(session.accept(&chunk(0, b"cd", true)), Err(RpcError::SessionClosed));
    assert_eq!(session.state(), SessionState::Closed);
}

#[test]
fn chunk_after_violation_is_session_closed() {
    let mut session = ReassemblySession::new(limits(8, 64));
    assert_eq!(session.accept(&chunk(3, b"ab", false)), Err(RpcError::OutOfOrderChunk));
    assert_eq!(session.accept(&chunk(0, b"ab", false)), Err(RpcError::SessionClosed));
}

#[test]
fn oversized_chunk_is_rejected() {
    let mut session = ReassemblySession::new(limits(2, 64));
    assert_eq!(session.accept(&chunk(0, b"ab", false)), Ok(None));
    assert_eq!(session.accept(&chunk(1, b"abc", false)), Err(RpcError::ChunkTooLarge));
    assert_eq!(session.state(), SessionState::Aborted);
    assert_eq!(session.len(), 0);
}

#[test]
fn oversized_blob_is_rejected() {
    let mut session = ReassemblySession::new(limits(4, 5));
    assert_eq!(session.accept(&chunk(0, b"abcd", false)), Ok(None));
    assert_eq!(session.accept(&chunk(1, b"ef", true)), Err(RpcError::BlobTooLarge));
    assert_eq!(session.state(), SessionState::Aborted);
}

#[test]
fn blob_of_exactly_the_bound_is_accepted() {
    let mut session = ReassemblySession::new(limits(4, 5));
    assert_eq!(session.accept(&chunk(0, b"abcd", false)), Ok(None));
    assert_eq!(session.accept(&chunk(1, b"e", true)), Ok(Some(b"abcde".to_vec())));
}

#[test]
fn release_drops_the_accumulation() {
    let mut session = ReassemblySession::new(limits(8, 64));
    assert_eq!(session.accept(&chunk(0, b"abcd", false)), Ok(None));
    session.release();
    assert_eq!(session.len(), 0);
    assert_eq!(session.state(), SessionState::Aborted);
    assert_eq!(session.accept(&chunk(1, b"ef", true)), Err(RpcError::SessionClosed));
    let fresh = ReassemblySession::new(session.limits());
    assert_eq!(fresh.len(), 0);
    assert_eq!(fresh.state(), SessionState::Open);
}

#[test]
fn release_keeps_a_closed_session_closed() {
    let mut session = ReassemblySession::new(limits(8, 64));
    assert_eq!(session.accept(&chunk(0, b"ab", true)), Ok(Some(b"ab".to_vec())));
    session.release();
    assert_eq!(session.state(), SessionState::Closed);
}

#[test]
fn reassemble_reports_truncation() {
    let chunks = vec![chunk(0, b"ab", false), chunk(1, b"cd", false)];
    assert_eq!(reassemble(limits(8, 64), &chunks), Err(RpcError::OutOfOrderChunk));
    assert_eq!(reassemble(limits(8, 64), &Vec::new()), Err(RpcError::OutOfOrderChunk));
}

#[test]
fn reassemble_reports_chunks_after_final() {
    let chunks = vec![chunk(0, b"ab", true), chunk(1, b"cd", true)];
    assert_eq!(reassemble(limits(8, 64), &chunks), Err(RpcError::SessionClosed));
}

#[test]
fn reassemble_reports_the_first_violation() {
    let chunks = vec![chunk(0, b"ab", false), chunk(1, b"abcdefghi", false), chunk(7, b"", true)];
    assert_eq!(reassemble(limits(8, 64), &chunks), Err(RpcError::ChunkTooLarge));
}

#[test]
fn split_cuts_full_chunks_and_a_rest() {
    let blob: Vec<u8> = (0..250u32).map(|i| i as u8).collect();
    let chunks = split_blob(&blob, 100).unwrap();
    assert_eq!(chunks.len(), 3);
    assert_eq!(chunks[0], chunk(0, &blob[..100], false));
    assert_eq!(chunks[1], chunk(1, &blob[100..200], false));
    assert_eq!(chunks[2], chunk(2, &blob[200..], true));
}

#[test]
fn split_of_exact_multiple_has_no_empty_chunk() {
    let chunks = split_blob(b"abcdef", 3).unwrap();
    assert_eq!(chunks, vec![chunk(0, b"abc", false), chunk(1, b"def", true)]);
}

#[test]
fn split_of_small_blob_is_one_chunk() {
    assert_eq!(split_blob(b"abc", 10).unwrap(), vec![chunk(0, b"abc", true)]);
}

#[test]
fn split_of_empty_blob_is_one_empty_final_chunk() {
    assert_eq!(split_blob(b"", 4).unwrap(), vec![chunk(0, b"", true)]);
    assert_eq!(split_blob(b"", 0).unwrap(), vec![chunk(0, b"", true)]);
}

#[test]
fn split_into_chunks_of_no_bytes_is_refused() {
    assert_eq!(split_blob(b"abc", 0), Err(RpcError::ChunkTooLarge));
}

#[test]
fn split_then_reassemble_gives_the_blob_back() {
    let blob: Vec<u8> = (0..1000u32).map(|i| (i * 7) as u8).collect();
    for size in [1usize, 3, 64, 999, 1000, 5000] {
        let chunks = split_blob(&blob, size).unwrap();
        assert_eq!(reassemble(limits(size, 1000), &chunks), Ok(blob.clone()));
    }
}
