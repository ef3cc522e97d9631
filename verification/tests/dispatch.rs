use stac_proto::chunk::{ChunkDescriptor, ReassemblyLimits};
use stac_proto::dispatch::{HandlerInput, ServerCall, ServerConfig};
use stac_proto::envelope::Envelope;
use stac_proto::error::RpcError;
use stac_proto::registry::Handler;
use stac_proto::shape::{CallSignature, Shape};

fn config(initial_credit: u64, grant_window: u64) -> ServerConfig {
    ServerConfig {
        initial_credit,
        grant_window,
        limits: ReassemblyLimits { max_chunk: 100, max_blob: 250 },
    }
}

fn call(shape: Shape) -> ServerCall {
    ServerCall::new(shape, Handler { signature: shape.signature(), slot: 0 }, config(2, 1))
}

fn data(bytes: &[u8]) -> Envelope {
    Envelope::Data(bytes.to_vec())
}

fn chunk_frame(sequence_number: u64, payload: &[u8], is_final: bool) -> Envelope {
    Envelope::Data(ChunkDescriptor { sequence_number, payload: payload.to_vec(), is_final }.encode())
}

fn failure(e: RpcError) -> Vec<Envelope> {
    vec![Envelope::Error(e)]
}

#[test]
fn unary_request_runs_the_handler_once() {
    let mut call = call(Shape::Unary);
    let step = call.on_frame(data(b"req"));
    assert!(step.frames.is_empty());
    assert_eq!(step.invoke, Some(HandlerInput::One(b"req".to_vec())));
    let step = call.on_frame(Envelope::EndOfStream);
    assert!(step.frames.is_empty());
    assert_eq!(step.invoke, None);
    let frames = call.respond(Ok(vec![b"resp".to_vec()]));
    assert_eq!(frames, vec![data(b"resp"), Envelope::EndOfStream]);
    assert!(call.is_over());
}

#[test]
fn unary_call_needs_exactly_one_request() {
    let mut first = call(Shape::Unary);
    let step = first.on_frame(Envelope::EndOfStream);
    assert_eq!(step.frames, failure(RpcError::SerializationError));
    assert_eq!(step.invoke, None);
    assert!(first.is_over());
    let mut second = call(Shape::ServerStream);
    assert!(second.on_frame(data(b"one")).invoke.is_some());
    let step = second.on_frame(data(b"two"));
    assert_eq!(step.frames, failure(RpcError::SerializationError));
    assert_eq!(step.invoke, None);
}

#[test]
fn unary_handler_must_answer_once() {
    for responses in [Vec::new(), vec![b"a".to_vec(), b"b".to_vec()]] {
        let mut call = call(Shape::Unary);
        call.on_frame(data(b"req"));
        assert_eq!(call.respond(Ok(responses)), failure(RpcError::ShapeMismatch));
        assert!(call.is_over());
    }
}

#[test]
fn server_stream_ends_after_its_responses() {
    let mut call = call(Shape::ServerStream);
    let step = call.on_frame(data(b"req"));
    assert_eq!(step.invoke, Some(HandlerInput::One(b"req".to_vec())));
    let frames = call.respond(Ok(vec![b"a".to_vec(), b"b".to_vec()]));
    assert_eq!(frames, vec![data(b"a"), data(b"b"), Envelope::EndOfStream]);
    let mut empty = self::call(Shape::ServerStream);
    empty.on_frame(data(b"req"));
    assert_eq!(empty.respond(Ok(Vec::new())), vec![Envelope::EndOfStream]);
}

#[test]
fn client_stream_collects_requests_until_the_end() {
    let mut call = call(Shape::ClientStream);
    for payload in [b"a", b"b", b"c"] {
        let step = call.on_frame(data(payload));
        assert!(step.frames.is_empty());
        assert_eq!(step.invoke, None);
    }
    let step = call.on_frame(Envelope::EndOfStream);
    assert_eq!(
        step.invoke,
        Some(HandlerInput::Many(vec![b"a".to_vec(), b"b".to_vec(), b"c".to_vec()]))
    );
    assert_eq!(call.respond(Ok(vec![b"sum".to_vec()])), vec![data(b"sum"), Envelope::EndOfStream]);
}

#[test]
fn empty_client_stream_still_runs_the_handler() {
    let mut call = call(Shape::ClientStream);
    let step = call.on_frame(Envelope::EndOfStream);
    assert_eq!(step.invoke, Some(HandlerInput::Many(Vec::new())));
}

#[test]
fn duplex_runs_the_handler_per_request() {
    let mut call = call(Shape::Duplex);
    let step = call.on_frame(data(b"a"));
    assert_eq!(step.invoke, Some(HandlerInput::One(b"a".to_vec())));
    assert_eq!(call.respond(Ok(vec![b"a1".to_vec(), b"a2".to_vec()])), vec![data(b"a1"), data(b"a2")]);
    let step = call.on_frame(data(b"b"));
    assert_eq!(step.invoke, Some(HandlerInput::One(b"b".to_vec())));
    assert_eq!(call.respond(Ok(Vec::new())), Vec::new());
    assert!(!call.is_over());
    let step = call.on_frame(Envelope::EndOfStream);
    assert_eq!(step.frames, vec![Envelope::EndOfStream]);
    assert!(call.is_over());
}

#[test]
fn flow_controlled_call_grants_and_obeys_credit() {
    let mut call = ServerCall::new(
        Shape::DuplexFlow,
        Handler { signature: CallSignature::Duplex, slot: 0 },
        config(1, 2),
    );
    let step = call.on_frame(data(b"a"));
    assert!(step.frames.is_empty());
    assert_eq!(call.respond(Ok(vec![b"r1".to_vec(), b"r2".to_vec()])), vec![data(b"r1")]);
    let step = call.on_frame(data(b"b"));
    assert_eq!(step.frames, vec![Envelope::Credit(2)]);
    assert_eq!(call.respond(Ok(vec![b"r3".to_vec()])), Vec::new());
    let step = call.on_frame(Envelope::Credit(1));
    assert_eq!(step.frames, vec![data(b"r2")]);
    assert_eq!(step.invoke, None);
    let step = call.on_frame(Envelope::EndOfStream);
    assert!(step.frames.is_empty());
    assert!(!call.is_over());
    let step = call.on_frame(Envelope::Credit(5));
    assert_eq!(step.frames, vec![data(b"r3"), Envelope::EndOfStream]);
    assert!(call.is_over());
}

#[test]
fn end_of_responses_follows_the_last_waiting_response() {
    let mut call = ServerCall::new(
        Shape::DuplexFlow,
        Handler { signature: CallSignature::Duplex, slot: 0 },
        config(0, 1),
    );
    call.on_frame(data(b"a"));
    assert_eq!(call.respond(Ok(vec![b"r1".to_vec(), b"r2".to_vec()])), Vec::new());
    assert_eq!(call.on_frame(Envelope::EndOfStream).frames, Vec::new());
    assert_eq!(call.on_frame(Envelope::Credit(1)).frames, vec![data(b"r1")]);
    assert!(!call.is_over());
    assert_eq!(call.on_frame(Envelope::Credit(1)).frames, vec![data(b"r2"), Envelope::EndOfStream]);
    assert!(call.is_over());
    assert_eq!(call.on_frame(Envelope::Credit(1)).frames, Vec::new());
}

#[test]
fn cancellation_after_the_requests_ended_still_releases() {
    let mut call = call(Shape::DuplexFlow);
    call.on_frame(data(b"a"));
    assert_eq!(call.respond(Ok(vec![b"1".to_vec(), b"2".to_vec(), b"3".to_vec()])).len(), 2);
    call.on_frame(Envelope::EndOfStream);
    let step = call.on_frame(Envelope::Error(RpcError::Cancelled));
    assert!(step.frames.is_empty());
    assert!(call.is_over());
    assert_eq!(call.on_frame(Envelope::Credit(4)).frames, Vec::new());
}

#[test]
fn overflowing_grant_fails_the_call() {
    let mut call = call(Shape::DuplexFlow);
    let step = call.on_frame(Envelope::Credit(u64::MAX));
    assert_eq!(step.frames, failure(RpcError::TransportError));
    assert!(call.is_over());
}

#[test]
fn chunked_upload_reaches_the_handler_as_one_blob() {
    let mut call = call(Shape::ChunkedDuplexFlow);
    let step = call.on_frame(chunk_frame(0, &[1; 100], false));
    assert_eq!(step.frames, vec![Envelope::Credit(1)]);
    assert_eq!(step.invoke, None);
    assert_eq!(call.held(), 100);
    let step = call.on_frame(chunk_frame(1, &[2; 100], false));
    assert_eq!(step.invoke, None);
    assert_eq!(call.held(), 200);
    let step = call.on_frame(chunk_frame(2, &[3; 50], true));
    let mut blob = vec![1u8; 100];
    blob.extend(vec![2u8; 100]);
    blob.extend(vec![3u8; 50]);
    assert_eq!(step.invoke, Some(HandlerInput::One(blob)));
    assert_eq!(call.held(), 0);
    assert_eq!(call.respond(Ok(vec![b"done".to_vec()])), vec![data(b"done")]);
    let step = call.on_frame(Envelope::EndOfStream);
    assert_eq!(step.frames, vec![Envelope::EndOfStream]);
    assert!(call.is_over());
}

#[test]
fn chunk_violations_end_the_upload() {
    let cases = [
        (vec![chunk_frame(1, b"a", false)], RpcError::OutOfOrderChunk),
        (vec![chunk_frame(0, b"a", false), chunk_frame(0, b"a", false)], RpcError::OutOfOrderChunk),
        (vec![chunk_frame(0, b"a", false), chunk_frame(2, b"a", false)], RpcError::OutOfOrderChunk),
        (vec![chunk_frame(0, &[0; 101], false)], RpcError::ChunkTooLarge),
        (
            vec![
                chunk_frame(0, &[0; 100], false),
                chunk_frame(1, &[0; 100], false),
                chunk_frame(2, &[0; 51], true),
            ],
            RpcError::BlobTooLarge,
        ),
        (vec![chunk_frame(0, b"a", true), chunk_frame(1, b"b", true)], RpcError::SessionClosed),
        (vec![data(b"short")], RpcError::SerializationError),
        (vec![chunk_frame(0, b"a", false), Envelope::EndOfStream], RpcError::OutOfOrderChunk),
    ];
    for (frames, expected) in cases {
        let mut call = call(Shape::ChunkedDuplexFlow);
        let mut last = Vec::new();
        for frame in frames {
            last = call.on_frame(frame).frames;
        }
        assert_eq!(last, failure(expected));
        assert_eq!(call.held(), 0);
        assert!(call.is_over());
    }
}

#[test]
fn handler_error_becomes_a_terminal_frame() {
    let mut call = call(Shape::Duplex);
    call.on_frame(data(b"a"));
    assert_eq!(call.respond(Err(RpcError::Timeout)), failure(RpcError::Timeout));
    assert!(call.is_over());
    assert_eq!(call.respond(Ok(vec![b"late".to_vec()])), Vec::new());
    assert_eq!(call.on_frame(data(b"b")).invoke, None);
}

#[test]
fn one_failed_call_leaves_another_untouched() {
    let mut failing = call(Shape::Duplex);
    let mut healthy = call(Shape::Duplex);
    failing.on_frame(data(b"a"));
    healthy.on_frame(data(b"a"));
    assert_eq!(failing.respond(Err(RpcError::TransportError)), failure(RpcError::TransportError));
    assert_eq!(healthy.respond(Ok(vec![b"ok".to_vec()])), vec![data(b"ok")]);
    assert!(!healthy.is_over());
}

#[test]
fn cancelled_upload_releases_its_session() {
    let mut call = call(Shape::ChunkedDuplexFlow);
    call.on_frame(chunk_frame(0, &[9; 80], false));
    assert_eq!(call.held(), 80);
    let step = call.on_frame(Envelope::Error(RpcError::Cancelled));
    assert!(step.frames.is_empty());
    assert_eq!(step.invoke, None);
    assert_eq!(call.held(), 0);
    assert!(call.is_over());
    assert_eq!(call.on_frame(chunk_frame(1, &[9; 80], true)).invoke, None);
    let mut again = self::call(Shape::ChunkedDuplexFlow);
    assert_eq!(again.held(), 0);
    let step = again.on_frame(chunk_frame(0, b"xy", true));
    assert_eq!(step.invoke, Some(HandlerInput::One(b"xy".to_vec())));
}

#[test]
fn server_side_cancel_releases_and_reports() {
    let mut call = call(Shape::ChunkedDuplexFlow);
    call.on_frame(chunk_frame(0, &[9; 80], false));
    assert_eq!(call.cancel(), failure(RpcError::Cancelled));
    assert_eq!(call.held(), 0);
    assert!(call.is_over());
    assert_eq!(call.cancel(), Vec::new());
}

#[test]
fn cancelled_client_stream_drops_kept_requests() {
    let mut call = call(Shape::ClientStream);
    call.on_frame(data(b"a"));
    call.on_frame(Envelope::Error(RpcError::Cancelled));
    let step = call.on_frame(Envelope::EndOfStream);
    assert_eq!(step.invoke, None);
    assert!(step.frames.is_empty());
}
