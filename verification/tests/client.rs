use stac_proto::call::{CallOption, CallStatus, Channel, Client, ClientEvent, Header, Wait};
use stac_proto::chunk::{reassemble, ChunkDescriptor, ReassemblyLimits};
use stac_proto::credit::DEFAULT_INITIAL_CREDIT;
use stac_proto::envelope::Envelope;
use stac_proto::error::RpcError;
use stac_proto::geometry::{
    GeometryServiceClient, METHOD_GEOMETRY_SERVICE_FILE_OPERATE_BI_STREAM_FLOW,
    METHOD_GEOMETRY_SERVICE_OPERATE, METHOD_GEOMETRY_SERVICE_OPERATE_BI_STREAM,
    METHOD_GEOMETRY_SERVICE_OPERATE_BI_STREAM_FLOW, METHOD_GEOMETRY_SERVICE_OPERATE_CLIENT_STREAM,
    METHOD_GEOMETRY_SERVICE_OPERATE_SERVER_STREAM,
};
use stac_proto::shape::{MethodDescriptor, Shape};
use stac_proto::stac::StacServiceClient;

fn geometry() -> GeometryServiceClient {
    GeometryServiceClient::new(Channel::new("localhost:8980"))
}

fn stac() -> StacServiceClient {
    StacServiceClient::new(Channel::new("localhost:10000"))
}

fn data(bytes: &[u8]) -> Envelope {
    Envelope::Data(bytes.to_vec())
}

#[test]
fn stub_remembers_its_channel() {
    assert_eq!(geometry().channel().target, "localhost:8980");
    assert_eq!(stac().channel().target, "localhost:10000");
    assert_eq!(geometry().clone().channel(), geometry().channel());
}

#[test]
fn wire_identifiers_are_stable() {
    assert_eq!(METHOD_GEOMETRY_SERVICE_OPERATE, "/epl.protobuf.GeometryService/Operate");
    assert_eq!(METHOD_GEOMETRY_SERVICE_OPERATE_BI_STREAM, "/epl.protobuf.GeometryService/OperateBiStream");
    assert_eq!(
        METHOD_GEOMETRY_SERVICE_OPERATE_BI_STREAM_FLOW,
        "/epl.protobuf.GeometryService/OperateBiStreamFlow"
    );
    assert_eq!(
        METHOD_GEOMETRY_SERVICE_OPERATE_SERVER_STREAM,
        "/epl.protobuf.GeometryService/OperateServerStream"
    );
    assert_eq!(
        METHOD_GEOMETRY_SERVICE_OPERATE_CLIENT_STREAM,
        "/epl.protobuf.GeometryService/OperateClientStream"
    );
    assert_eq!(
        METHOD_GEOMETRY_SERVICE_FILE_OPERATE_BI_STREAM_FLOW,
        "/epl.protobuf.GeometryService/FileOperateBiStreamFlow"
    );
}

#[test]
fn default_options() {
    let opt = CallOption::default();
    assert_eq!(opt.timeout_millis, None);
    assert!(opt.headers.is_empty());
    assert_eq!(opt.initial_credit, DEFAULT_INITIAL_CREDIT);
    assert_eq!(opt.grant_window, 1);
}

#[test]
fn options_are_built_step_by_step() {
    let opt = CallOption::default()
        .timeout(1500)
        .headers(vec![Header::new("trace", "abc")])
        .flow(4, 2);
    assert_eq!(opt.timeout_millis, Some(1500));
    assert_eq!(opt.headers, vec![Header { key: "trace".to_string(), value: "abc".to_string() }]);
    assert_eq!(opt.initial_credit, 4);
    assert_eq!(opt.grant_window, 2);
}

#[test]
fn bearer_header_passes_the_token_through() {
    let header = Header::bearer("s3cr3t value");
    assert_eq!(header.key, "Authorization");
    assert_eq!(header.value, "Bearer s3cr3t value");
    assert_eq!(Header::bearer("").value, "Bearer ");
}

#[test]
fn unary_stub_opens_with_the_request() {
    let call = geometry().operate(b"request");
    assert_eq!(call.method.name, "/epl.protobuf.GeometryService/Operate");
    assert_eq!(call.method.shape, Shape::Unary);
    assert_eq!(call.wait, Wait::Block);
    assert_eq!(call.options, CallOption::default());
    assert_eq!(call.opening, vec![data(b"request"), Envelope::EndOfStream]);
    assert!(call.sender.is_closed());
    assert!(!call.receiver.is_ended());
    assert_eq!(call.status, CallStatus::Active);
    assert!(!call.answered);
}

#[test]
fn async_unary_stub_differs_only_in_how_the_caller_waits() {
    let call = geometry().operate_async(b"request");
    assert_eq!(call.method.name, "/epl.protobuf.GeometryService/Operate");
    assert_eq!(call.method.shape, Shape::Unary);
    assert_eq!(call.wait, Wait::Suspend);
    assert_eq!(call.opening, vec![data(b"request"), Envelope::EndOfStream]);
}

#[test]
fn options_reach_the_call_unchanged() {
    let opt = CallOption::default().timeout(250).headers(vec![Header::bearer("t")]).flow(3, 2);
    let call = geometry().operate_opt(b"r", opt.clone());
    assert_eq!(call.options, opt);
    let call = geometry().operate_async_opt(b"r", opt.clone());
    assert_eq!(call.options, opt);
    let call = geometry().operate_bi_stream_flow_opt(opt.clone());
    assert_eq!(call.options, opt);
    assert_eq!(call.sender.credit(), 3);
}

#[test]
fn geometry_stubs_name_their_methods_and_shapes() {
    let client = geometry();
    let calls = [
        (client.operate_bi_stream(), "OperateBiStream", Shape::Duplex),
        (client.operate_bi_stream_flow(), "OperateBiStreamFlow", Shape::DuplexFlow),
        (client.operate_client_stream(), "OperateClientStream", Shape::ClientStream),
        (client.file_operate_bi_stream_flow(), "FileOperateBiStreamFlow", Shape::ChunkedDuplexFlow),
        (client.operate_bi_stream_opt(CallOption::default()), "OperateBiStream", Shape::Duplex),
        (client.operate_bi_stream_flow_opt(CallOption::default()), "OperateBiStreamFlow", Shape::DuplexFlow),
        (client.operate_client_stream_opt(CallOption::default()), "OperateClientStream", Shape::ClientStream),
        (
            client.file_operate_bi_stream_flow_opt(CallOption::default()),
            "FileOperateBiStreamFlow",
            Shape::ChunkedDuplexFlow,
        ),
    ];
    for (call, method, shape) in calls {
        assert_eq!(call.method.name, format!("/epl.protobuf.GeometryService/{}", method));
        assert_eq!(call.method.shape, shape);
        assert_eq!(call.wait, Wait::Suspend);
        assert!(call.opening.is_empty());
        assert!(call.sender.accepts());
        assert_eq!(call.status, CallStatus::Active);
    }
    for call in [
        client.operate_server_stream(b"q"),
        client.operate_server_stream_opt(b"q", CallOption::default()),
    ] {
        assert_eq!(call.method.name, "/epl.protobuf.GeometryService/OperateServerStream");
        assert_eq!(call.method.shape, Shape::ServerStream);
        assert_eq!(call.wait, Wait::Suspend);
        assert_eq!(call.opening, vec![data(b"q"), Envelope::EndOfStream]);
        assert!(call.sender.is_closed());
    }
}

#[test]
fn stac_stubs_name_their_methods_and_shapes() {
    let client = stac();
    let blocking = [
        (client.count(b"q"), "Count"),
        (client.delete_one(b"q"), "DeleteOne"),
        (client.search_one(b"q"), "SearchOne"),
        (client.insert_one(b"q"), "InsertOne"),
        (client.update_one(b"q"), "UpdateOne"),
        (client.count_opt(b"q", CallOption::default()), "Count"),
        (client.delete_one_opt(b"q", CallOption::default()), "DeleteOne"),
        (client.search_one_opt(b"q", CallOption::default()), "SearchOne"),
        (client.insert_one_opt(b"q", CallOption::default()), "InsertOne"),
        (client.update_one_opt(b"q", CallOption::default()), "UpdateOne"),
    ];
    for (call, method) in blocking {
        assert_eq!(call.method.name, format!("/epl.protobuf.StacService/{}", method));
        assert_eq!(call.method.shape, Shape::Unary);
        assert_eq!(call.wait, Wait::Block);
        assert_eq!(call.opening, vec![data(b"q"), Envelope::EndOfStream]);
    }
    let suspending = [
        (client.count_async(b"q"), "Count"),
        (client.delete_one_async(b"q"), "DeleteOne"),
        (client.search_one_async(b"q"), "SearchOne"),
        (client.insert_one_async(b"q"), "InsertOne"),
        (client.update_one_async(b"q"), "UpdateOne"),
        (client.count_async_opt(b"q", CallOption::default()), "Count"),
        (client.delete_one_async_opt(b"q", CallOption::default()), "DeleteOne"),
        (client.search_one_async_opt(b"q", CallOption::default()), "SearchOne"),
        (client.insert_one_async_opt(b"q", CallOption::default()), "InsertOne"),
        (client.update_one_async_opt(b"q", CallOption::default()), "UpdateOne"),
    ];
    for (call, method) in suspending {
        assert_eq!(call.method.name, format!("/epl.protobuf.StacService/{}", method));
        assert_eq!(call.method.shape, Shape::Unary);
        assert_eq!(call.wait, Wait::Suspend);
        assert_eq!(call.opening, vec![data(b"q"), Envelope::EndOfStream]);
    }
    for call in [client.search(b"q"), client.search_opt(b"q", CallOption::default())] {
        assert_eq!(call.method.name, "/epl.protobuf.StacService/Search");
        assert_eq!(call.method.shape, Shape::ServerStream);
        assert_eq!(call.opening, vec![data(b"q"), Envelope::EndOfStream]);
    }
    let streams = [
        (client.insert(), "Insert"),
        (client.update(), "Update"),
        (client.insert_opt(CallOption::default()), "Insert"),
        (client.update_opt(CallOption::default()), "Update"),
    ];
    for (call, method) in streams {
        assert_eq!(call.method.name, format!("/epl.protobuf.StacService/{}", method));
        assert_eq!(call.method.shape, Shape::Duplex);
        assert!(call.opening.is_empty());
        assert!(call.sender.accepts());
    }
}

#[test]
fn generic_stub_checks_the_shape() {
    let client = Client::new(Channel::new("localhost:1"));
    let unary = MethodDescriptor::new("/ns.Svc/U", Shape::Unary);
    let duplex = MethodDescriptor::new("/ns.Svc/D", Shape::DuplexFlow);
    let upstream = MethodDescriptor::new("/ns.Svc/C", Shape::ClientStream);
    let downstream = MethodDescriptor::new("/ns.Svc/S", Shape::ServerStream);
    assert!(client.unary_call(&unary, b"r", CallOption::default()).is_ok());
    assert!(client.unary_call_async(&unary, b"r", CallOption::default()).is_ok());
    assert!(client.duplex_streaming(&duplex, CallOption::default()).is_ok());
    assert!(client.client_streaming(&upstream, CallOption::default()).is_ok());
    assert!(client.server_streaming(&downstream, b"r", CallOption::default()).is_ok());
    for wrong in [&duplex, &upstream, &downstream] {
        assert_eq!(client.unary_call(wrong, b"r", CallOption::default()).err(), Some(RpcError::ShapeMismatch));
        assert_eq!(
            client.unary_call_async(wrong, b"r", CallOption::default()).err(),
            Some(RpcError::ShapeMismatch)
        );
    }
    for wrong in [&unary, &upstream, &downstream] {
        assert_eq!(client.duplex_streaming(wrong, CallOption::default()).err(), Some(RpcError::ShapeMismatch));
    }
    for wrong in [&unary, &duplex, &downstream] {
        assert_eq!(client.client_streaming(wrong, CallOption::default()).err(), Some(RpcError::ShapeMismatch));
    }
    for wrong in [&unary, &duplex, &upstream] {
        assert_eq!(
            client.server_streaming(wrong, b"r", CallOption::default()).err(),
            Some(RpcError::ShapeMismatch)
        );
    }
}

#[test]
fn unary_call_completes_with_its_response() {
    let mut call = geometry().operate(b"request");
    let step = call.on_frame(data(b"response"));
    assert_eq!(step.event, ClientEvent::Response(b"response".to_vec()));
    assert!(step.frames.is_empty());
    assert!(call.answered);
    let step = call.on_frame(Envelope::EndOfStream);
    assert_eq!(step.event, ClientEvent::Completed);
    assert_eq!(call.status, CallStatus::Completed);
    let step = call.on_frame(data(b"late"));
    assert_eq!(step.event, ClientEvent::Ignored);
}

#[test]
fn unary_call_without_response_is_malformed() {
    let mut call = geometry().operate(b"request");
    let step = call.on_frame(Envelope::EndOfStream);
    assert_eq!(step.event, ClientEvent::Failed(RpcError::SerializationError));
    assert_eq!(call.status, CallStatus::Failed(RpcError::SerializationError));
    assert!(step.frames.is_empty());
}

#[test]
fn second_response_to_a_unary_call_is_malformed() {
    let mut call = stac().count(b"request");
    assert_eq!(call.on_frame(data(b"one")).event, ClientEvent::Response(b"one".to_vec()));
    assert_eq!(call.on_frame(data(b"two")).event, ClientEvent::Failed(RpcError::SerializationError));
    assert_eq!(call.status, CallStatus::Failed(RpcError::SerializationError));
}

#[test]
fn remote_error_fails_the_call() {
    let mut call = geometry().operate_bi_stream();
    assert_eq!(call.send(b"a".to_vec()), Ok(vec![data(b"a")]));
    let step = call.on_frame(Envelope::Error(RpcError::UnknownMethod));
    assert_eq!(step.event, ClientEvent::Failed(RpcError::UnknownMethod));
    assert!(step.frames.is_empty());
    assert_eq!(call.status, CallStatus::Failed(RpcError::UnknownMethod));
    assert_eq!(call.send(b"b".to_vec()), Err(b"b".to_vec()));
}

#[test]
fn flow_controlled_call_suspends_and_resumes() {
    let mut call = geometry().operate_bi_stream_flow_opt(CallOption::default().flow(1, 1));
    assert_eq!(call.send(b"a".to_vec()), Ok(vec![data(b"a")]));
    assert_eq!(call.send(b"b".to_vec()), Ok(Vec::new()));
    assert_eq!(call.send(b"c".to_vec()), Ok(Vec::new()));
    assert_eq!(call.sender.waiting(), 2);
    let step = call.on_frame(Envelope::Credit(1));
    assert_eq!(step.event, ClientEvent::Progress);
    assert_eq!(step.frames, vec![data(b"b")]);
    assert_eq!(call.finish(), Vec::new());
    let step = call.on_frame(Envelope::Credit(1));
    assert_eq!(step.frames, vec![data(b"c"), Envelope::EndOfStream]);
}

#[test]
fn flow_controlled_call_grants_credit_for_responses() {
    let mut call = geometry().operate_bi_stream_flow_opt(CallOption::default().flow(4, 2));
    let step = call.on_frame(data(b"r1"));
    assert_eq!(step.event, ClientEvent::Response(b"r1".to_vec()));
    assert!(step.frames.is_empty());
    let step = call.on_frame(data(b"r2"));
    assert_eq!(step.event, ClientEvent::Response(b"r2".to_vec()));
    assert_eq!(step.frames, vec![Envelope::Credit(2)]);
}

#[test]
fn overflowing_grant_ends_the_call() {
    let mut call = geometry().operate_bi_stream_flow_opt(CallOption::default().flow(1, 1));
    let step = call.on_frame(Envelope::Credit(u64::MAX));
    assert_eq!(step.event, ClientEvent::Failed(RpcError::TransportError));
    assert!(step.frames.is_empty());
    assert_eq!(call.status, CallStatus::Failed(RpcError::TransportError));
}

#[test]
fn cancel_tells_the_remote_side_and_releases() {
    let mut call = geometry().operate_bi_stream_flow_opt(CallOption::default().flow(0, 1));
    assert_eq!(call.send(b"a".to_vec()), Ok(Vec::new()));
    assert_eq!(call.cancel(), vec![Envelope::Error(RpcError::Cancelled)]);
    assert_eq!(call.status, CallStatus::Failed(RpcError::Cancelled));
    assert_eq!(call.sender.waiting(), 0);
    assert!(call.receiver.is_closed());
    assert_eq!(call.on_frame(data(b"late")).event, ClientEvent::Ignored);
    assert_eq!(call.cancel(), Vec::new());
}

#[test]
fn cancel_after_the_requests_ended_still_tells_the_remote_side() {
    let mut call = geometry().operate(b"request");
    assert_eq!(call.cancel(), vec![Envelope::Error(RpcError::Cancelled)]);
    assert_eq!(call.status, CallStatus::Failed(RpcError::Cancelled));
    assert_eq!(call.cancel(), Vec::new());
}

#[test]
fn cancel_of_a_completed_call_changes_nothing() {
    let mut call = geometry().operate(b"request");
    call.on_frame(data(b"response"));
    call.on_frame(Envelope::EndOfStream);
    assert_eq!(call.cancel(), Vec::new());
    assert_eq!(call.status, CallStatus::Completed);
}

#[test]
fn lost_connection_ends_the_call_silently() {
    let mut call = geometry().operate_bi_stream();
    assert_eq!(call.end(RpcError::TransportError), Vec::new());
    assert_eq!(call.status, CallStatus::Failed(RpcError::TransportError));
    assert!(call.sender.is_closed());
}

#[test]
fn deadline_is_enforced() {
    let mut call = geometry().operate_bi_stream_opt(CallOption::default().timeout(100));
    assert_eq!(call.check_deadline(99), Vec::new());
    assert_eq!(call.status, CallStatus::Active);
    assert_eq!(call.check_deadline(100), vec![Envelope::Error(RpcError::Timeout)]);
    assert_eq!(call.status, CallStatus::Failed(RpcError::Timeout));
    assert_eq!(call.check_deadline(500), Vec::new());
}

#[test]
fn call_without_deadline_never_times_out() {
    let mut call = geometry().operate_bi_stream();
    assert_eq!(call.check_deadline(u64::MAX), Vec::new());
    assert_eq!(call.status, CallStatus::Active);
}

#[test]
fn upload_sends_ordered_chunks_with_one_final() {
    let blob: Vec<u8> = (0..250u32).map(|i| i as u8).collect();
    let mut call = geometry().file_operate_bi_stream_flow();
    let frames = call.upload(&blob, 100).unwrap();
    assert_eq!(frames.len(), 4);
    let mut chunks = Vec::new();
    for frame in &frames[..3] {
        match frame {
            Envelope::Data(payload) => chunks.push(ChunkDescriptor::decode(payload).unwrap()),
            other => panic!("unexpected frame {:?}", other),
        }
    }
    assert_eq!(frames[3], Envelope::EndOfStream);
    let sizes: Vec<usize> = chunks.iter().map(|c| c.payload.len()).collect();
    assert_eq!(sizes, vec![100, 100, 50]);
    let numbers: Vec<u64> = chunks.iter().map(|c| c.sequence_number).collect();
    assert_eq!(numbers, vec![0, 1, 2]);
    let finals: Vec<bool> = chunks.iter().map(|c| c.is_final).collect();
    assert_eq!(finals, vec![false, false, true]);
    assert_eq!(reassemble(ReassemblyLimits { max_chunk: 100, max_blob: 250 }, &chunks), Ok(blob));
    assert!(call.sender.is_closed());
}

#[test]
fn upload_waits_for_credit() {
    let blob = vec![7u8; 10];
    let mut call = geometry().file_operate_bi_stream_flow_opt(CallOption::default().flow(1, 1));
    let frames = call.upload(&blob, 4).unwrap();
    assert_eq!(frames.len(), 1);
    assert_eq!(call.sender.waiting(), 2);
    let step = call.on_frame(Envelope::Credit(1));
    assert_eq!(step.frames.len(), 1);
    let step = call.on_frame(Envelope::Credit(1));
    assert_eq!(step.frames.len(), 2);
    assert_eq!(step.frames[1], Envelope::EndOfStream);
}

#[test]
fn upload_failures() {
    let mut call = geometry().operate_bi_stream_flow();
    assert_eq!(call.upload(b"abc", 2), Err(RpcError::ShapeMismatch));
    assert!(call.sender.accepts());
    let mut call = geometry().file_operate_bi_stream_flow();
    assert_eq!(call.upload(b"abc", 0), Err(RpcError::ChunkTooLarge));
    assert!(call.sender.accepts());
    assert!(call.upload(b"abc", 2).is_ok());
    assert_eq!(call.upload(b"abc", 2), Err(RpcError::SessionClosed));
    assert_eq!(call.upload(b"abc", 0), Err(RpcError::SessionClosed));
}

#[test]
fn upload_of_an_empty_blob_is_one_empty_final_chunk() {
    let mut call = geometry().file_operate_bi_stream_flow();
    let frames = call.upload(b"", 0).unwrap();
    assert_eq!(
        frames,
        vec![
            Envelope::Data(ChunkDescriptor { sequence_number: 0, payload: Vec::new(), is_final: true }.encode()),
            Envelope::EndOfStream
        ]
    );
}
