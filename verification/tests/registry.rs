use stac_proto::dispatch::ServerConfig;
use stac_proto::chunk::ReassemblyLimits;
use stac_proto::error::{ErrorScope, RpcError};
use stac_proto::registry::{Handler, ServiceBuilder};
use stac_proto::service::Dispatcher;
use stac_proto::shape::{CallSignature, MethodDescriptor, Shape};

fn handler(signature: CallSignature, slot: usize) -> Handler {
    Handler { signature, slot }
}

#[test]
fn registered_method_resolves() {
    let mut builder = ServiceBuilder::new();
    let descriptor = MethodDescriptor::new("/ns.Svc/One", Shape::Unary);
    assert_eq!(builder.register(descriptor, handler(CallSignature::Unary, 4)), Ok(()));
    let registry = builder.build();
    let found = registry.resolve("/ns.Svc/One").unwrap();
    assert_eq!(found.descriptor.name, "/ns.Svc/One");
    assert_eq!(found.descriptor.shape, Shape::Unary);
    assert_eq!(found.handler, handler(CallSignature::Unary, 4));
}

#[test]
fn unknown_method_does_not_resolve() {
    let mut builder = ServiceBuilder::new();
    let descriptor = MethodDescriptor::new("/ns.Svc/One", Shape::Unary);
    assert_eq!(builder.register(descriptor, handler(CallSignature::Unary, 0)), Ok(()));
    let registry = builder.build();
    assert!(registry.resolve("/ns.Svc/Two").is_none());
    assert!(registry.resolve("/ns.Svc/One ").is_none());
    assert!(registry.resolve("").is_none());
    assert!(ServiceBuilder::new().build().resolve("/ns.Svc/One").is_none());
}

#[test]
fn second_registration_of_a_name_is_a_duplicate() {
    let mut builder = ServiceBuilder::new();
    let first = MethodDescriptor::new("/ns.Svc/One", Shape::Unary);
    let second = MethodDescriptor::new("/ns.Svc/One", Shape::Duplex);
    assert_eq!(builder.register(first, handler(CallSignature::Unary, 0)), Ok(()));
    assert_eq!(
        builder.register(second, handler(CallSignature::Duplex, 1)),
        Err(RpcError::DuplicateMethod)
    );
    let registry = builder.build();
    let found = registry.resolve("/ns.Svc/One").unwrap();
    assert_eq!(found.descriptor.shape, Shape::Unary);
    assert_eq!(found.handler, handler(CallSignature::Unary, 0));
}

#[test]
fn duplicate_wins_over_shape_mismatch() {
    let mut builder = ServiceBuilder::new();
    let first = MethodDescriptor::new("/ns.Svc/One", Shape::Unary);
    let second = MethodDescriptor::new("/ns.Svc/One", Shape::Unary);
    assert_eq!(builder.register(first, handler(CallSignature::Unary, 0)), Ok(()));
    assert_eq!(
        builder.register(second, handler(CallSignature::Duplex, 1)),
        Err(RpcError::DuplicateMethod)
    );
}

#[test]
fn handler_must_fit_the_shape() {
    let cases = [
        (Shape::Unary, CallSignature::Unary),
        (Shape::ClientStream, CallSignature::ClientStreaming),
        (Shape::ServerStream, CallSignature::ServerStreaming),
        (Shape::Duplex, CallSignature::Duplex),
        (Shape::DuplexFlow, CallSignature::Duplex),
        (Shape::ChunkedDuplexFlow, CallSignature::Duplex),
    ];
    let signatures = [
        CallSignature::Unary,
        CallSignature::ClientStreaming,
        CallSignature::ServerStreaming,
        CallSignature::Duplex,
    ];
    for (shape, fitting) in cases {
        assert_eq!(shape.signature(), fitting);
        for signature in signatures {
            let mut builder = ServiceBuilder::new();
            let outcome = builder.register(MethodDescriptor::new("/ns.Svc/M", shape), handler(signature, 0));
            if signature == fitting {
                assert_eq!(outcome, Ok(()));
                assert!(builder.build().resolve("/ns.Svc/M").is_some());
            } else {
                assert_eq!(outcome, Err(RpcError::ShapeMismatch));
                assert!(builder.build().resolve("/ns.Svc/M").is_none());
            }
        }
    }
}

#[test]
fn failed_registration_leaves_others_untouched() {
    let mut builder = ServiceBuilder::new();
    assert_eq!(
        builder.register(MethodDescriptor::new("/ns.Svc/A", Shape::Unary), handler(CallSignature::Unary, 0)),
        Ok(())
    );
    assert_eq!(
        builder.register(MethodDescriptor::new("/ns.Svc/B", Shape::Unary), handler(CallSignature::Duplex, 1)),
        Err(RpcError::ShapeMismatch)
    );
    assert_eq!(
        builder.register(MethodDescriptor::new("/ns.Svc/C", Shape::Duplex), handler(CallSignature::Duplex, 2)),
        Ok(())
    );
    let registry = builder.build();
    assert_eq!(registry.resolve("/ns.Svc/A").unwrap().handler.slot, 0);
    assert!(registry.resolve("/ns.Svc/B").is_none());
    assert_eq!(registry.resolve("/ns.Svc/C").unwrap().handler.slot, 2);
}

#[test]
fn dispatcher_accepts_registered_methods_only() {
    let mut builder = ServiceBuilder::new();
    assert_eq!(
        builder.register(
            MethodDescriptor::new("/ns.Svc/Up", Shape::ChunkedDuplexFlow),
            handler(CallSignature::Duplex, 3)
        ),
        Ok(())
    );
    let config = ServerConfig {
        initial_credit: 2,
        grant_window: 1,
        limits: ReassemblyLimits { max_chunk: 4, max_blob: 8 },
    };
    let dispatcher = Dispatcher::new(builder.build(), config);
    assert_eq!(dispatcher.config(), config);
    let call = dispatcher.accept("/ns.Svc/Up").unwrap();
    assert_eq!(call.shape(), Shape::ChunkedDuplexFlow);
    assert_eq!(call.handler(), handler(CallSignature::Duplex, 3));
    assert!(!call.is_over());
    assert_eq!(call.held(), 0);
    match dispatcher.accept("/ns.Svc/Down") {
        Err(e) => assert_eq!(e, RpcError::UnknownMethod),
        Ok(_) => panic!("an unknown method was accepted"),
    }
}

#[test]
fn qualified_name_follows_the_wire_pattern() {
    let descriptor = MethodDescriptor::qualified("epl.protobuf", "StacService", "Search", Shape::ServerStream);
    assert_eq!(descriptor.name, "/epl.protobuf.StacService/Search");
    assert_eq!(descriptor.shape, Shape::ServerStream);
    assert_eq!(descriptor.clone(), descriptor);
    let descriptor = MethodDescriptor::qualified("", "", "", Shape::Unary);
    assert_eq!(descriptor.name, "/./");
}

#[test]
fn shape_properties() {
    let shapes = [
        (Shape::Unary, false, false, false, false),
        (Shape::ClientStream, true, false, false, false),
        (Shape::ServerStream, false, true, false, false),
        (Shape::Duplex, true, true, false, false),
        (Shape::DuplexFlow, true, true, true, false),
        (Shape::ChunkedDuplexFlow, true, true, true, true),
    ];
    for (shape, requests, responses, flow, chunked) in shapes {
        assert_eq!(shape.streams_requests(), requests);
        assert_eq!(shape.streams_responses(), responses);
        assert_eq!(shape.flow_controlled(), flow);
        assert_eq!(shape.chunked(), chunked);
    }
}

#[test]
fn error_scopes() {
    for e in [RpcError::UnknownMethod, RpcError::DuplicateMethod, RpcError::ShapeMismatch] {
        assert_eq!(e.scope(), ErrorScope::Startup);
    }
    for e in [
        RpcError::OutOfOrderChunk,
        RpcError::SessionClosed,
        RpcError::ChunkTooLarge,
        RpcError::BlobTooLarge,
    ] {
        assert_eq!(e.scope(), ErrorScope::Stream);
    }
    for e in [
        RpcError::TransportError,
        RpcError::SerializationError,
        RpcError::Cancelled,
        RpcError::Timeout,
    ] {
        assert_eq!(e.scope(), ErrorScope::Call);
    }
}

#[test]
fn only_cancellation_is_no_failure() {
    assert!(!RpcError::Cancelled.is_failure());
    for e in [
        RpcError::TransportError,
        RpcError::SerializationError,
        RpcError::UnknownMethod,
        RpcError::DuplicateMethod,
        RpcError::ShapeMismatch,
        RpcError::OutOfOrderChunk,
        RpcError::SessionClosed,
        RpcError::ChunkTooLarge,
        RpcError::BlobTooLarge,
        RpcError::Timeout,
    ] {
        assert!(e.is_failure());
    }
}
