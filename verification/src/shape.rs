//! Interaction shapes and method descriptors.

use vstd::prelude::*;
use vstd::string::StringExecFns;

verus! {

/// The interaction pattern of a remote method.
#[derive(Clone, Copy, Debug, PartialEq, Eq, Structural)]
pub enum Shape {
    /// One request, one response.
    Unary,
    /// A stream of requests, then one response.
    ClientStream,
    /// One request, then a stream of responses.
    ServerStream,
    /// Independent streams of requests and responses.
    Duplex,
    /// As `Duplex`, with sends gated by credit granted by the receiver.
    DuplexFlow,
    /// As `DuplexFlow`, where the requests are the ordered chunks of one blob.
    ChunkedDuplexFlow,
}

/// The call signature of a handler: which sides of the call are streams.
#[derive(Clone, Copy, Debug, PartialEq, Eq, Structural)]
pub enum CallSignature {
    /// Single request, single response.
    Unary,
    /// Stream of requests, single response.
    ClientStreaming,
    /// Single request, stream of responses.
    ServerStreaming,
    /// Stream of requests, stream of responses.
    Duplex,
}

impl Shape {
    /// The call signature a handler must have to serve a method of this shape.
    pub open spec fn spec_signature(self) -> CallSignature {
        match self {
            Shape::Unary => CallSignature::Unary,
            Shape::ClientStream => CallSignature::ClientStreaming,
            Shape::ServerStream => CallSignature::ServerStreaming,
            Shape::Duplex | Shape::DuplexFlow | Shape::ChunkedDuplexFlow => CallSignature::Duplex,
        }
    }

    /// The call signature a handler must have to serve a method of this shape.
    #[verifier::when_used_as_spec(spec_signature)]
    pub fn signature(self) -> (r: CallSignature)
        ensures
            r == self.spec_signature(),
    {
        match self {
            Shape::Unary => CallSignature::Unary,
            Shape::ClientStream => CallSignature::ClientStreaming,
            Shape::ServerStream => CallSignature::ServerStreaming,
            Shape::Duplex | Shape::DuplexFlow | Shape::ChunkedDuplexFlow => CallSignature::Duplex,
        }
    }

    /// Whether the caller sends a stream of requests rather than exactly one.
    pub open spec fn spec_streams_requests(self) -> bool {
        !(self is Unary) && !(self is ServerStream)
    }

    /// Whether the caller sends a stream of requests rather than exactly one.
    #[verifier::when_used_as_spec(spec_streams_requests)]
    pub fn streams_requests(self) -> (r: bool)
        ensures
            r == self.spec_streams_requests(),
    {
        match self {
            Shape::Unary | Shape::ServerStream => false,
            _ => true,
        }
    }

    /// Whether the remote side answers with a stream rather than exactly one response.
    pub open spec fn spec_streams_responses(self) -> bool {
        !(self is Unary) && !(self is ClientStream)
    }

    /// Whether the remote side answers with a stream rather than exactly one response.
    #[verifier::when_used_as_spec(spec_streams_responses)]
    pub fn streams_responses(self) -> (r: bool)
        ensures
            r == self.spec_streams_responses(),
    {
        match self {
            Shape::Unary | Shape::ClientStream => false,
            _ => true,
        }
    }

    /// Whether sends are gated by credit.
    pub open spec fn spec_flow_controlled(self) -> bool {
        self is DuplexFlow || self is ChunkedDuplexFlow
    }

    /// Whether sends are gated by credit.
    #[verifier::when_used_as_spec(spec_flow_controlled)]
    pub fn flow_controlled(self) -> (r: bool)
        ensures
            r == self.spec_flow_controlled(),
    {
        match self {
            Shape::DuplexFlow | Shape::ChunkedDuplexFlow => true,
            _ => false,
        }
    }

    /// Whether the requests are the chunks of one blob.
    pub open spec fn spec_chunked(self) -> bool {
        self is ChunkedDuplexFlow
    }

    /// Whether the requests are the chunks of one blob.
    #[verifier::when_used_as_spec(spec_chunked)]
    pub fn chunked(self) -> (r: bool)
        ensures
            r == self.spec_chunked(),
    {
        match self {
            Shape::ChunkedDuplexFlow => true,
            _ => false,
        }
    }
}

/// The wire identifier of the method `method` of the service `service` in
/// `namespace`: `/<namespace>.<Service>/<Method>`.
pub open spec fn wire_identifier(namespace: Seq<char>, service: Seq<char>, method: Seq<char>)
    -> Seq<char> {
    seq!['/'] + namespace + seq!['.'] + service + seq!['/'] + method
}

/// Names a remote method and fixes its shape.
#[derive(Debug, PartialEq, Eq)]
pub struct MethodDescriptor {
    /// The stable wire identifier, of the form `/<namespace>.<Service>/<Method>`.
    pub name: String,
    /// The interaction shape.
    pub shape: Shape,
}

impl MethodDescriptor {
    /// A descriptor for the method `name` of shape `shape`.
    pub fn new(name: &str, shape: Shape) -> (r: MethodDescriptor)
        ensures
            r.name@ == name@,
            r.shape == shape,
    {
        MethodDescriptor { name: name.to_owned(), shape }
    }

    /// A descriptor for the method `method` of the service `service` in
    /// `namespace`, named by its wire identifier.
    pub fn qualified(namespace: &str, service: &str, method: &str, shape: Shape) -> (r:
        MethodDescriptor)
        ensures
            r.name@ == wire_identifier(namespace@, service@, method@),
            r.shape == shape,
    {
        proof {
            reveal_strlit("/");
            reveal_strlit(".");
        }
        let name = String::from_str("/").concat(namespace).concat(".").concat(service).concat(
            "/",
        ).concat(method);
        assert("/"@ =~= seq!['/']);
        assert("."@ =~= seq!['.']);
        MethodDescriptor { name, shape }
    }
}

impl Clone for MethodDescriptor {
    fn clone(&self) -> (r: MethodDescriptor)
        ensures
            r == *self,
    {
        MethodDescriptor { name: self.name.clone(), shape: self.shape }
    }
}

} // verus!
