//! A transport-agnostic core for the geometry and catalog RPC services.
//!
//! The crate describes remote methods uniformly by their interaction shape,
//! builds client calls and a server-side dispatcher from those descriptions,
//! and implements credit-based flow control and chunked blob reassembly as
//! plain state machines over frames. It performs no I/O: the hosting side
//! moves frames between these state machines and a real connection.

pub mod error;
pub mod shape;
pub mod envelope;
pub mod credit;
pub mod flow;
pub mod chunk;
pub mod codec;
pub mod wire;
pub mod registry;
pub mod call;
pub mod dispatch;
pub mod service;
pub mod geometry;
pub mod stac;

pub use call::{
    CallOption, CallStatus, Channel, Client, ClientCall, ClientEvent, ClientStep, Header, Wait,
};
pub use chunk::{
    reassemble, split_blob, ChunkDescriptor, ReassemblyLimits, ReassemblySession, SessionState,
};
pub use codec::encode_all;
pub use credit::{FlowCredit, DEFAULT_INITIAL_CREDIT};
pub use dispatch::{HandlerInput, ServerCall, ServerConfig, Step};
pub use envelope::Envelope;
pub use error::{ErrorScope, RpcError};
pub use flow::{RecvEvent, StreamReceiver, StreamSender};
pub use geometry::{create_geometry_service, GeometryServer, GeometryService, GeometryServiceClient};
pub use registry::{Handler, Registration, ServiceBuilder, ServiceRegistration};
pub use service::{Dispatcher, Response, Responses, RpcContext};
pub use shape::{CallSignature, MethodDescriptor, Shape};
pub use stac::{create_stac_service, StacServer, StacService, StacServiceClient};
