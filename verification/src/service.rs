//! What the services share on the server side: the context a handler is
//! given, and the dispatcher that opens a call for an incoming method name.

use vstd::prelude::*;
use crate::call::Header;
use crate::dispatch::{CallModel, ServerCall, ServerConfig};
use crate::error::RpcError;
use crate::registry::{ServiceRegistration, Table};

verus! {

/// What a handler that answers once returns: its response, or the error
/// with which the call ends.
pub type Response = Result<Vec<u8>, RpcError>;

/// What a handler that answers with a stream returns: its responses, in
/// order, or the error with which the call ends.
pub type Responses = Result<Vec<Vec<u8>>, RpcError>;

/// What a handler is told of the call it serves.
#[derive(Clone, Debug, PartialEq, Eq)]
pub struct RpcContext {
    /// The wire identifier of the method that was called.
    pub method: String,
    /// The metadata the caller sent, passed through as it came.
    pub headers: Vec<Header>,
}

impl RpcContext {
    /// The context of a call of `method` that came with `headers`.
    pub fn new(method: &str, headers: Vec<Header>) -> (r: RpcContext)
        ensures
            r.method@ == method@,
            r.headers == headers,
    {
        RpcContext { method: method.to_owned(), headers }
    }
}

/// Resolves incoming method names against the registry of one service.
pub struct Dispatcher {
    registry: ServiceRegistration,
    config: ServerConfig,
}

impl Dispatcher {
    /// The methods the dispatcher knows.
    pub closed spec fn table(&self) -> Table {
        self.registry@
    }

    /// What the dispatcher fixes for every call.
    pub closed spec fn spec_config(&self) -> ServerConfig {
        self.config
    }

    /// A dispatcher for the methods of `registry`.
    pub fn new(registry: ServiceRegistration, config: ServerConfig) -> (r: Dispatcher)
        ensures
            r.table() == registry@,
            r.spec_config() == config,
    {
        Dispatcher { registry, config }
    }

    /// What the dispatcher fixes for every call.
    #[verifier::when_used_as_spec(spec_config)]
    pub fn config(&self) -> (r: ServerConfig)
        ensures
            r == self.spec_config(),
    {
        self.config
    }

    /// Opens the server side of a call of the method `name`: a fresh call
    /// of the registered shape and handler, or `UnknownMethod` where no
    /// such method is registered.
    pub fn accept(&self, name: &str) -> (r: Result<ServerCall, RpcError>)
        ensures
            match r {
                Ok(call) => self.table().contains_key(name@) && call@ == CallModel::fresh(
                    self.table()[name@].shape,
                    self.table()[name@].handler,
                    self.spec_config(),
                ),
                Err(e) => !self.table().contains_key(name@) && e == RpcError::UnknownMethod,
            },
    {
        match self.registry.resolve(name) {
            Some(found) => Ok(ServerCall::new(found.descriptor.shape, found.handler, self.config)),
            None => Err(RpcError::UnknownMethod),
        }
    }
}

/// Whether `responses` is what a handler that answers once hands on for
/// its `answer`: the one response as a run of one, or its error.
pub open spec fn answered_once(answer: Response, responses: Responses) -> bool {
    match answer {
        Ok(response) => responses matches Ok(run) && run@ == seq![response],
        Err(e) => responses == Err::<Vec<Vec<u8>>, RpcError>(e),
    }
}

/// The responses of a handler that answers once.
pub(crate) fn single(result: Response) -> (r: Responses)
    ensures
        answered_once(result, r),
{
    match result {
        Ok(response) => {
            let mut responses: Vec<Vec<u8>> = Vec::new();
            responses.push(response);
            Ok(responses)
        },
        Err(e) => Err(e),
    }
}

} // verus!
