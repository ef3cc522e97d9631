//! The geometry service: its methods, its client stub and its server.

use vstd::prelude::*;
use vstd::pervasive::unreached;
use crate::call::{opens, CallOption, Channel, Client, ClientCall, Wait};
use crate::dispatch::{CallModel, HandlerInput, ServerCall, ServerConfig, Step};
use crate::envelope::Envelope;
use crate::error::RpcError;
use crate::registry::{Entry, Handler, ServiceBuilder, Table};
use crate::service::{answered_once, single, Dispatcher, Response, Responses, RpcContext};
use crate::shape::{wire_identifier, CallSignature, MethodDescriptor, Shape};

verus! {

/// The wire identifier of `Operate`.
pub const METHOD_GEOMETRY_SERVICE_OPERATE: &'static str =
    "/epl.protobuf.GeometryService/Operate";

/// The wire identifier of `OperateBiStream`.
pub const METHOD_GEOMETRY_SERVICE_OPERATE_BI_STREAM: &'static str =
    "/epl.protobuf.GeometryService/OperateBiStream";

/// The wire identifier of `OperateBiStreamFlow`.
pub const METHOD_GEOMETRY_SERVICE_OPERATE_BI_STREAM_FLOW: &'static str =
    "/epl.protobuf.GeometryService/OperateBiStreamFlow";

/// The wire identifier of `OperateServerStream`.
pub const METHOD_GEOMETRY_SERVICE_OPERATE_SERVER_STREAM: &'static str =
    "/epl.protobuf.GeometryService/OperateServerStream";

/// The wire identifier of `OperateClientStream`.
pub const METHOD_GEOMETRY_SERVICE_OPERATE_CLIENT_STREAM: &'static str =
    "/epl.protobuf.GeometryService/OperateClientStream";

/// The wire identifier of `FileOperateBiStreamFlow`.
pub const METHOD_GEOMETRY_SERVICE_FILE_OPERATE_BI_STREAM_FLOW: &'static str =
    "/epl.protobuf.GeometryService/FileOperateBiStreamFlow";

/// The namespace of the service on the wire.
pub const GEOMETRY_SERVICE_NAMESPACE: &'static str = "epl.protobuf";

/// The name of the service on the wire.
pub const GEOMETRY_SERVICE_NAME: &'static str = "GeometryService";

/// Each method of the service is named by the wire identifier that its
/// namespace, the service and the method make up.
pub proof fn lemma_geometry_wire_identifiers()
    ensures
        METHOD_GEOMETRY_SERVICE_OPERATE@ == wire_identifier(
            GEOMETRY_SERVICE_NAMESPACE@,
            GEOMETRY_SERVICE_NAME@,
            "Operate"@,
        ),
        METHOD_GEOMETRY_SERVICE_OPERATE_BI_STREAM@ == wire_identifier(
            GEOMETRY_SERVICE_NAMESPACE@,
            GEOMETRY_SERVICE_NAME@,
            "OperateBiStream"@,
        ),
        METHOD_GEOMETRY_SERVICE_OPERATE_BI_STREAM_FLOW@ == wire_identifier(
            GEOMETRY_SERVICE_NAMESPACE@,
            GEOMETRY_SERVICE_NAME@,
            "OperateBiStreamFlow"@,
        ),
        METHOD_GEOMETRY_SERVICE_OPERATE_SERVER_STREAM@ == wire_identifier(
            GEOMETRY_SERVICE_NAMESPACE@,
            GEOMETRY_SERVICE_NAME@,
            "OperateServerStream"@,
        ),
        METHOD_GEOMETRY_SERVICE_OPERATE_CLIENT_STREAM@ == wire_identifier(
            GEOMETRY_SERVICE_NAMESPACE@,
            GEOMETRY_SERVICE_NAME@,
            "OperateClientStream"@,
        ),
        METHOD_GEOMETRY_SERVICE_FILE_OPERATE_BI_STREAM_FLOW@ == wire_identifier(
            GEOMETRY_SERVICE_NAMESPACE@,
            GEOMETRY_SERVICE_NAME@,
            "FileOperateBiStreamFlow"@,
        ),
{
    reveal_strlit("epl.protobuf");
    reveal_strlit("GeometryService");
    reveal_strlit("Operate");
    reveal_strlit("/epl.protobuf.GeometryService/Operate");
    assert(METHOD_GEOMETRY_SERVICE_OPERATE@ =~= wire_identifier(
        GEOMETRY_SERVICE_NAMESPACE@,
        GEOMETRY_SERVICE_NAME@,
        "Operate"@,
    ));
    reveal_strlit("OperateBiStream");
    reveal_strlit("/epl.protobuf.GeometryService/OperateBiStream");
    assert(METHOD_GEOMETRY_SERVICE_OPERATE_BI_STREAM@ =~= wire_identifier(
        GEOMETRY_SERVICE_NAMESPACE@,
        GEOMETRY_SERVICE_NAME@,
        "OperateBiStream"@,
    ));
    reveal_strlit("OperateBiStreamFlow");
    reveal_strlit("/epl.protobuf.GeometryService/OperateBiStreamFlow");
    assert(METHOD_GEOMETRY_SERVICE_OPERATE_BI_STREAM_FLOW@ =~= wire_identifier(
        GEOMETRY_SERVICE_NAMESPACE@,
        GEOMETRY_SERVICE_NAME@,
        "OperateBiStreamFlow"@,
    ));
    reveal_strlit("OperateServerStream");
    reveal_strlit("/epl.protobuf.GeometryService/OperateServerStream");
    assert(METHOD_GEOMETRY_SERVICE_OPERATE_SERVER_STREAM@ =~= wire_identifier(
        GEOMETRY_SERVICE_NAMESPACE@,
        GEOMETRY_SERVICE_NAME@,
        "OperateServerStream"@,
    ));
    reveal_strlit("OperateClientStream");
    reveal_strlit("/epl.protobuf.GeometryService/OperateClientStream");
    assert(METHOD_GEOMETRY_SERVICE_OPERATE_CLIENT_STREAM@ =~= wire_identifier(
        GEOMETRY_SERVICE_NAMESPACE@,
        GEOMETRY_SERVICE_NAME@,
        "OperateClientStream"@,
    ));
    reveal_strlit("FileOperateBiStreamFlow");
    reveal_strlit("/epl.protobuf.GeometryService/FileOperateBiStreamFlow");
    assert(METHOD_GEOMETRY_SERVICE_FILE_OPERATE_BI_STREAM_FLOW@ =~= wire_identifier(
        GEOMETRY_SERVICE_NAMESPACE@,
        GEOMETRY_SERVICE_NAME@,
        "FileOperateBiStreamFlow"@,
    ));
}

/// The client stub of the geometry service.
#[derive(Clone, Debug)]
pub struct GeometryServiceClient {
    client: Client,
}

impl View for GeometryServiceClient {
    type V = Channel;

    closed spec fn view(&self) -> Channel {
        self.client.channel
    }
}

impl GeometryServiceClient {
    /// A stub that calls the geometry service over `channel`.
    pub fn new(channel: Channel) -> (r: Self)
        ensures
            r@ == channel,
    {
        GeometryServiceClient { client: Client::new(channel) }
    }

    /// The channel the stub calls over.
    pub fn channel(&self) -> (r: &Channel)
        ensures
            *r == self@,
    {
        &self.client.channel
    }

    /// Opens a call of `Operate`: one geometry request, one response. The
    /// caller blocks until the response is there.
    pub fn operate_opt(&self, req: &[u8], opt: CallOption) -> (r: ClientCall)
        ensures
            opens(
                r,
                METHOD_GEOMETRY_SERVICE_OPERATE@,
                Shape::Unary,
                Some(req@),
                opt,
                Wait::Block,
            ),
    {
        let method = MethodDescriptor::new(
            METHOD_GEOMETRY_SERVICE_OPERATE,
            Shape::Unary,
        );
        match self.client.unary_call(&method, req, opt) {
            Ok(call) => call,
            Err(_) => unreached(),
        }
    }

    /// As `operate_opt`, with nothing configured.
    pub fn operate(&self, req: &[u8]) -> (r: ClientCall)
        ensures
            r.options.is_default(),
            opens(
                r,
                METHOD_GEOMETRY_SERVICE_OPERATE@,
                Shape::Unary,
                Some(req@),
                r.options,
                Wait::Block,
            ),
    {
        self.operate_opt(req, CallOption::default())
    }

    /// Opens a call of `Operate`: one geometry request, one response. The
    /// caller picks the response up later.
    pub fn operate_async_opt(&self, req: &[u8], opt: CallOption) -> (r: ClientCall)
        ensures
            opens(
                r,
                METHOD_GEOMETRY_SERVICE_OPERATE@,
                Shape::Unary,
                Some(req@),
                opt,
                Wait::Suspend,
            ),
    {
        let method = MethodDescriptor::new(
            METHOD_GEOMETRY_SERVICE_OPERATE,
            Shape::Unary,
        );
        match self.client.unary_call_async(&method, req, opt) {
            Ok(call) => call,
            Err(_) => unreached(),
        }
    }

    /// As `operate_async_opt`, with nothing configured.
    pub fn operate_async(&self, req: &[u8]) -> (r: ClientCall)
        ensures
            r.options.is_default(),
            opens(
                r,
                METHOD_GEOMETRY_SERVICE_OPERATE@,
                Shape::Unary,
                Some(req@),
                r.options,
                Wait::Suspend,
            ),
    {
        self.operate_async_opt(req, CallOption::default())
    }

    /// Opens a call of `OperateBiStream`: independent streams of geometry
    /// requests and responses.
    pub fn operate_bi_stream_opt(&self, opt: CallOption) -> (r: ClientCall)
        ensures
            opens(
                r,
                METHOD_GEOMETRY_SERVICE_OPERATE_BI_STREAM@,
                Shape::Duplex,
                None,
                opt,
                Wait::Suspend,
            ),
    {
        let method = MethodDescriptor::new(
            METHOD_GEOMETRY_SERVICE_OPERATE_BI_STREAM,
            Shape::Duplex,
        );
        match self.client.duplex_streaming(&method, opt) {
            Ok(call) => call,
            Err(_) => unreached(),
        }
    }

    /// As `operate_bi_stream_opt`, with nothing configured.
    pub fn operate_bi_stream(&self) -> (r: ClientCall)
        ensures
            r.options.is_default(),
            opens(
                r,
                METHOD_GEOMETRY_SERVICE_OPERATE_BI_STREAM@,
                Shape::Duplex,
                None,
                r.options,
                Wait::Suspend,
            ),
    {
        self.operate_bi_stream_opt(CallOption::default())
    }

    /// Opens a call of `OperateBiStreamFlow`: streams of geometry requests and
    /// responses, both gated by credit.
    pub fn operate_bi_stream_flow_opt(&self, opt: CallOption) -> (r: ClientCall)
        ensures
            opens(
                r,
                METHOD_GEOMETRY_SERVICE_OPERATE_BI_STREAM_FLOW@,
                Shape::DuplexFlow,
                None,
                opt,
                Wait::Suspend,
            ),
    {
        let method = MethodDescriptor::new(
            METHOD_GEOMETRY_SERVICE_OPERATE_BI_STREAM_FLOW,
            Shape::DuplexFlow,
        );
        match self.client.duplex_streaming(&method, opt) {
            Ok(call) => call,
            Err(_) => unreached(),
        }
    }

    /// As `operate_bi_stream_flow_opt`, with nothing configured.
    pub fn operate_bi_stream_flow(&self) -> (r: ClientCall)
        ensures
            r.options.is_default(),
            opens(
                r,
                METHOD_GEOMETRY_SERVICE_OPERATE_BI_STREAM_FLOW@,
                Shape::DuplexFlow,
                None,
                r.options,
                Wait::Suspend,
            ),
    {
        self.operate_bi_stream_flow_opt(CallOption::default())
    }

    /// Opens a call of `OperateServerStream`: one geometry request, a stream of
    /// responses. The responses arrive as a stream.
    pub fn operate_server_stream_opt(&self, req: &[u8], opt: CallOption) -> (r: ClientCall)
        ensures
            opens(
                r,
                METHOD_GEOMETRY_SERVICE_OPERATE_SERVER_STREAM@,
                Shape::ServerStream,
                Some(req@),
                opt,
                Wait::Suspend,
            ),
    {
        let method = MethodDescriptor::new(
            METHOD_GEOMETRY_SERVICE_OPERATE_SERVER_STREAM,
            Shape::ServerStream,
        );
        match self.client.server_streaming(&method, req, opt) {
            Ok(call) => call,
            Err(_) => unreached(),
        }
    }

    /// As `operate_server_stream_opt`, with nothing configured.
    pub fn operate_server_stream(&self, req: &[u8]) -> (r: ClientCall)
        ensures
            r.options.is_default(),
            opens(
                r,
                METHOD_GEOMETRY_SERVICE_OPERATE_SERVER_STREAM@,
                Shape::ServerStream,
                Some(req@),
                r.options,
                Wait::Suspend,
            ),
    {
        self.operate_server_stream_opt(req, CallOption::default())
    }

    /// Opens a call of `OperateClientStream`: a stream of geometry requests,
    /// one response.
    pub fn operate_client_stream_opt(&self, opt: CallOption) -> (r: ClientCall)
        ensures
            opens(
                r,
                METHOD_GEOMETRY_SERVICE_OPERATE_CLIENT_STREAM@,
                Shape::ClientStream,
                None,
                opt,
                Wait::Suspend,
            ),
    {
        let method = MethodDescriptor::new(
            METHOD_GEOMETRY_SERVICE_OPERATE_CLIENT_STREAM,
            Shape::ClientStream,
        );
        match self.client.client_streaming(&method, opt) {
            Ok(call) => call,
            Err(_) => unreached(),
        }
    }

    /// As `operate_client_stream_opt`, with nothing configured.
    pub fn operate_client_stream(&self) -> (r: ClientCall)
        ensures
            r.options.is_default(),
            opens(
                r,
                METHOD_GEOMETRY_SERVICE_OPERATE_CLIENT_STREAM@,
                Shape::ClientStream,
                None,
                r.options,
                Wait::Suspend,
            ),
    {
        self.operate_client_stream_opt(CallOption::default())
    }

    /// Opens a call of `FileOperateBiStreamFlow`: a file uploaded as a credit-
    /// gated stream of chunks, answered by a stream of responses.
    pub fn file_operate_bi_stream_flow_opt(&self, opt: CallOption) -> (r: ClientCall)
        ensures
            opens(
                r,
                METHOD_GEOMETRY_SERVICE_FILE_OPERATE_BI_STREAM_FLOW@,
                Shape::ChunkedDuplexFlow,
                None,
                opt,
                Wait::Suspend,
            ),
    {
        let method = MethodDescriptor::new(
            METHOD_GEOMETRY_SERVICE_FILE_OPERATE_BI_STREAM_FLOW,
            Shape::ChunkedDuplexFlow,
        );
        match self.client.duplex_streaming(&method, opt) {
            Ok(call) => call,
            Err(_) => unreached(),
        }
    }

    /// As `file_operate_bi_stream_flow_opt`, with nothing configured.
    pub fn file_operate_bi_stream_flow(&self) -> (r: ClientCall)
        ensures
            r.options.is_default(),
            opens(
                r,
                METHOD_GEOMETRY_SERVICE_FILE_OPERATE_BI_STREAM_FLOW@,
                Shape::ChunkedDuplexFlow,
                None,
                r.options,
                Wait::Suspend,
            ),
    {
        self.file_operate_bi_stream_flow_opt(CallOption::default())
    }
}

/// The handlers of the geometry service, one for each method, for the
/// host of the service to implement. A handler returns its responses, or
/// the error with which the call ends.
///
/// Beside each handler stands a relation with which the host may say what
/// the handler does: what it may return on an input, and how it may leave
/// the service. A host that says nothing leaves the relation as it is:
/// it holds of every outcome. The server assumes of a handler only that
/// relation.
pub trait GeometryService: Sized {
    /// Whether `operate`, given `req` in the context `ctx`, may return `answer`
    /// and leave the service as `after`.
    open spec fn operate_yields(
        &self,
        ctx: RpcContext,
        req: Vec<u8>,
        after: &Self,
        answer: Response,
    ) -> bool {
        true
    }

    /// Serves `Operate`: answers one request with one response.
    fn operate(
        &mut self,
        ctx: &RpcContext,
        req: Vec<u8>,
    ) -> (answer: Response)
        ensures
            old(self).operate_yields(*ctx, req, final(self), answer),
    ;

    /// Whether `operate_bi_stream`, given `req` in the context `ctx`, may
    /// return `answer` and leave the service as `after`.
    open spec fn operate_bi_stream_yields(
        &self,
        ctx: RpcContext,
        req: Vec<u8>,
        after: &Self,
        answer: Responses,
    ) -> bool {
        true
    }

    /// Serves `OperateBiStream`: called for each request of the stream; returns
    /// the responses to send for it.
    fn operate_bi_stream(
        &mut self,
        ctx: &RpcContext,
        req: Vec<u8>,
    ) -> (answer: Responses)
        ensures
            old(self).operate_bi_stream_yields(*ctx, req, final(self), answer),
    ;

    /// Whether `operate_bi_stream_flow`, given `req` in the context `ctx`, may
    /// return `answer` and leave the service as `after`.
    open spec fn operate_bi_stream_flow_yields(
        &self,
        ctx: RpcContext,
        req: Vec<u8>,
        after: &Self,
        answer: Responses,
    ) -> bool {
        true
    }

    /// Serves `OperateBiStreamFlow`: called for each request of the stream;
    /// returns the responses to send for it as credit allows.
    fn operate_bi_stream_flow(
        &mut self,
        ctx: &RpcContext,
        req: Vec<u8>,
    ) -> (answer: Responses)
        ensures
            old(self).operate_bi_stream_flow_yields(*ctx, req, final(self), answer),
    ;

    /// Whether `operate_server_stream`, given `req` in the context `ctx`, may
    /// return `answer` and leave the service as `after`.
    open spec fn operate_server_stream_yields(
        &self,
        ctx: RpcContext,
        req: Vec<u8>,
        after: &Self,
        answer: Responses,
    ) -> bool {
        true
    }

    /// Serves `OperateServerStream`: answers one request with all its
    /// responses.
    fn operate_server_stream(
        &mut self,
        ctx: &RpcContext,
        req: Vec<u8>,
    ) -> (answer: Responses)
        ensures
            old(self).operate_server_stream_yields(*ctx, req, final(self), answer),
    ;

    /// Whether `operate_client_stream`, given `requests` in the context `ctx`,
    /// may return `answer` and leave the service as `after`.
    open spec fn operate_client_stream_yields(
        &self,
        ctx: RpcContext,
        requests: Vec<Vec<u8>>,
        after: &Self,
        answer: Response,
    ) -> bool {
        true
    }

    /// Serves `OperateClientStream`: answers all requests of the stream with
    /// one response.
    fn operate_client_stream(
        &mut self,
        ctx: &RpcContext,
        requests: Vec<Vec<u8>>,
    ) -> (answer: Response)
        ensures
            old(self).operate_client_stream_yields(*ctx, requests, final(self), answer),
    ;

    /// Whether `file_operate_bi_stream_flow`, given `file` in the context
    /// `ctx`, may return `answer` and leave the service as `after`.
    open spec fn file_operate_bi_stream_flow_yields(
        &self,
        ctx: RpcContext,
        file: Vec<u8>,
        after: &Self,
        answer: Responses,
    ) -> bool {
        true
    }

    /// Serves `FileOperateBiStreamFlow`: called once with the whole uploaded
    /// file; returns the responses to send for it.
    fn file_operate_bi_stream_flow(
        &mut self,
        ctx: &RpcContext,
        file: Vec<u8>,
    ) -> (answer: Responses)
        ensures
            old(self).file_operate_bi_stream_flow_yields(*ctx, file, final(self), answer),
    ;
}

/// The methods of the geometry service, each with its shape and the
/// handler that serves it.
pub open spec fn geometry_methods() -> Table {
    Map::<Seq<char>, Entry>::empty().insert(
        METHOD_GEOMETRY_SERVICE_OPERATE@,
        Entry {
            shape: Shape::Unary,
            handler: Handler { signature: CallSignature::Unary, slot: 0 },
        },
    ).insert(
        METHOD_GEOMETRY_SERVICE_OPERATE_BI_STREAM@,
        Entry {
            shape: Shape::Duplex,
            handler: Handler { signature: CallSignature::Duplex, slot: 1 },
        },
    ).insert(
        METHOD_GEOMETRY_SERVICE_OPERATE_BI_STREAM_FLOW@,
        Entry {
            shape: Shape::DuplexFlow,
            handler: Handler { signature: CallSignature::Duplex, slot: 2 },
        },
    ).insert(
        METHOD_GEOMETRY_SERVICE_OPERATE_SERVER_STREAM@,
        Entry {
            shape: Shape::ServerStream,
            handler: Handler { signature: CallSignature::ServerStreaming, slot: 3 },
        },
    ).insert(
        METHOD_GEOMETRY_SERVICE_OPERATE_CLIENT_STREAM@,
        Entry {
            shape: Shape::ClientStream,
            handler: Handler { signature: CallSignature::ClientStreaming, slot: 4 },
        },
    ).insert(
        METHOD_GEOMETRY_SERVICE_FILE_OPERATE_BI_STREAM_FLOW@,
        Entry {
            shape: Shape::ChunkedDuplexFlow,
            handler: Handler { signature: CallSignature::Duplex, slot: 5 },
        },
    )
}

/// Whether running the handler in `slot` of the service `before` on
/// `input` may return `result` and leave the service as `after`.
///
/// A slot that holds a handler for this kind of input runs that handler on
/// exactly this input; a handler that answers once gives its one response
/// as a run of one. Any other slot runs nothing: the result is
/// `ShapeMismatch` and the service stays as it is.
pub open spec fn geometry_invocation<S: GeometryService>(
    before: S,
    slot: usize,
    ctx: RpcContext,
    input: HandlerInput,
    after: S,
    result: Responses,
) -> bool {
    match input {
        HandlerInput::One(req) => if slot == 0 {
            exists|answer: Response|
                {
                    &&& #[trigger] before.operate_yields(
                        ctx,
                        req,
                        &after,
                        answer,
                    )
                    &&& answered_once(answer, result)
                }
        } else if slot == 1 {
            before.operate_bi_stream_yields(ctx, req, &after, result)
        } else if slot == 2 {
            before.operate_bi_stream_flow_yields(ctx, req, &after, result)
        } else if slot == 3 {
            before.operate_server_stream_yields(ctx, req, &after, result)
        } else if slot == 5 {
            before.file_operate_bi_stream_flow_yields(ctx, req, &after, result)
        } else {
            after == before && result == Err::<Vec<Vec<u8>>, RpcError>(RpcError::ShapeMismatch)
        },
        HandlerInput::Many(requests) => if slot == 4 {
            exists|answer: Response|
                {
                    &&& #[trigger] before.operate_client_stream_yields(
                        ctx,
                        requests,
                        &after,
                        answer,
                    )
                    &&& answered_once(answer, result)
                }
        } else {
            after == before && result == Err::<Vec<Vec<u8>>, RpcError>(RpcError::ShapeMismatch)
        },
    }
}

/// The server of the geometry service: its registry and the implementation
/// it runs.
pub struct GeometryServer<S: GeometryService> {
    dispatcher: Dispatcher,
    instance: S,
}

impl<S: GeometryService> GeometryServer<S> {
    /// The methods the server offers.
    pub closed spec fn table(&self) -> Table {
        self.dispatcher.table()
    }

    /// What the server fixes for every call.
    pub closed spec fn config(&self) -> ServerConfig {
        self.dispatcher.spec_config()
    }

    /// The implementation the server runs.
    pub closed spec fn spec_instance(&self) -> S {
        self.instance
    }

    /// The implementation the server runs.
    pub fn instance(&self) -> (r: &S)
        ensures
            *r == self.spec_instance(),
    {
        &self.instance
    }

    /// Opens the server side of a call of the method `name`: a fresh call
    /// of the registered shape and handler, or `UnknownMethod` where the
    /// service has no such method.
    pub fn accept(&self, name: &str) -> (r: Result<ServerCall, RpcError>)
        ensures
            match r {
                Ok(call) => self.table().contains_key(name@) && call@ == CallModel::fresh(
                    self.table()[name@].shape,
                    self.table()[name@].handler,
                    self.config(),
                ),
                Err(e) => !self.table().contains_key(name@) && e == RpcError::UnknownMethod,
            },
    {
        self.dispatcher.accept(name)
    }

    /// Runs the handler in `slot` on `input` and returns what it returned,
    /// the one response of a handler that answers once as a run of one. A
    /// slot that holds no handler, or an input of the wrong kind for the
    /// handler it holds, gives `ShapeMismatch` and leaves the service as
    /// it is.
    fn invoke(&mut self, slot: usize, ctx: &RpcContext, input: HandlerInput) -> (r: Responses)
        ensures
            final(self).dispatcher == old(self).dispatcher,
            geometry_invocation(
                old(self).instance,
                slot,
                *ctx,
                input,
                final(self).instance,
                r,
            ),
    {
        match input {
            HandlerInput::One(req) => {
                if slot == 0 {
                    let answer = self.instance.operate(ctx, req);
                    let ghost given = answer;
                    let responses = single(answer);
                    assert(old(self).instance.operate_yields(*ctx, req, &self.instance, given));
                    responses
                } else if slot == 1 {
                    self.instance.operate_bi_stream(ctx, req)
                } else if slot == 2 {
                    self.instance.operate_bi_stream_flow(ctx, req)
                } else if slot == 3 {
                    self.instance.operate_server_stream(ctx, req)
                } else if slot == 5 {
                    self.instance.file_operate_bi_stream_flow(ctx, req)
                } else {
                    Err(RpcError::ShapeMismatch)
                }
            },
            HandlerInput::Many(requests) => {
                if slot == 4 {
                    let answer = self.instance.operate_client_stream(ctx, requests);
                    let ghost given = answer;
                    let responses = single(answer);
                    assert(old(self).instance.operate_client_stream_yields(
                        *ctx,
                        requests,
                        &self.instance,
                        given,
                    ));
                    responses
                } else {
                    Err(RpcError::ShapeMismatch)
                }
            },
        }
    }

    /// Takes one inbound frame of `call`, runs the handler where the frame
    /// asks for it, and returns the frames to transmit.
    ///
    /// Where the handler does not run, the call moves as `on_frame` says.
    /// Where it runs, the call moves as `on_frame` and then `respond` say
    /// for what the handler returned, whatever that was.
    pub fn handle(&mut self, call: &mut ServerCall, ctx: &RpcContext, frame: Envelope) -> (frames:
        Vec<Envelope>)
        ensures
            final(self).table() == old(self).table(),
            final(self).config() == old(self).config(),
            !(old(call)@.verdict(frame) is Invoke) ==> {
                &&& final(call)@ == old(call)@.after(frame)
                &&& frames@ == old(call)@.frames(frame)
                &&& final(self).spec_instance() == old(self).spec_instance()
            },
            old(call)@.verdict(frame) is Invoke ==> exists|result: Responses|
                {
                    &&& final(call)@ == old(call)@.after(frame).responded(result)
                    &&& frames@ == old(call)@.frames(frame) + #[trigger] old(call)@.after(
                        frame,
                    ).response_frames(result)
                },
    {
        let Step { frames, invoke } = call.on_frame(frame);
        match invoke {
            None => frames,
            Some(input) => {
                let slot = call.handler().slot;
                let result = self.invoke(slot, ctx, input);
                let ghost returned = result;
                let mut frames = frames;
                let mut more = call.respond(result);
                frames.append(&mut more);
                assert(frames@ == old(call)@.frames(frame) + old(call)@.after(
                    frame,
                ).response_frames(returned));
                frames
            },
        }
    }
}

/// Builds the server of the geometry service around the implementation `s`:
/// every method of the service is registered, under its wire identifier
/// and with its shape, to the handler of `s` that serves it.
pub fn create_geometry_service<S: GeometryService>(
    s: S,
    config: ServerConfig,
) -> (r: GeometryServer<S>)
    ensures
        r.table() == geometry_methods(),
        r.config() == config,
        r.spec_instance() == s,
{
    proof {
        reveal_strlit("/epl.protobuf.GeometryService/Operate");
        assert(METHOD_GEOMETRY_SERVICE_OPERATE@.len() == 37);
        reveal_strlit("/epl.protobuf.GeometryService/OperateBiStream");
        assert(METHOD_GEOMETRY_SERVICE_OPERATE_BI_STREAM@.len() == 45);
        assert(METHOD_GEOMETRY_SERVICE_OPERATE_BI_STREAM@[37] == 'B');
        reveal_strlit("/epl.protobuf.GeometryService/OperateBiStreamFlow");
        assert(METHOD_GEOMETRY_SERVICE_OPERATE_BI_STREAM_FLOW@.len() == 49);
        assert(METHOD_GEOMETRY_SERVICE_OPERATE_BI_STREAM_FLOW@[37] == 'B');
        reveal_strlit("/epl.protobuf.GeometryService/OperateServerStream");
        assert(METHOD_GEOMETRY_SERVICE_OPERATE_SERVER_STREAM@.len() == 49);
        assert(METHOD_GEOMETRY_SERVICE_OPERATE_SERVER_STREAM@[37] == 'S');
        reveal_strlit("/epl.protobuf.GeometryService/OperateClientStream");
        assert(METHOD_GEOMETRY_SERVICE_OPERATE_CLIENT_STREAM@.len() == 49);
        assert(METHOD_GEOMETRY_SERVICE_OPERATE_CLIENT_STREAM@[37] == 'C');
        reveal_strlit("/epl.protobuf.GeometryService/FileOperateBiStreamFlow");
        assert(METHOD_GEOMETRY_SERVICE_FILE_OPERATE_BI_STREAM_FLOW@.len() == 53);
        assert(METHOD_GEOMETRY_SERVICE_FILE_OPERATE_BI_STREAM_FLOW@[37] == 'r');
    }
    let mut builder = ServiceBuilder::new();
    let _ = builder.register(
        MethodDescriptor::new(
            METHOD_GEOMETRY_SERVICE_OPERATE,
            Shape::Unary,
        ),
        Handler { signature: CallSignature::Unary, slot: 0 },
    );
    let _ = builder.register(
        MethodDescriptor::new(
            METHOD_GEOMETRY_SERVICE_OPERATE_BI_STREAM,
            Shape::Duplex,
        ),
        Handler { signature: CallSignature::Duplex, slot: 1 },
    );
    let _ = builder.register(
        MethodDescriptor::new(
            METHOD_GEOMETRY_SERVICE_OPERATE_BI_STREAM_FLOW,
            Shape::DuplexFlow,
        ),
        Handler { signature: CallSignature::Duplex, slot: 2 },
    );
    let _ = builder.register(
        MethodDescriptor::new(
            METHOD_GEOMETRY_SERVICE_OPERATE_SERVER_STREAM,
            Shape::ServerStream,
        ),
        Handler { signature: CallSignature::ServerStreaming, slot: 3 },
    );
    let _ = builder.register(
        MethodDescriptor::new(
            METHOD_GEOMETRY_SERVICE_OPERATE_CLIENT_STREAM,
            Shape::ClientStream,
        ),
        Handler { signature: CallSignature::ClientStreaming, slot: 4 },
    );
    let _ = builder.register(
        MethodDescriptor::new(
            METHOD_GEOMETRY_SERVICE_FILE_OPERATE_BI_STREAM_FLOW,
            Shape::ChunkedDuplexFlow,
        ),
        Handler { signature: CallSignature::Duplex, slot: 5 },
    );
    let registry = builder.build();
    GeometryServer { dispatcher: Dispatcher::new(registry, config), instance: s }
}

} // verus!
