//! The server side of one call: what the dispatcher does with each inbound
//! frame and with what the handler returns.
//!
//! A call is driven in two moves. `on_frame` takes one inbound frame and
//! says which frames to transmit and whether the handler has to run, and on
//! what. `respond` takes what the handler returned and says which frames to
//! transmit for it. The dispatcher decides; the hosting side moves the
//! frames and runs the handler.

use vstd::prelude::*;
use crate::chunk::{
    is_split, joined, lemma_joined_len, total_len, ChunkDescriptor, ReassemblyLimits,
    ReassemblySession, SessionModel,
};
use crate::codec::{carries, decoding, encoding, lemma_decode_encoded};
use crate::envelope::{data_frames, Envelope};
use crate::error::RpcError;
use crate::flow::{ReceiverModel, RecvEvent, SenderModel, StreamReceiver, StreamSender};
use crate::registry::Handler;
use crate::shape::{CallSignature, Shape};

verus! {

/// What a service fixes for every call it serves.
#[derive(Clone, Copy, Debug, PartialEq, Eq, Structural)]
pub struct ServerConfig {
    /// The credit each side starts with on a flow-controlled call.
    pub initial_credit: u64,
    /// The number of requests the service consumes before it grants credit back.
    pub grant_window: u64,
    /// The bounds of chunked uploads.
    pub limits: ReassemblyLimits,
}

/// What the handler is run on.
#[derive(Clone, Debug, PartialEq, Eq)]
pub enum HandlerInput {
    /// One request, or the blob of a chunked upload.
    One(Vec<u8>),
    /// All requests of a client stream, in order.
    Many(Vec<Vec<u8>>),
}

/// What one inbound frame asks of the hosting side.
#[derive(Debug, PartialEq, Eq)]
pub struct Step {
    /// The frames to transmit, in order.
    pub frames: Vec<Envelope>,
    /// Where present, the input to run the handler on; its result goes to `respond`.
    pub invoke: Option<HandlerInput>,
}

/// The mathematical content of a handler input.
pub ghost enum Invocation {
    /// The bytes of one request or blob.
    One(Seq<u8>),
    /// The requests of a client stream.
    Many(Seq<Vec<u8>>),
}

/// What the dispatcher makes of one inbound frame.
pub ghost enum Verdict {
    /// The frame changes nothing but the inbound account.
    Ignore,
    /// The frame grants credit for responses.
    Grant(u64),
    /// The peer gave the call up: everything held for it is released.
    Abandon,
    /// The frame violates the protocol: the call ends with this error.
    Fail(RpcError),
    /// The frame carries a request that is kept until the stream ends.
    Collect(Vec<u8>),
    /// The frame carries a chunk that is not the last.
    Advance,
    /// The handler has to run.
    Invoke(Invocation),
    /// The requests are over: so are the responses, once they are out.
    Finish,
}

/// The mathematical content of a call on the server side.
pub ghost struct CallModel {
    /// The shape of the method.
    pub shape: Shape,
    /// Who handles the method.
    pub handler: Handler,
    /// The half that receives requests.
    pub inbound: ReceiverModel,
    /// The half that sends responses.
    pub outbound: SenderModel,
    /// The reassembly of a chunked upload.
    pub session: SessionModel,
    /// The requests of a client stream that were kept so far.
    pub requests: Seq<Vec<u8>>,
    /// Whether the handler was already given a request or blob.
    pub served: bool,
}

impl CallModel {
    /// The call of a method of `shape` before any frame arrived.
    pub open spec fn fresh(shape: Shape, handler: Handler, config: ServerConfig) -> CallModel {
        CallModel {
            shape,
            handler,
            inbound: ReceiverModel::fresh(shape.spec_flow_controlled(), config.grant_window),
            outbound: SenderModel::fresh(
                shape.spec_flow_controlled(),
                config.initial_credit as nat,
            ),
            session: SessionModel::fresh(config.limits),
            requests: Seq::empty(),
            served: false,
        }
    }

    /// The call with everything it held released: no requests are kept,
    /// nothing waits to be sent, the upload is dropped, and no further frame
    /// is taken or sent.
    pub open spec fn released(self) -> CallModel {
        CallModel {
            inbound: self.inbound.stopped(),
            outbound: self.outbound.aborted(),
            session: self.session.released(),
            requests: Seq::empty(),
            ..self
        }
    }

    /// Whether the call is over in both directions.
    pub open spec fn over(self) -> bool {
        self.inbound.ended && self.outbound.closed
    }

    /// What the dispatcher makes of a message with this payload.
    pub open spec fn verdict_on_message(self, payload: Vec<u8>) -> Verdict {
        match self.shape {
            Shape::Unary | Shape::ServerStream => if self.served {
                Verdict::Fail(RpcError::SerializationError)
            } else {
                Verdict::Invoke(Invocation::One(payload@))
            },
            Shape::ClientStream => Verdict::Collect(payload),
            Shape::Duplex | Shape::DuplexFlow => Verdict::Invoke(Invocation::One(payload@)),
            Shape::ChunkedDuplexFlow => match decoding(payload@) {
                None => Verdict::Fail(RpcError::SerializationError),
                Some((sequence_number, bytes, is_final)) => match self.session.yields(
                    sequence_number,
                    bytes,
                    is_final,
                ) {
                    Err(e) => Verdict::Fail(e),
                    Ok(None) => Verdict::Advance,
                    Ok(Some(blob)) => Verdict::Invoke(Invocation::One(blob)),
                },
            },
        }
    }

    /// What the dispatcher makes of the end of the request stream.
    pub open spec fn verdict_on_end(self) -> Verdict {
        match self.shape {
            Shape::Unary | Shape::ServerStream => if self.served {
                Verdict::Ignore
            } else {
                Verdict::Fail(RpcError::SerializationError)
            },
            Shape::ClientStream => Verdict::Invoke(Invocation::Many(self.requests)),
            Shape::Duplex | Shape::DuplexFlow => Verdict::Finish,
            Shape::ChunkedDuplexFlow => if self.served {
                Verdict::Finish
            } else {
                Verdict::Fail(RpcError::OutOfOrderChunk)
            },
        }
    }

    /// What the dispatcher makes of `frame`.
    ///
    /// A message that arrives after the requests ended is ignored, as is
    /// every frame once the peer gave the call up. A grant
    /// that the credit cannot take ends the call with `TransportError`. A
    /// second request on a call that takes one, or the end of the requests
    /// before the one request, ends it with `SerializationError`, as does
    /// a chunk that cannot be decoded. An upload that ends before its final
    /// chunk ends the call with `OutOfOrderChunk`.
    pub open spec fn verdict(self, frame: Envelope) -> Verdict {
        match self.inbound.event(frame) {
            RecvEvent::Ignored => Verdict::Ignore,
            RecvEvent::Credit(n) => if self.outbound.can_take(n) {
                Verdict::Grant(n)
            } else {
                Verdict::Fail(RpcError::TransportError)
            },
            RecvEvent::Failed(_) => Verdict::Abandon,
            RecvEvent::Finished => self.verdict_on_end(),
            RecvEvent::Message { payload, grant } => self.verdict_on_message(payload),
        }
    }

    /// The credit frame that is owed to the peer for `frame`, if any.
    pub open spec fn owed(self, frame: Envelope) -> Seq<Envelope> {
        match self.inbound.event(frame) {
            RecvEvent::Message { payload, grant: Some(g) } => seq![g],
            _ => Seq::empty(),
        }
    }

    /// The frame that reports a failure to the peer, unless the last
    /// response frame has already gone out.
    pub open spec fn failure_frames(self, error: RpcError) -> Seq<Envelope> {
        if self.outbound.closed {
            Seq::empty()
        } else {
            seq![Envelope::Error(error)]
        }
    }

    /// The upload after the chunk that `frame` carries was submitted to it.
    pub open spec fn fed(self, frame: Envelope) -> SessionModel {
        match frame {
            Envelope::Data(payload) => match decoding(payload@) {
                Some((sequence_number, bytes, is_final)) => self.session.after(
                    sequence_number,
                    bytes,
                    is_final,
                ),
                None => self.session,
            },
            _ => self.session,
        }
    }

    /// The frames to transmit for `frame`.
    pub open spec fn frames(self, frame: Envelope) -> Seq<Envelope> {
        match self.verdict(frame) {
            Verdict::Ignore | Verdict::Abandon => Seq::empty(),
            Verdict::Grant(n) => self.outbound.granted(n).emitted(),
            Verdict::Fail(e) => self.failure_frames(e),
            Verdict::Collect(_) | Verdict::Advance | Verdict::Invoke(_) => self.owed(frame),
            Verdict::Finish => self.outbound.finishing().emitted(),
        }
    }

    /// The call after `frame` arrived.
    pub open spec fn after(self, frame: Envelope) -> CallModel {
        let inbound = self.inbound.after(frame);
        match self.verdict(frame) {
            Verdict::Ignore => CallModel { inbound, ..self },
            Verdict::Grant(n) => CallModel {
                inbound,
                outbound: self.outbound.granted(n).flushed(),
                ..self
            },
            Verdict::Abandon | Verdict::Fail(_) => (CallModel { inbound, ..self }).released(),
            Verdict::Collect(payload) => CallModel {
                inbound,
                requests: self.requests.push(payload),
                ..self
            },
            Verdict::Advance => CallModel { inbound, session: self.fed(frame), ..self },
            Verdict::Invoke(Invocation::One(_)) => CallModel {
                inbound,
                session: if self.shape is ChunkedDuplexFlow {
                    self.fed(frame)
                } else {
                    self.session
                },
                served: true,
                ..self
            },
            Verdict::Invoke(Invocation::Many(_)) => CallModel {
                inbound,
                requests: Seq::empty(),
                ..self
            },
            Verdict::Finish => CallModel {
                inbound,
                outbound: self.outbound.finishing().flushed(),
                ..self
            },
        }
    }

    /// The call after `frames` arrived in order.
    pub open spec fn after_all(self, frames: Seq<Envelope>) -> CallModel
        decreases frames.len(),
    {
        if frames.len() == 0 {
            self
        } else {
            self.after(frames.first()).after_all(frames.drop_first())
        }
    }

    /// Whether the method answers with exactly one response.
    pub open spec fn answers_once(self) -> bool {
        self.shape is Unary || self.shape is ClientStream
    }

    /// Whether the responses end with what the handler returns: on every
    /// shape but the duplex ones, whose responses end with the requests.
    pub open spec fn ends_with_response(self) -> bool {
        !(self.shape.spec_signature() is Duplex)
    }

    /// The error with which the call ends on what the handler returned, if
    /// it ends with one: the handler's own error, or `ShapeMismatch` where
    /// a method that answers once was given no response or several.
    pub open spec fn rejection(self, result: Result<Vec<Vec<u8>>, RpcError>) -> Option<RpcError> {
        match result {
            Err(e) => Some(e),
            Ok(responses) => if self.outbound.accepts() && self.answers_once() && responses@.len()
                != 1 {
                Some(RpcError::ShapeMismatch)
            } else {
                None
            },
        }
    }

    /// The sender with the responses of the handler waiting, and the end
    /// of the responses requested where they end with these.
    pub open spec fn staged(self, responses: Seq<Vec<u8>>) -> SenderModel {
        if self.ends_with_response() {
            self.outbound.queued_all(responses).finishing()
        } else {
            self.outbound.queued_all(responses)
        }
    }

    /// The frames to transmit for what the handler returned. Responses that
    /// come after the response stream ended are dropped.
    pub open spec fn response_frames(self, result: Result<Vec<Vec<u8>>, RpcError>) -> Seq<
        Envelope,
    > {
        match self.rejection(result) {
            Some(e) => self.failure_frames(e),
            None => if self.outbound.accepts() {
                self.staged(result->Ok_0@).emitted()
            } else {
                Seq::empty()
            },
        }
    }

    /// The call after the handler returned.
    pub open spec fn responded(self, result: Result<Vec<Vec<u8>>, RpcError>) -> CallModel {
        match self.rejection(result) {
            Some(e) => self.released(),
            None => if self.outbound.accepts() {
                CallModel { outbound: self.staged(result->Ok_0@).flushed(), ..self }
            } else {
                self
            },
        }
    }
}

/// Whether an executable handler input is the one the model predicts.
pub open spec fn invocation_matches(invoke: Option<HandlerInput>, verdict: Verdict) -> bool {
    match verdict {
        Verdict::Invoke(Invocation::One(bytes)) => invoke matches Some(HandlerInput::One(b)) && b@
            == bytes,
        Verdict::Invoke(Invocation::Many(requests)) => invoke matches Some(HandlerInput::Many(r))
            && r@ == requests,
        _ => invoke is None,
    }
}

/// One call as the server side holds it.
pub struct ServerCall {
    shape: Shape,
    handler: Handler,
    inbound: StreamReceiver,
    outbound: StreamSender,
    session: ReassemblySession,
    requests: Vec<Vec<u8>>,
    served: bool,
}

impl View for ServerCall {
    type V = CallModel;

    closed spec fn view(&self) -> CallModel {
        CallModel {
            shape: self.shape,
            handler: self.handler,
            inbound: self.inbound@,
            outbound: self.outbound@,
            session: self.session@,
            requests: self.requests@,
            served: self.served,
        }
    }
}

impl ServerCall {
    /// The call of a method of `shape`, handled by `handler`, before any
    /// frame arrived.
    pub fn new(shape: Shape, handler: Handler, config: ServerConfig) -> (r: ServerCall)
        ensures
            r@ == CallModel::fresh(shape, handler, config),
    {
        let gated = shape.flow_controlled();
        ServerCall {
            shape,
            handler,
            inbound: StreamReceiver::new(gated, config.grant_window),
            outbound: StreamSender::new(gated, config.initial_credit),
            session: ReassemblySession::new(config.limits),
            requests: Vec::new(),
            served: false,
        }
    }

    /// The shape of the method.
    pub fn shape(&self) -> (r: Shape)
        ensures
            r == self@.shape,
    {
        self.shape
    }

    /// Who handles the method.
    pub fn handler(&self) -> (r: Handler)
        ensures
            r == self@.handler,
    {
        self.handler
    }

    /// Whether the call is over in both directions.
    pub fn is_over(&self) -> (r: bool)
        ensures
            r == self@.over(),
    {
        self.inbound.is_ended() && self.outbound.is_closed()
    }

    /// The number of bytes of a chunked upload that are held.
    pub fn held(&self) -> (r: usize)
        ensures
            r == self@.session.data.len(),
    {
        self.session.len()
    }

    /// Releases everything the call holds.
    fn release(&mut self)
        ensures
            final(self)@ == old(self)@.released(),
    {
        self.inbound.close();
        let _ = self.outbound.abort(RpcError::Cancelled);
        self.session.release();
        self.requests = Vec::new();
        assert(self@.requests =~= Seq::<Vec<u8>>::empty());
    }

    /// Ends the call with `error`.
    fn fail(&mut self, error: RpcError) -> (frames: Vec<Envelope>)
        ensures
            final(self)@ == old(self)@.released(),
            frames@ == old(self)@.failure_frames(error),
    {
        self.inbound.close();
        let frames = self.outbound.abort(error);
        self.session.release();
        self.requests = Vec::new();
        assert(self@.requests =~= Seq::<Vec<u8>>::empty());
        frames
    }

    /// Gives the call up on the server's own account, as when the
    /// connection is lost: everything held for it is released at once,
    /// and the frame that tells the peer is returned unless the responses
    /// had already ended.
    pub fn cancel(&mut self) -> (frames: Vec<Envelope>)
        ensures
            final(self)@ == old(self)@.released(),
            frames@ == old(self)@.failure_frames(RpcError::Cancelled),
    {
        self.fail(RpcError::Cancelled)
    }

    /// Takes one inbound frame.
    pub fn on_frame(&mut self, frame: Envelope) -> (step: Step)
        ensures
            final(self)@ == old(self)@.after(frame),
            step.frames@ == old(self)@.frames(frame),
            invocation_matches(step.invoke, old(self)@.verdict(frame)),
    {
        let ghost before = self@;
        let event = self.inbound.on_frame(frame);
        match event {
            RecvEvent::Ignored => Step { frames: Vec::new(), invoke: None },
            RecvEvent::Credit(n) => {
                match self.outbound.try_grant(n) {
                    Some(frames) => Step { frames, invoke: None },
                    None => {
                        let frames = self.fail(RpcError::TransportError);
                        Step { frames, invoke: None }
                    },
                }
            },
            RecvEvent::Failed(_) => {
                self.release();
                Step { frames: Vec::new(), invoke: None }
            },
            RecvEvent::Finished => self.on_end(Ghost(before)),
            RecvEvent::Message { payload, grant } => {
                let mut owed: Vec<Envelope> = Vec::new();
                match grant {
                    Some(g) => {
                        owed.push(g);
                    },
                    None => {},
                }
                assert(owed@ =~= before.owed(frame));
                self.on_message(payload, owed, Ghost(before), Ghost(frame))
            },
        }
    }

    /// Takes the end of the request stream.
    fn on_end(&mut self, Ghost(before): Ghost<CallModel>) -> (step: Step)
        requires
            !before.inbound.ended,
            !before.inbound.closed,
            old(self)@ == (CallModel {
                inbound: before.inbound.after(Envelope::EndOfStream),
                ..before
            }),
        ensures
            final(self)@ == before.after(Envelope::EndOfStream),
            step.frames@ == before.frames(Envelope::EndOfStream),
            invocation_matches(step.invoke, before.verdict(Envelope::EndOfStream)),
    {
        match self.shape {
            Shape::Unary | Shape::ServerStream => {
                if self.served {
                    Step { frames: Vec::new(), invoke: None }
                } else {
                    let frames = self.fail(RpcError::SerializationError);
                    Step { frames, invoke: None }
                }
            },
            Shape::ClientStream => {
                let mut requests: Vec<Vec<u8>> = Vec::new();
                core::mem::swap(&mut self.requests, &mut requests);
                assert(self@.requests =~= Seq::<Vec<u8>>::empty());
                Step { frames: Vec::new(), invoke: Some(HandlerInput::Many(requests)) }
            },
            Shape::Duplex | Shape::DuplexFlow => {
                let frames = self.outbound.finish();
                Step { frames, invoke: None }
            },
            Shape::ChunkedDuplexFlow => {
                if self.served {
                    let frames = self.outbound.finish();
                    Step { frames, invoke: None }
                } else {
                    let frames = self.fail(RpcError::OutOfOrderChunk);
                    Step { frames, invoke: None }
                }
            },
        }
    }

    /// Takes one request message.
    fn on_message(
        &mut self,
        payload: Vec<u8>,
        owed: Vec<Envelope>,
        Ghost(before): Ghost<CallModel>,
        Ghost(frame): Ghost<Envelope>,
    ) -> (step: Step)
        requires
            frame == Envelope::Data(payload),
            !before.inbound.ended,
            !before.inbound.closed,
            owed@ == before.owed(frame),
            old(self)@ == (CallModel { inbound: before.inbound.after(frame), ..before }),
        ensures
            final(self)@ == before.after(frame),
            step.frames@ == before.frames(frame),
            invocation_matches(step.invoke, before.verdict(frame)),
    {
        match self.shape {
            Shape::Unary | Shape::ServerStream => {
                if self.served {
                    let frames = self.fail(RpcError::SerializationError);
                    Step { frames, invoke: None }
                } else {
                    self.served = true;
                    Step { frames: owed, invoke: Some(HandlerInput::One(payload)) }
                }
            },
            Shape::ClientStream => {
                self.requests.push(payload);
                Step { frames: owed, invoke: None }
            },
            Shape::Duplex | Shape::DuplexFlow => {
                self.served = true;
                Step { frames: owed, invoke: Some(HandlerInput::One(payload)) }
            },
            Shape::ChunkedDuplexFlow => {
                match ChunkDescriptor::decode(payload.as_slice()) {
                    Err(_) => {
                        let frames = self.fail(RpcError::SerializationError);
                            Step { frames, invoke: None }
                    },
                    Ok(chunk) => {
                        match self.session.accept(&chunk) {
                            Err(e) => {
                                let frames = self.fail(e);
                                assert(self@.session == before.session.released()) by {
                                    assert(before.session.released().released().data
                                        =~= before.session.released().data);
                                }
                                            Step { frames, invoke: None }
                            },
                            Ok(None) => Step { frames: owed, invoke: None },
                            Ok(Some(blob)) => {
                                self.served = true;
                                Step { frames: owed, invoke: Some(HandlerInput::One(blob)) }
                            },
                        }
                    },
                }
            },
        }
    }

    /// Takes what the handler returned for the input that `on_frame` gave out.
    ///
    /// An error of the handler ends the call with that error. On a method
    /// that answers once, anything but exactly one response ends it with
    /// `ShapeMismatch`. Otherwise the responses are sent, as far as credit
    /// allows, and the response stream ends behind them unless the method
    /// is a duplex one.
    pub fn respond(&mut self, result: Result<Vec<Vec<u8>>, RpcError>) -> (frames: Vec<Envelope>)
        ensures
            final(self)@ == old(self)@.responded(result),
            frames@ == old(self)@.response_frames(result),
    {
        match result {
            Err(e) => self.fail(e),
            Ok(responses) => {
                if !self.outbound.accepts() {
                    return Vec::new();
                }
                let once = match self.shape {
                    Shape::Unary | Shape::ClientStream => true,
                    _ => false,
                };
                if once && responses.len() != 1 {
                    return self.fail(RpcError::ShapeMismatch);
                }
                let sent = match self.shape.signature() {
                    CallSignature::Duplex => self.outbound.send_all(responses),
                    _ => self.outbound.finish_with(responses),
                };
                match sent {
                    Ok(frames) => frames,
                    Err(_) => Vec::new(),
                }
            },
        }
    }
}

/// Releasing a call frees everything it held, whatever its state: no
/// bytes of an upload, no kept requests and no waiting responses remain,
/// the upload is over, and the call is over in both directions. A fresh
/// call of the same method starts from an empty accumulation.
pub proof fn lemma_release_frees_everything(call: CallModel, config: ServerConfig)
    ensures
        call.released().session.data.len() == 0,
        !(call.released().session.state is Open),
        call.released().requests.len() == 0,
        call.released().outbound.backlog.len() == 0,
        call.released().over(),
        CallModel::fresh(call.shape, call.handler, config).session == SessionModel::fresh(
            config.limits,
        ),
        CallModel::fresh(call.shape, call.handler, config).session.data.len() == 0,
{
}

/// When the peer gives a call up, at whatever point, the dispatcher
/// releases the call and transmits nothing.
pub proof fn lemma_abandoned_call_is_released(call: CallModel, error: RpcError)
    requires
        !call.inbound.closed,
    ensures
        call.verdict(Envelope::Error(error)) is Abandon,
        call.after(Envelope::Error(error)).session.data.len() == 0,
        !(call.after(Envelope::Error(error)).session.state is Open),
        call.after(Envelope::Error(error)).requests.len() == 0,
        call.after(Envelope::Error(error)).outbound.backlog.len() == 0,
        call.after(Envelope::Error(error)).over(),
        call.frames(Envelope::Error(error)) == Seq::<Envelope>::empty(),
{
}

/// An error of the handler ends the call with exactly one error frame,
/// unless the responses had already ended, and releases what the call
/// held. Nothing else of the call changes: its method and handler stay.
pub proof fn lemma_handler_error_ends_call(call: CallModel, error: RpcError)
    ensures
        call.responded(Err(error)) == call.released(),
        call.response_frames(Err(error)) == call.failure_frames(error),
        !call.outbound.closed ==> call.response_frames(Err(error)) == seq![
            Envelope::Error(error),
        ],
        call.responded(Err(error)).shape == call.shape,
        call.responded(Err(error)).handler == call.handler,
        call.responded(Err(error)).over(),
{
}

/// A call that is over ignores every frame: nothing is transmitted, the
/// handler does not run, and the call stays as it is.
pub proof fn lemma_call_that_is_over_ignores_frames(call: CallModel, frame: Envelope)
    requires
        call.inbound.closed,
    ensures
        call.verdict(frame) is Ignore,
        call.frames(frame) == Seq::<Envelope>::empty(),
        call.after(frame) == call,
{
}

/// The end of the requests ends the peer's messages, not its grants: a
/// grant that arrives after it still sets waiting responses free.
pub proof fn lemma_grants_count_after_requests_ended(call: CallModel, n: u64)
    requires
        call.inbound.ended,
        !call.inbound.closed,
        call.outbound.can_take(n),
    ensures
        call.verdict(Envelope::Credit(n)) == Verdict::Grant(n),
        call.frames(Envelope::Credit(n)) == call.outbound.granted(n).emitted(),
        call.after(Envelope::Credit(n)).outbound == call.outbound.granted(n).flushed(),
{
}

/// A chunked call whose upload is open and that is sent, from the number it
/// expects on, the encodings of gapless chunks within its bounds of which
/// exactly the last is final, runs the handler on the last of them: on what
/// the upload held followed by the joined payloads.
pub proof fn lemma_chunks_reach_handler(
    call: CallModel,
    chunks: Seq<ChunkDescriptor>,
    payloads: Seq<Vec<u8>>,
)
    requires
        call.shape is ChunkedDuplexFlow,
        !call.inbound.ended,
        !call.inbound.closed,
        call.session.state is Open,
        chunks.len() > 0,
        carries(payloads, chunks),
        forall|i: int|
            0 <= i < chunks.len() ==> (#[trigger] chunks[i]).sequence_number as int
                == call.session.expected + i,
        forall|i: int|
            0 <= i < chunks.len() ==> ((#[trigger] chunks[i]).is_final <==> i == chunks.len() - 1),
        forall|i: int|
            0 <= i < chunks.len() ==> (#[trigger] chunks[i]).payload@.len()
                <= call.session.limits.max_chunk,
        call.session.data.len() + total_len(chunks) <= call.session.limits.max_blob,
    ensures
        call.after_all(data_frames(payloads).drop_last()).verdict(data_frames(payloads).last())
            == Verdict::Invoke(Invocation::One(call.session.data + joined(chunks))),
    decreases chunks.len(),
{
    let frames = data_frames(payloads);
    let first = chunks.first();
    assert(first == chunks[0]);
    assert(frames.first() == Envelope::Data(payloads[0]));
    lemma_decode_encoded(first.sequence_number, first.payload@, first.is_final);
    assert(call.session.violation(first.sequence_number, first.payload@) is None);
    if chunks.len() == 1 {
        assert(frames.drop_last() =~= Seq::<Envelope>::empty());
        assert(joined(chunks.drop_first()) =~= Seq::<u8>::empty());
        assert(call.session.data + joined(chunks) =~= call.session.data + first.payload@);
    } else {
        let next = call.after(frames.first());
        let rest = chunks.drop_first();
        let rest_payloads = payloads.drop_first();
        assert(call.verdict(frames.first()) is Advance);
        assert forall|i: int| 0 <= i < rest.len() implies {
            &&& (#[trigger] rest[i]).sequence_number as int == next.session.expected + i
            &&& (rest[i].is_final <==> i == rest.len() - 1)
            &&& rest[i].payload@.len() <= next.session.limits.max_chunk
        } by {
            assert(rest[i] == chunks[i + 1]);
        }
        assert(carries(rest_payloads, rest)) by {
            assert forall|i: int| 0 <= i < rest.len() implies (#[trigger] rest_payloads[i])@
                == encoding(rest[i].sequence_number, rest[i].payload@, rest[i].is_final) by {
                assert(rest_payloads[i] == payloads[i + 1]);
                assert(rest[i] == chunks[i + 1]);
            }
        }
        lemma_chunks_reach_handler(next, rest, rest_payloads);
        assert(data_frames(rest_payloads) =~= frames.drop_first());
        assert(frames.drop_last().first() == frames.first());
        assert(frames.drop_last().drop_first() =~= frames.drop_first().drop_last());
        assert(frames.drop_first().last() == frames.last());
        assert(call.session.data + joined(chunks) =~= next.session.data + joined(rest));
    }
}

/// A blob that was split into chunks within the bounds of a service and
/// sent, encoded, to a fresh chunked call reaches the handler whole: the
/// handler runs on the last chunk, on exactly the blob.
pub proof fn lemma_upload_reaches_handler(
    handler: Handler,
    config: ServerConfig,
    blob: Seq<u8>,
    size: nat,
    chunks: Seq<ChunkDescriptor>,
    payloads: Seq<Vec<u8>>,
)
    requires
        is_split(chunks, blob, size),
        carries(payloads, chunks),
        size <= config.limits.max_chunk,
        blob.len() <= config.limits.max_blob,
    ensures
        CallModel::fresh(Shape::ChunkedDuplexFlow, handler, config).after_all(
            data_frames(payloads).drop_last(),
        ).verdict(data_frames(payloads).last()) == Verdict::Invoke(Invocation::One(blob)),
{
    let call = CallModel::fresh(Shape::ChunkedDuplexFlow, handler, config);
    lemma_joined_len(chunks);
    lemma_chunks_reach_handler(call, chunks, payloads);
    assert(call.session.data + joined(chunks) =~= blob);
}

/// A fresh call of a method that takes one request and answers once runs
/// the handler on that request, and answers what the handler returned
/// with exactly that response followed by the end of the responses.
pub proof fn lemma_single_request_is_answered_once(
    handler: Handler,
    config: ServerConfig,
    request: Vec<u8>,
    responses: Vec<Vec<u8>>,
)
    requires
        responses@.len() == 1,
    ensures
        ({
            let call = CallModel::fresh(Shape::Unary, handler, config);
            let served = call.after(Envelope::Data(request));
            &&& call.verdict(Envelope::Data(request)) == Verdict::Invoke(
                Invocation::One(request@),
            )
            &&& call.frames(Envelope::Data(request)) == Seq::<Envelope>::empty()
            &&& served.response_frames(Ok(responses)) == seq![
                Envelope::Data(responses@[0]),
                Envelope::EndOfStream,
            ]
            &&& served.responded(Ok(responses)).outbound.closed
        }),
{
    let call = CallModel::fresh(Shape::Unary, handler, config);
    let served = call.after(Envelope::Data(request));
    let staged = served.staged(responses@);
    assert(staged.backlog =~= responses@);
    assert(staged.ready() == 1);
    assert(staged.emitted() =~= seq![Envelope::Data(responses@[0]), Envelope::EndOfStream]);
}

} // verus!
