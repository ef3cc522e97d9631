//! The client side of a call: its options, and the generic stub that opens
//! a call of any shape over a channel.

use vstd::prelude::*;
use vstd::slice::slice_to_vec;
use vstd::string::StringExecFns;
use crate::chunk::{is_split, split_blob, ChunkDescriptor};
use crate::codec::{carries, encode_all};
use crate::credit::DEFAULT_INITIAL_CREDIT;
use crate::envelope::{data_frames, frames, Envelope, Frame};
use crate::error::RpcError;
use crate::flow::{ReceiverModel, RecvEvent, SenderModel, StreamReceiver, StreamSender};
use crate::shape::{CallSignature, MethodDescriptor, Shape};

verus! {

/// One metadata field that travels with a call, outside its messages.
#[derive(Clone, Debug, PartialEq, Eq)]
pub struct Header {
    /// The name of the field.
    pub key: String,
    /// Its value, passed through as it is.
    pub value: String,
}

impl Header {
    /// The field `key` with the value `value`.
    pub fn new(key: &str, value: &str) -> (r: Header)
        ensures
            r.key@ == key@,
            r.value@ == value@,
    {
        Header { key: key.to_owned(), value: value.to_owned() }
    }

    /// The field that carries a bearer credential: `Authorization`, with
    /// the value `Bearer ` followed by `token`. The token is passed
    /// through as it is.
    pub fn bearer(token: &str) -> (r: Header)
        ensures
            r.key@ == "Authorization"@,
            r.value@ == "Bearer "@ + token@,
    {
        Header {
            key: "Authorization".to_owned(),
            value: String::from_str("Bearer ").concat(token),
        }
    }
}

/// How the caller waits for the outcome of a call.
#[derive(Clone, Copy, Debug, PartialEq, Eq, Structural)]
pub enum Wait {
    /// The caller blocks until the call is over.
    Block,
    /// The caller goes on and picks the outcome up later.
    Suspend,
}

/// What a caller may configure of one call.
#[derive(Clone, Debug, PartialEq, Eq)]
pub struct CallOption {
    /// The deadline of the call, in milliseconds from its start; `None` for no deadline.
    pub timeout_millis: Option<u64>,
    /// The metadata to send with the call, in the order it was added.
    pub headers: Vec<Header>,
    /// The credit each side starts with on a flow-controlled call.
    pub initial_credit: u64,
    /// The number of messages a side consumes before it grants credit back.
    pub grant_window: u64,
}

impl CallOption {
    /// Whether nothing was configured: no deadline, no metadata, the
    /// default credit and a grant after every message.
    pub open spec fn is_default(self) -> bool {
        &&& self.timeout_millis is None
        &&& self.headers@.len() == 0
        &&& self.initial_credit == DEFAULT_INITIAL_CREDIT
        &&& self.grant_window == 1
    }

    /// Sets the deadline of the call.
    pub fn timeout(self, millis: u64) -> (r: CallOption)
        ensures
            r == (CallOption { timeout_millis: Some(millis), ..self }),
    {
        CallOption { timeout_millis: Some(millis), ..self }
    }

    /// Replaces the metadata of the call.
    pub fn headers(self, headers: Vec<Header>) -> (r: CallOption)
        ensures
            r == (CallOption { headers, ..self }),
    {
        CallOption { headers, ..self }
    }

    /// Sets the credit each side starts with and the window after which
    /// credit is granted back.
    pub fn flow(self, initial_credit: u64, grant_window: u64) -> (r: CallOption)
        ensures
            r == (CallOption { initial_credit, grant_window, ..self }),
    {
        CallOption { initial_credit, grant_window, ..self }
    }
}

impl Default for CallOption {
    fn default() -> (r: CallOption)
        ensures
            r.is_default(),
    {
        CallOption {
            timeout_millis: None,
            headers: Vec::new(),
            initial_credit: DEFAULT_INITIAL_CREDIT,
            grant_window: 1,
        }
    }
}

/// The endpoint that calls go to.
#[derive(Clone, Debug, PartialEq, Eq)]
pub struct Channel {
    /// The address of the endpoint, as `host:port`.
    pub target: String,
}

impl Channel {
    /// A channel to `target`.
    pub fn new(target: &str) -> (r: Channel)
        ensures
            r.target@ == target@,
    {
        Channel { target: target.to_owned() }
    }
}

/// How a call stands.
#[derive(Clone, Copy, Debug, PartialEq, Eq, Structural)]
pub enum CallStatus {
    /// The call is under way.
    Active,
    /// The remote side ended the call in good order.
    Completed,
    /// The call ended with this error.
    Failed(RpcError),
}

/// A call as the client side holds it once it is opened.
pub struct ClientCall {
    /// The method that is called.
    pub method: MethodDescriptor,
    /// The options the call was opened with.
    pub options: CallOption,
    /// How the caller waits for the outcome.
    pub wait: Wait,
    /// The frames to transmit when the call is opened.
    pub opening: Vec<Envelope>,
    /// The sending half of the call.
    pub sender: StreamSender,
    /// The receiving half of the call.
    pub receiver: StreamReceiver,
    /// How the call stands.
    pub status: CallStatus,
    /// Whether a response has arrived.
    pub answered: bool,
}

/// The mathematical content of a call on the client side.
pub ghost struct ClientModel {
    /// The shape of the method.
    pub shape: Shape,
    /// The deadline of the call, if it has one.
    pub timeout_millis: Option<u64>,
    /// The half that sends requests.
    pub sender: SenderModel,
    /// The half that receives responses.
    pub receiver: ReceiverModel,
    /// How the call stands.
    pub status: CallStatus,
    /// Whether a response has arrived.
    pub answered: bool,
}

impl View for ClientCall {
    type V = ClientModel;

    open spec fn view(&self) -> ClientModel {
        ClientModel {
            shape: self.method.shape,
            timeout_millis: self.options.timeout_millis,
            sender: self.sender@,
            receiver: self.receiver@,
            status: self.status,
            answered: self.answered,
        }
    }
}

/// Whether `call` is the freshly opened call of the method `name` of shape
/// `shape`, with `options` and `wait`.
///
/// A call that was opened with a request transmits that request and the end
/// of its request stream at once, and its sender is spent. A call that was
/// opened without one transmits nothing yet and has a fresh sender. Both
/// halves are gated exactly where the shape is flow-controlled. The call is
/// under way and no response has arrived.
pub open spec fn opens(
    call: ClientCall,
    name: Seq<char>,
    shape: Shape,
    request: Option<Seq<u8>>,
    options: CallOption,
    wait: Wait,
) -> bool {
    &&& call.method.name@ == name
    &&& call.method.shape == shape
    &&& call.options == options
    &&& call.wait == wait
    &&& frames(call.opening@) == match request {
        Some(payload) => seq![Frame::Data(payload), Frame::EndOfStream],
        None => Seq::<Frame>::empty(),
    }
    &&& call.sender@ == match request {
        Some(_) => SenderModel::spent(shape.spec_flow_controlled(), options.initial_credit as nat),
        None => SenderModel::fresh(shape.spec_flow_controlled(), options.initial_credit as nat),
    }
    &&& call.receiver@ == ReceiverModel::fresh(shape.spec_flow_controlled(), options.grant_window)
    &&& call.status is Active
    &&& !call.answered
}

/// What one inbound frame means to the caller.
#[derive(Debug, PartialEq, Eq)]
pub enum ClientEvent {
    /// A response arrived.
    Response(Vec<u8>),
    /// Credit arrived; what it set free is among the frames to transmit.
    Progress,
    /// The remote side ended the call in good order.
    Completed,
    /// The call ended with this error.
    Failed(RpcError),
    /// The frame arrived after the call was over and was dropped.
    Ignored,
}

/// What one inbound frame asks of the client side.
#[derive(Debug, PartialEq, Eq)]
pub struct ClientStep {
    /// The frames to transmit, in order.
    pub frames: Vec<Envelope>,
    /// What the frame means to the caller.
    pub event: ClientEvent,
}

/// What the client side makes of one inbound frame.
pub ghost enum ClientVerdict {
    /// The call is over, or its responses are: the frame is dropped.
    Ignore,
    /// The frame grants credit for requests.
    Grant(u64),
    /// The call ends with this error: the remote side reported it, or the
    /// frame violates the protocol.
    Fail(RpcError),
    /// The frame carries a response.
    Deliver(Vec<u8>),
    /// The responses are over, in good order.
    Complete,
}

impl ClientModel {
    /// Whether the method answers with exactly one response.
    pub open spec fn answers_once(self) -> bool {
        !self.shape.spec_streams_responses()
    }

    /// The call after it ended with `status`: nothing waits to be sent and
    /// no further frame is taken.
    pub open spec fn ended(self, status: CallStatus) -> ClientModel {
        ClientModel {
            sender: self.sender.aborted(),
            receiver: self.receiver.stopped(),
            status,
            ..self
        }
    }

    /// What the client side makes of `frame`.
    ///
    /// A grant that the credit cannot take ends the call with
    /// `TransportError`. On a method that answers once, a second response,
    /// or the end of the responses before the first, ends the call with
    /// `SerializationError`.
    pub open spec fn verdict(self, frame: Envelope) -> ClientVerdict {
        if !(self.status is Active) {
            ClientVerdict::Ignore
        } else {
            match self.receiver.event(frame) {
                RecvEvent::Ignored => ClientVerdict::Ignore,
                RecvEvent::Credit(n) => if self.sender.can_take(n) {
                    ClientVerdict::Grant(n)
                } else {
                    ClientVerdict::Fail(RpcError::TransportError)
                },
                RecvEvent::Failed(e) => ClientVerdict::Fail(e),
                RecvEvent::Finished => if self.answers_once() && !self.answered {
                    ClientVerdict::Fail(RpcError::SerializationError)
                } else {
                    ClientVerdict::Complete
                },
                RecvEvent::Message { payload, grant } => if self.answers_once() && self.answered {
                    ClientVerdict::Fail(RpcError::SerializationError)
                } else {
                    ClientVerdict::Deliver(payload)
                },
            }
        }
    }

    /// The call after `frame` arrived.
    pub open spec fn after(self, frame: Envelope) -> ClientModel {
        let receiver = self.receiver.after(frame);
        match self.verdict(frame) {
            ClientVerdict::Ignore => if self.status is Active {
                ClientModel { receiver, ..self }
            } else {
                self
            },
            ClientVerdict::Grant(n) => ClientModel {
                receiver,
                sender: self.sender.granted(n).flushed(),
                ..self
            },
            ClientVerdict::Fail(e) => (ClientModel { receiver, ..self }).ended(
                CallStatus::Failed(e),
            ),
            ClientVerdict::Deliver(_) => ClientModel { receiver, answered: true, ..self },
            ClientVerdict::Complete => (ClientModel { receiver, ..self }).ended(
                CallStatus::Completed,
            ),
        }
    }

    /// The frames to transmit for `frame`: what a grant set free, or the
    /// credit owed for a response.
    pub open spec fn frames(self, frame: Envelope) -> Seq<Envelope> {
        match self.verdict(frame) {
            ClientVerdict::Grant(n) => self.sender.granted(n).emitted(),
            ClientVerdict::Deliver(_) => match self.receiver.event(frame) {
                RecvEvent::Message { payload, grant: Some(g) } => seq![g],
                _ => Seq::empty(),
            },
            _ => Seq::empty(),
        }
    }

    /// What `frame` means to the caller.
    pub open spec fn event(self, frame: Envelope) -> ClientEvent {
        match self.verdict(frame) {
            ClientVerdict::Ignore => ClientEvent::Ignored,
            ClientVerdict::Grant(_) => ClientEvent::Progress,
            ClientVerdict::Fail(e) => ClientEvent::Failed(e),
            ClientVerdict::Deliver(payload) => ClientEvent::Response(payload),
            ClientVerdict::Complete => ClientEvent::Completed,
        }
    }

    /// The call after `frames` arrived in order.
    pub open spec fn after_all(self, frames: Seq<Envelope>) -> ClientModel
        decreases frames.len(),
    {
        if frames.len() == 0 {
            self
        } else {
            self.after(frames.first()).after_all(frames.drop_first())
        }
    }

    /// What the caller sees as `frames` arrive in order.
    pub open spec fn events(self, frames: Seq<Envelope>) -> Seq<ClientEvent>
        decreases frames.len(),
    {
        if frames.len() == 0 {
            Seq::empty()
        } else {
            seq![self.event(frames.first())] + self.after(frames.first()).events(
                frames.drop_first(),
            )
        }
    }

    /// The frame that tells the remote side that the call ended with
    /// `error`. None goes out where the connection is lost.
    pub open spec fn report(self, error: RpcError) -> Seq<Envelope> {
        if error is TransportError {
            Seq::empty()
        } else {
            seq![Envelope::Error(error)]
        }
    }

    /// The call after the caller's side ended it with `error`. A call that
    /// is over stays as it is.
    pub open spec fn ended_by_caller(self, error: RpcError) -> ClientModel {
        if self.status is Active {
            self.ended(CallStatus::Failed(error))
        } else {
            self
        }
    }

    /// The frames to transmit when the caller's side ends the call with `error`.
    pub open spec fn report_by_caller(self, error: RpcError) -> Seq<Envelope> {
        if self.status is Active {
            self.report(error)
        } else {
            Seq::empty()
        }
    }

    /// Whether uploading `blob` in chunks of `size` bytes takes this call to
    /// `after` and transmits `frames` by way of `chunks`, the split of the
    /// blob, and `payloads`, the encoded chunks: the payloads wait, in
    /// order, behind what waited before, with the end of the stream behind
    /// them, and what the credit covers goes out.
    pub open spec fn uploads(
        self,
        blob: Seq<u8>,
        size: nat,
        chunks: Seq<ChunkDescriptor>,
        payloads: Seq<Vec<u8>>,
        after: ClientModel,
        frames: Seq<Envelope>,
    ) -> bool {
        &&& is_split(chunks, blob, size)
        &&& carries(payloads, chunks)
        &&& after == (ClientModel {
            sender: self.sender.queued_all(payloads).finishing().flushed(),
            ..self
        })
        &&& frames == self.sender.queued_all(payloads).finishing().emitted()
    }

    /// Whether uploading `blob` in chunks of `size` bytes takes this call to
    /// `after` and transmits `frames`.
    pub open spec fn uploaded(
        self,
        blob: Seq<u8>,
        size: nat,
        after: ClientModel,
        frames: Seq<Envelope>,
    ) -> bool {
        exists|chunks: Seq<ChunkDescriptor>, payloads: Seq<Vec<u8>>|
            #[trigger] self.uploads(blob, size, chunks, payloads, after, frames)
    }

    /// Whether the deadline of the call has passed after `elapsed_millis`.
    pub open spec fn overdue(self, elapsed_millis: u64) -> bool {
        self.timeout_millis matches Some(limit) && elapsed_millis >= limit
    }
}

impl ClientCall {
    /// Ends the call with `error` and says what to tell the remote side.
    fn fail(&mut self, error: RpcError) -> (r: Vec<Envelope>)
        ensures
            final(self)@ == old(self)@.ended(CallStatus::Failed(error)),
            r@ == old(self)@.report(error),
            final(self).method == old(self).method,
            final(self).options == old(self).options,
            final(self).wait == old(self).wait,
            final(self).opening == old(self).opening,
    {
        self.status = CallStatus::Failed(error);
        self.receiver.close();
        let _ = self.sender.abort(error);
        let mut frames: Vec<Envelope> = Vec::new();
        match error {
            RpcError::TransportError => {},
            _ => {
                frames.push(Envelope::Error(error));
            },
        }
        frames
    }

    /// Ends the call on the caller's side with `error`: `Cancelled` where
    /// the caller withdraws, `Timeout` where the deadline passed,
    /// `TransportError` where the connection is lost. What waited to be
    /// sent is dropped at once, every further inbound frame is dropped, and
    /// the frames that tell the remote side are returned. A call that is
    /// over stays as it is.
    pub fn end(&mut self, error: RpcError) -> (r: Vec<Envelope>)
        ensures
            final(self)@ == old(self)@.ended_by_caller(error),
            r@ == old(self)@.report_by_caller(error),
            final(self).method == old(self).method,
            final(self).options == old(self).options,
            final(self).wait == old(self).wait,
            final(self).opening == old(self).opening,
    {
        match self.status {
            CallStatus::Active => self.fail(error),
            _ => Vec::new(),
        }
    }

    /// Withdraws the call: ends it with `Cancelled`.
    pub fn cancel(&mut self) -> (r: Vec<Envelope>)
        ensures
            final(self)@ == old(self)@.ended_by_caller(RpcError::Cancelled),
            r@ == old(self)@.report_by_caller(RpcError::Cancelled),
            final(self).method == old(self).method,
            final(self).options == old(self).options,
            final(self).wait == old(self).wait,
            final(self).opening == old(self).opening,
    {
        self.end(RpcError::Cancelled)
    }

    /// Holds the call to its deadline: where it has one and
    /// `elapsed_millis` since its start have reached it, the call ends
    /// with `Timeout`. Otherwise nothing changes.
    pub fn check_deadline(&mut self, elapsed_millis: u64) -> (r: Vec<Envelope>)
        ensures
            old(self)@.overdue(elapsed_millis) ==> {
                &&& final(self)@ == old(self)@.ended_by_caller(RpcError::Timeout)
                &&& r@ == old(self)@.report_by_caller(RpcError::Timeout)
            },
            !old(self)@.overdue(elapsed_millis) ==> final(self)@ == old(self)@ && r@.len() == 0,
            final(self).method == old(self).method,
            final(self).options == old(self).options,
            final(self).wait == old(self).wait,
            final(self).opening == old(self).opening,
    {
        match self.options.timeout_millis {
            Some(limit) => {
                if elapsed_millis >= limit {
                    self.end(RpcError::Timeout)
                } else {
                    Vec::new()
                }
            },
            None => Vec::new(),
        }
    }

    /// Hands one request to the call, as `StreamSender::send` does. A call
    /// that is over takes none: the request comes back.
    pub fn send(&mut self, payload: Vec<u8>) -> (r: Result<Vec<Envelope>, Vec<u8>>)
        ensures
            old(self)@.sender.accepts() ==> {
                &&& final(self)@ == (ClientModel {
                    sender: old(self)@.sender.queued(payload).flushed(),
                    ..old(self)@
                })
                &&& r matches Ok(frames) && frames@ == old(self)@.sender.queued(payload).emitted()
            },
            !old(self)@.sender.accepts() ==> {
                &&& final(self)@ == old(self)@
                &&& r == Err::<Vec<Envelope>, Vec<u8>>(payload)
            },
            final(self).method == old(self).method,
            final(self).options == old(self).options,
            final(self).wait == old(self).wait,
            final(self).opening == old(self).opening,
    {
        self.sender.send(payload)
    }

    /// Ends the request stream, as `StreamSender::finish` does.
    pub fn finish(&mut self) -> (r: Vec<Envelope>)
        ensures
            final(self)@ == (ClientModel {
                sender: old(self)@.sender.finishing().flushed(),
                ..old(self)@
            }),
            r@ == old(self)@.sender.finishing().emitted(),
            final(self).method == old(self).method,
            final(self).options == old(self).options,
            final(self).wait == old(self).wait,
            final(self).opening == old(self).opening,
    {
        self.sender.finish()
    }

    /// Uploads `blob` as the request stream of a chunked call: the blob is
    /// split into chunks of at most `chunk_size` bytes, numbered from zero
    /// with only the last marked final, and the encoded chunks are handed
    /// to the stream in that order with its end behind them. `Ok` holds
    /// the frames that may go out at once; the rest follows with the
    /// credit that arrives.
    ///
    /// Fails with `ShapeMismatch` on a call of another shape, else with
    /// `SessionClosed` where the request stream takes nothing more, else
    /// with `ChunkTooLarge` where a blob that is not empty is to be cut
    /// into chunks of no bytes. A failure changes nothing.
    pub fn upload(&mut self, blob: &[u8], chunk_size: usize) -> (r: Result<Vec<Envelope>, RpcError>)
        ensures
            r == Err::<Vec<Envelope>, RpcError>(RpcError::ShapeMismatch) <==> !(old(self)@.shape
                is ChunkedDuplexFlow),
            r == Err::<Vec<Envelope>, RpcError>(RpcError::SessionClosed) <==> old(self)@.shape
                is ChunkedDuplexFlow && !old(self)@.sender.accepts(),
            r == Err::<Vec<Envelope>, RpcError>(RpcError::ChunkTooLarge) <==> old(self)@.shape
                is ChunkedDuplexFlow && old(self)@.sender.accepts() && chunk_size == 0
                && blob@.len() > 0,
            r is Err ==> final(self)@ == old(self)@ && (r->Err_0 is ShapeMismatch || r->Err_0
                is SessionClosed || r->Err_0 is ChunkTooLarge),
            r matches Ok(frames) ==> old(self)@.uploaded(
                blob@,
                chunk_size as nat,
                final(self)@,
                frames@,
            ),
            final(self).method == old(self).method,
            final(self).options == old(self).options,
            final(self).wait == old(self).wait,
            final(self).opening == old(self).opening,
    {
        match self.method.shape {
            Shape::ChunkedDuplexFlow => {},
            _ => {
                return Err(RpcError::ShapeMismatch);
            },
        }
        if !self.sender.accepts() {
            return Err(RpcError::SessionClosed);
        }
        match split_blob(blob, chunk_size) {
            Err(e) => Err(e),
            Ok(chunks) => {
                let payloads = encode_all(&chunks);
                let ghost sent = payloads@;
                match self.sender.finish_with(payloads) {
                    Ok(frames) => {
                        assert(old(self)@.uploads(
                            blob@,
                            chunk_size as nat,
                            chunks@,
                            sent,
                            self@,
                            frames@,
                        ));
                        Ok(frames)
                    },
                    Err(_) => Err(RpcError::SessionClosed),
                }
            },
        }
    }

    /// Takes one inbound frame.
    pub fn on_frame(&mut self, frame: Envelope) -> (step: ClientStep)
        ensures
            final(self)@ == old(self)@.after(frame),
            step.frames@ == old(self)@.frames(frame),
            step.event == old(self)@.event(frame),
            final(self).method == old(self).method,
            final(self).options == old(self).options,
            final(self).wait == old(self).wait,
            final(self).opening == old(self).opening,
    {
        match self.status {
            CallStatus::Active => {},
            _ => {
                return ClientStep { frames: Vec::new(), event: ClientEvent::Ignored };
            },
        }
        let once = !self.method.shape.streams_responses();
        match self.receiver.on_frame(frame) {
            RecvEvent::Ignored => ClientStep { frames: Vec::new(), event: ClientEvent::Ignored },
            RecvEvent::Credit(n) => {
                match self.sender.try_grant(n) {
                    Some(frames) => ClientStep { frames, event: ClientEvent::Progress },
                    None => {
                        let _ = self.fail(RpcError::TransportError);
                        ClientStep {
                            frames: Vec::new(),
                            event: ClientEvent::Failed(RpcError::TransportError),
                        }
                    },
                }
            },
            RecvEvent::Failed(e) => {
                let _ = self.fail(e);
                ClientStep { frames: Vec::new(), event: ClientEvent::Failed(e) }
            },
            RecvEvent::Finished => {
                if once && !self.answered {
                    let _ = self.fail(RpcError::SerializationError);
                    ClientStep {
                        frames: Vec::new(),
                        event: ClientEvent::Failed(RpcError::SerializationError),
                    }
                } else {
                    let _ = self.sender.abort(RpcError::Cancelled);
                    self.receiver.close();
                    self.status = CallStatus::Completed;
                    ClientStep { frames: Vec::new(), event: ClientEvent::Completed }
                }
            },
            RecvEvent::Message { payload, grant } => {
                if once && self.answered {
                    let _ = self.fail(RpcError::SerializationError);
                    ClientStep {
                        frames: Vec::new(),
                        event: ClientEvent::Failed(RpcError::SerializationError),
                    }
                } else {
                    self.answered = true;
                    let mut frames: Vec<Envelope> = Vec::new();
                    match grant {
                        Some(g) => {
                            frames.push(g);
                        },
                        None => {},
                    }
                    ClientStep { frames, event: ClientEvent::Response(payload) }
                }
            },
        }
    }
}

/// A generic stub: opens calls of any shape over one channel.
#[derive(Clone, Debug)]
pub struct Client {
    /// The channel the stub calls over.
    pub channel: Channel,
}

impl Client {
    /// A stub that calls over `channel`.
    pub fn new(channel: Channel) -> (r: Client)
        ensures
            r.channel == channel,
    {
        Client { channel }
    }

    /// Opens a call of `method`, with `request` sent whole at once where
    /// there is one.
    fn open(&self, method: &MethodDescriptor, request: Option<&[u8]>, opt: CallOption, wait: Wait)
        -> (r: ClientCall)
        ensures
            opens(
                r,
                method.name@,
                method.shape,
                match request {
                    Some(payload) => Some(payload@),
                    None => None,
                },
                opt,
                wait,
            ),
    {
        let gated = method.shape.flow_controlled();
        let mut opening: Vec<Envelope> = Vec::new();
        let sender = match request {
            Some(payload) => {
                opening.push(Envelope::Data(slice_to_vec(payload)));
                opening.push(Envelope::EndOfStream);
                assert(frames(opening@) =~= seq![Frame::Data(payload@), Frame::EndOfStream]);
                StreamSender::spent(gated, opt.initial_credit)
            },
            None => {
                assert(frames(opening@) =~= Seq::<Frame>::empty());
                StreamSender::new(gated, opt.initial_credit)
            },
        };
        let receiver = StreamReceiver::new(gated, opt.grant_window);
        ClientCall {
            method: method.clone(),
            options: opt,
            wait,
            opening,
            sender,
            receiver,
            status: CallStatus::Active,
            answered: false,
        }
    }

    /// Opens a call with one request and one response, for a caller that
    /// blocks until the response is there. Fails with `ShapeMismatch` where
    /// `method` is not of that kind.
    pub fn unary_call(&self, method: &MethodDescriptor, req: &[u8], opt: CallOption) -> (r: Result<
        ClientCall,
        RpcError,
    >)
        ensures
            match r {
                Ok(call) => method.shape.spec_signature() == CallSignature::Unary && opens(
                    call,
                    method.name@,
                    method.shape,
                    Some(req@),
                    opt,
                    Wait::Block,
                ),
                Err(e) => method.shape.spec_signature() != CallSignature::Unary && e
                    == RpcError::ShapeMismatch,
            },
    {
        match method.shape.signature() {
            CallSignature::Unary => Ok(self.open(method, Some(req), opt, Wait::Block)),
            _ => Err(RpcError::ShapeMismatch),
        }
    }

    /// Opens a call with one request and one response, for a caller that
    /// picks the response up later. Fails with `ShapeMismatch` where
    /// `method` is not of that kind.
    pub fn unary_call_async(&self, method: &MethodDescriptor, req: &[u8], opt: CallOption) -> (r:
        Result<ClientCall, RpcError>)
        ensures
            match r {
                Ok(call) => method.shape.spec_signature() == CallSignature::Unary && opens(
                    call,
                    method.name@,
                    method.shape,
                    Some(req@),
                    opt,
                    Wait::Suspend,
                ),
                Err(e) => method.shape.spec_signature() != CallSignature::Unary && e
                    == RpcError::ShapeMismatch,
            },
    {
        match method.shape.signature() {
            CallSignature::Unary => Ok(self.open(method, Some(req), opt, Wait::Suspend)),
            _ => Err(RpcError::ShapeMismatch),
        }
    }

    /// Opens a call with a stream of requests and one response. Fails with
    /// `ShapeMismatch` where `method` is not of that kind.
    pub fn client_streaming(&self, method: &MethodDescriptor, opt: CallOption) -> (r: Result<
        ClientCall,
        RpcError,
    >)
        ensures
            match r {
                Ok(call) => method.shape.spec_signature() == CallSignature::ClientStreaming
                    && opens(call, method.name@, method.shape, None, opt, Wait::Suspend),
                Err(e) => method.shape.spec_signature() != CallSignature::ClientStreaming && e
                    == RpcError::ShapeMismatch,
            },
    {
        match method.shape.signature() {
            CallSignature::ClientStreaming => Ok(self.open(method, None, opt, Wait::Suspend)),
            _ => Err(RpcError::ShapeMismatch),
        }
    }

    /// Opens a call with one request and a stream of responses. Fails with
    /// `ShapeMismatch` where `method` is not of that kind.
    pub fn server_streaming(&self, method: &MethodDescriptor, req: &[u8], opt: CallOption) -> (r:
        Result<ClientCall, RpcError>)
        ensures
            match r {
                Ok(call) => method.shape.spec_signature() == CallSignature::ServerStreaming
                    && opens(call, method.name@, method.shape, Some(req@), opt, Wait::Suspend),
                Err(e) => method.shape.spec_signature() != CallSignature::ServerStreaming && e
                    == RpcError::ShapeMismatch,
            },
    {
        match method.shape.signature() {
            CallSignature::ServerStreaming => Ok(
                self.open(method, Some(req), opt, Wait::Suspend),
            ),
            _ => Err(RpcError::ShapeMismatch),
        }
    }

    /// Opens a call with independent streams of requests and responses,
    /// flow-controlled where the shape of `method` says so. Fails with
    /// `ShapeMismatch` where `method` is not of that kind.
    pub fn duplex_streaming(&self, method: &MethodDescriptor, opt: CallOption) -> (r: Result<
        ClientCall,
        RpcError,
    >)
        ensures
            match r {
                Ok(call) => method.shape.spec_signature() == CallSignature::Duplex && opens(
                    call,
                    method.name@,
                    method.shape,
                    None,
                    opt,
                    Wait::Suspend,
                ),
                Err(e) => method.shape.spec_signature() != CallSignature::Duplex && e
                    == RpcError::ShapeMismatch,
            },
    {
        match method.shape.signature() {
            CallSignature::Duplex => Ok(self.open(method, None, opt, Wait::Suspend)),
            _ => Err(RpcError::ShapeMismatch),
        }
    }
}

/// Ending a call that is under way releases what it held and settles its
/// outcome: nothing waits to be sent any more, the call has failed with the
/// error it was ended with, and every frame that arrives later is dropped
/// without effect.
pub proof fn lemma_ended_call_holds_nothing(call: ClientModel, error: RpcError, later: Envelope)
    requires
        call.status is Active,
    ensures
        call.ended_by_caller(error).sender.backlog.len() == 0,
        call.ended_by_caller(error).sender.closed,
        call.ended_by_caller(error).receiver.closed,
        call.ended_by_caller(error).status == CallStatus::Failed(error),
        call.ended_by_caller(error).verdict(later) is Ignore,
        call.ended_by_caller(error).frames(later) == Seq::<Envelope>::empty(),
        call.ended_by_caller(error).after(later) == call.ended_by_caller(error),
{
}

/// A call that answers once and is still waiting takes one response and
/// then the end of the responses: the caller sees exactly that response,
/// then the completion of the call, and nothing has to be transmitted
/// unless credit is owed for the response.
pub proof fn lemma_single_response_completes_call(call: ClientModel, response: Vec<u8>)
    requires
        call.answers_once(),
        call.status is Active,
        !call.answered,
        !call.receiver.ended,
        !call.receiver.closed,
    ensures
        call.event(Envelope::Data(response)) == ClientEvent::Response(response),
        call.after(Envelope::Data(response)).event(Envelope::EndOfStream)
            == ClientEvent::Completed,
        call.after(Envelope::Data(response)).after(Envelope::EndOfStream).status
            == CallStatus::Completed,
        call.after(Envelope::Data(response)).frames(Envelope::EndOfStream) == Seq::<
            Envelope,
        >::empty(),
{
}

/// The events of a caller that sees `responses`, in order.
pub open spec fn responses_seen(responses: Seq<Vec<u8>>) -> Seq<ClientEvent> {
    responses.map_values(|payload: Vec<u8>| ClientEvent::Response(payload))
}

/// A call whose responses are a stream, and that is still under way, sees
/// every response the remote side sends, in order, and then the
/// completion of the call: as many responses as were sent, and no error.
pub proof fn lemma_response_stream_is_seen_whole(call: ClientModel, responses: Seq<Vec<u8>>)
    requires
        !call.answers_once(),
        call.status is Active,
        !call.receiver.ended,
        !call.receiver.closed,
    ensures
        call.events(data_frames(responses).push(Envelope::EndOfStream)) == responses_seen(
            responses,
        ).push(ClientEvent::Completed),
        call.after_all(data_frames(responses).push(Envelope::EndOfStream)).status
            == CallStatus::Completed,
    decreases responses.len(),
{
    let frames = data_frames(responses).push(Envelope::EndOfStream);
    let seen = responses_seen(responses).push(ClientEvent::Completed);
    let next = call.after(frames.first());
    if responses.len() == 0 {
        assert(frames.first() == Envelope::EndOfStream);
        assert(frames.drop_first().len() == 0);
        assert(next.events(frames.drop_first()) =~= Seq::<ClientEvent>::empty());
        assert(next.after_all(frames.drop_first()) == next);
        assert(call.events(frames) =~= seen);
    } else {
        let rest = responses.drop_first();
        let rest_frames = data_frames(rest).push(Envelope::EndOfStream);
        assert(frames.first() == Envelope::Data(responses.first()));
        assert(frames.drop_first() =~= rest_frames);
        lemma_response_stream_is_seen_whole(next, rest);
        assert(seen =~= seq![ClientEvent::Response(responses.first())] + responses_seen(
            rest,
        ).push(ClientEvent::Completed));
        assert(call.events(frames) =~= seen);
    }
}

} // verus!
