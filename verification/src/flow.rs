//! The two halves of one direction of a stream, with credit-based flow control.
//!
//! A sender queues what it may not yet transmit and lets it out, in order,
//! as credit arrives. A receiver counts what it consumed and grants that
//! much credit back once a window is full.

use vstd::prelude::*;
use std::collections::VecDeque;
use crate::credit::FlowCredit;
use crate::envelope::Envelope;
use crate::error::RpcError;

verus! {

/// The mathematical content of a sender.
pub ghost struct SenderModel {
    /// Whether sends are gated by credit.
    pub gated: bool,
    /// The messages that may still go out without a further grant.
    pub credit: nat,
    /// The messages that wait for credit, oldest first.
    pub backlog: Seq<Vec<u8>>,
    /// Whether the end of the stream was requested.
    pub finishing: bool,
    /// Whether the last frame of this direction has gone out.
    pub closed: bool,
}

impl SenderModel {
    /// A sender that has sent nothing.
    pub open spec fn fresh(gated: bool, credit: nat) -> SenderModel {
        SenderModel { gated, credit, backlog: Seq::empty(), finishing: false, closed: false }
    }

    /// A sender whose direction of the stream is already over.
    pub open spec fn spent(gated: bool, credit: nat) -> SenderModel {
        SenderModel { gated, credit, backlog: Seq::empty(), finishing: true, closed: true }
    }

    /// Whether further messages are taken.
    pub open spec fn accepts(self) -> bool {
        !self.finishing && !self.closed
    }

    /// How many of the waiting messages may go out now.
    pub open spec fn ready(self) -> nat {
        if self.closed {
            0
        } else if self.gated && self.credit < self.backlog.len() {
            self.credit
        } else {
            self.backlog.len()
        }
    }

    /// The frames that go out now: the waiting messages that the credit
    /// covers, oldest first, then the end of the stream where that was
    /// requested and nothing is left waiting.
    pub open spec fn emitted(self) -> Seq<Envelope> {
        let data = Seq::new(self.ready(), |i: int| Envelope::Data(self.backlog[i]));
        if !self.closed && self.finishing && self.ready() == self.backlog.len() {
            data.push(Envelope::EndOfStream)
        } else {
            data
        }
    }

    /// The sender after those frames went out.
    pub open spec fn flushed(self) -> SenderModel {
        SenderModel {
            credit: if self.gated {
                (self.credit - self.ready()) as nat
            } else {
                self.credit
            },
            backlog: self.backlog.skip(self.ready() as int),
            closed: self.closed || (self.finishing && self.ready() == self.backlog.len()),
            ..self
        }
    }

    /// The sender with one more message waiting.
    pub open spec fn queued(self, payload: Vec<u8>) -> SenderModel {
        SenderModel { backlog: self.backlog.push(payload), ..self }
    }

    /// The sender with every message of `payloads` waiting, in order,
    /// behind what waited before.
    pub open spec fn queued_all(self, payloads: Seq<Vec<u8>>) -> SenderModel {
        SenderModel { backlog: self.backlog + payloads, ..self }
    }

    /// Whether the credit can take a grant of `n` more messages.
    pub open spec fn can_take(self, n: u64) -> bool {
        self.gated ==> self.credit + n <= u64::MAX
    }

    /// The sender with `n` more messages of credit. A sender that is not
    /// gated keeps no account.
    pub open spec fn granted(self, n: u64) -> SenderModel {
        SenderModel {
            credit: if self.gated {
                self.credit + n as nat
            } else {
                self.credit
            },
            ..self
        }
    }

    /// The sender with the end of the stream requested.
    pub open spec fn finishing(self) -> SenderModel {
        SenderModel { finishing: true, ..self }
    }

    /// The sender after its direction was cut off: nothing waits any more.
    pub open spec fn aborted(self) -> SenderModel {
        SenderModel { backlog: Seq::empty(), finishing: true, closed: true, ..self }
    }
}

/// The sending half of one direction of a stream.
pub struct StreamSender {
    gated: bool,
    credit: FlowCredit,
    backlog: VecDeque<Vec<u8>>,
    finishing: bool,
    closed: bool,
}

impl View for StreamSender {
    type V = SenderModel;

    closed spec fn view(&self) -> SenderModel {
        SenderModel {
            gated: self.gated,
            credit: self.credit@,
            backlog: self.backlog@,
            finishing: self.finishing,
            closed: self.closed,
        }
    }
}

impl StreamSender {
    /// A sender that has sent nothing. Where `gated`, it may transmit
    /// `initial_credit` messages before it needs a grant.
    pub fn new(gated: bool, initial_credit: u64) -> (r: StreamSender)
        ensures
            r@ == SenderModel::fresh(gated, initial_credit as nat),
    {
        StreamSender {
            gated,
            credit: FlowCredit::new(initial_credit),
            backlog: VecDeque::new(),
            finishing: false,
            closed: false,
        }
    }

    /// A sender whose direction is over from the start, as after a request
    /// that was sent whole when the call was opened.
    pub fn spent(gated: bool, initial_credit: u64) -> (r: StreamSender)
        ensures
            r@ == SenderModel::spent(gated, initial_credit as nat),
    {
        StreamSender {
            gated,
            credit: FlowCredit::new(initial_credit),
            backlog: VecDeque::new(),
            finishing: true,
            closed: true,
        }
    }

    /// The usable credit.
    pub fn credit(&self) -> (r: u64)
        ensures
            r == self@.credit,
    {
        self.credit.available()
    }

    /// The number of messages that wait for credit.
    pub fn waiting(&self) -> (r: usize)
        ensures
            r == self@.backlog.len(),
    {
        self.backlog.len()
    }

    /// Whether the last frame of this direction has gone out.
    pub fn is_closed(&self) -> (r: bool)
        ensures
            r == self@.closed,
    {
        self.closed
    }

    /// Whether further messages are taken.
    pub fn accepts(&self) -> (r: bool)
        ensures
            r == self@.accepts(),
    {
        !self.finishing && !self.closed
    }

    /// Lets out what may go out now.
    fn flush(&mut self) -> (frames: Vec<Envelope>)
        ensures
            final(self)@ == old(self)@.flushed(),
            frames@ == old(self)@.emitted(),
    {
        let mut frames: Vec<Envelope> = Vec::new();
        if self.closed {
            assert(self@.backlog =~= old(self)@.backlog.skip(0));
            assert(frames@ =~= old(self)@.emitted());
            return frames;
        }
        let ghost start = self@;
        let ghost mut sent: int = 0;
        while self.backlog.len() > 0 && (!self.gated || self.credit.available() > 0)
            invariant
                start == old(self)@,
                !start.closed,
                self.gated == start.gated,
                self.finishing == start.finishing,
                !self.closed,
                0 <= sent <= start.backlog.len(),
                start.gated ==> sent <= start.credit,
                self.credit@ == if start.gated {
                    (start.credit - sent) as nat
                } else {
                    start.credit
                },
                self.backlog@ == start.backlog.skip(sent),
                frames@ == Seq::new(sent as nat, |i: int| Envelope::Data(start.backlog[i])),
            decreases self.backlog@.len(),
        {
            if self.gated {
                let _ = self.credit.try_send();
            }
            let next = self.backlog.pop_front();
            match next {
                Some(payload) => {
                    assert(payload == start.backlog[sent]);
                    frames.push(Envelope::Data(payload));
                },
                None => {},
            }
            assert(self.backlog@ =~= start.backlog.skip(sent + 1));
            proof {
                sent = sent + 1;
            }
            assert(frames@ =~= Seq::new(sent as nat, |i: int| Envelope::Data(start.backlog[i])));
        }
        assert(sent == start.ready());
        if self.finishing && self.backlog.len() == 0 {
            self.closed = true;
            frames.push(Envelope::EndOfStream);
        }
        assert(frames@ =~= start.emitted());
        frames
    }

    /// Hands one message to the stream.
    ///
    /// The message goes out at once where nothing waits before it and, on a
    /// gated sender, credit is left. Otherwise it waits its turn: nothing is
    /// transmitted and nothing is lost. `Ok` holds the frames to transmit
    /// now. After the end of the stream was requested no message is taken:
    /// the message comes back as `Err` and nothing changes.
    pub fn send(&mut self, payload: Vec<u8>) -> (r: Result<Vec<Envelope>, Vec<u8>>)
        ensures
            old(self)@.accepts() ==> {
                &&& final(self)@ == old(self)@.queued(payload).flushed()
                &&& r matches Ok(frames) && frames@ == old(self)@.queued(payload).emitted()
            },
            !old(self)@.accepts() ==> {
                &&& final(self)@ == old(self)@
                &&& r == Err::<Vec<Envelope>, Vec<u8>>(payload)
            },
    {
        if self.finishing || self.closed {
            return Err(payload);
        }
        self.backlog.push_back(payload);
        Ok(self.flush())
    }

    /// Hands a run of messages to the stream, in order. After the end of
    /// the stream was requested none is taken: the messages come back as
    /// `Err` and nothing changes.
    pub fn send_all(&mut self, payloads: Vec<Vec<u8>>) -> (r: Result<Vec<Envelope>, Vec<Vec<u8>>>)
        ensures
            old(self)@.accepts() ==> {
                &&& final(self)@ == old(self)@.queued_all(payloads@).flushed()
                &&& r matches Ok(frames) && frames@ == old(self)@.queued_all(payloads@).emitted()
            },
            !old(self)@.accepts() ==> {
                &&& final(self)@ == old(self)@
                &&& r == Err::<Vec<Envelope>, Vec<Vec<u8>>>(payloads)
            },
    {
        if self.finishing || self.closed {
            return Err(payloads);
        }
        self.enqueue(payloads);
        Ok(self.flush())
    }

    /// Puts `payloads` behind what waits, in order.
    fn enqueue(&mut self, payloads: Vec<Vec<u8>>)
        ensures
            final(self)@ == old(self)@.queued_all(payloads@),
    {
        let mut payloads = payloads;
        let ghost all = payloads@;
        let count: usize = payloads.len();
        let mut i: usize = 0;
        while i < count
            invariant
                count == all.len(),
                payloads@.len() == count,
                i <= count,
                forall|j: int| i <= j < count ==> payloads@[j] == all[j],
                self.backlog@ == old(self)@.backlog + all.take(i as int),
                self.gated == old(self).gated,
                self.credit == old(self).credit,
                self.finishing == old(self).finishing,
                self.closed == old(self).closed,
            decreases count - i,
        {
            let mut payload: Vec<u8> = Vec::new();
            core::mem::swap(&mut payloads[i], &mut payload);
            self.backlog.push_back(payload);
            assert(self.backlog@ =~= old(self)@.backlog + all.take(i + 1));
            i += 1;
        }
        assert(all.take(count as int) =~= all);
    }

    /// Hands the last run of messages to the stream and requests its end
    /// behind them. After the end of the stream was requested none is
    /// taken: the messages come back as `Err` and nothing changes.
    pub fn finish_with(&mut self, payloads: Vec<Vec<u8>>) -> (r: Result<
        Vec<Envelope>,
        Vec<Vec<u8>>,
    >)
        ensures
            old(self)@.accepts() ==> {
                &&& final(self)@ == old(self)@.queued_all(payloads@).finishing().flushed()
                &&& r matches Ok(frames) && frames@ == old(self)@.queued_all(
                    payloads@,
                ).finishing().emitted()
            },
            !old(self)@.accepts() ==> {
                &&& final(self)@ == old(self)@
                &&& r == Err::<Vec<Envelope>, Vec<Vec<u8>>>(payloads)
            },
    {
        if self.finishing || self.closed {
            return Err(payloads);
        }
        self.enqueue(payloads);
        self.finishing = true;
        Ok(self.flush())
    }

    /// Takes a grant of `n` messages from the receiver and returns the
    /// frames it sets free.
    pub fn grant(&mut self, n: u64) -> (frames: Vec<Envelope>)
        requires
            old(self)@.can_take(n),
        ensures
            final(self)@ == old(self)@.granted(n).flushed(),
            frames@ == old(self)@.granted(n).emitted(),
    {
        if self.gated {
            self.credit.grant(n);
        }
        self.flush()
    }

    /// As `grant`, for a grant that comes from outside: a grant that the
    /// credit cannot take is refused with `None`, and nothing changes.
    pub fn try_grant(&mut self, n: u64) -> (r: Option<Vec<Envelope>>)
        ensures
            old(self)@.can_take(n) ==> {
                &&& final(self)@ == old(self)@.granted(n).flushed()
                &&& r matches Some(frames) && frames@ == old(self)@.granted(n).emitted()
            },
            !old(self)@.can_take(n) ==> final(self)@ == old(self)@ && r is None,
    {
        if self.gated && n > u64::MAX - self.credit.available() {
            None
        } else {
            Some(self.grant(n))
        }
    }

    /// Requests the end of the stream. The end-of-stream frame goes out
    /// behind the last waiting message: at once where nothing waits, else
    /// with the grant that sets the last message free.
    pub fn finish(&mut self) -> (frames: Vec<Envelope>)
        ensures
            final(self)@ == old(self)@.finishing().flushed(),
            frames@ == old(self)@.finishing().emitted(),
    {
        self.finishing = true;
        self.flush()
    }

    /// Cuts the direction off with an error. What waited is dropped. The
    /// error frame is returned unless the last frame of this direction has
    /// already gone out.
    pub fn abort(&mut self, error: RpcError) -> (frames: Vec<Envelope>)
        ensures
            final(self)@ == old(self)@.aborted(),
            frames@ == if old(self)@.closed {
                Seq::<Envelope>::empty()
            } else {
                seq![Envelope::Error(error)]
            },
    {
        let mut frames: Vec<Envelope> = Vec::new();
        if !self.closed {
            frames.push(Envelope::Error(error));
        }
        self.backlog = VecDeque::new();
        self.finishing = true;
        self.closed = true;
        assert(self@.backlog =~= Seq::<Vec<u8>>::empty());
        assert(frames@ =~= if old(self)@.closed {
            Seq::<Envelope>::empty()
        } else {
            seq![Envelope::Error(error)]
        });
        frames
    }
}

/// What one inbound frame means to the receiving side.
#[derive(Debug, PartialEq, Eq)]
pub enum RecvEvent {
    /// A message arrived. Where `grant` is present, that frame is owed to
    /// the peer.
    Message { payload: Vec<u8>, grant: Option<Envelope> },
    /// The peer grants credit to this side's sender.
    Credit(u64),
    /// The peer ended its direction of the stream.
    Finished,
    /// The peer reported the failure of the call.
    Failed(RpcError),
    /// The frame was dropped: a message or a second end after the end of
    /// the stream, or any frame after the receiver stopped listening.
    Ignored,
}

/// The mathematical content of a receiver.
pub ghost struct ReceiverModel {
    /// Whether consumed messages are answered with credit.
    pub gated: bool,
    /// The number of consumed messages after which credit is granted.
    pub window: u64,
    /// The messages consumed and not yet answered with credit.
    pub pending: u64,
    /// Whether the peer's messages are over.
    pub ended: bool,
    /// Whether the receiver has stopped listening.
    pub closed: bool,
}

impl ReceiverModel {
    /// A receiver that has seen nothing.
    pub open spec fn fresh(gated: bool, window: u64) -> ReceiverModel {
        ReceiverModel { gated, window, pending: 0, ended: false, closed: false }
    }

    /// The receiver once it has stopped listening.
    pub open spec fn stopped(self) -> ReceiverModel {
        ReceiverModel { ended: true, closed: true, ..self }
    }

    /// Whether consuming one more message fills the window.
    pub open spec fn grant_due(self) -> bool {
        self.gated && self.pending + 1 >= self.window
    }

    /// What `frame` means to this receiver.
    ///
    /// The end of the stream ends the peer's messages, not its grants and
    /// not its word on the call: after it a grant still counts, since it
    /// speaks of the other direction, and an error still ends the call.
    pub open spec fn event(self, frame: Envelope) -> RecvEvent {
        if self.closed {
            RecvEvent::Ignored
        } else {
            match frame {
                Envelope::Data(payload) => if self.ended {
                    RecvEvent::Ignored
                } else {
                    RecvEvent::Message {
                        payload,
                        grant: if self.grant_due() {
                            Some(Envelope::Credit((self.pending + 1) as u64))
                        } else {
                            None
                        },
                    }
                },
                Envelope::Credit(n) => RecvEvent::Credit(n),
                Envelope::EndOfStream => if self.ended {
                    RecvEvent::Ignored
                } else {
                    RecvEvent::Finished
                },
                Envelope::Error(e) => RecvEvent::Failed(e),
            }
        }
    }

    /// The receiver after `frame` arrived.
    pub open spec fn after(self, frame: Envelope) -> ReceiverModel {
        if self.closed {
            self
        } else {
            match frame {
                Envelope::Data(_) => if self.ended || !self.gated {
                    self
                } else if self.grant_due() {
                    ReceiverModel { pending: 0, ..self }
                } else {
                    ReceiverModel { pending: (self.pending + 1) as u64, ..self }
                },
                Envelope::Credit(_) => self,
                Envelope::EndOfStream => ReceiverModel { ended: true, ..self },
                Envelope::Error(_) => self.stopped(),
            }
        }
    }
}

/// The receiving half of one direction of a stream.
pub struct StreamReceiver {
    gated: bool,
    window: u64,
    pending: u64,
    ended: bool,
    closed: bool,
}

impl View for StreamReceiver {
    type V = ReceiverModel;

    closed spec fn view(&self) -> ReceiverModel {
        ReceiverModel {
            gated: self.gated,
            window: self.window,
            pending: self.pending,
            ended: self.ended,
            closed: self.closed,
        }
    }
}

impl StreamReceiver {
    #[verifier::type_invariant]
    spec fn inv(&self) -> bool {
        self.pending < self.window || self.pending == 0
    }

    /// A receiver that has seen nothing. Where `gated`, it grants credit
    /// each time it has consumed `window` messages; a window of zero counts
    /// as one.
    pub fn new(gated: bool, window: u64) -> (r: StreamReceiver)
        ensures
            r@ == ReceiverModel::fresh(gated, window),
    {
        StreamReceiver { gated, window, pending: 0, ended: false, closed: false }
    }

    /// Whether the peer's messages are over.
    pub fn is_ended(&self) -> (r: bool)
        ensures
            r == self@.ended,
    {
        self.ended
    }

    /// Whether the receiver has stopped listening.
    pub fn is_closed(&self) -> (r: bool)
        ensures
            r == self@.closed,
    {
        self.closed
    }

    /// The messages consumed and not yet answered with credit.
    pub fn pending(&self) -> (r: u64)
        ensures
            r == self@.pending,
            r < self@.window || r == 0,
    {
        proof {
            use_type_invariant(self);
        }
        self.pending
    }

    /// Takes one inbound frame.
    ///
    /// A message is handed on; on a gated receiver it counts towards the
    /// window, and the message that fills the window comes with a grant of
    /// as much credit as was consumed since the last grant. Credit, the end
    /// of the stream and an error are reported as such. After the end of
    /// the stream further messages are dropped, while grants and an error
    /// still count. After an error every frame is dropped.
    pub fn on_frame(&mut self, frame: Envelope) -> (r: RecvEvent)
        ensures
            final(self)@ == old(self)@.after(frame),
            r == old(self)@.event(frame),
    {
        proof {
            use_type_invariant(&*self);
        }
        if self.closed {
            return RecvEvent::Ignored;
        }
        match frame {
            Envelope::Data(payload) => {
                if self.ended {
                    RecvEvent::Ignored
                } else if !self.gated {
                    RecvEvent::Message { payload, grant: None }
                } else if self.window <= 1 || self.pending >= self.window - 1 {
                    let consumed: u64 = self.pending + 1;
                    self.pending = 0;
                    RecvEvent::Message { payload, grant: Some(Envelope::Credit(consumed)) }
                } else {
                    self.pending = self.pending + 1;
                    RecvEvent::Message { payload, grant: None }
                }
            },
            Envelope::Credit(n) => RecvEvent::Credit(n),
            Envelope::EndOfStream => {
                if self.ended {
                    RecvEvent::Ignored
                } else {
                    self.ended = true;
                    RecvEvent::Finished
                }
            },
            Envelope::Error(e) => {
                self.ended = true;
                self.closed = true;
                RecvEvent::Failed(e)
            },
        }
    }

    /// Stops listening: every further frame is dropped.
    pub fn close(&mut self)
        ensures
            final(self)@ == old(self)@.stopped(),
    {
        proof {
            use_type_invariant(&*self);
        }
        self.ended = true;
        self.closed = true;
    }
}

/// On a gated sender without credit a message that is handed over waits:
/// nothing is transmitted, nothing is lost, and the credit stays at zero.
pub proof fn lemma_send_without_credit_waits(sender: SenderModel, payload: Vec<u8>)
    requires
        sender.accepts(),
        sender.gated,
        sender.credit == 0,
    ensures
        sender.queued(payload).emitted() == Seq::<Envelope>::empty(),
        sender.queued(payload).flushed().backlog == sender.backlog.push(payload),
        sender.queued(payload).flushed().credit == 0,
{
    let queued = sender.queued(payload);
    assert(queued.ready() == 0);
    assert(queued.emitted() =~= Seq::<Envelope>::empty());
    assert(queued.flushed().backlog =~= sender.backlog.push(payload));
}

/// What goes out never exceeds the credit of a gated sender, each message
/// that goes out costs one unit, and the messages go out in the order in
/// which they were handed over: what went out, followed by what still
/// waits, is what waited before.
pub proof fn lemma_flush_keeps_order_and_budget(sender: SenderModel)
    ensures
        sender.gated ==> sender.ready() <= sender.credit,
        sender.gated ==> sender.flushed().credit + sender.ready() == sender.credit,
        sender.ready() <= sender.backlog.len(),
        forall|i: int|
            0 <= i < sender.ready() ==> #[trigger] sender.emitted()[i] == Envelope::Data(
                sender.backlog[i],
            ),
        sender.backlog == sender.backlog.take(sender.ready() as int) + sender.flushed().backlog,
{
    assert(sender.backlog =~= sender.backlog.take(sender.ready() as int)
        + sender.flushed().backlog);
}

/// Handing messages over in two steps transmits the same frames, in the
/// same order, and leaves the sender in the same state as handing them
/// over at once.
pub proof fn lemma_sending_in_steps(sender: SenderModel, more: Seq<Vec<u8>>)
    requires
        sender.accepts(),
    ensures
        sender.flushed().queued_all(more).flushed() == sender.queued_all(more).flushed(),
        sender.emitted() + sender.flushed().queued_all(more).emitted() == sender.queued_all(
            more,
        ).emitted(),
{
    let first = sender.flushed();
    let stepwise = first.queued_all(more);
    let at_once = sender.queued_all(more);
    assert(at_once.ready() == sender.ready() + stepwise.ready());
    assert(stepwise.flushed().backlog =~= at_once.flushed().backlog);
    assert(sender.emitted() + stepwise.emitted() =~= at_once.emitted());
}

/// Once the sender has let out what it may, nothing more goes out until
/// something changes.
pub proof fn lemma_flush_is_exhaustive(sender: SenderModel)
    ensures
        sender.flushed().ready() == 0,
        sender.flushed().emitted() == Seq::<Envelope>::empty(),
        sender.flushed().flushed() == sender.flushed(),
{
    let once = sender.flushed();
    assert(once.ready() == 0);
    assert(once.emitted() =~= Seq::<Envelope>::empty());
    assert(once.flushed().backlog =~= once.backlog);
}

/// The end of the stream is the last frame of its direction: once it has
/// gone out, neither a message nor a grant nor a second request to end
/// makes the sender transmit anything.
pub proof fn lemma_nothing_follows_the_end(sender: SenderModel, payload: Vec<u8>, n: u64)
    requires
        sender.closed,
    ensures
        !sender.accepts(),
        sender.queued(payload).emitted() == Seq::<Envelope>::empty(),
        sender.granted(n).emitted() == Seq::<Envelope>::empty(),
        sender.finishing().emitted() == Seq::<Envelope>::empty(),
{
    assert(sender.queued(payload).emitted() =~= Seq::<Envelope>::empty());
    assert(sender.granted(n).emitted() =~= Seq::<Envelope>::empty());
    assert(sender.finishing().emitted() =~= Seq::<Envelope>::empty());
}

/// A grant of `n` raises the credit of a gated sender by exactly `n`
/// before anything is let out, and each message it sets free costs one.
pub proof fn lemma_grant_raises_credit(sender: SenderModel, n: u64)
    requires
        sender.gated,
    ensures
        sender.granted(n).credit == sender.credit + n,
        sender.granted(n).flushed().credit + sender.granted(n).ready() == sender.credit + n,
{
}

/// A gated receiver grants back exactly what it consumed: each message
/// either joins the pending ones or comes with a grant for all of them
/// and itself.
pub proof fn lemma_grants_match_consumption(receiver: ReceiverModel, payload: Vec<u8>)
    requires
        receiver.gated,
        !receiver.ended,
        !receiver.closed,
        receiver.pending < u64::MAX,
    ensures
        match receiver.event(Envelope::Data(payload)) {
            RecvEvent::Message { payload: delivered, grant: Some(Envelope::Credit(n)) } => {
                &&& delivered == payload
                &&& n == receiver.pending + 1
                &&& receiver.after(Envelope::Data(payload)).pending == 0
            },
            RecvEvent::Message { payload: delivered, grant: None } => {
                &&& delivered == payload
                &&& receiver.after(Envelope::Data(payload)).pending == receiver.pending + 1
            },
            _ => false,
        },
{
}

} // verus!
