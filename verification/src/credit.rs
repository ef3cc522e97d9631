//! Flow credit: how many further messages a sender may emit.

use vstd::prelude::*;

verus! {

/// The credit each side starts with where none was agreed.
pub const DEFAULT_INITIAL_CREDIT: u64 = 16;

/// The number of messages a sender may still emit without further
/// authorization. Only grants from the receiver raise it; each message sent
/// lowers it by one; it never drops below zero.
#[derive(Debug)]
pub struct FlowCredit {
    available: u64,
}

impl View for FlowCredit {
    type V = nat;

    closed spec fn view(&self) -> nat {
        self.available as nat
    }
}

impl FlowCredit {
    /// A credit of `initial` messages.
    pub fn new(initial: u64) -> (r: FlowCredit)
        ensures
            r@ == initial,
    {
        FlowCredit { available: initial }
    }

    /// The usable credit.
    pub fn available(&self) -> (r: u64)
        ensures
            r == self@,
    {
        self.available
    }

    /// Adds a grant of `n` messages to the credit. Grants add up; none
    /// resets the credit.
    pub fn grant(&mut self, n: u64)
        requires
            old(self)@ + n <= u64::MAX,
        ensures
            final(self)@ == old(self)@ + n,
    {
        self.available = self.available + n;
    }

    /// Asks to send one message. With credit left, one unit is spent and the
    /// message may go out; at zero credit nothing changes and the sender
    /// has to wait for a grant.
    pub fn try_send(&mut self) -> (permitted: bool)
        ensures
            permitted == (old(self)@ > 0),
            final(self)@ == spent(old(self)@),
    {
        if self.available > 0 {
            self.available = self.available - 1;
            true
        } else {
            false
        }
    }
}

/// The credit left after one attempt to send.
pub open spec fn spent(credit: nat) -> nat {
    if credit > 0 {
        (credit - 1) as nat
    } else {
        0
    }
}

/// What happens to the credit of one sender.
pub ghost enum CreditEvent {
    /// The receiver grants this many messages.
    Grant(u64),
    /// The sender attempts to send one message.
    Send,
}

/// The credit after `events` happened, in order, to a credit of `initial`.
pub open spec fn credit_after(initial: nat, events: Seq<CreditEvent>) -> nat
    decreases events.len(),
{
    if events.len() == 0 {
        initial
    } else {
        let before = credit_after(initial, events.drop_last());
        match events.last() {
            CreditEvent::Grant(n) => before + n as nat,
            CreditEvent::Send => spent(before),
        }
    }
}

/// The number of messages that went out while `events` happened: the
/// attempts made with credit left.
pub open spec fn transmitted(initial: nat, events: Seq<CreditEvent>) -> nat
    decreases events.len(),
{
    if events.len() == 0 {
        0
    } else {
        let before = credit_after(initial, events.drop_last());
        let sent = transmitted(initial, events.drop_last());
        match events.last() {
            CreditEvent::Grant(_) => sent,
            CreditEvent::Send => if before > 0 {
                sent + 1
            } else {
                sent
            },
        }
    }
}

/// The number of messages that had to wait while `events` happened: the
/// attempts made at zero credit.
pub open spec fn suspended(initial: nat, events: Seq<CreditEvent>) -> nat
    decreases events.len(),
{
    if events.len() == 0 {
        0
    } else {
        let before = credit_after(initial, events.drop_last());
        let waiting = suspended(initial, events.drop_last());
        match events.last() {
            CreditEvent::Grant(_) => waiting,
            CreditEvent::Send => if before > 0 {
                waiting
            } else {
                waiting + 1
            },
        }
    }
}

/// The sum of the grants among `events`.
pub open spec fn granted(events: Seq<CreditEvent>) -> nat
    decreases events.len(),
{
    if events.len() == 0 {
        0
    } else {
        match events.last() {
            CreditEvent::Grant(n) => granted(events.drop_last()) + n as nat,
            CreditEvent::Send => granted(events.drop_last()),
        }
    }
}

/// The number of attempts to send among `events`.
pub open spec fn attempts(events: Seq<CreditEvent>) -> nat
    decreases events.len(),
{
    if events.len() == 0 {
        0
    } else {
        match events.last() {
            CreditEvent::Grant(_) => attempts(events.drop_last()),
            CreditEvent::Send => attempts(events.drop_last()) + 1,
        }
    }
}

/// Whatever the interleaving of grants and attempts to send, credit is
/// conserved: what went out plus what is left is what was there at the
/// start plus what was granted. So no more goes out than was authorized, the
/// credit never falls below zero, and every attempt either went out or
/// waited.
pub proof fn lemma_credit_conserved(initial: nat, events: Seq<CreditEvent>)
    ensures
        transmitted(initial, events) + credit_after(initial, events) == initial + granted(events),
        transmitted(initial, events) <= initial + granted(events),
        credit_after(initial, events) >= 0,
        transmitted(initial, events) + suspended(initial, events) == attempts(events),
    decreases events.len(),
{
    if events.len() > 0 {
        lemma_credit_conserved(initial, events.drop_last());
    }
}

/// An attempt to send at zero credit transmits nothing and leaves the
/// credit at zero: the message waits.
pub proof fn lemma_send_at_zero_waits(initial: nat, events: Seq<CreditEvent>)
    requires
        credit_after(initial, events) == 0,
    ensures
        credit_after(initial, events.push(CreditEvent::Send)) == 0,
        transmitted(initial, events.push(CreditEvent::Send)) == transmitted(initial, events),
        suspended(initial, events.push(CreditEvent::Send)) == suspended(initial, events) + 1,
{
    assert(events.push(CreditEvent::Send).drop_last() =~= events);
}

/// A grant of `n` raises the usable credit by exactly `n`, whatever
/// happened before.
pub proof fn lemma_grant_adds(initial: nat, events: Seq<CreditEvent>, n: u64)
    ensures
        credit_after(initial, events.push(CreditEvent::Grant(n))) == credit_after(initial, events)
            + n,
        transmitted(initial, events.push(CreditEvent::Grant(n))) == transmitted(initial, events),
{
    assert(events.push(CreditEvent::Grant(n)).drop_last() =~= events);
}

} // verus!
