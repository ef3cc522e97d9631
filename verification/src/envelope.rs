//! The wire unit that travels in one direction of a call.

use vstd::prelude::*;
use crate::error::RpcError;

verus! {

/// A single wire unit: a message, or a frame of the protocol itself.
#[derive(Clone, Debug, PartialEq, Eq)]
pub enum Envelope {
    /// One encoded request or response.
    Data(Vec<u8>),
    /// The receiver permits this many further messages.
    Credit(u64),
    /// The sender will send nothing more in this direction.
    EndOfStream,
    /// The call failed; nothing follows.
    Error(RpcError),
}

/// The mathematical content of an envelope.
pub ghost enum Frame {
    /// One encoded request or response.
    Data(Seq<u8>),
    /// A grant of credit.
    Credit(u64),
    /// The end of one direction of the stream.
    EndOfStream,
    /// The failure of the call.
    Error(RpcError),
}

impl View for Envelope {
    type V = Frame;

    open spec fn view(&self) -> Frame {
        match *self {
            Envelope::Data(payload) => Frame::Data(payload@),
            Envelope::Credit(n) => Frame::Credit(n),
            Envelope::EndOfStream => Frame::EndOfStream,
            Envelope::Error(e) => Frame::Error(e),
        }
    }
}

/// The contents of a run of envelopes, in order.
pub open spec fn frames(envelopes: Seq<Envelope>) -> Seq<Frame> {
    envelopes.map_values(|e: Envelope| e@)
}

/// The message frames that carry `payloads`, in order.
pub open spec fn data_frames(payloads: Seq<Vec<u8>>) -> Seq<Envelope> {
    payloads.map_values(|payload: Vec<u8>| Envelope::Data(payload))
}

impl Frame {
    /// Whether the frame ends its direction of the stream: nothing may follow it.
    pub open spec fn is_terminal(self) -> bool {
        self is EndOfStream || self is Error
    }

    /// Whether the frame belongs to the protocol rather than to the application.
    pub open spec fn is_control(self) -> bool {
        !(self is Data)
    }
}

impl Envelope {
    /// Whether the envelope ends its direction of the stream.
    pub fn is_terminal(&self) -> (r: bool)
        ensures
            r == self@.is_terminal(),
    {
        match self {
            Envelope::EndOfStream | Envelope::Error(_) => true,
            _ => false,
        }
    }

    /// Whether the envelope belongs to the protocol rather than to the application.
    pub fn is_control(&self) -> (r: bool)
        ensures
            r == self@.is_control(),
    {
        match self {
            Envelope::Data(_) => false,
            _ => true,
        }
    }
}

} // verus!
