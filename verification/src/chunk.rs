//! Chunked transfer of one blob: the reassembly session on the receiving
//! side and the splitting of a blob on the sending side.

use vstd::prelude::*;
use vstd::slice::{slice_subrange, slice_to_vec};
use crate::error::RpcError;

verus! {

/// One ordered fragment of a blob.
#[derive(Clone, Debug, PartialEq, Eq)]
pub struct ChunkDescriptor {
    /// Position of the chunk in its session, counted from zero.
    pub sequence_number: u64,
    /// The bytes this chunk carries.
    pub payload: Vec<u8>,
    /// Whether this chunk is the last of its session.
    pub is_final: bool,
}

/// The configured bounds of a reassembly session, in bytes.
#[derive(Clone, Copy, Debug, PartialEq, Eq, Structural)]
pub struct ReassemblyLimits {
    /// The largest payload a single chunk may carry.
    pub max_chunk: usize,
    /// The largest blob a session may accumulate.
    pub max_blob: usize,
}

/// Where a reassembly session stands in its life.
#[derive(Clone, Copy, Debug, PartialEq, Eq, Structural)]
pub enum SessionState {
    /// Chunks are being accepted.
    Open,
    /// The final chunk was accepted and the blob handed out.
    Closed,
    /// The session ended without a blob: a violation, a cancellation or
    /// the end of the stream discarded what had accumulated.
    Aborted,
}

/// The mathematical content of a reassembly session.
pub ghost struct SessionModel {
    /// The bounds the session enforces.
    pub limits: ReassemblyLimits,
    /// The sequence number the next chunk must carry.
    pub expected: nat,
    /// The bytes accumulated so far.
    pub data: Seq<u8>,
    /// The stage of the session.
    pub state: SessionState,
}

/// What accepting one chunk yields: nothing yet, the finished blob, or a violation.
pub type StepResult = Result<Option<Seq<u8>>, RpcError>;

impl SessionModel {
    /// A session that has accepted nothing.
    pub open spec fn fresh(limits: ReassemblyLimits) -> SessionModel {
        SessionModel { limits, expected: 0, data: Seq::empty(), state: SessionState::Open }
    }

    /// The invariant of every session: the accumulation respects the blob
    /// bound, and a session that is no longer open holds no bytes.
    pub open spec fn wf(self) -> bool {
        &&& self.data.len() <= self.limits.max_blob
        &&& !(self.state is Open) ==> self.data.len() == 0
    }

    /// The violation, if any, that a chunk with this sequence number and
    /// payload commits against the session.
    pub open spec fn violation(self, sequence_number: u64, payload: Seq<u8>) -> Option<RpcError> {
        if !(self.state is Open) {
            Some(RpcError::SessionClosed)
        } else if sequence_number as nat != self.expected {
            Some(RpcError::OutOfOrderChunk)
        } else if payload.len() > self.limits.max_chunk {
            Some(RpcError::ChunkTooLarge)
        } else if self.data.len() + payload.len() > self.limits.max_blob {
            Some(RpcError::BlobTooLarge)
        } else {
            None
        }
    }

    /// The session after the stream it belongs to has ended or was
    /// cancelled: nothing accumulated is kept.
    pub open spec fn released(self) -> SessionModel {
        SessionModel {
            data: Seq::empty(),
            state: if self.state is Open {
                SessionState::Aborted
            } else {
                self.state
            },
            ..self
        }
    }

    /// The session after a chunk was submitted to it.
    pub open spec fn after(self, sequence_number: u64, payload: Seq<u8>, is_final: bool)
        -> SessionModel {
        match self.violation(sequence_number, payload) {
            Some(_) => self.released(),
            None => if is_final {
                SessionModel {
                    expected: self.expected + 1,
                    data: Seq::empty(),
                    state: SessionState::Closed,
                    ..self
                }
            } else {
                SessionModel { expected: self.expected + 1, data: self.data + payload, ..self }
            },
        }
    }

    /// What submitting a chunk yields.
    pub open spec fn yields(self, sequence_number: u64, payload: Seq<u8>, is_final: bool)
        -> StepResult {
        match self.violation(sequence_number, payload) {
            Some(e) => Err(e),
            None => if is_final {
                Ok(Some(self.data + payload))
            } else {
                Ok(None)
            },
        }
    }
}

impl SessionModel {
    /// The session after `chunk` was submitted to it.
    pub open spec fn step(self, chunk: ChunkDescriptor) -> SessionModel {
        self.after(chunk.sequence_number, chunk.payload@, chunk.is_final)
    }

    /// What submitting `chunk` yields.
    pub open spec fn outcome(self, chunk: ChunkDescriptor) -> StepResult {
        self.yields(chunk.sequence_number, chunk.payload@, chunk.is_final)
    }

    /// The session after the chunks of `chunks` were submitted in order.
    pub open spec fn step_all(self, chunks: Seq<ChunkDescriptor>) -> SessionModel
        decreases chunks.len(),
    {
        if chunks.len() == 0 {
            self
        } else {
            self.step(chunks.first()).step_all(chunks.drop_first())
        }
    }

    /// What a stream that consists of exactly `chunks` delivers.
    ///
    /// The first violation ends the stream with its error. A stream that goes
    /// on after its final chunk ends with `SessionClosed`, one that stops
    /// before a final chunk was seen is truncated and ends with
    /// `OutOfOrderChunk`. Otherwise the blob of the final chunk is delivered.
    pub open spec fn delivers(self, chunks: Seq<ChunkDescriptor>) -> Result<Seq<u8>, RpcError>
        decreases chunks.len(),
    {
        if chunks.len() == 0 {
            Err(RpcError::OutOfOrderChunk)
        } else {
            match self.outcome(chunks.first()) {
                Err(e) => Err(e),
                Ok(Some(blob)) => if chunks.len() == 1 {
                    Ok(blob)
                } else {
                    Err(RpcError::SessionClosed)
                },
                Ok(None) => self.step(chunks.first()).delivers(chunks.drop_first()),
            }
        }
    }
}

/// The payloads of `chunks`, joined in order.
pub open spec fn joined(chunks: Seq<ChunkDescriptor>) -> Seq<u8>
    decreases chunks.len(),
{
    if chunks.len() == 0 {
        Seq::empty()
    } else {
        chunks.first().payload@ + joined(chunks.drop_first())
    }
}

/// The sum of the payload lengths of `chunks`.
pub open spec fn total_len(chunks: Seq<ChunkDescriptor>) -> nat
    decreases chunks.len(),
{
    if chunks.len() == 0 {
        0
    } else {
        chunks.first().payload@.len() + total_len(chunks.drop_first())
    }
}

/// Whether `chunks` is numbered from zero without gaps and exactly its last
/// chunk is marked final.
pub open spec fn well_sequenced(chunks: Seq<ChunkDescriptor>) -> bool {
    &&& chunks.len() > 0
    &&& forall|i: int|
        0 <= i < chunks.len() ==> (#[trigger] chunks[i]).sequence_number as int == i
    &&& forall|i: int|
        0 <= i < chunks.len() ==> ((#[trigger] chunks[i]).is_final <==> i == chunks.len() - 1)
}

/// Whether every chunk and the whole of `chunks` respect `limits`.
pub open spec fn within_limits(limits: ReassemblyLimits, chunks: Seq<ChunkDescriptor>) -> bool {
    &&& forall|i: int|
        0 <= i < chunks.len() ==> (#[trigger] chunks[i]).payload@.len() <= limits.max_chunk
    &&& total_len(chunks) <= limits.max_blob
}

/// Whether an executable result is the one the model predicts.
pub open spec fn result_matches(r: Result<Option<Vec<u8>>, RpcError>, m: StepResult) -> bool {
    match m {
        Ok(Some(blob)) => r matches Ok(Some(b)) && b@ == blob,
        Ok(None) => r == Ok::<Option<Vec<u8>>, RpcError>(None),
        Err(e) => r == Err::<Option<Vec<u8>>, RpcError>(e),
    }
}

/// Accumulates the chunks of one blob, in strict sequence order.
pub struct ReassemblySession {
    limits: ReassemblyLimits,
    /// The sequence number the next chunk must carry; `None` once every
    /// representable number has been used.
    next: Option<u64>,
    buffer: Vec<u8>,
    state: SessionState,
}

impl View for ReassemblySession {
    type V = SessionModel;

    closed spec fn view(&self) -> SessionModel {
        SessionModel {
            limits: self.limits,
            expected: match self.next {
                Some(n) => n as nat,
                None => 0x1_0000_0000_0000_0000nat,
            },
            data: self.buffer@,
            state: self.state,
        }
    }
}

impl ReassemblySession {
    /// A session that enforces `limits` and has accepted nothing.
    pub fn new(limits: ReassemblyLimits) -> (r: ReassemblySession)
        ensures
            r@ == SessionModel::fresh(limits),
            r@.wf(),
    {
        ReassemblySession { limits, next: Some(0), buffer: Vec::new(), state: SessionState::Open }
    }

    /// The stage of the session.
    pub fn state(&self) -> (r: SessionState)
        ensures
            r == self@.state,
    {
        self.state
    }

    /// The number of bytes accumulated so far.
    pub fn len(&self) -> (r: usize)
        ensures
            r == self@.data.len(),
    {
        self.buffer.len()
    }

    /// The bounds the session enforces.
    pub fn limits(&self) -> (r: ReassemblyLimits)
        ensures
            r == self@.limits,
    {
        self.limits
    }

    /// Ends the session without a blob and drops what had accumulated.
    /// A session that is already over stays as it is.
    pub fn release(&mut self)
        ensures
            final(self)@ == old(self)@.released(),
            old(self)@.wf() ==> final(self)@.wf(),
    {
        self.buffer = Vec::new();
        match self.state {
            SessionState::Open => {
                self.state = SessionState::Aborted;
            },
            _ => {},
        }
        assert(self@.data =~= Seq::<u8>::empty());
    }

    /// Submits the next chunk of the stream.
    ///
    /// A chunk is accepted when the session is open, the chunk carries the
    /// expected sequence number and neither bound is exceeded. An accepted
    /// final chunk closes the session and yields the whole blob; any other
    /// accepted chunk yields `None`. A rejected chunk yields the violation
    /// and ends the session, discarding what had accumulated.
    pub fn accept(&mut self, chunk: &ChunkDescriptor) -> (r: Result<Option<Vec<u8>>, RpcError>)
        ensures
            final(self)@ == old(self)@.step(*chunk),
            result_matches(r, old(self)@.outcome(*chunk)),
            old(self)@.wf() ==> final(self)@.wf(),
    {
        match self.state {
            SessionState::Open => {},
            _ => {
                self.release();
                return Err(RpcError::SessionClosed);
            },
        }
        let in_order = match self.next {
            Some(n) => n == chunk.sequence_number,
            None => false,
        };
        if !in_order {
            self.release();
            return Err(RpcError::OutOfOrderChunk);
        }
        let size: usize = chunk.payload.len();
        if size > self.limits.max_chunk {
            self.release();
            return Err(RpcError::ChunkTooLarge);
        }
        let held: usize = self.buffer.len();
        if held > self.limits.max_blob || size > self.limits.max_blob - held {
            self.release();
            return Err(RpcError::BlobTooLarge);
        }
        let ghost before = self.buffer@;
        self.buffer.extend_from_slice(chunk.payload.as_slice());
        assert(self.buffer@ =~= before + chunk.payload@);
        self.next = chunk.sequence_number.checked_add(1);
        if chunk.is_final {
            let mut blob: Vec<u8> = Vec::new();
            core::mem::swap(&mut self.buffer, &mut blob);
            self.state = SessionState::Closed;
            assert(self@.data =~= Seq::<u8>::empty());
            Ok(Some(blob))
        } else {
            Ok(None)
        }
    }
}

/// Whether an executable blob result is the one the model predicts.
pub open spec fn blob_matches(r: Result<Vec<u8>, RpcError>, m: Result<Seq<u8>, RpcError>) -> bool {
    match m {
        Ok(blob) => r matches Ok(b) && b@ == blob,
        Err(e) => r == Err::<Vec<u8>, RpcError>(e),
    }
}

/// Reassembles the blob of a stream that consists of exactly `chunks`,
/// under the bounds of `limits`.
pub fn reassemble(limits: ReassemblyLimits, chunks: &Vec<ChunkDescriptor>) -> (r: Result<
    Vec<u8>,
    RpcError,
>)
    ensures
        blob_matches(r, SessionModel::fresh(limits).delivers(chunks@)),
{
    let mut session = ReassemblySession::new(limits);
    let count: usize = chunks.len();
    let mut i: usize = 0;
    assert(chunks@.skip(0) =~= chunks@);
    while i < count
        invariant
            count == chunks@.len(),
            i <= count,
            SessionModel::fresh(limits).delivers(chunks@) == session@.delivers(
                chunks@.skip(i as int),
            ),
        decreases count - i,
    {
        proof {
            assert(chunks@.skip(i as int).first() == chunks@[i as int]);
            assert(chunks@.skip(i as int).drop_first() =~= chunks@.skip(i + 1));
        }
        match session.accept(&chunks[i]) {
            Err(e) => {
                return Err(e);
            },
            Ok(Some(blob)) => {
                if i + 1 == count {
                    return Ok(blob);
                } else {
                    return Err(RpcError::SessionClosed);
                }
            },
            Ok(None) => {},
        }
        i += 1;
    }
    Err(RpcError::OutOfOrderChunk)
}

/// Whether `chunks` is the split of `blob` into pieces of `size` bytes: the
/// chunks are numbered from zero, only the last is final, their payloads
/// join to `blob`, every chunk but the last is full, and the last is empty
/// only where the blob is.
pub open spec fn is_split(chunks: Seq<ChunkDescriptor>, blob: Seq<u8>, size: nat) -> bool {
    &&& well_sequenced(chunks)
    &&& joined(chunks) == blob
    &&& forall|i: int|
        0 <= i < chunks.len() - 1 ==> (#[trigger] chunks[i]).payload@.len() == size
    &&& chunks.last().payload@.len() <= size
    &&& chunks.len() > 1 ==> chunks.last().payload@.len() > 0
}

/// Joining after appending one chunk appends that chunk's payload.
pub proof fn lemma_joined_push(chunks: Seq<ChunkDescriptor>, chunk: ChunkDescriptor)
    ensures
        joined(chunks.push(chunk)) == joined(chunks) + chunk.payload@,
    decreases chunks.len(),
{
    if chunks.len() == 0 {
        assert(chunks.push(chunk).drop_first() =~= chunks);
        assert(joined(chunks.push(chunk)) =~= joined(chunks) + chunk.payload@);
    } else {
        assert(chunks.push(chunk).drop_first() =~= chunks.drop_first().push(chunk));
        lemma_joined_push(chunks.drop_first(), chunk);
        assert(joined(chunks.push(chunk)) =~= joined(chunks) + chunk.payload@);
    }
}

/// Splits `blob` into chunks of at most `chunk_size` bytes, ready to be
/// sent in order.
///
/// An empty blob gives one empty final chunk. A blob that is not empty
/// cannot be cut into pieces of no bytes: that is refused with `ChunkTooLarge`.
pub fn split_blob(blob: &[u8], chunk_size: usize) -> (r: Result<Vec<ChunkDescriptor>, RpcError>)
    ensures
        match r {
            Ok(chunks) => (chunk_size > 0 || blob@.len() == 0) && is_split(
                chunks@,
                blob@,
                chunk_size as nat,
            ),
            Err(e) => e == RpcError::ChunkTooLarge && chunk_size == 0 && blob@.len() > 0,
        },
{
    let total: usize = blob.len();
    if chunk_size == 0 && total > 0 {
        return Err(RpcError::ChunkTooLarge);
    }
    let mut chunks: Vec<ChunkDescriptor> = Vec::new();
    let mut offset: usize = 0;
    let mut sequence_number: u64 = 0;
    while total - offset > chunk_size
        invariant
            total == blob@.len(),
            offset <= total,
            chunk_size > 0 || total == 0,
            chunks@.len() == sequence_number,
            sequence_number <= offset,
            sequence_number > 0 ==> offset < total,
            joined(chunks@) == blob@.take(offset as int),
            forall|i: int|
                0 <= i < chunks@.len() ==> {
                    &&& (#[trigger] chunks@[i]).sequence_number as int == i
                    &&& !chunks@[i].is_final
                    &&& chunks@[i].payload@.len() == chunk_size
                },
        decreases total - offset,
    {
        let payload = slice_to_vec(slice_subrange(blob, offset, offset + chunk_size));
        let chunk = ChunkDescriptor { sequence_number, payload, is_final: false };
        proof {
            lemma_joined_push(chunks@, chunk);
            assert(blob@.take(offset as int) + blob@.subrange(
                offset as int,
                offset + chunk_size,
            ) =~= blob@.take(offset + chunk_size));
        }
        chunks.push(chunk);
        offset += chunk_size;
        sequence_number += 1;
    }
    let payload = slice_to_vec(slice_subrange(blob, offset, total));
    let chunk = ChunkDescriptor { sequence_number, payload, is_final: true };
    proof {
        lemma_joined_push(chunks@, chunk);
        assert(blob@.take(offset as int) + blob@.subrange(offset as int, total as int) =~= blob@);
    }
    chunks.push(chunk);
    assert(chunks@.last().payload@.len() == total - offset);
    assert(well_sequenced(chunks@));
    Ok(chunks)
}

/// The sum of the payload lengths is the length of the joined payloads.
pub proof fn lemma_joined_len(chunks: Seq<ChunkDescriptor>)
    ensures
        joined(chunks).len() == total_len(chunks),
    decreases chunks.len(),
{
    if chunks.len() > 0 {
        lemma_joined_len(chunks.drop_first());
    }
}

/// An open session that is fed, from its expected number on, gapless chunks
/// within its bounds of which exactly the last is final delivers what it
/// held followed by the joined payloads.
pub proof fn lemma_delivers_in_order(s: SessionModel, chunks: Seq<ChunkDescriptor>)
    requires
        s.state is Open,
        chunks.len() > 0,
        forall|i: int|
            0 <= i < chunks.len() ==> (#[trigger] chunks[i]).sequence_number as int == s.expected
                + i,
        forall|i: int|
            0 <= i < chunks.len() ==> ((#[trigger] chunks[i]).is_final <==> i == chunks.len() - 1),
        forall|i: int|
            0 <= i < chunks.len() ==> (#[trigger] chunks[i]).payload@.len() <= s.limits.max_chunk,
        s.data.len() + total_len(chunks) <= s.limits.max_blob,
    ensures
        s.delivers(chunks) == Ok::<Seq<u8>, RpcError>(s.data + joined(chunks)),
    decreases chunks.len(),
{
    let first = chunks.first();
    let rest = chunks.drop_first();
    assert(first == chunks[0]);
    assert(s.violation(first.sequence_number, first.payload@) is None);
    if chunks.len() == 1 {
        assert(joined(rest) =~= Seq::<u8>::empty());
        assert(s.data + joined(chunks) =~= s.data + first.payload@);
    } else {
        let next = s.step(first);
        assert forall|i: int| 0 <= i < rest.len() implies {
            &&& (#[trigger] rest[i]).sequence_number as int == next.expected + i
            &&& (rest[i].is_final <==> i == rest.len() - 1)
            &&& rest[i].payload@.len() <= next.limits.max_chunk
        } by {
            assert(rest[i] == chunks[i + 1]);
        }
        lemma_delivers_in_order(next, rest);
        assert(s.data + joined(chunks) =~= next.data + joined(rest));
    }
}

/// Chunks submitted to a fresh session in strictly increasing order, within
/// its bounds and with exactly the last marked final, are reassembled to
/// the concatenation of their payloads, whose length is the sum of the
/// payload lengths.
pub proof fn lemma_in_order_reassembly(limits: ReassemblyLimits, chunks: Seq<ChunkDescriptor>)
    requires
        well_sequenced(chunks),
        within_limits(limits, chunks),
    ensures
        SessionModel::fresh(limits).delivers(chunks) == Ok::<Seq<u8>, RpcError>(joined(chunks)),
        joined(chunks).len() == total_len(chunks),
{
    let s = SessionModel::fresh(limits);
    lemma_delivers_in_order(s, chunks);
    lemma_joined_len(chunks);
    assert(s.data + joined(chunks) =~= joined(chunks));
}

/// A chunk that does not carry the number an open session expects is
/// rejected as out of order, whatever its payload and final mark, and the
/// session ends with nothing accumulated.
pub proof fn lemma_out_of_order_rejected(s: SessionModel, chunk: ChunkDescriptor)
    requires
        s.state is Open,
        chunk.sequence_number as nat != s.expected,
    ensures
        s.outcome(chunk) == Err::<Option<Seq<u8>>, RpcError>(RpcError::OutOfOrderChunk),
        s.step(chunk).state is Aborted,
        s.step(chunk).data.len() == 0,
{
}

/// A session that is no longer open stays as it is whatever is submitted.
pub proof fn lemma_ended_session_is_stable(s: SessionModel, chunks: Seq<ChunkDescriptor>)
    requires
        !(s.state is Open),
        s.data.len() == 0,
    ensures
        s.step_all(chunks) == s,
    decreases chunks.len(),
{
    if chunks.len() > 0 {
        assert(s.step(chunks.first()).data =~= s.data);
        assert(s.step(chunks.first()) == s);
        lemma_ended_session_is_stable(s, chunks.drop_first());
    }
}

/// Once a session has accepted its final chunk, every chunk submitted
/// later, after any number of others, is rejected with `SessionClosed`.
pub proof fn lemma_closed_after_final(
    s: SessionModel,
    last: ChunkDescriptor,
    others: Seq<ChunkDescriptor>,
    later: ChunkDescriptor,
)
    requires
        s.outcome(last) is Ok,
        last.is_final,
    ensures
        s.step(last).state is Closed,
        s.step(last).step_all(others).outcome(later) == Err::<Option<Seq<u8>>, RpcError>(
            RpcError::SessionClosed,
        ),
{
    lemma_ended_session_is_stable(s.step(last), others);
}

/// Releasing a session leaves nothing accumulated and the session over, and
/// a fresh session starts from an empty accumulation.
pub proof fn lemma_release_frees_accumulation(s: SessionModel)
    ensures
        s.released().data.len() == 0,
        !(s.released().state is Open),
        SessionModel::fresh(s.limits).data.len() == 0,
        SessionModel::fresh(s.limits).expected == 0,
        SessionModel::fresh(s.limits).state is Open,
{
}

/// A blob that was split into chunks within the bounds of a session is
/// reassembled to itself.
pub proof fn lemma_split_then_reassemble(
    limits: ReassemblyLimits,
    chunks: Seq<ChunkDescriptor>,
    blob: Seq<u8>,
    size: nat,
)
    requires
        is_split(chunks, blob, size),
        size <= limits.max_chunk,
        blob.len() <= limits.max_blob,
    ensures
        SessionModel::fresh(limits).delivers(chunks) == Ok::<Seq<u8>, RpcError>(blob),
{
    lemma_joined_len(chunks);
    lemma_in_order_reassembly(limits, chunks);
}


} // verus!
