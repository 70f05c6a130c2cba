use vstd::prelude::*;

use crate::status::NtStatus;

verus! {

/// Where receiving a stream stands after a chunk is looked at.
#[derive(Clone, Copy)]
pub enum ReceiveState<T> {
    /// The stream is complete, with this result.
    Complete(T),
    /// More is needed; the number is how many bytes of the buffer to keep.
    Partial(usize),
    /// Receiving failed with this status.
    Failure(NtStatus),
}

/// What a stream receiver waits on.
#[derive(Clone, Copy)]
pub enum ReceivePhase {
    /// Ready to ask for the next chunk.
    Ready,
    /// A receive into the buffer from this offset is outstanding.
    Receiving(usize),
    /// The first bytes of the buffer, this many, await a decision.
    Deciding(usize),
    /// The stream is over.
    Done,
}

/// Receives a stream chunk by chunk into a growing buffer. After each chunk
/// a decision on the bytes received so far says whether the stream is
/// complete, needs more, or failed; the outcome is the last such decision.
pub struct StreamReceive<T> {
    buffer: Vec<u8>,
    chunk_size: usize,
    state: ReceiveState<T>,
    last: Option<ReceiveState<T>>,
    phase: ReceivePhase,
}

/// The ghost image of a [`StreamReceive`].
pub struct StreamReceiveView<T> {
    pub buffer: Seq<u8>,
    pub chunk_size: usize,
    pub state: ReceiveState<T>,
    pub last: Option<ReceiveState<T>>,
    pub phase: ReceivePhase,
}

impl<T> View for StreamReceive<T> {
    type V = StreamReceiveView<T>;

    closed spec fn view(&self) -> StreamReceiveView<T> {
        StreamReceiveView {
            buffer: self.buffer@,
            chunk_size: self.chunk_size,
            state: self.state,
            last: self.last,
            phase: self.phase,
        }
    }
}

/// `n` zero bytes.
pub open spec fn zeros(n: nat) -> Seq<u8> {
    Seq::new(n, |i: int| 0u8)
}

/// The bytes of a receive's outcome.
pub open spec fn bytes_result(result: Result<Vec<u8>, NtStatus>) -> Result<Seq<u8>, NtStatus> {
    match result {
        Ok(data) => Ok(data@),
        Err(e) => Err(e),
    }
}

/// A receiver with one zeroed chunk of buffer, that starts with nothing kept.
pub open spec fn initial_receive<T>(chunk_size: usize) -> StreamReceiveView<T> {
    StreamReceiveView {
        buffer: zeros(chunk_size as nat),
        chunk_size,
        state: ReceiveState::Partial(0),
        last: None,
        phase: ReceivePhase::Ready,
    }
}

impl<T> StreamReceiveView<T> {
    /// Offsets and lengths stay within the buffer.
    pub open spec fn wf(self) -> bool {
        match self.phase {
            ReceivePhase::Receiving(offset) => offset <= self.buffer.len(),
            ReceivePhase::Deciding(total) => total <= self.buffer.len(),
            _ => true,
        }
    }

    /// Asking for the next chunk: while more is needed, the receive goes
    /// into the buffer after the kept bytes, and a full buffer first grows by
    /// one zeroed chunk; once the stream is complete or failed, it is over.
    pub open spec fn next_receive(self) -> (StreamReceiveView<T>, Option<usize>) {
        match self.state {
            ReceiveState::Partial(kept) => (
                StreamReceiveView {
                    buffer: if self.buffer.len() == kept {
                        self.buffer + zeros(self.chunk_size as nat)
                    } else {
                        self.buffer
                    },
                    phase: ReceivePhase::Receiving(kept),
                    ..self
                },
                Some(kept),
            ),
            _ => (StreamReceiveView { phase: ReceivePhase::Done, ..self }, None),
        }
    }

    /// After a decision: a new state is kept as the latest outcome; no
    /// decision ends the stream.
    pub open spec fn decided(self, next: Option<ReceiveState<T>>) -> StreamReceiveView<T> {
        match next {
            Some(state) => StreamReceiveView {
                state,
                last: Some(state),
                phase: ReceivePhase::Ready,
                ..self
            },
            None => StreamReceiveView { phase: ReceivePhase::Done, ..self },
        }
    }

    /// After a receive from `offset` ended: the bytes land at the offset and
    /// the bytes up to their end await a decision; a failed receive is
    /// decided as that failure.
    pub open spec fn received(self, offset: usize, result: Result<Seq<u8>, NtStatus>) -> (StreamReceiveView<T>, bool) {
        match result {
            Ok(data) => (
                StreamReceiveView {
                    buffer: self.buffer.take(offset as int) + data + self.buffer.skip(
                        offset + data.len(),
                    ),
                    phase: ReceivePhase::Deciding((offset + data.len()) as usize),
                    ..self
                },
                true,
            ),
            Err(e) => (self.decided(Some(ReceiveState::Failure(e))), false),
        }
    }
}

impl<T: Copy> StreamReceive<T> {
    /// A receiver that grows its buffer by `chunk_size` bytes at a time.
    pub fn new(chunk_size: usize) -> (r: StreamReceive<T>)
        ensures
            r@ == initial_receive::<T>(chunk_size),
    {
        let mut buffer: Vec<u8> = Vec::new();
        append_zeros(&mut buffer, chunk_size);
        assert(buffer@ =~= zeros(chunk_size as nat));
        StreamReceive {
            buffer,
            chunk_size,
            state: ReceiveState::Partial(0),
            last: None,
            phase: ReceivePhase::Ready,
        }
    }

    /// Asks for the next chunk: the offset to receive at, or `None` when the
    /// stream is over. Receiving needs the kept bytes to lie within the
    /// buffer, and a full buffer to have room to grow.
    pub fn next_receive(&mut self) -> (offset: Option<usize>)
        requires
            old(self)@.phase is Ready,
            old(self)@.state matches ReceiveState::Partial(kept) ==> kept <= old(self)@.buffer.len()
                && (kept == old(self)@.buffer.len() ==> kept + old(self)@.chunk_size <= usize::MAX),
        ensures
            (final(self)@, offset) == old(self)@.next_receive(),
            final(self)@.wf(),
    {
        match self.state {
            ReceiveState::Partial(kept) => {
                if self.buffer.len() == kept {
                    let ghost before = self.buffer@;
                    append_zeros(&mut self.buffer, self.chunk_size);
                    assert(self.buffer@ =~= before + zeros(self.chunk_size as nat));
                }
                self.phase = ReceivePhase::Receiving(kept);
                Some(kept)
            },
            _ => {
                self.phase = ReceivePhase::Done;
                None
            },
        }
    }

    /// Whether the next chunk can be asked for: the receiver is ready, and
    /// while more is needed the kept bytes lie within the buffer and, when
    /// they fill it, the buffer has room to grow.
    pub fn can_ask(&self) -> (r: bool)
        ensures
            r == (self@.phase is Ready && (self@.state matches ReceiveState::Partial(kept) ==> kept
                <= self@.buffer.len() && (kept == self@.buffer.len() ==> kept + self@.chunk_size
                <= usize::MAX))),
    {
        let ready = match self.phase {
            ReceivePhase::Ready => true,
            _ => false,
        };
        match self.state {
            ReceiveState::Partial(kept) => ready && kept <= self.buffer.len() && (kept
                != self.buffer.len() || kept <= usize::MAX - self.chunk_size),
            _ => ready,
        }
    }

    /// Room in the buffer for the outstanding receive.
    pub fn room(&self) -> (room: usize)
        requires
            self@.wf(),
            self@.phase is Receiving,
        ensures
            self@.phase matches ReceivePhase::Receiving(offset) && room == self@.buffer.len() - offset,
    {
        match self.phase {
            ReceivePhase::Receiving(offset) => self.buffer.len() - offset,
            _ => 0,
        }
    }

    /// Takes the outcome of the outstanding receive; `true` when the bytes
    /// received so far await a decision.
    pub fn on_received(&mut self, result: Result<Vec<u8>, NtStatus>) -> (deciding: bool)
        requires
            old(self)@.wf(),
            old(self)@.phase is Receiving,
            result matches Ok(data) ==> old(self)@.phase matches ReceivePhase::Receiving(offset)
                && data@.len() <= old(self)@.buffer.len() - offset,
        ensures
            old(self)@.phase matches ReceivePhase::Receiving(offset) && (final(self)@, deciding)
                == old(self)@.received(offset, bytes_result(result)),
            final(self)@.wf(),
    {
        let offset = match self.phase {
            ReceivePhase::Receiving(offset) => offset,
            _ => 0,
        };
        match result {
            Ok(data) => {
                let n = data.len();
                let blen = self.buffer.len();
                assert(offset + n <= blen);
                write_at(&mut self.buffer, offset, &data);
                self.phase = ReceivePhase::Deciding(offset + n);
                true
            },
            Err(e) => {
                self.decide(Some(ReceiveState::Failure(e)));
                false
            },
        }
    }

    /// The bytes received so far that await a decision.
    pub fn received(&self) -> (bytes: &[u8])
        requires
            self@.wf(),
            self@.phase is Deciding,
        ensures
            self@.phase matches ReceivePhase::Deciding(total) && bytes@ == self@.buffer.take(total as int),
    {
        let total = match self.phase {
            ReceivePhase::Deciding(total) => total,
            _ => 0,
        };
        vstd::slice::slice_subrange(self.buffer.as_slice(), 0, total)
    }

    /// Takes the decision on the bytes received so far.
    pub fn decide(&mut self, next: Option<ReceiveState<T>>)
        ensures
            final(self)@ == old(self)@.decided(next),
            final(self)@.wf(),
    {
        match next {
            Some(state) => {
                self.state = state;
                self.last = Some(state);
                self.phase = ReceivePhase::Ready;
            },
            None => {
                self.phase = ReceivePhase::Done;
            },
        }
    }

    /// Whether the stream is over.
    pub fn is_done(&self) -> (done: bool)
        ensures
            done == (self@.phase is Done),
    {
        match self.phase {
            ReceivePhase::Done => true,
            _ => false,
        }
    }

    /// The last decision taken, if any: the outcome of the stream.
    pub fn outcome(&self) -> (outcome: Option<ReceiveState<T>>)
        ensures
            outcome == self@.last,
    {
        self.last
    }
}

/// Copies `data` into `buffer` from `offset` on.
fn write_at(buffer: &mut Vec<u8>, offset: usize, data: &Vec<u8>)
    requires
        offset + data@.len() <= old(buffer)@.len(),
    ensures
        final(buffer)@ == old(buffer)@.take(offset as int) + data@ + old(buffer)@.skip(
            offset + data@.len(),
        ),
{
    let ghost before = buffer@;
    let len = buffer.len();
    let n = data.len();
    let mut k: usize = 0;
    while k < n
        invariant
            n == data@.len(),
            len == before.len(),
            offset + n <= len,
            k <= n,
            buffer@.len() == len,
            forall|j: int| 0 <= j < offset ==> #[trigger] buffer@[j] == before[j],
            forall|j: int| offset <= j < offset + k ==> #[trigger] buffer@[j] == data@[j - offset],
            forall|j: int| offset + n <= j < len ==> #[trigger] buffer@[j] == before[j],
        decreases n - k,
    {
        buffer.set(offset + k, data[k]);
        k = k + 1;
    }
    assert(buffer@ =~= before.take(offset as int) + data@ + before.skip(offset + n));
}

/// Appends `n` zero bytes.
fn append_zeros(buffer: &mut Vec<u8>, n: usize)
    ensures
        final(buffer)@ == old(buffer)@ + zeros(n as nat),
{
    let ghost before = buffer@;
    let mut i: usize = 0;
    while i < n
        invariant
            i <= n,
            buffer@ =~= before + zeros(i as nat),
        decreases n - i,
    {
        buffer.push(0);
        i = i + 1;
    }
}

/// The bytes of the chunks, one after the other.
pub open spec fn concat_chunks(chunks: Seq<Seq<u8>>) -> Seq<u8>
    decreases chunks.len(),
{
    if chunks.len() == 0 {
        Seq::empty()
    } else {
        concat_chunks(chunks.drop_last()) + chunks.last()
    }
}

/// How many bytes a state keeps.
pub open spec fn kept_of<T>(state: ReceiveState<T>) -> usize {
    match state {
        ReceiveState::Partial(kept) => kept,
        _ => 0,
    }
}

/// The receiver just before the decision on the last of `chunks`, each
/// chunk received in turn and each earlier decision keeping every byte
/// received so far.
pub open spec fn before_last_decision<T>(v: StreamReceiveView<T>, chunks: Seq<Seq<u8>>) -> StreamReceiveView<T>
    decreases chunks.len(), 0nat,
{
    if chunks.len() == 0 {
        v
    } else {
        let prev = fed(v, chunks.drop_last());
        prev.next_receive().0.received(kept_of(prev.state), Ok(chunks.last())).0
    }
}

/// The receiver after each of `chunks` is received in turn, every decision
/// keeping every byte received so far.
pub open spec fn fed<T>(v: StreamReceiveView<T>, chunks: Seq<Seq<u8>>) -> StreamReceiveView<T>
    decreases chunks.len(), 1nat,
{
    if chunks.len() == 0 {
        v
    } else {
        let prev = fed(v, chunks.drop_last());
        before_last_decision(v, chunks).decided(
            Some(ReceiveState::Partial((kept_of(prev.state) + chunks.last().len()) as usize)),
        )
    }
}

/// Room for the next chunk: the buffer after asking for it, past the kept
/// bytes.
pub open spec fn room_for_next<T>(v: StreamReceiveView<T>) -> int {
    v.next_receive().0.buffer.len() - kept_of(v.state)
}

/// One chunk received after `k` kept bytes lands right after them.
proof fn lemma_one_chunk<T>(prev: StreamReceiveView<T>, k: usize, chunk: Seq<u8>)
    requires
        prev.phase is Ready,
        prev.state == ReceiveState::<T>::Partial(k),
        k <= prev.buffer.len(),
        k + chunk.len() <= usize::MAX,
        chunk.len() <= room_for_next(prev),
    ensures
        ({
            let p2 = prev.next_receive().0.received(k, Ok(chunk)).0;
            let w = p2.decided(Some(ReceiveState::Partial((k + chunk.len()) as usize)));
            &&& p2.phase == ReceivePhase::Deciding((k + chunk.len()) as usize)
            &&& p2.buffer.take(k + chunk.len()) == prev.buffer.take(k as int) + chunk
            &&& k + chunk.len() <= p2.buffer.len()
            &&& w.phase is Ready
            &&& w.state == ReceiveState::<T>::Partial((k + chunk.len()) as usize)
            &&& w.buffer == p2.buffer
        }),
{
    let p1 = prev.next_receive().0;
    assert(p1.buffer.take(k as int) =~= prev.buffer.take(k as int));
    let p2 = p1.received(k, Ok(chunk)).0;
    assert(p2.buffer.take(k + chunk.len()) =~= p1.buffer.take(k as int) + chunk);
}

/// Chunks are kept in the order they arrive, none lost or repeated: when
/// every decision keeps all bytes received so far, the decision on the
/// last of any number of chunks sees the bytes kept at the start followed
/// by all the chunks in order (from a new receiver, all the chunks), and
/// the receiver then keeps exactly those bytes.
pub proof fn lemma_receive_accumulates<T>(v: StreamReceiveView<T>, kept: usize, chunks: Seq<Seq<u8>>)
    requires
        v.phase is Ready,
        v.state == ReceiveState::<T>::Partial(kept),
        kept <= v.buffer.len(),
        kept + concat_chunks(chunks).len() + v.chunk_size <= usize::MAX,
        forall|i: int| 0 <= i < chunks.len() ==> #[trigger] chunks[i].len() <= room_for_next(
            fed(v, chunks.take(i)),
        ),
    ensures
        ({
            let total = kept + concat_chunks(chunks).len();
            let w = fed(v, chunks);
            &&& w.phase is Ready
            &&& w.state == ReceiveState::<T>::Partial(total as usize)
            &&& total <= w.buffer.len()
            &&& w.buffer.take(total) == v.buffer.take(kept as int) + concat_chunks(chunks)
            &&& chunks.len() > 0 ==> before_last_decision(v, chunks).phase == ReceivePhase::Deciding(
                total as usize,
            ) && before_last_decision(v, chunks).buffer.take(total) == v.buffer.take(kept as int)
                + concat_chunks(chunks)
        }),
    decreases chunks.len(),
{
    if chunks.len() == 0 {
        assert(v.buffer.take(kept as int) + concat_chunks(chunks) =~= v.buffer.take(kept as int));
    } else {
        let c = chunks.drop_last();
        let last = chunks.last();
        assert forall|i: int| 0 <= i < c.len() implies #[trigger] c[i].len() <= room_for_next(
            fed(v, c.take(i)),
        ) by {
            assert(c.take(i) =~= chunks.take(i));
            assert(c[i] == chunks[i]);
        }
        let cc = concat_chunks(c);
        assert(concat_chunks(chunks) == cc + last);
        lemma_receive_accumulates(v, kept, c);
        let prev = fed(v, c);
        let k = (kept + cc.len()) as usize;
        assert(chunks.take(c.len() as int) =~= c);
        assert(chunks[c.len() as int] == last);
        assert(last.len() <= room_for_next(prev));
        lemma_one_chunk(prev, k, last);
        assert(before_last_decision(v, chunks) == prev.next_receive().0.received(k, Ok(last)).0);
        assert(prev.buffer.take(k as int) + last =~= v.buffer.take(kept as int) + concat_chunks(
            chunks,
        ));
    }
}

/// A failed receive is the stream's outcome, and no further chunk is asked
/// for.
pub proof fn lemma_failure_ends_stream<T>(v: StreamReceiveView<T>, offset: usize, e: NtStatus)
    ensures
        ({
            let (v1, deciding) = v.received(offset, Err(e));
            let (v2, next) = v1.next_receive();
            &&& !deciding
            &&& v1.last == Some(ReceiveState::<T>::Failure(e))
            &&& next is None
            &&& v2.phase is Done
            &&& v2.last == Some(ReceiveState::<T>::Failure(e))
        }),
{
}

/// Once a decision says the stream is complete, no further chunk is asked
/// for and that decision is the outcome.
pub proof fn lemma_complete_ends_stream<T>(v: StreamReceiveView<T>, result: T)
    ensures
        ({
            let v1 = v.decided(Some(ReceiveState::Complete(result)));
            let (v2, next) = v1.next_receive();
            &&& next is None
            &&& v2.phase is Done
            &&& v2.last == Some(ReceiveState::Complete(result))
        }),
{
}

/// The buffer grows, by one chunk, only when the kept bytes fill it.
pub proof fn lemma_buffer_grows_only_when_full<T>(v: StreamReceiveView<T>, kept: usize)
    requires
        v.state == ReceiveState::<T>::Partial(kept),
        kept <= v.buffer.len(),
    ensures
        v.next_receive().0.buffer.len() == if kept == v.buffer.len() {
            v.buffer.len() + v.chunk_size
        } else {
            v.buffer.len() as int
        },
        v.next_receive().0.buffer.take(v.buffer.len() as int) == v.buffer,
{
    assert(v.next_receive().0.buffer.take(v.buffer.len() as int) =~= v.buffer);
}

} // verus!
