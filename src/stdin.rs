//! The input ring buffer: a fixed-capacity FIFO of bytes that drops the
//! newest byte when full.
use vstd::prelude::*;

verus! {

/// The capacity of the input buffer.
pub const STDIN_BUFFER_SIZE: usize = 1024;

/// A circular byte queue over fixed storage.
pub struct StdinBuffer {
    buffer: Vec<u8>,
    head: usize,
    tail: usize,
    size: usize,
}

/// The queue after `push` of `b`: appended unless full.
pub open spec fn push_spec(q: Seq<u8>, b: u8) -> Seq<u8> {
    if q.len() < STDIN_BUFFER_SIZE {
        q.push(b)
    } else {
        q
    }
}

/// The queue after pushing every byte of `bytes` in order.
pub open spec fn push_all(q: Seq<u8>, bytes: Seq<u8>) -> Seq<u8>
    decreases bytes.len(),
{
    if bytes.len() == 0 {
        q
    } else {
        push_spec(push_all(q, bytes.drop_last()), bytes.last())
    }
}

/// The bytes that popping until empty hands out, in order.
pub open spec fn drain(q: Seq<u8>) -> Seq<u8>
    decreases q.len(),
{
    if q.len() == 0 {
        Seq::empty()
    } else {
        seq![q[0]].add(drain(q.drop_first()))
    }
}

impl View for StdinBuffer {
    type V = Seq<u8>;

    /// The queued bytes, oldest first.
    closed spec fn view(&self) -> Seq<u8> {
        Seq::new(self.size as nat, |i: int| self.buffer@[(self.head + i) % (STDIN_BUFFER_SIZE as int)])
    }
}

impl StdinBuffer {
    /// The storage is full size, the indices lie in it, and the tail is
    /// `size` places after the head.
    pub closed spec fn wf(&self) -> bool {
        &&& self.buffer@.len() == STDIN_BUFFER_SIZE
        &&& self.head < STDIN_BUFFER_SIZE
        &&& self.tail < STDIN_BUFFER_SIZE
        &&& self.size <= STDIN_BUFFER_SIZE
        &&& self.tail == (self.head + self.size) % (STDIN_BUFFER_SIZE as int)
    }

    /// An empty buffer.
    pub fn new() -> (r: StdinBuffer)
        ensures
            r.wf(),
            r@ == Seq::<u8>::empty(),
    {
        let mut buffer: Vec<u8> = Vec::new();
        while buffer.len() < STDIN_BUFFER_SIZE
            invariant
                buffer@.len() <= STDIN_BUFFER_SIZE,
            decreases STDIN_BUFFER_SIZE - buffer@.len(),
        {
            buffer.push(0u8);
        }
        let r = StdinBuffer { buffer, head: 0, tail: 0, size: 0 };
        assert(r@ =~= Seq::<u8>::empty());
        r
    }

    /// The number of queued bytes.
    pub fn len(&self) -> (r: usize)
        requires
            self.wf(),
        ensures
            r == self@.len(),
    {
        self.size
    }

    /// Appends `data`, or drops it when the buffer is full.
    pub fn push(&mut self, data: u8)
        requires
            old(self).wf(),
        ensures
            final(self).wf(),
            final(self)@ == push_spec(old(self)@, data),
    {
        if self.size < STDIN_BUFFER_SIZE {
            let ghost q = self@;
            self.buffer.set(self.tail, data);
            self.tail = (self.tail + 1) % STDIN_BUFFER_SIZE;
            self.size += 1;
            assert(self@ =~= q.push(data));
        }
    }

    /// Removes and returns the oldest byte, or `None` when empty.
    pub fn pop(&mut self) -> (r: Option<u8>)
        requires
            old(self).wf(),
        ensures
            final(self).wf(),
            old(self)@.len() == 0 ==> r is None && final(self)@ == old(self)@,
            old(self)@.len() > 0 ==> r == Some(old(self)@[0]) && final(self)@ == old(self)@.drop_first(),
    {
        if self.size > 0 {
            let ghost q = self@;
            let data = self.buffer[self.head];
            self.head = (self.head + 1) % STDIN_BUFFER_SIZE;
            self.size -= 1;
            assert(self@ =~= q.drop_first());
            Some(data)
        } else {
            None
        }
    }
}

/// Queues one input byte, dropped when the buffer is full.
pub fn put2stdin(buf: &mut StdinBuffer, c: u8)
    requires
        old(buf).wf(),
    ensures
        final(buf).wf(),
        final(buf)@ == push_spec(old(buf)@, c),
{
    buf.push(c);
}

/// Takes the oldest queued input byte, if any.
pub fn getchar(buf: &mut StdinBuffer) -> (r: Option<u8>)
    requires
        old(buf).wf(),
    ensures
        final(buf).wf(),
        old(buf)@.len() == 0 ==> r is None && final(buf)@ == old(buf)@,
        old(buf)@.len() > 0 ==> r == Some(old(buf)@[0]) && final(buf)@ == old(buf)@.drop_first(),
{
    buf.pop()
}

/// Popping until empty hands out exactly the queued bytes, oldest first.
pub proof fn lemma_drain_is_contents(q: Seq<u8>)
    ensures
        drain(q) == q,
    decreases q.len(),
{
    if q.len() > 0 {
        lemma_drain_is_contents(q.drop_first());
        assert(seq![q[0]].add(q.drop_first()) =~= q);
    }
}

/// Pushing bytes into an empty buffer keeps the first ones up to the
/// capacity, in order, and drops the rest.
pub proof fn lemma_push_all_keeps_first(bytes: Seq<u8>)
    ensures
        push_all(Seq::empty(), bytes) == bytes.take(
            if bytes.len() <= STDIN_BUFFER_SIZE { bytes.len() as int } else { STDIN_BUFFER_SIZE as int },
        ),
    decreases bytes.len(),
{
    if bytes.len() > 0 {
        let init = bytes.drop_last();
        lemma_push_all_keeps_first(init);
        if bytes.len() <= STDIN_BUFFER_SIZE {
            assert(init.take(init.len() as int).push(bytes.last()) =~= bytes.take(bytes.len() as int));
        } else {
            assert(init.take(STDIN_BUFFER_SIZE as int) =~= bytes.take(STDIN_BUFFER_SIZE as int));
        }
    }
}

/// Round trip: pushing bytes into an empty buffer and then popping until it
/// is empty returns the pushed bytes in order, all of them when there are at
/// most the capacity, else only the first capacity-many.
pub proof fn lemma_round_trip(bytes: Seq<u8>)
    ensures
        bytes.len() <= STDIN_BUFFER_SIZE ==> drain(push_all(Seq::empty(), bytes)) == bytes,
        bytes.len() > STDIN_BUFFER_SIZE ==> drain(push_all(Seq::empty(), bytes)) == bytes.take(
            STDIN_BUFFER_SIZE as int,
        ),
{
    lemma_push_all_keeps_first(bytes);
    lemma_drain_is_contents(push_all(Seq::empty(), bytes));
    assert(bytes.take(bytes.len() as int) =~= bytes);
}

} // verus!
