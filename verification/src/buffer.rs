//! The tick-scoped event buffer one payload type is consumed from, and the
//! cursor with which each independent reader tracks what it has already seen.

use vstd::prelude::*;
use crate::events::Payload;

verus! {

/// The ordered log of everything the bridge has republished for one payload
/// type. Readers never remove items; each keeps its own cursor, so every
/// reader sees the full stream (fan-out, not competing consumption).
pub struct EventBuffer<T> {
    items: Vec<T>,
}

impl<T> View for EventBuffer<T> {
    type V = Seq<T>;

    closed spec fn view(&self) -> Seq<T> {
        self.items@
    }
}

/// One reader's position in an [`EventBuffer`]. Distinct readers are
/// independent: reading through one cursor moves neither the buffer nor any
/// other cursor.
pub struct BufferReader {
    cursor: usize,
}

impl View for BufferReader {
    type V = int;

    closed spec fn view(&self) -> int {
        self.cursor as int
    }
}

impl BufferReader {
    /// A reader that has seen nothing yet.
    pub fn new() -> (reader: Self)
        ensures
            reader@ == 0,
    {
        BufferReader { cursor: 0 }
    }

    /// Whether this reader's position lies within `buffer`, so that a read
    /// through it is meaningful.
    pub open spec fn valid_for<T>(&self, buffer: &EventBuffer<T>) -> bool {
        0 <= self@ <= buffer@.len()
    }

    /// How far this reader has read.
    pub fn position(&self) -> (pos: usize)
        ensures
            pos == self@,
    {
        self.cursor
    }
}

impl<T> EventBuffer<T> {
    /// An empty buffer.
    pub fn new() -> (buffer: Self)
        ensures
            buffer@ == Seq::<T>::empty(),
    {
        EventBuffer { items: Vec::new() }
    }

    /// Appends a drained batch at the tail, in the batch's order. Everything
    /// already buffered stays where it was, so no cursor is invalidated.
    pub fn append_batch(&mut self, batch: Vec<T>)
        ensures
            final(self)@ == old(self)@ + batch@,
    {
        let mut batch = batch;
        self.items.append(&mut batch);
    }

    /// How many events the buffer holds.
    pub fn len(&self) -> (n: usize)
        ensures
            n == self@.len(),
    {
        self.items.len()
    }
}

/// Law: consecutive reads tile the stream. A read moves the cursor exactly
/// past what it returned, so what one read hands out and what the next read
/// hands out, concatenated, is exactly what the buffer held between the two
/// starting positions: nothing re-delivered, nothing skipped.
pub proof fn lemma_consecutive_reads_tile<T>(stream: Seq<T>, start: int, mid: int, stop: int)
    requires
        0 <= start <= mid <= stop <= stream.len(),
    ensures
        stream.subrange(start, mid) + stream.subrange(mid, stop) == stream.subrange(start, stop),
{
    assert(stream.subrange(start, mid) + stream.subrange(mid, stop) =~= stream.subrange(
        start,
        stop,
    ));
}

impl<T: Payload> EventBuffer<T> {
    /// Copies out everything buffered since `reader` last read, in order, and
    /// moves the cursor past it. The buffer itself does not change, so other
    /// readers still see the same events: a second reader at the same
    /// position is given the same batch.
    pub fn read_new(&self, reader: &mut BufferReader) -> (batch: Vec<T>)
        requires
            old(reader).valid_for(self),
        ensures
            batch@ == self@.subrange(old(reader)@, self@.len() as int),
            final(reader)@ == self@.len(),
            final(reader).valid_for(self),
    {
        let mut batch: Vec<T> = Vec::new();
        let mut i: usize = reader.cursor;
        while i < self.items.len()
            invariant
                old(reader)@ <= i <= self.items.len(),
                batch@ == self@.subrange(old(reader)@, i as int),
            decreases self.items.len() - i,
        {
            batch.push(self.items[i].dup());
            i = i + 1;
            assert(self@.subrange(old(reader)@, i as int) =~= self@.subrange(
                old(reader)@,
                i - 1,
            ).push(self@[i - 1]));
        }
        reader.cursor = self.items.len();
        batch
    }
}

} // verus!
