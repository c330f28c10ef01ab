//! The per-type bridge: one payload type's channel paired with its event
//! buffer, and the once-per-tick drain that moves everything queued into the
//! buffer without blocking.

use vstd::prelude::*;
use crate::buffer::BufferReader;
use crate::buffer::EventBuffer;
use crate::channel::TypedChannel;
use crate::events::Payload;

verus! {

/// One payload type's complete path through the bridge: producers send into
/// `queue` from their side; once per tick the bridge task drains the queue
/// into `buffered`, where readers consume it through cursors.
pub struct EventChannel<T> {
    queue: TypedChannel<T>,
    buffer: EventBuffer<T>,
}

impl<T> EventChannel<T> {
    /// What is sent but not yet drained.
    pub closed spec fn queued(&self) -> Seq<T> {
        self.queue@
    }

    /// What the bridge has republished for readers, in arrival order.
    pub closed spec fn buffered(&self) -> Seq<T> {
        self.buffer@
    }

    /// Everything this channel has ever carried, in send order: first what
    /// readers can already see, then what still waits in the queue. A send
    /// appends to it and a tick leaves it unchanged.
    pub open spec fn carried(&self) -> Seq<T> {
        self.buffered() + self.queued()
    }

    /// A fresh channel with its (empty) buffer.
    pub fn new() -> (chan: Self)
        ensures
            chan.queued() == Seq::<T>::empty(),
            chan.buffered() == Seq::<T>::empty(),
            chan.carried() == Seq::<T>::empty(),
    {
        let chan = EventChannel { queue: TypedChannel::new(), buffer: EventBuffer::new() };
        assert(chan.carried() =~= Seq::<T>::empty());
        chan
    }

    /// The producer side: enqueues one event behind everything already sent.
    pub fn send(&mut self, value: T)
        ensures
            final(self).queued() == old(self).queued().push(value),
            final(self).buffered() == old(self).buffered(),
            final(self).carried() == old(self).carried().push(value),
    {
        self.queue.send(value);
        assert(self.carried() =~= old(self).carried().push(value));
    }

    /// The bridge task's once-per-tick step: takes everything currently
    /// queued — possibly nothing — and republishes it, in send order, behind
    /// what was already buffered. Never blocks and never re-delivers: after
    /// the drain the queue is empty, and what readers can see grows by
    /// exactly the drained batch.
    pub fn tick(&mut self)
        ensures
            final(self).buffered() == old(self).buffered() + old(self).queued(),
            final(self).queued() == Seq::<T>::empty(),
            final(self).carried() == old(self).carried(),
    {
        let batch = self.queue.drain();
        self.buffer.append_batch(batch);
        assert(self.carried() =~= old(self).carried());
    }

    /// How many events wait in the queue.
    pub fn queued_len(&self) -> (n: usize)
        ensures
            n == self.queued().len(),
    {
        self.queue.len()
    }

    /// How many events the buffer holds.
    pub fn buffered_len(&self) -> (n: usize)
        ensures
            n == self.buffered().len(),
    {
        self.buffer.len()
    }

    /// Whether `reader` points into this channel's buffer.
    pub open spec fn reader_valid(&self, reader: &BufferReader) -> bool {
        0 <= reader@ <= self.buffered().len()
    }
}

impl<T: Payload> EventChannel<T> {
    /// The consumer side: everything buffered since `reader` last read, in
    /// order. The buffer does not change, so independent readers each see the
    /// full stream.
    pub fn read_new(&self, reader: &mut BufferReader) -> (batch: Vec<T>)
        requires
            self.reader_valid(old(reader)),
        ensures
            batch@ == self.buffered().subrange(old(reader)@, self.buffered().len() as int),
            final(reader)@ == self.buffered().len(),
            self.reader_valid(final(reader)),
    {
        self.buffer.read_new(reader)
    }
}

} // verus!
