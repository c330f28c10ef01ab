//! The per-payload-type conduit: an unbounded FIFO that producers push into
//! and that the bridge drains without blocking, as one batch, once per tick.

use vstd::prelude::*;

verus! {

/// One payload type's conduit. Items come out in exactly the order they were
/// sent; a drain takes everything currently queued and nothing blocks.
pub struct TypedChannel<T> {
    items: Vec<T>,
}

impl<T> View for TypedChannel<T> {
    type V = Seq<T>;

    closed spec fn view(&self) -> Seq<T> {
        self.items@
    }
}

impl<T> TypedChannel<T> {
    /// An empty channel.
    pub fn new() -> (chan: Self)
        ensures
            chan@ == Seq::<T>::empty(),
    {
        TypedChannel { items: Vec::new() }
    }

    /// Enqueues one value at the tail; nothing already queued moves.
    pub fn send(&mut self, value: T)
        ensures
            final(self)@ == old(self)@.push(value),
    {
        self.items.push(value);
    }

    /// Takes everything currently queued, in send order, and leaves the
    /// channel empty. A total function of the queue alone: it never blocks,
    /// and an empty channel yields an empty batch, not an error.
    pub fn drain(&mut self) -> (batch: Vec<T>)
        ensures
            batch@ == old(self)@,
            final(self)@ == Seq::<T>::empty(),
            old(self)@.len() == 0 ==> batch@.len() == 0,
    {
        let mut batch: Vec<T> = Vec::new();
        core::mem::swap(&mut self.items, &mut batch);
        batch
    }

    /// How many items are currently queued.
    pub fn len(&self) -> (n: usize)
        ensures
            n == self@.len(),
    {
        self.items.len()
    }

    /// Whether nothing is queued.
    pub fn is_empty(&self) -> (empty: bool)
        ensures
            empty == (self@.len() == 0),
    {
        self.items.len() == 0
    }
}

/// The queue contents after the values of `sent` are sent one at a time, in
/// order, into a channel whose contents were `start`. Each step is the effect
/// `send` states in its postcondition.
pub open spec fn after_sends<T>(start: Seq<T>, sent: Seq<T>) -> Seq<T>
    decreases sent.len(),
{
    if sent.len() == 0 {
        start
    } else {
        after_sends(start.push(sent[0]), sent.drop_first())
    }
}

/// Sending a sequence of values appends them, in order, to what was already
/// queued.
pub proof fn lemma_after_sends_appends<T>(start: Seq<T>, sent: Seq<T>)
    ensures
        after_sends(start, sent) == start + sent,
    decreases sent.len(),
{
    if sent.len() == 0 {
        assert(start + sent =~= start);
    } else {
        lemma_after_sends_appends(start.push(sent[0]), sent.drop_first());
        assert(start.push(sent[0]) + sent.drop_first() =~= start + sent);
    }
}

/// Law: events sent by one producer into one channel are observed in send
/// order — a drain of a channel that started empty and received exactly the
/// values of `sent` yields exactly `sent`: same values, same order, no
/// duplication, no loss, for any volume.
pub proof fn lemma_channel_fifo<T>(sent: Seq<T>)
    ensures
        after_sends(Seq::<T>::empty(), sent) == sent,
{
    lemma_after_sends_appends(Seq::<T>::empty(), sent);
    assert(Seq::<T>::empty() + sent =~= sent);
}

} // verus!
