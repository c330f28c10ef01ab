//! The reducer binder: each reducer-result type gets its own stream, fed once
//! per invocation with the result the host synthesized from the invocation's
//! arguments and context, and drained by the same bridge discipline as every
//! row stream.

use vstd::prelude::*;
use crate::bridge::EventChannel;
use crate::buffer::BufferReader;
use crate::events::Payload;
use crate::events::ReducerResultEvent;

verus! {

/// A reducer-result type the host can register with the plugin. The host
/// implements it for each result struct (the unverified edge also installs
/// the matching invocation callback); `reducer_tag` names the payload type's
/// stable registry tag, the stand-in for runtime type identity.
pub trait RegisterableReducerEvent {
    /// The tag, as contracts speak of it.
    spec fn reducer_tag_spec() -> u64;

    /// The payload type's stable registry tag.
    fn reducer_tag() -> (tag: u64)
        ensures
            tag == Self::reducer_tag_spec(),
    ;
}

/// One reducer-result type's stream: fed by the invocation callback, drained
/// once per tick, consumed through cursors.
pub struct ReducerBridge<E> {
    /// The result stream.
    pub results: EventChannel<ReducerResultEvent<E>>,
}

impl<E> ReducerBridge<E> {
    /// A fresh stream carrying nothing.
    pub fn new() -> (bridge: Self)
        ensures
            bridge.results.queued() == Seq::<ReducerResultEvent<E>>::empty(),
            bridge.results.buffered() == Seq::<ReducerResultEvent<E>>::empty(),
    {
        ReducerBridge { results: EventChannel::new() }
    }

    /// What one reducer invocation does: exactly the result the host built
    /// from the invocation — arguments, context and all — is enqueued, behind
    /// everything already sent.
    pub fn handle_result(&mut self, result: E)
        ensures
            final(self).results.queued() == old(self).results.queued().push(
                (ReducerResultEvent { result }),
            ),
            final(self).results.buffered() == old(self).results.buffered(),
    {
        self.results.send(ReducerResultEvent::new(result));
    }

    /// The bridge task's step for this stream: drains the queue, in order,
    /// into the buffer.
    pub fn tick(&mut self)
        ensures
            final(self).results.buffered() == old(self).results.buffered() + old(
                self,
            ).results.queued(),
            final(self).results.queued() == Seq::<ReducerResultEvent<E>>::empty(),
    {
        self.results.tick();
    }
}

impl<E: Payload> ReducerBridge<E> {
    /// Everything the result stream buffered since `reader` last read.
    pub fn read_new_results(&self, reader: &mut BufferReader) -> (batch: Vec<
        ReducerResultEvent<E>,
    >)
        requires
            self.results.reader_valid(old(reader)),
        ensures
            batch@ == self.results.buffered().subrange(
                old(reader)@,
                self.results.buffered().len() as int,
            ),
            final(reader)@ == self.results.buffered().len(),
    {
        self.results.read_new(reader)
    }
}

} // verus!
