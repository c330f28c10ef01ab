//! The channel registry: a mapping from payload-type tags to bridged
//! channels, created on first use and returned unchanged thereafter, with an
//! idempotency marker recording that the slot's bridge task was scheduled.
//!
//! Runtime type identity is modelled by a stable numeric tag: each payload
//! type the host binds gets its own tag, so "at most one channel and at most
//! one bridge task per payload type" becomes distinctness of tags.

use vstd::prelude::*;
use vstd::pervasive::VecAdditionalExecFns;
use crate::bridge::EventChannel;
use crate::buffer::BufferReader;
use crate::events::Payload;

verus! {

/// The slot `tag` occupies in `tags`: the first index holding it, or
/// `tags.len()` when it is absent — which is exactly the index a new entry
/// for it would be created at.
pub open spec fn find_tag(tags: Seq<u64>, tag: u64) -> int
    decreases tags.len(),
{
    if tags.len() == 0 {
        0
    } else if tags[0] == tag {
        0
    } else {
        1 + find_tag(tags.drop_first(), tag)
    }
}

/// The registry's tags after `tag` is registered: unchanged when it is
/// already present, extended by it otherwise.
pub open spec fn register_tags(tags: Seq<u64>, tag: u64) -> Seq<u64> {
    if tags.contains(tag) {
        tags
    } else {
        tags.push(tag)
    }
}

/// `find_tag` lands on the first occurrence of `tag`, inside the sequence
/// exactly when the tag is present.
pub proof fn lemma_find_tag_props(tags: Seq<u64>, tag: u64)
    ensures
        0 <= find_tag(tags, tag) <= tags.len(),
        find_tag(tags, tag) < tags.len() ==> tags[find_tag(tags, tag)] == tag,
        forall|j: int| 0 <= j < find_tag(tags, tag) ==> tags[j] != tag,
        (find_tag(tags, tag) < tags.len()) <==> tags.contains(tag),
    decreases tags.len(),
{
    if tags.len() == 0 {
        assert(!tags.contains(tag));
    } else if tags[0] == tag {
        assert(tags.contains(tag));
    } else {
        let rest = tags.drop_first();
        lemma_find_tag_props(rest, tag);
        assert(forall|j: int| 0 <= j < rest.len() ==> rest[j] == tags[j + 1]);
        if rest.contains(tag) {
            let i = choose|i: int| 0 <= i < rest.len() && rest[i] == tag;
            assert(tags[i + 1] == tag);
            assert(tags.contains(tag));
        }
        if tags.contains(tag) {
            let i = choose|i: int| 0 <= i < tags.len() && tags[i] == tag;
            assert(i != 0);
            assert(rest[i - 1] == tag);
            assert(rest.contains(tag));
        }
        assert forall|j: int| 0 <= j < find_tag(tags, tag) implies tags[j] != tag by {
            if j > 0 {
                assert(rest[j - 1] != tag);
            }
        }
    }
}

/// When `tag` occurs at `i` and nowhere before, `find_tag` returns `i`.
proof fn lemma_find_tag_at(tags: Seq<u64>, tag: u64, i: int)
    requires
        0 <= i < tags.len(),
        tags[i] == tag,
        forall|j: int| 0 <= j < i ==> tags[j] != tag,
    ensures
        find_tag(tags, tag) == i,
    decreases i,
{
    if i == 0 {
    } else {
        let rest = tags.drop_first();
        assert(forall|j: int| 0 <= j < rest.len() ==> rest[j] == tags[j + 1]);
        lemma_find_tag_at(rest, tag, i - 1);
    }
}

/// When `tag` occurs nowhere, `find_tag` returns the length.
proof fn lemma_find_tag_absent(tags: Seq<u64>, tag: u64)
    requires
        forall|j: int| 0 <= j < tags.len() ==> tags[j] != tag,
    ensures
        find_tag(tags, tag) == tags.len(),
        !tags.contains(tag),
    decreases tags.len(),
{
    if tags.len() == 0 {
    } else {
        let rest = tags.drop_first();
        assert(forall|j: int| 0 <= j < rest.len() ==> rest[j] == tags[j + 1]);
        lemma_find_tag_absent(rest, tag);
    }
}

/// Law: registering the same payload-type tag twice is the same as
/// registering it once — the second registration lands on the same slot and
/// creates no second entry (so no second channel and no second bridge task).
pub proof fn lemma_register_idempotent(tags: Seq<u64>, tag: u64)
    ensures
        register_tags(register_tags(tags, tag), tag) == register_tags(tags, tag),
        find_tag(register_tags(tags, tag), tag) == find_tag(tags, tag),
{
    lemma_find_tag_props(tags, tag);
    if tags.contains(tag) {
    } else {
        let pushed = tags.push(tag);
        assert(pushed[tags.len() as int] == tag);
        assert(pushed.contains(tag));
        lemma_find_tag_at(pushed, tag, tags.len() as int);
    }
}

struct RegistryEntry<T> {
    tag: u64,
    chan: EventChannel<T>,
    bridged: bool,
}

/// The per-payload-type channel store. Each entry pairs a tag with its
/// channel and with the marker saying its bridge task was already scheduled.
/// Entries are created by [`ChannelRegistry::get_or_create`], exactly once
/// per tag, and never removed.
pub struct ChannelRegistry<T> {
    entries: Vec<RegistryEntry<T>>,
}

impl<T> ChannelRegistry<T> {
    /// The registered tags, in creation order.
    pub closed spec fn tags(&self) -> Seq<u64> {
        self.entries@.map_values(|e: RegistryEntry<T>| e.tag)
    }

    /// What waits, undrained, in slot `i`'s channel.
    pub closed spec fn channel_queued(&self, i: int) -> Seq<T> {
        self.entries@[i].chan.queued()
    }

    /// What slot `i`'s bridge has republished for readers.
    pub closed spec fn channel_buffered(&self, i: int) -> Seq<T> {
        self.entries@[i].chan.buffered()
    }

    /// Whether slot `i`'s bridge task was scheduled.
    pub closed spec fn is_bridged(&self, i: int) -> bool {
        self.entries@[i].bridged
    }

    /// No two entries share a tag: at most one channel per payload type.
    pub open spec fn wf(&self) -> bool {
        forall|i: int, j: int|
            0 <= i < j < self.tags().len() ==> self.tags()[i] != self.tags()[j]
    }

    /// An empty registry.
    pub fn new() -> (reg: Self)
        ensures
            reg.tags() == Seq::<u64>::empty(),
            reg.wf(),
    {
        let reg = ChannelRegistry { entries: Vec::new() };
        assert(reg.tags() =~= Seq::<u64>::empty());
        reg
    }

    /// How many channels exist.
    pub fn len(&self) -> (n: usize)
        ensures
            n == self.tags().len(),
    {
        self.entries.len()
    }

    /// The slot `tag` occupies, or the length when it has no slot yet.
    fn position_of(&self, tag: u64) -> (pos: usize)
        ensures
            pos == find_tag(self.tags(), tag),
            pos <= self.tags().len(),
            pos < self.tags().len() ==> self.tags()[pos as int] == tag,
            pos == self.tags().len() ==> !self.tags().contains(tag),
    {
        let mut i: usize = 0;
        while i < self.entries.len()
            invariant
                i <= self.entries@.len(),
                forall|j: int| 0 <= j < i ==> self.tags()[j] != tag,
            decreases self.entries@.len() - i,
        {
            if self.entries[i].tag == tag {
                proof {
                    lemma_find_tag_at(self.tags(), tag, i as int);
                }
                return i;
            }
            i = i + 1;
        }
        proof {
            lemma_find_tag_absent(self.tags(), tag);
        }
        i
    }

    /// The registry's get-or-create contract: on the first call for `tag` a
    /// fresh, empty, not-yet-bridged channel is created in a new slot; on
    /// every later call the same slot is returned with nothing created and
    /// nothing disturbed. Existing slots — their tags, contents and bridge
    /// markers — are never touched.
    pub fn get_or_create(&mut self, tag: u64) -> (idx: usize)
        requires
            old(self).wf(),
        ensures
            final(self).wf(),
            idx == find_tag(old(self).tags(), tag),
            final(self).tags() == register_tags(old(self).tags(), tag),
            idx < final(self).tags().len(),
            final(self).tags()[idx as int] == tag,
            forall|j: int|
                0 <= j < old(self).tags().len() ==> {
                    &&& final(self).channel_queued(j) == old(self).channel_queued(j)
                    &&& final(self).channel_buffered(j) == old(self).channel_buffered(j)
                    &&& final(self).is_bridged(j) == old(self).is_bridged(j)
                },
            old(self).tags().contains(tag) ==> *final(self) == *old(self),
            !old(self).tags().contains(tag) ==> {
                &&& final(self).tags().len() == old(self).tags().len() + 1
                &&& final(self).channel_queued(idx as int) == Seq::<T>::empty()
                &&& final(self).channel_buffered(idx as int) == Seq::<T>::empty()
                &&& !final(self).is_bridged(idx as int)
            },
    {
        let pos = self.position_of(tag);
        proof {
            lemma_find_tag_props(self.tags(), tag);
        }
        if pos < self.entries.len() {
            pos
        } else {
            self.entries.push(
                RegistryEntry { tag, chan: EventChannel::new(), bridged: false },
            );
            proof {
                assert(self.tags() =~= old(self).tags().push(tag));
            }
            pos
        }
    }

    /// Sends one event into slot `idx`'s channel; every other slot, and the
    /// slot's own buffer and bridge marker, stay as they were.
    pub fn send_to(&mut self, idx: usize, value: T)
        requires
            idx < old(self).tags().len(),
        ensures
            final(self).tags() == old(self).tags(),
            final(self).channel_queued(idx as int) == old(self).channel_queued(
                idx as int,
            ).push(value),
            final(self).channel_buffered(idx as int) == old(self).channel_buffered(idx as int),
            final(self).is_bridged(idx as int) == old(self).is_bridged(idx as int),
            forall|j: int|
                0 <= j < old(self).tags().len() && j != idx ==> {
                    &&& final(self).channel_queued(j) == old(self).channel_queued(j)
                    &&& final(self).channel_buffered(j) == old(self).channel_buffered(j)
                    &&& final(self).is_bridged(j) == old(self).is_bridged(j)
                },
    {
        let mut entry = RegistryEntry { tag: 0, chan: EventChannel::new(), bridged: false };
        self.entries.set_and_swap(idx, &mut entry);
        entry.chan.send(value);
        self.entries.set_and_swap(idx, &mut entry);
        proof {
            assert(self.tags() =~= old(self).tags());
        }
    }

    /// The bridge task's step for slot `idx`: drains its queue, in order,
    /// into its buffer. Every other slot stays as it was.
    pub fn tick_at(&mut self, idx: usize)
        requires
            idx < old(self).tags().len(),
        ensures
            final(self).tags() == old(self).tags(),
            final(self).channel_buffered(idx as int) == old(self).channel_buffered(idx as int)
                + old(self).channel_queued(idx as int),
            final(self).channel_queued(idx as int) == Seq::<T>::empty(),
            final(self).is_bridged(idx as int) == old(self).is_bridged(idx as int),
            forall|j: int|
                0 <= j < old(self).tags().len() && j != idx ==> {
                    &&& final(self).channel_queued(j) == old(self).channel_queued(j)
                    &&& final(self).channel_buffered(j) == old(self).channel_buffered(j)
                    &&& final(self).is_bridged(j) == old(self).is_bridged(j)
                },
    {
        let mut entry = RegistryEntry { tag: 0, chan: EventChannel::new(), bridged: false };
        self.entries.set_and_swap(idx, &mut entry);
        entry.chan.tick();
        self.entries.set_and_swap(idx, &mut entry);
        proof {
            assert(self.tags() =~= old(self).tags());
        }
    }

    /// One whole tick: drains every slot's queue into its buffer, in order,
    /// leaving every queue empty.
    pub fn tick_all(&mut self)
        ensures
            final(self).tags() == old(self).tags(),
            forall|j: int|
                0 <= j < old(self).tags().len() ==> {
                    &&& final(self).channel_buffered(j) == old(self).channel_buffered(j) + old(
                        self,
                    ).channel_queued(j)
                    &&& final(self).channel_queued(j) == Seq::<T>::empty()
                    &&& final(self).is_bridged(j) == old(self).is_bridged(j)
                },
    {
        let mut i: usize = 0;
        while i < self.entries.len()
            invariant
                i <= self.entries@.len(),
                self.tags() == old(self).tags(),
                self.entries@.len() == old(self).tags().len(),
                forall|j: int|
                    0 <= j < i ==> {
                        &&& self.channel_buffered(j) == old(self).channel_buffered(j) + old(
                            self,
                        ).channel_queued(j)
                        &&& self.channel_queued(j) == Seq::<T>::empty()
                        &&& self.is_bridged(j) == old(self).is_bridged(j)
                    },
                forall|j: int|
                    i <= j < self.entries@.len() ==> {
                        &&& self.channel_queued(j) == old(self).channel_queued(j)
                        &&& self.channel_buffered(j) == old(self).channel_buffered(j)
                        &&& self.is_bridged(j) == old(self).is_bridged(j)
                    },
            decreases self.entries@.len() - i,
        {
            self.tick_at(i);
            i = i + 1;
        }
    }

    /// Marks slot `idx`'s bridge task as scheduled and says whether it still
    /// had to be: true on the first call for the slot, false ever after, so a
    /// caller that schedules only on true schedules at most one task per
    /// payload type.
    pub fn schedule_bridge(&mut self, idx: usize) -> (newly: bool)
        requires
            idx < old(self).tags().len(),
        ensures
            newly == !old(self).is_bridged(idx as int),
            final(self).is_bridged(idx as int),
            final(self).tags() == old(self).tags(),
            forall|j: int|
                0 <= j < old(self).tags().len() ==> {
                    &&& final(self).channel_queued(j) == old(self).channel_queued(j)
                    &&& final(self).channel_buffered(j) == old(self).channel_buffered(j)
                    &&& (j != idx ==> final(self).is_bridged(j) == old(self).is_bridged(j))
                },
    {
        let was = self.entries[idx].bridged;
        if was {
            return false;
        }
        let mut entry = RegistryEntry { tag: 0, chan: EventChannel::new(), bridged: false };
        self.entries.set_and_swap(idx, &mut entry);
        entry.bridged = true;
        self.entries.set_and_swap(idx, &mut entry);
        proof {
            assert(self.tags() =~= old(self).tags());
        }
        true
    }
}

impl<T: Payload> ChannelRegistry<T> {
    /// The consumer side for slot `idx`: everything its buffer holds since
    /// `reader` last read, in order. Nothing in the registry changes.
    pub fn read_new_at(&self, idx: usize, reader: &mut BufferReader) -> (batch: Vec<T>)
        requires
            idx < self.tags().len(),
            0 <= old(reader)@ <= self.channel_buffered(idx as int).len(),
        ensures
            batch@ == self.channel_buffered(idx as int).subrange(
                old(reader)@,
                self.channel_buffered(idx as int).len() as int,
            ),
            final(reader)@ == self.channel_buffered(idx as int).len(),
    {
        self.entries[idx].chan.read_new(reader)
    }
}

} // verus!
