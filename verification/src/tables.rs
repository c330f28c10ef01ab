//! The table binder: which of a table's notification hooks are bound, the
//! typed channels each bound hook feeds, and the synthesis of the derived
//! insert-or-update stream out of the raw insert and update notifications.

use vstd::prelude::*;
use crate::bridge::EventChannel;
use crate::buffer::BufferReader;
use crate::events::DeleteEvent;
use crate::events::InsertEvent;
use crate::events::InsertUpdateEvent;
use crate::events::Payload;
use crate::events::UpdateEvent;

verus! {

/// Which of a table's notification hooks to bind. Binding both `insert` and
/// `update` in one request also binds the derived insert-or-update stream.
#[derive(Debug, Default, Clone, Copy, PartialEq, Eq, Structural)]
pub struct TableEvents {
    /// Bind the row-insertion hook, feeding [`InsertEvent`]s.
    pub insert: bool,
    /// Bind the row-update hook, feeding [`UpdateEvent`]s. Only tables with a
    /// primary key report updates.
    pub update: bool,
    /// Bind the row-deletion hook, feeding [`DeleteEvent`]s.
    pub delete: bool,
}

impl TableEvents {
    /// Bind every hook.
    pub fn all() -> (ev: Self)
        ensures
            ev == (TableEvents { insert: true, update: true, delete: true }),
    {
        TableEvents { insert: true, update: true, delete: true }
    }

    /// Bind every hook but the update hook — for tables without a primary
    /// key, which report no updates.
    pub fn no_update() -> (ev: Self)
        ensures
            ev == (TableEvents { insert: true, update: false, delete: true }),
    {
        TableEvents { insert: true, update: false, delete: true }
    }
}

/// The event an insert notification feeds into the insert stream.
pub open spec fn insert_event<T>(row: T) -> InsertEvent<T> {
    InsertEvent { row }
}

/// The event a delete notification feeds into the delete stream.
pub open spec fn delete_event<T>(row: T) -> DeleteEvent<T> {
    DeleteEvent { row }
}

/// The event an update notification feeds into the update stream.
pub open spec fn update_event<T>(old_row: T, new_row: T) -> UpdateEvent<T> {
    UpdateEvent { old_row, new_row }
}

/// The derived event an insert notification feeds into the insert-or-update
/// stream: no prior value.
pub open spec fn iu_insert_event<T>(row: T) -> InsertUpdateEvent<T> {
    InsertUpdateEvent { old_row: None, new_row: row }
}

/// The derived event an update notification feeds into the insert-or-update
/// stream: the replaced value travels along.
pub open spec fn iu_update_event<T>(old_row: T, new_row: T) -> InsertUpdateEvent<T> {
    InsertUpdateEvent { old_row: Some(old_row), new_row }
}

/// Law: the derived stream's before/after semantics. An insert alone extends
/// the stream by exactly one event carrying no prior value; an insert
/// followed by an update extends it by two, the second carrying the inserted
/// value as the prior value and the updated value as the new one.
pub proof fn lemma_insert_or_update_synthesis<T>(
    stream: Seq<InsertUpdateEvent<T>>,
    inserted: T,
    updated: T,
)
    ensures
        stream.push(iu_insert_event(inserted)).len() == stream.len() + 1,
        stream.push(iu_insert_event(inserted)).last().old_row is None,
        stream.push(iu_insert_event(inserted)).last().new_row == inserted,
        stream.push(iu_insert_event(inserted)).push(iu_update_event(inserted, updated)).len()
            == stream.len() + 2,
        stream.push(iu_insert_event(inserted)).push(iu_update_event(inserted, updated))[
            stream.len() as int] == iu_insert_event(inserted),
        stream.push(iu_insert_event(inserted)).push(
            iu_update_event(inserted, updated),
        ).last().old_row == Some(inserted),
        stream.push(iu_insert_event(inserted)).push(
            iu_update_event(inserted, updated),
        ).last().new_row == updated,
{
}

/// One table's bindings and channels. Each hook's channel exists from the
/// start but carries events only once its hook is bound; binding is monotone
/// and never disturbs a channel, so asking for the same hook twice funnels
/// into the same stream instead of creating a second one.
pub struct TableBridge<T> {
    /// Whether the insert hook is bound.
    pub insert_bound: bool,
    /// Whether the update hook is bound.
    pub update_bound: bool,
    /// Whether the delete hook is bound.
    pub delete_bound: bool,
    /// Whether the derived insert-or-update stream is bound. Set when one
    /// binding request asks for insert and update together.
    pub insert_update_bound: bool,
    /// The insert stream.
    pub inserts: EventChannel<InsertEvent<T>>,
    /// The update stream.
    pub updates: EventChannel<UpdateEvent<T>>,
    /// The delete stream.
    pub deletes: EventChannel<DeleteEvent<T>>,
    /// The derived insert-or-update stream.
    pub insert_updates: EventChannel<InsertUpdateEvent<T>>,
}

impl<T> TableBridge<T> {
    /// A table with nothing bound and nothing carried.
    pub fn new() -> (bridge: Self)
        ensures
            !bridge.insert_bound,
            !bridge.update_bound,
            !bridge.delete_bound,
            !bridge.insert_update_bound,
            bridge.inserts.queued() == Seq::<InsertEvent<T>>::empty(),
            bridge.inserts.buffered() == Seq::<InsertEvent<T>>::empty(),
            bridge.updates.queued() == Seq::<UpdateEvent<T>>::empty(),
            bridge.updates.buffered() == Seq::<UpdateEvent<T>>::empty(),
            bridge.deletes.queued() == Seq::<DeleteEvent<T>>::empty(),
            bridge.deletes.buffered() == Seq::<DeleteEvent<T>>::empty(),
            bridge.insert_updates.queued() == Seq::<InsertUpdateEvent<T>>::empty(),
            bridge.insert_updates.buffered() == Seq::<InsertUpdateEvent<T>>::empty(),
    {
        TableBridge {
            insert_bound: false,
            update_bound: false,
            delete_bound: false,
            insert_update_bound: false,
            inserts: EventChannel::new(),
            updates: EventChannel::new(),
            deletes: EventChannel::new(),
            insert_updates: EventChannel::new(),
        }
    }

    /// Binds the hooks `events` asks for, on top of whatever is already
    /// bound. Binding is idempotent and additive: a hook bound twice stays
    /// bound once, a second request with a different subset unions in, and no
    /// channel's contents move. The derived stream is bound when one request
    /// asks for insert and update together.
    pub fn bind(&mut self, events: TableEvents)
        ensures
            final(self).insert_bound == (old(self).insert_bound || events.insert),
            final(self).update_bound == (old(self).update_bound || events.update),
            final(self).delete_bound == (old(self).delete_bound || events.delete),
            final(self).insert_update_bound == (old(self).insert_update_bound || (events.insert
                && events.update)),
            final(self).inserts == old(self).inserts,
            final(self).updates == old(self).updates,
            final(self).deletes == old(self).deletes,
            final(self).insert_updates == old(self).insert_updates,
    {
        if events.insert {
            self.insert_bound = true;
        }
        if events.update {
            self.update_bound = true;
        }
        if events.delete {
            self.delete_bound = true;
        }
        if events.insert && events.update {
            self.insert_update_bound = true;
        }
    }

    /// The bridge task's step for this table: drains all four streams into
    /// their buffers. Bindings stay as they were.
    pub fn tick(&mut self)
        ensures
            final(self).insert_bound == old(self).insert_bound,
            final(self).update_bound == old(self).update_bound,
            final(self).delete_bound == old(self).delete_bound,
            final(self).insert_update_bound == old(self).insert_update_bound,
            final(self).inserts.buffered() == old(self).inserts.buffered() + old(
                self,
            ).inserts.queued(),
            final(self).inserts.queued() == Seq::<InsertEvent<T>>::empty(),
            final(self).updates.buffered() == old(self).updates.buffered() + old(
                self,
            ).updates.queued(),
            final(self).updates.queued() == Seq::<UpdateEvent<T>>::empty(),
            final(self).deletes.buffered() == old(self).deletes.buffered() + old(
                self,
            ).deletes.queued(),
            final(self).deletes.queued() == Seq::<DeleteEvent<T>>::empty(),
            final(self).insert_updates.buffered() == old(self).insert_updates.buffered() + old(
                self,
            ).insert_updates.queued(),
            final(self).insert_updates.queued() == Seq::<InsertUpdateEvent<T>>::empty(),
    {
        self.inserts.tick();
        self.updates.tick();
        self.deletes.tick();
        self.insert_updates.tick();
    }
}

impl<T: Payload> TableBridge<T> {
    /// What one insert notification does: the row goes to the insert stream
    /// when the insert hook is bound, and to the derived stream — with no
    /// prior value — when that is bound. Unbound streams, buffers and
    /// bindings stay untouched.
    pub fn handle_insert(&mut self, row: T)
        ensures
            final(self).insert_bound == old(self).insert_bound,
            final(self).update_bound == old(self).update_bound,
            final(self).delete_bound == old(self).delete_bound,
            final(self).insert_update_bound == old(self).insert_update_bound,
            old(self).insert_bound ==> final(self).inserts.queued() == old(
                self,
            ).inserts.queued().push(insert_event(row)),
            !old(self).insert_bound ==> final(self).inserts == old(self).inserts,
            final(self).inserts.buffered() == old(self).inserts.buffered(),
            old(self).insert_update_bound ==> final(self).insert_updates.queued() == old(
                self,
            ).insert_updates.queued().push(iu_insert_event(row)),
            !old(self).insert_update_bound ==> final(self).insert_updates == old(
                self,
            ).insert_updates,
            final(self).insert_updates.buffered() == old(self).insert_updates.buffered(),
            final(self).updates == old(self).updates,
            final(self).deletes == old(self).deletes,
    {
        if self.insert_bound && self.insert_update_bound {
            let copy = row.dup();
            self.insert_updates.send(InsertUpdateEvent { old_row: None, new_row: copy });
            self.inserts.send(InsertEvent { row });
        } else if self.insert_bound {
            self.inserts.send(InsertEvent { row });
        } else if self.insert_update_bound {
            self.insert_updates.send(InsertUpdateEvent { old_row: None, new_row: row });
        }
    }

    /// What one update notification does: the replaced and new values go to
    /// the update stream when the update hook is bound, and to the derived
    /// stream — the replaced value as the prior one — when that is bound.
    pub fn handle_update(&mut self, old_row: T, new_row: T)
        ensures
            final(self).insert_bound == old(self).insert_bound,
            final(self).update_bound == old(self).update_bound,
            final(self).delete_bound == old(self).delete_bound,
            final(self).insert_update_bound == old(self).insert_update_bound,
            old(self).update_bound ==> final(self).updates.queued() == old(
                self,
            ).updates.queued().push(update_event(old_row, new_row)),
            !old(self).update_bound ==> final(self).updates == old(self).updates,
            final(self).updates.buffered() == old(self).updates.buffered(),
            old(self).insert_update_bound ==> final(self).insert_updates.queued() == old(
                self,
            ).insert_updates.queued().push(iu_update_event(old_row, new_row)),
            !old(self).insert_update_bound ==> final(self).insert_updates == old(
                self,
            ).insert_updates,
            final(self).insert_updates.buffered() == old(self).insert_updates.buffered(),
            final(self).inserts == old(self).inserts,
            final(self).deletes == old(self).deletes,
    {
        if self.update_bound && self.insert_update_bound {
            let old_copy = old_row.dup();
            let new_copy = new_row.dup();
            self.insert_updates.send(
                InsertUpdateEvent { old_row: Some(old_copy), new_row: new_copy },
            );
            self.updates.send(UpdateEvent { old_row, new_row });
        } else if self.update_bound {
            self.updates.send(UpdateEvent { old_row, new_row });
        } else if self.insert_update_bound {
            self.insert_updates.send(InsertUpdateEvent { old_row: Some(old_row), new_row });
        }
    }

    /// What one delete notification does: the row goes to the delete stream
    /// when the delete hook is bound; nothing else moves.
    pub fn handle_delete(&mut self, row: T)
        ensures
            final(self).insert_bound == old(self).insert_bound,
            final(self).update_bound == old(self).update_bound,
            final(self).delete_bound == old(self).delete_bound,
            final(self).insert_update_bound == old(self).insert_update_bound,
            old(self).delete_bound ==> final(self).deletes.queued() == old(
                self,
            ).deletes.queued().push(delete_event(row)),
            !old(self).delete_bound ==> final(self).deletes == old(self).deletes,
            final(self).deletes.buffered() == old(self).deletes.buffered(),
            final(self).inserts == old(self).inserts,
            final(self).updates == old(self).updates,
            final(self).insert_updates == old(self).insert_updates,
    {
        if self.delete_bound {
            self.deletes.send(DeleteEvent { row });
        }
    }

    /// Everything the insert stream buffered since `reader` last read.
    pub fn read_new_inserts(&self, reader: &mut BufferReader) -> (batch: Vec<InsertEvent<T>>)
        requires
            self.inserts.reader_valid(old(reader)),
        ensures
            batch@ == self.inserts.buffered().subrange(
                old(reader)@,
                self.inserts.buffered().len() as int,
            ),
            final(reader)@ == self.inserts.buffered().len(),
    {
        self.inserts.read_new(reader)
    }

    /// Everything the update stream buffered since `reader` last read.
    pub fn read_new_updates(&self, reader: &mut BufferReader) -> (batch: Vec<UpdateEvent<T>>)
        requires
            self.updates.reader_valid(old(reader)),
        ensures
            batch@ == self.updates.buffered().subrange(
                old(reader)@,
                self.updates.buffered().len() as int,
            ),
            final(reader)@ == self.updates.buffered().len(),
    {
        self.updates.read_new(reader)
    }

    /// Everything the delete stream buffered since `reader` last read.
    pub fn read_new_deletes(&self, reader: &mut BufferReader) -> (batch: Vec<DeleteEvent<T>>)
        requires
            self.deletes.reader_valid(old(reader)),
        ensures
            batch@ == self.deletes.buffered().subrange(
                old(reader)@,
                self.deletes.buffered().len() as int,
            ),
            final(reader)@ == self.deletes.buffered().len(),
    {
        self.deletes.read_new(reader)
    }

    /// Everything the derived insert-or-update stream buffered since `reader`
    /// last read.
    pub fn read_new_insert_updates(&self, reader: &mut BufferReader) -> (batch: Vec<
        InsertUpdateEvent<T>,
    >)
        requires
            self.insert_updates.reader_valid(old(reader)),
        ensures
            batch@ == self.insert_updates.buffered().subrange(
                old(reader)@,
                self.insert_updates.buffered().len() as int,
            ),
            final(reader)@ == self.insert_updates.buffered().len(),
    {
        self.insert_updates.read_new(reader)
    }
}

} // verus!
