//! The typed event payloads that travel through the bridge, and the
//! duplication capability every payload must offer.

use vstd::prelude::*;

verus! {

/// A value that can travel through a channel and be copied out of an event
/// buffer. `dup` plays the role the `Clone` bound plays at the unverified
/// edge, with the guarantee — stated here so that contracts can rely on it —
/// that the copy equals the original. The host's row and reducer-result
/// types implement this trait.
pub trait Payload: Sized {
    fn dup(&self) -> (copy: Self)
        ensures
            copy == self,
    ;
}

impl Payload for bool {
    fn dup(&self) -> (copy: Self)
        ensures
            copy == self,
    {
        *self
    }
}

impl Payload for u16 {
    fn dup(&self) -> (copy: Self)
        ensures
            copy == self,
    {
        *self
    }
}

impl Payload for u32 {
    fn dup(&self) -> (copy: Self)
        ensures
            copy == self,
    {
        *self
    }
}

impl Payload for u64 {
    fn dup(&self) -> (copy: Self)
        ensures
            copy == self,
    {
        *self
    }
}

impl Payload for usize {
    fn dup(&self) -> (copy: Self)
        ensures
            copy == self,
    {
        *self
    }
}

impl Payload for String {
    fn dup(&self) -> (copy: Self)
        ensures
            copy == self,
    {
        self.clone()
    }
}

impl<T: Payload> Payload for Option<T> {
    fn dup(&self) -> (copy: Self)
        ensures
            copy == self,
    {
        match self {
            Option::Some(v) => Option::Some(v.dup()),
            Option::None => Option::None,
        }
    }
}

/// Notification that a row was inserted into a table.
#[derive(Debug, Clone)]
pub struct InsertEvent<T> {
    /// The row that was inserted.
    pub row: T,
}

/// Notification that a row was deleted from a table.
#[derive(Debug, Clone)]
pub struct DeleteEvent<T> {
    /// The row that was deleted.
    pub row: T,
}

/// Notification that a row was updated in place.
#[derive(Debug, Clone)]
pub struct UpdateEvent<T> {
    /// The row's value before the update.
    pub old_row: T,
    /// The row's value after the update.
    pub new_row: T,
}

/// Derived notification merging the insert and update streams of one table:
/// an insert carries no prior value, an update carries the value it replaced.
#[derive(Debug, Clone)]
pub struct InsertUpdateEvent<T> {
    /// The prior value of the row, present exactly when the notification
    /// came from an update.
    pub old_row: Option<T>,
    /// The inserted value, or the value after the update.
    pub new_row: T,
}

/// The outcome of one reducer invocation, as the host chose to record it.
#[derive(Debug, Clone)]
pub struct ReducerResultEvent<T> {
    /// The result of the reducer invocation.
    pub result: T,
}

impl<T> ReducerResultEvent<T> {
    /// Wraps a reducer invocation's outcome as an event.
    pub fn new(result: T) -> (ev: Self)
        ensures
            ev == (ReducerResultEvent { result }),
    {
        ReducerResultEvent { result }
    }
}

/// Signal that a connection was established.
#[derive(Debug, Clone)]
pub struct StdbConnectedEvent {
    /// A plain handle standing for the identity the connection was given.
    pub identity: u64,
    /// The access token with which the same identity can authenticate again.
    pub access_token: String,
}

/// Signal that an established connection ended.
#[derive(Debug, Clone)]
pub struct StdbDisconnectedEvent {
    /// The error message that caused the disconnection, if any.
    pub err: Option<String>,
}

/// Signal that a connection attempt failed before it was established.
#[derive(Debug, Clone)]
pub struct StdbConnectionErrorEvent {
    /// The error message describing the failure.
    pub err: String,
}

impl<T: Payload> Payload for InsertEvent<T> {
    fn dup(&self) -> (copy: Self)
        ensures
            copy == self,
    {
        InsertEvent { row: self.row.dup() }
    }
}

impl<T: Payload> Payload for DeleteEvent<T> {
    fn dup(&self) -> (copy: Self)
        ensures
            copy == self,
    {
        DeleteEvent { row: self.row.dup() }
    }
}

impl<T: Payload> Payload for UpdateEvent<T> {
    fn dup(&self) -> (copy: Self)
        ensures
            copy == self,
    {
        UpdateEvent { old_row: self.old_row.dup(), new_row: self.new_row.dup() }
    }
}

impl<T: Payload> Payload for InsertUpdateEvent<T> {
    fn dup(&self) -> (copy: Self)
        ensures
            copy == self,
    {
        InsertUpdateEvent { old_row: self.old_row.dup(), new_row: self.new_row.dup() }
    }
}

impl<T: Payload> Payload for ReducerResultEvent<T> {
    fn dup(&self) -> (copy: Self)
        ensures
            copy == self,
    {
        ReducerResultEvent { result: self.result.dup() }
    }
}

impl Payload for StdbConnectedEvent {
    fn dup(&self) -> (copy: Self)
        ensures
            copy == self,
    {
        StdbConnectedEvent { identity: self.identity, access_token: self.access_token.clone() }
    }
}

impl Payload for StdbDisconnectedEvent {
    fn dup(&self) -> (copy: Self)
        ensures
            copy == self,
    {
        StdbDisconnectedEvent { err: self.err.dup() }
    }
}

impl Payload for StdbConnectionErrorEvent {
    fn dup(&self) -> (copy: Self)
        ensures
            copy == self,
    {
        StdbConnectionErrorEvent { err: self.err.clone() }
    }
}

} // verus!
