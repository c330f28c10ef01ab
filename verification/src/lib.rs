//! A deterministic, verified core for bridging callback-driven database
//! notifications (row inserts, updates, deletes, reducer results, connection
//! lifecycle signals) into a tick-based event-consumption model.
//!
//! Producer callbacks push typed events into per-type FIFO channels; once per
//! tick a bridge drains every channel, in send order, into a tick-scoped
//! event buffer that any number of independent readers consume through
//! cursors. A tag-keyed registry guarantees one channel and one bridge task
//! per payload type. On top of the raw insert/update streams the table
//! binder synthesizes a derived insert-or-update stream with before/after
//! semantics.
//!
//! The unverified edges (the network client that fires the callbacks, the
//! host application that schedules the tick) live outside this crate and
//! drive it through plain calls.

pub mod bridge;
pub mod buffer;
pub mod channel;
pub mod connection;
pub mod events;
pub mod plugin;
pub mod reducers;
pub mod registry;
pub mod tables;

pub use bridge::EventChannel;
pub use buffer::BufferReader;
pub use buffer::EventBuffer;
pub use channel::TypedChannel;
pub use connection::ConnectionBridge;
pub use connection::ConnectionState;
pub use events::DeleteEvent;
pub use events::InsertEvent;
pub use events::InsertUpdateEvent;
pub use events::Payload;
pub use events::ReducerResultEvent;
pub use events::StdbConnectedEvent;
pub use events::StdbConnectionErrorEvent;
pub use events::StdbDisconnectedEvent;
pub use events::UpdateEvent;
pub use plugin::Compression;
pub use plugin::ConfigError;
pub use plugin::StdbPlugin;
pub use plugin::TableBinding;
pub use reducers::ReducerBridge;
pub use reducers::RegisterableReducerEvent;
pub use registry::ChannelRegistry;
pub use tables::TableBridge;
pub use tables::TableEvents;
