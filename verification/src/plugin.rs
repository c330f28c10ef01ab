//! The plugin's configuration surface: connection parameters gathered by
//! builder calls, table and reducer bindings recorded as pending until the
//! live connection exists, and the build step that validates the parameters
//! and hands the pending bindings out exactly once.

use vstd::prelude::*;
use crate::reducers::RegisterableReducerEvent;
use crate::tables::TableEvents;

verus! {

/// How the transport compresses large messages.
#[derive(Debug, Clone, Copy, PartialEq, Eq, Structural)]
pub enum Compression {
    /// Brotli compression.
    Brotli,
    /// Gzip compression.
    Gzip,
    /// No compression.
    Uncompressed,
}

/// A configuration error found at build time, before any binding runs.
#[derive(Debug, Clone, Copy, PartialEq, Eq, Structural)]
pub enum ConfigError {
    /// No host address was supplied.
    MissingUri,
    /// No module name was supplied.
    MissingModuleName,
}

impl ConfigError {
    /// The message startup aborts with.
    pub fn message(&self) -> (msg: &'static str)
        ensures
            self is MissingUri ==> msg@ == "No uri set for StdbPlugin. Set it with the with_uri() function"@,
            self is MissingModuleName ==> msg@ == "No module name set for StdbPlugin. Set it with the with_module_name() function"@,
    {
        match self {
            ConfigError::MissingUri => "No uri set for StdbPlugin. Set it with the with_uri() function",
            ConfigError::MissingModuleName => "No module name set for StdbPlugin. Set it with the with_module_name() function",
        }
    }
}

/// One pending table binding: which table (by its stable tag) and which of
/// its hooks to bind once the live connection exists.
#[derive(Debug, Clone, Copy, PartialEq, Eq, Structural)]
pub struct TableBinding {
    /// The table's stable tag, the stand-in for its runtime identity.
    pub table_tag: u64,
    /// Which hooks to bind.
    pub events: TableEvents,
}

/// The plugin under configuration: connection parameters and the pending
/// bindings, recorded now and executed once at build time. After the pending
/// lists are taken they are gone — no binding is ever re-run.
pub struct StdbPlugin {
    /// The name or identity of the remote module, required.
    pub module_name: Option<String>,
    /// The address of the host running the remote module, required.
    pub uri: Option<String>,
    /// The token to authenticate with; without one the host assigns a fresh
    /// anonymous identity.
    pub token: Option<String>,
    /// The compression to ask the transport for; without one the transport
    /// picks its own default.
    pub compression: Option<Compression>,
    /// Whether to ask for light incremental updates.
    pub light_mode: bool,
    /// The table bindings recorded so far, in recording order.
    pub table_bindings: Vec<TableBinding>,
    /// The reducer-result tags recorded so far, in recording order.
    pub reducer_bindings: Vec<u64>,
    /// Whether the pending bindings were already taken.
    pub consumed: bool,
}

impl Default for StdbPlugin {
    /// A plugin with nothing configured and nothing bound.
    fn default() -> (plugin: Self)
        ensures
            plugin.module_name is None,
            plugin.uri is None,
            plugin.token is None,
            plugin.compression is None,
            !plugin.light_mode,
            plugin.table_bindings@ == Seq::<TableBinding>::empty(),
            plugin.reducer_bindings@ == Seq::<u64>::empty(),
            !plugin.consumed,
    {
        StdbPlugin {
            module_name: None,
            uri: None,
            token: None,
            compression: None,
            light_mode: false,
            table_bindings: Vec::new(),
            reducer_bindings: Vec::new(),
            consumed: false,
        }
    }
}

impl StdbPlugin {
    /// Sets the name or identity of the remote module.
    pub fn with_module_name(self, name: String) -> (plugin: Self)
        ensures
            plugin == (StdbPlugin { module_name: Some(name), ..self }),
    {
        StdbPlugin { module_name: Some(name), ..self }
    }

    /// Sets the address of the host running the remote module.
    pub fn with_uri(self, uri: String) -> (plugin: Self)
        ensures
            plugin == (StdbPlugin { uri: Some(uri), ..self }),
    {
        StdbPlugin { uri: Some(uri), ..self }
    }

    /// Supplies a token with which to authenticate. Without one the host
    /// assigns a fresh anonymous identity; a token the host rejects fails the
    /// attempt asynchronously, as a connection-error event.
    pub fn with_token(self, token: String) -> (plugin: Self)
        ensures
            plugin == (StdbPlugin { token: Some(token), ..self }),
    {
        StdbPlugin { token: Some(token), ..self }
    }

    /// Sets the compression the transport uses once messages grow past its
    /// size threshold.
    pub fn with_compression(self, compression: Compression) -> (plugin: Self)
        ensures
            plugin == (StdbPlugin { compression: Some(compression), ..self }),
    {
        StdbPlugin { compression: Some(compression), ..self }
    }

    /// Sets whether light mode is used: non-callers then receive only light
    /// incremental updates — row callbacks, but no reducer callbacks.
    pub fn with_light_mode(self, light_mode: bool) -> (plugin: Self)
        ensures
            plugin == (StdbPlugin { light_mode, ..self }),
    {
        StdbPlugin { light_mode, ..self }
    }

    /// Records a table binding with every hook bound.
    pub fn add_table(self, table_tag: u64) -> (plugin: Self)
        ensures
            plugin == (StdbPlugin {
                table_bindings: plugin.table_bindings,
                ..self
            }),
            plugin.table_bindings@ == self.table_bindings@.push(
                (TableBinding {
                    table_tag,
                    events: (TableEvents { insert: true, update: true, delete: true }),
                }),
            ),
    {
        self.add_partial_table(table_tag, TableEvents::all())
    }

    /// Records a table binding with exactly the hooks `events` asks for. The
    /// same table may be recorded again with a different subset; all its
    /// bindings funnel into the same per-hook streams when they run.
    pub fn add_partial_table(self, table_tag: u64, events: TableEvents) -> (plugin: Self)
        ensures
            plugin == (StdbPlugin {
                table_bindings: plugin.table_bindings,
                ..self
            }),
            plugin.table_bindings@ == self.table_bindings@.push(
                (TableBinding { table_tag, events }),
            ),
    {
        let mut plugin = self;
        plugin.table_bindings.push(TableBinding { table_tag, events });
        plugin
    }

    /// Records a reducer-result binding for `E`.
    pub fn add_reducer<E: RegisterableReducerEvent>(self) -> (plugin: Self)
        ensures
            plugin == (StdbPlugin {
                reducer_bindings: plugin.reducer_bindings,
                ..self
            }),
            plugin.reducer_bindings@ == self.reducer_bindings@.push(E::reducer_tag_spec()),
    {
        let tag = E::reducer_tag();
        let mut plugin = self;
        plugin.reducer_bindings.push(tag);
        plugin
    }

    /// Whether the required connection parameters are present, and if not,
    /// which is missing — the address is checked first, as startup reports it
    /// first.
    pub fn validate_config(&self) -> (check: Result<(), ConfigError>)
        ensures
            check is Ok <==> (self.uri is Some && self.module_name is Some),
            check == Err::<(), ConfigError>(ConfigError::MissingUri) <==> self.uri is None,
            check == Err::<(), ConfigError>(ConfigError::MissingModuleName) <==> (self.uri
                is Some && self.module_name is None),
    {
        if self.uri.is_none() {
            Err(ConfigError::MissingUri)
        } else if self.module_name.is_none() {
            Err(ConfigError::MissingModuleName)
        } else {
            Ok(())
        }
    }

    /// Hands out the pending bindings, in recording order, exactly once:
    /// afterwards the plugin is marked consumed and holds none, so no binding
    /// can run twice. The connection parameters stay for the caller to open
    /// the connection with.
    pub fn take_bindings(&mut self) -> (pending: (Vec<TableBinding>, Vec<u64>))
        requires
            !old(self).consumed,
        ensures
            pending.0@ == old(self).table_bindings@,
            pending.1@ == old(self).reducer_bindings@,
            final(self).consumed,
            final(self).table_bindings@ == Seq::<TableBinding>::empty(),
            final(self).reducer_bindings@ == Seq::<u64>::empty(),
            final(self).module_name == old(self).module_name,
            final(self).uri == old(self).uri,
            final(self).token == old(self).token,
            final(self).compression == old(self).compression,
            final(self).light_mode == old(self).light_mode,
    {
        let mut tables: Vec<TableBinding> = Vec::new();
        let mut reducers: Vec<u64> = Vec::new();
        core::mem::swap(&mut self.table_bindings, &mut tables);
        core::mem::swap(&mut self.reducer_bindings, &mut reducers);
        self.consumed = true;
        (tables, reducers)
    }

    /// The build step's decision: with a complete configuration it hands out
    /// the pending bindings (exactly once) for the caller to execute against
    /// the live connection; with an incomplete one it reports what is missing
    /// and changes nothing.
    pub fn build(&mut self) -> (outcome: Result<(Vec<TableBinding>, Vec<u64>), ConfigError>)
        requires
            !old(self).consumed,
        ensures
            outcome is Ok <==> (old(self).uri is Some && old(self).module_name is Some),
            outcome is Err ==> *final(self) == *old(self),
            outcome is Err ==> (outcome->Err_0 == ConfigError::MissingUri <==> old(self).uri
                is None),
            outcome is Err ==> (outcome->Err_0 == ConfigError::MissingModuleName <==> (old(
                self,
            ).uri is Some && old(self).module_name is None)),
            outcome is Ok ==> {
                &&& outcome->Ok_0.0@ == old(self).table_bindings@
                &&& outcome->Ok_0.1@ == old(self).reducer_bindings@
                &&& final(self).consumed
                &&& final(self).table_bindings@ == Seq::<TableBinding>::empty()
                &&& final(self).reducer_bindings@ == Seq::<u64>::empty()
                &&& final(self).module_name == old(self).module_name
                &&& final(self).uri == old(self).uri
                &&& final(self).token == old(self).token
                &&& final(self).compression == old(self).compression
                &&& final(self).light_mode == old(self).light_mode
            },
    {
        match self.validate_config() {
            Err(e) => Err(e),
            Ok(()) => Ok(self.take_bindings()),
        }
    }
}

} // verus!
