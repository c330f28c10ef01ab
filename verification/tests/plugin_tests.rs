use bevy_spacetimedb::BufferReader;
use bevy_spacetimedb::Compression;
use bevy_spacetimedb::ConfigError;
use bevy_spacetimedb::ConnectionBridge;
use bevy_spacetimedb::ConnectionState;
use bevy_spacetimedb::Payload;
use bevy_spacetimedb::ReducerBridge;
use bevy_spacetimedb::ReducerResultEvent;
use bevy_spacetimedb::RegisterableReducerEvent;
use bevy_spacetimedb::StdbPlugin;
use bevy_spacetimedb::TableEvents;

#[derive(Clone, Debug, PartialEq, Eq)]
struct GsRegister {
    invocation: u64,
    ip: String,
    port: u16,
}

impl Payload for GsRegister {
    fn dup(&self) -> GsRegister {
        GsRegister { invocation: self.invocation, ip: self.ip.clone(), port: self.port }
    }
}

impl RegisterableReducerEvent for GsRegister {
    // The ghost-level tag is erased at runtime; it mirrors `reducer_tag`.
    fn reducer_tag_spec() -> u64 {
        41
    }

    fn reducer_tag() -> u64 {
        41
    }
}

#[derive(Clone, Debug, PartialEq, Eq)]
struct GsSetReady {
    invocation: u64,
}

impl Payload for GsSetReady {
    fn dup(&self) -> GsSetReady {
        GsSetReady { invocation: self.invocation }
    }
}

impl RegisterableReducerEvent for GsSetReady {
    // The ghost-level tag is erased at runtime; it mirrors `reducer_tag`.
    fn reducer_tag_spec() -> u64 {
        42
    }

    fn reducer_tag() -> u64 {
        42
    }
}

#[test]
fn reducer_result_event_new_wraps_the_result() {
    let ev = ReducerResultEvent::new(5u64);
    assert_eq!(ev.result, 5);
}

#[test]
fn reducer_invocation_yields_one_result_with_exact_fields() {
    let mut bridge: ReducerBridge<GsRegister> = ReducerBridge::new();
    bridge.handle_result(GsRegister { invocation: 77, ip: "1.2.3.4".to_string(), port: 9000 });
    bridge.tick();
    let mut reader = BufferReader::new();
    let batch = bridge.read_new_results(&mut reader);
    assert_eq!(batch.len(), 1);
    assert_eq!(batch[0].result.ip, "1.2.3.4");
    assert_eq!(batch[0].result.port, 9000);
    assert_eq!(batch[0].result.invocation, 77);
    // Nothing further arrives without a new invocation.
    bridge.tick();
    assert!(bridge.read_new_results(&mut reader).is_empty());
}

#[test]
fn failed_attempt_yields_one_error_and_no_connected_event() {
    let mut conn = ConnectionBridge::new();
    conn.start_connect();
    conn.on_connect_error("handshake refused".to_string());
    assert_eq!(conn.state(), ConnectionState::Failed);
    conn.tick();
    let mut errors = BufferReader::new();
    let batch = conn.read_new_errors(&mut errors);
    assert_eq!(batch.len(), 1);
    assert_eq!(batch[0].err, "handshake refused");
    let mut connected = BufferReader::new();
    assert!(conn.read_new_connected(&mut connected).is_empty());
    let mut disconnected = BufferReader::new();
    assert!(conn.read_new_disconnected(&mut disconnected).is_empty());
}

#[test]
fn successful_attempt_yields_one_connected_then_one_disconnected() {
    let mut conn = ConnectionBridge::new();
    conn.start_connect();
    conn.on_connect(9, "anon-token".to_string());
    assert_eq!(conn.state(), ConnectionState::Connected);
    conn.tick();
    let mut connected = BufferReader::new();
    let batch = conn.read_new_connected(&mut connected);
    assert_eq!(batch.len(), 1);
    assert_eq!(batch[0].identity, 9);
    assert_eq!(batch[0].access_token, "anon-token");
    let mut errors = BufferReader::new();
    assert!(conn.read_new_errors(&mut errors).is_empty());

    conn.on_disconnect(Some("socket closed".to_string()));
    assert_eq!(conn.state(), ConnectionState::Disconnected);
    conn.tick();
    let mut disconnected = BufferReader::new();
    let batch = conn.read_new_disconnected(&mut disconnected);
    assert_eq!(batch.len(), 1);
    assert_eq!(batch[0].err, Some("socket closed".to_string()));
    // Still exactly one connected event, none duplicated by later ticks.
    assert!(conn.read_new_connected(&mut connected).is_empty());
}

#[test]
fn builders_record_the_configuration() {
    let plugin = StdbPlugin::default()
        .with_uri("http://localhost:3000".to_string())
        .with_module_name("chat".to_string())
        .with_token("anon-token".to_string())
        .with_compression(Compression::Gzip)
        .with_light_mode(true);
    assert_eq!(plugin.uri, Some("http://localhost:3000".to_string()));
    assert_eq!(plugin.module_name, Some("chat".to_string()));
    assert_eq!(plugin.token, Some("anon-token".to_string()));
    assert_eq!(plugin.compression, Some(Compression::Gzip));
    assert!(plugin.light_mode);
    assert!(!plugin.consumed);
}

#[test]
fn default_plugin_has_nothing_configured() {
    let plugin = StdbPlugin::default();
    assert_eq!(plugin.uri, None);
    assert_eq!(plugin.module_name, None);
    assert_eq!(plugin.token, None);
    assert_eq!(plugin.compression, None);
    assert!(!plugin.light_mode);
    assert!(plugin.table_bindings.is_empty());
    assert!(plugin.reducer_bindings.is_empty());
}

#[test]
fn build_without_uri_fails_fast() {
    let mut plugin = StdbPlugin::default().with_module_name("chat".to_string());
    let outcome = plugin.build();
    assert_eq!(outcome.unwrap_err(), ConfigError::MissingUri);
    assert_eq!(
        ConfigError::MissingUri.message(),
        "No uri set for StdbPlugin. Set it with the with_uri() function"
    );
    // Nothing was consumed: the configuration can be completed and rebuilt.
    assert!(!plugin.consumed);
}

#[test]
fn build_without_module_name_fails_fast() {
    let mut plugin = StdbPlugin::default().with_uri("http://localhost:3000".to_string());
    let outcome = plugin.build();
    assert_eq!(outcome.unwrap_err(), ConfigError::MissingModuleName);
    assert_eq!(
        ConfigError::MissingModuleName.message(),
        "No module name set for StdbPlugin. Set it with the with_module_name() function"
    );
    assert!(!plugin.consumed);
}

#[test]
fn build_hands_out_pending_bindings_once_in_order() {
    let mut plugin = StdbPlugin::default()
        .with_uri("http://localhost:3000".to_string())
        .with_module_name("chat".to_string())
        .add_table(1)
        .add_partial_table(2, TableEvents::no_update())
        .add_reducer::<GsRegister>()
        .add_reducer::<GsSetReady>();
    let (tables, reducers) = plugin.build().unwrap();
    assert_eq!(tables.len(), 2);
    assert_eq!(tables[0].table_tag, 1);
    assert_eq!(tables[0].events, TableEvents::all());
    assert_eq!(tables[1].table_tag, 2);
    assert_eq!(tables[1].events, TableEvents::no_update());
    assert_eq!(reducers, vec![41, 42]);
    // Consumed exactly once: the pending lists are gone.
    assert!(plugin.consumed);
    assert!(plugin.table_bindings.is_empty());
    assert!(plugin.reducer_bindings.is_empty());
    // The connection parameters stay for the caller to open the connection.
    assert_eq!(plugin.uri, Some("http://localhost:3000".to_string()));
}
