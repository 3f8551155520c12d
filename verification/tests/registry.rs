use devlink::manager::ConnectionManager;
use devlink::manager::OpenOutcome;
use devlink::manager::WriteOutcome;
use devlink::serial::list_serial_ports;
use devlink::types::ConnectionType;

#[test]
fn new_registry_is_empty() {
    let m = ConnectionManager::new();
    assert_eq!(m.get_device_connections().len(), 0);
    assert_eq!(m.get_connection_status().len(), 0);
}

#[test]
fn open_is_idempotent() {
    // Two opens of the same identifier yield the same descriptor and one
    // registry entry.
    let mut m = ConnectionManager::new();
    let first = m.register_hosted(ConnectionType::Tcp, "127.0.0.1:9000".to_string(), None);
    let second = match m
        .connect_device(ConnectionType::Tcp, "127.0.0.1:9000".to_string(), None)
        .unwrap()
    {
        OpenOutcome::AlreadyOpen(info) => info,
        _ => panic!("an open identifier must be answered from the registry"),
    };
    assert_eq!(first.connection_id, second.connection_id);
    assert_eq!(first.address, second.address);
    assert_eq!(first.baud_rate, second.baud_rate);
    assert!(matches!(second.connection_type, ConnectionType::Tcp));
    assert!(second.is_connected);
    assert_eq!(m.get_device_connections().len(), 1);

    let third = m.register_hosted(ConnectionType::Tcp, "127.0.0.1:9000".to_string(), None);
    assert_eq!(third.connection_id, first.connection_id);
    assert_eq!(m.get_device_connections().len(), 1);
}

#[test]
fn websocket_open_is_an_explicit_placeholder_failure() {
    let mut m = ConnectionManager::new();
    let r = m.connect_device(ConnectionType::WebSocket, "ws://x".to_string(), None);
    match r {
        Err(msg) => assert_eq!(msg, "WebSocket connections not yet implemented".to_string()),
        Ok(_) => panic!("WebSocket opens must fail"),
    }
    assert_eq!(m.get_device_connections().len(), 0);
}

#[test]
fn tcp_open_is_handed_to_the_host() {
    let mut m = ConnectionManager::new();
    let r = m.connect_device(ConnectionType::Tcp, "127.0.0.1:9000".to_string(), None);
    assert!(matches!(r, Ok(OpenOutcome::TcpRequested)));
    // Nothing is registered until the host's stream is open.
    assert_eq!(m.get_device_connections().len(), 0);
}

#[test]
fn serial_open_failure_is_tagged_and_registers_nothing() {
    let mut m = ConnectionManager::new();
    let r = m.connect_device(
        ConnectionType::Serial,
        "/dev/devlink-test-no-such-device".to_string(),
        Some(9600),
    );
    match r {
        Err(msg) => assert!(msg
            .starts_with("Failed to open serial port /dev/devlink-test-no-such-device: ")),
        Ok(_) => panic!("opening a missing device must fail"),
    }
    assert_eq!(m.get_device_connections().len(), 0);
}

#[test]
fn legacy_serial_open_failure_is_tagged() {
    let mut m = ConnectionManager::new();
    let r = m.connect_serial_port("/dev/devlink-test-no-such-device".to_string(), 9600);
    match r {
        Err(msg) => assert!(msg
            .starts_with("Failed to open serial port /dev/devlink-test-no-such-device: ")),
        Ok(_) => panic!("opening a missing device must fail"),
    }
}

#[test]
fn write_to_unknown_identifier_fails_with_not_found() {
    let mut m = ConnectionManager::new();
    let r = m.write_device_data("ghost".to_string(), "ping".to_string());
    match r {
        Err(msg) => assert_eq!(msg, "Connection ghost not found".to_string()),
        Ok(_) => panic!("writing to an unknown identifier must fail"),
    }
    // No observable effect.
    assert_eq!(m.get_device_connections().len(), 0);
}

#[test]
fn write_to_hosted_entry_is_forwarded() {
    let mut m = ConnectionManager::new();
    m.register_hosted(ConnectionType::Tcp, "127.0.0.1:9000".to_string(), None);
    let r = m.write_device_data("127.0.0.1:9000".to_string(), "ping".to_string());
    assert!(matches!(r, Ok(WriteOutcome::Hosted)));
}

#[test]
fn close_of_absent_identifier_succeeds_with_no_effect() {
    let mut m = ConnectionManager::new();
    m.register_hosted(ConnectionType::Tcp, "a".to_string(), None);
    let r = m.disconnect_device("not-there".to_string());
    assert!(r.is_ok());
    let snapshot = m.get_device_connections();
    assert_eq!(snapshot.len(), 1);
    assert_eq!(snapshot[0].connection_id, "a".to_string());
}

#[test]
fn status_reports_both_connections_then_excludes_the_closed_one() {
    // Open id1 (serial, 9600) and id2 (tcp): status holds both, connected.
    // After closing id1, status excludes id1 and keeps id2.
    let mut m = ConnectionManager::new();
    m.register_hosted(ConnectionType::Serial, "id1".to_string(), Some(9600));
    m.register_hosted(ConnectionType::Tcp, "id2".to_string(), None);

    let snapshot = m.get_device_connections();
    assert_eq!(snapshot.len(), 2);
    assert_eq!(snapshot[0].connection_id, "id1".to_string());
    assert!(matches!(snapshot[0].connection_type, ConnectionType::Serial));
    assert_eq!(snapshot[0].baud_rate, Some(9600));
    assert!(snapshot[0].is_connected);
    assert_eq!(snapshot[1].connection_id, "id2".to_string());
    assert!(matches!(snapshot[1].connection_type, ConnectionType::Tcp));
    assert!(snapshot[1].is_connected);

    m.disconnect_device("id1".to_string()).unwrap();
    let after = m.get_device_connections();
    assert_eq!(after.len(), 1);
    assert_eq!(after[0].connection_id, "id2".to_string());
}

#[test]
fn legacy_status_lists_serial_entries_only() {
    let mut m = ConnectionManager::new();
    m.register_hosted(ConnectionType::Serial, "id1".to_string(), Some(9600));
    m.register_hosted(ConnectionType::Tcp, "id2".to_string(), None);
    m.register_hosted(ConnectionType::Serial, "id3".to_string(), None);

    let status = m.get_connection_status();
    assert_eq!(status.len(), 2);
    assert_eq!(status[0].port_name, "id1".to_string());
    assert_eq!(status[0].baud_rate, 9600);
    assert!(status[0].is_connected);
    // A serial entry stored without a baud rate is reported at the default.
    assert_eq!(status[1].port_name, "id3".to_string());
    assert_eq!(status[1].baud_rate, 115200);
}

#[test]
fn legacy_disconnect_and_write_delegate() {
    let mut m = ConnectionManager::new();
    m.register_hosted(ConnectionType::Serial, "id1".to_string(), Some(9600));
    let w = m.write_serial_data("other".to_string(), "x".to_string());
    match w {
        Err(msg) => assert_eq!(msg, "Connection other not found".to_string()),
        Ok(_) => panic!("writing to an unknown identifier must fail"),
    }
    assert!(m.disconnect_serial_port("id1".to_string()).is_ok());
    assert_eq!(m.get_device_connections().len(), 0);
}

#[test]
fn listing_serial_devices_succeeds_on_this_machine() {
    // The enumeration itself must work (the list may well be empty here).
    match list_serial_ports() {
        Ok(_) => {}
        Err(msg) => assert!(msg.starts_with("Failed to list serial ports: ")),
    }
}
