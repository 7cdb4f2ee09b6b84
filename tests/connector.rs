use sql_connector::connection::{ConnectionError, ConnectionState, Connector};
use sql_connector::settings::ConnectionSettings;

fn sample() -> Connector<u32> {
    let settings = ConnectionSettings::new("127.0.0.1", "1", "sa", "pass");
    Connector::with_settings("sample", settings)
}

#[test]
fn test_connector_is_connected_fails() {
    let con = sample();

    assert!(!(con.is_connected()));
}

#[test]
fn test_connector_connect_fails_on_wrong_settings() {
    let mut con = sample();
    assert_eq!(con.connect_address(), "127.0.0.1:1");

    let result = con.connect(Err(String::from("connection refused")));

    match result {
        Ok(value) => assert_eq!(value, false),
        Err(err) => assert!(err.contains("Failed to connect: connection refused")),
    }
    assert!(!con.is_connected());
    assert!(matches!(con.state(), ConnectionState::Failed(ConnectionError::ConnectError(_))));
}

#[test]
fn connected_until_the_stream_is_taken() {
    let mut con = sample();
    assert!(!con.is_connected());
    assert_eq!(con.connect(Ok(7)), Ok(true));
    assert!(con.is_connected());
    assert_eq!(con.stream(), Some(&7));
    assert_eq!(con.get_stream(), 7);
    assert!(!con.is_connected());
    assert!(matches!(con.state(), ConnectionState::Disconnected));
    assert!(matches!(con.authenticate(), Err(ConnectionError::NotConnectedError)));
}

#[test]
fn test_connector_can_authenticate() {
    let mut con = sample();

    let _ = con.connect(Ok(9));
    let result = con.authenticate();

    match result {
        Ok(bytes) => assert_eq!(bytes.len(), 20),
        Err(_) => panic!("authenticate failed on a connected connector"),
    }
}

#[test]
fn authenticate_without_connection_fails() {
    let mut con = sample();
    assert!(matches!(con.authenticate(), Err(ConnectionError::NotConnectedError)));
    assert!(matches!(con.state(), ConnectionState::Disconnected));
}

#[test]
fn handshake_moves_through_negotiation() {
    let mut con = sample();
    let _ = con.connect(Ok(1));
    let bytes = con.authenticate().ok().unwrap();
    assert_eq!(
        bytes,
        vec![
            0x12, 0x01, 0x00, 0x14, 0x00, 0x00, 0x01, 0x00, //
            0x00, 0x00, 0x09, 0x00, 0x06, 0xff, 0x10, 0x00, 0x7f, 0x10, 0x00, 0x00,
        ]
    );
    assert!(matches!(con.state(), ConnectionState::Negotiating));
    assert!(con.is_connected());
    con.confirm_negotiated();
    assert!(matches!(con.state(), ConnectionState::Negotiated));
    assert!(con.is_connected());
}

#[test]
fn failure_releases_the_stream() {
    let mut con = sample();
    let _ = con.connect(Ok(3));
    let _ = con.authenticate();
    let released = con.fail(ConnectionError::IoError(String::from("broken pipe")));
    assert_eq!(released, Some(3));
    assert!(!con.is_connected());
    assert!(matches!(con.state(), ConnectionState::Failed(ConnectionError::IoError(_))));
    assert_eq!(con.database(), "sample");
    assert_eq!(con.settings().get("server"), "127.0.0.1");
}
