use ucware_cli::connection::{ConnectError, Connection};

#[test]
fn connect_derives_the_identity_from_the_url() {
    let connection = Connection::connect("wss://pbx.example.com:8089/sipsockets/", "alice").unwrap();
    assert_eq!(connection.domain(), "pbx.example.com");
    assert_eq!(connection.user(), "alice");
}

#[test]
fn connect_makes_a_placeholder_send_by_host() {
    let connection = Connection::connect("wss://pbx.example.com/sipsockets/", "alice").unwrap();
    let send_by = connection.send_by();
    assert_eq!(send_by.len(), 24);
    assert!(send_by.ends_with(".invalid"));
    assert!(send_by[..16].chars().all(|c| c.is_ascii_alphanumeric()));
    let other = Connection::connect("wss://pbx.example.com/sipsockets/", "alice").unwrap();
    assert!(other.send_by() != send_by);
}

#[test]
fn connect_rejects_a_url_without_domain() {
    assert_eq!(Connection::connect("wss://127.0.0.1/sipsockets/", "alice").err(), Some(ConnectError::NoDomain));
    assert_eq!(Connection::connect("not a url", "alice").err(), Some(ConnectError::NoDomain));
    assert_eq!(Connection::connect("mailto:alice@example.com", "alice").err(), Some(ConnectError::NoDomain));
}

#[test]
fn with_identity_keeps_what_it_is_given() {
    let connection = Connection::with_identity("example.com", "bob", "host.invalid");
    assert_eq!(connection.domain(), "example.com");
    assert_eq!(connection.user(), "bob");
    assert_eq!(connection.send_by(), "host.invalid");
}
