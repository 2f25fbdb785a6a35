use ucware_cli::connection::{Connection, SendError};
use ucware_cli::key::TransactionKey;
use ucware_cli::message::{Header, HeaderKind, Method, Request, Response, StatusCode};
use ucware_cli::registry::Registry;
use ucware_cli::transaction::{ServerTransaction, TransactionError};

fn response(code: u16, reason: &str) -> Response {
    Response {
        status_code: StatusCode::new(code, reason),
        headers: vec![
            Header::new("Via", "SIP/2.0/WSS host.invalid;branch=z9hG4bK1"),
            Header::new("Call-ID", "call-1"),
            Header::new("CSeq", "7 REGISTER"),
        ],
        body: vec![],
    }
}

fn register() -> Request {
    Request {
        method: Method::Register,
        uri: "sip:example.com".to_string(),
        headers: vec![
            Header::new("Via", "SIP/2.0/WSS host.invalid;branch=z9hG4bK1"),
            Header::new("Call-ID", "call-1"),
            Header::new("CSeq", "7 REGISTER"),
        ],
        body: vec![],
    }
}

fn connection() -> Connection {
    Connection::with_identity("example.com", "alice", "abcdefgh12345678.invalid")
}

#[test]
fn receive_skips_provisional_responses() {
    let mut connection = connection();
    let transaction = connection.send(register()).unwrap();
    let outcome = transaction.receive(vec![
        response(180, "Ringing"),
        response(183, "Session Progress"),
        response(200, "OK"),
    ]);
    let fin = outcome.unwrap();
    assert_eq!(fin.status_code.code, 200);
    assert_eq!(fin.status_code.reason, "OK");
}

#[test]
fn receive_returns_the_first_final_response_only() {
    let mut connection = connection();
    let transaction = connection.send(register()).unwrap();
    let outcome = transaction.receive(vec![
        response(100, "Trying"),
        response(401, "Unauthorized"),
        response(200, "OK"),
    ]);
    assert_eq!(outcome.unwrap().status_code.code, 401);
}

#[test]
fn receive_fails_when_the_channel_closes_without_final_response() {
    let mut connection = connection();
    let transaction = connection.send(register()).unwrap();
    let outcome = transaction.receive(vec![response(100, "Trying"), response(180, "Ringing")]);
    assert_eq!(outcome.err(), Some(TransactionError::Closed));
}

#[test]
fn receive_fails_on_an_empty_channel() {
    let mut connection = connection();
    let transaction = connection.send(register()).unwrap();
    assert_eq!(transaction.receive(vec![]).err(), Some(TransactionError::Closed));
}

#[test]
fn accept_drops_provisional_and_keeps_final() {
    let mut connection = connection();
    let transaction = connection.send(register()).unwrap();
    assert!(transaction.accept(response(199, "Early Dialog Terminated")).is_none());
    assert!(transaction.accept(response(100, "Trying")).is_none());
    assert_eq!(transaction.accept(response(200, "OK")).unwrap().status_code.code, 200);
    assert_eq!(transaction.accept(response(99, "Odd")).unwrap().status_code.code, 99);
    assert_eq!(transaction.accept(response(603, "Decline")).unwrap().status_code.code, 603);
}

#[test]
fn response_is_routed_as_soon_as_the_transaction_exists() {
    let mut connection = connection();
    let transaction = connection.send(register()).unwrap();
    // Nothing was transmitted yet: the handle alone makes the route.
    assert_eq!(connection.route(&response(200, "OK")), Some(transaction.channel()));
}

#[test]
fn channels_are_fresh() {
    let mut connection = connection();
    let first = connection.send(register()).unwrap();
    let mut other = register();
    other.headers[1] = Header::new("Call-ID", "call-2");
    let second = connection.send(other).unwrap();
    assert_eq!(first.channel(), 0);
    assert_eq!(second.channel(), 1);
    assert_eq!(connection.route(&response(200, "OK")), Some(0));
}

#[test]
fn sending_the_same_key_again_overwrites_the_route() {
    let mut connection = connection();
    let first = connection.send(register()).unwrap();
    let second = connection.send(register()).unwrap();
    assert!(first.channel() != second.channel());
    assert_eq!(connection.route(&response(200, "OK")), Some(second.channel()));
}

#[test]
fn closing_a_transaction_makes_late_responses_unmatched() {
    let mut connection = connection();
    let transaction = connection.send(register()).unwrap();
    assert!(connection.route(&response(200, "OK")).is_some());
    transaction.close(Some(&mut connection));
    assert_eq!(connection.route(&response(200, "OK")), None);
}

#[test]
fn closing_after_the_connection_is_gone_does_nothing() {
    let mut connection = connection();
    let transaction = connection.send(register()).unwrap();
    drop(connection);
    transaction.close(None);
}

#[test]
fn deregistering_twice_is_harmless() {
    let mut connection = connection();
    let transaction = connection.send(register()).unwrap();
    let key = transaction.key();
    connection.deregister(&key);
    connection.deregister(&key);
    assert_eq!(connection.route(&response(200, "OK")), None);
}

#[test]
fn registry_registers_routes_and_deregisters() {
    let mut registry = Registry::new();
    let key = TransactionKey::from_request(&register());
    assert_eq!(registry.lookup(&key), None);
    assert_eq!(registry.register(&key, 4), None);
    assert_eq!(registry.lookup(&key), Some(4));
    assert_eq!(registry.route(&response(200, "OK")), Some(4));
    assert_eq!(registry.register(&key, 9), Some(4));
    assert_eq!(registry.route(&response(200, "OK")), Some(9));
    assert_eq!(registry.deregister(&key), Some(9));
    assert_eq!(registry.deregister(&key), None);
    assert_eq!(registry.route(&response(200, "OK")), None);
}

#[test]
fn registry_keeps_other_keys() {
    let mut registry = Registry::new();
    let key = TransactionKey::from_request(&register());
    let other = TransactionKey {
        method: "INVITE".to_string(),
        call_id: key.call_id.clone(),
        branch: key.branch.clone(),
    };
    registry.register(&key, 1);
    registry.register(&other, 2);
    registry.deregister(&key);
    assert_eq!(registry.lookup(&other), Some(2));
    assert_eq!(registry.lookup(&key), None);
}

#[test]
fn respond_copies_exactly_the_correlation_headers() {
    let request = Request {
        method: Method::Options,
        uri: "sip:alice@example.com".to_string(),
        headers: vec![
            Header::new("Via", "V"),
            Header::new("Max-Forwards", "70"),
            Header::new("From", "F"),
            Header::new("To", "T"),
            Header::new("Contact", "<sip:bob@example.com>"),
            Header::new("CSeq", "C"),
            Header::new("Call-ID", "I"),
            Header::new("User-Agent", "someone else"),
            Header::new("X-Custom", "1"),
        ],
        body: b"ignored".to_vec(),
    };
    let mut transaction = ServerTransaction::new(request);
    let response = transaction.respond(StatusCode::accepted()).send(vec![]);
    assert_eq!(response.status_code.code, 202);
    assert_eq!(response.status_code.reason, "Accepted");
    let headers: Vec<(String, String)> =
        response.headers.iter().map(|h| (h.name.clone(), h.value.clone())).collect();
    assert_eq!(
        headers,
        vec![
            ("Via".to_string(), "V".to_string()),
            ("From".to_string(), "F".to_string()),
            ("To".to_string(), "T".to_string()),
            ("CSeq".to_string(), "C".to_string()),
            ("Call-ID".to_string(), "I".to_string()),
            ("User-Agent".to_string(), "ucware-cli/0.1.0".to_string()),
        ]
    );
    assert!(response.body.is_empty());
    assert_eq!(transaction.request.headers.len(), 9);
}

#[test]
fn respond_keeps_every_via() {
    let request = Request {
        method: Method::Invite,
        uri: "sip:alice@example.com".to_string(),
        headers: vec![Header::new("Via", "one"), Header::new("via", "two"), Header::new("Route", "r")],
        body: vec![],
    };
    let mut transaction = ServerTransaction::new(request);
    let response = transaction.respond(StatusCode::trying()).send(vec![]);
    let values: Vec<String> = response.headers.iter().map(|h| h.value.clone()).collect();
    assert_eq!(values, vec!["one", "two", "ucware-cli/0.1.0"]);
}

#[test]
fn response_builder_appends_headers_and_body() {
    let mut transaction = ServerTransaction::new(register());
    let response = transaction
        .respond(StatusCode::ok())
        .header(Header::new("Contact", "<sip:alice@host.invalid>"))
        .send(b"body".to_vec());
    assert_eq!(response.headers.len(), 5);
    assert_eq!(response.headers[4].kind(), HeaderKind::Contact);
    assert_eq!(response.body, b"body".to_vec());
}

#[test]
fn send_fails_when_no_channel_is_left() {
    let mut connection =
        Connection::with_channels_from("example.com", "alice", "host.invalid", u64::MAX - 1);
    let last = connection.send(register()).unwrap();
    assert_eq!(last.channel(), u64::MAX - 1);
    assert_eq!(connection.send(register()).err(), Some(SendError::ChannelsExhausted));
    // The failed attempt changed nothing: the last route is still in place.
    assert_eq!(connection.route(&response(200, "OK")), Some(u64::MAX - 1));
}
