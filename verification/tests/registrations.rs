use ucware_cli::connection::{Connection, SendError};
use ucware_cli::dialog::Dialog;
use ucware_cli::message::{Header, Method, Request, Response, StatusCode};
use ucware_cli::registration::{
    read_challenge, Algorithm, Progress, RegisterError, Registration,
};

fn connection() -> Connection {
    Connection::with_identity("pbx.example.com", "alice", "abcdefgh12345678.invalid")
}

fn response(code: u16, reason: &str, extra: Vec<Header>) -> Response {
    let mut headers = vec![Header::new("Call-ID", "reg-1"), Header::new("CSeq", "1 REGISTER")];
    headers.extend(extra);
    Response { status_code: StatusCode::new(code, reason), headers, body: vec![] }
}

fn challenge(value: &str) -> Response {
    response(401, "Unauthorized", vec![Header::new("WWW-Authenticate", value)])
}

fn begin(connection: &mut Connection) -> Registration {
    let dialog = Dialog::new(connection, "reg-1".to_string(), 1);
    let (registration, first) =
        Registration::begin(connection, dialog, "u", "p", "contact0123456789".to_string()).unwrap();
    let names: Vec<String> = first.request().headers.iter().map(|h| h.name.clone()).collect();
    assert_eq!(names, vec!["Via", "To", "From", "CSeq", "Call-ID", "User-Agent"]);
    assert_eq!(first.request().method, Method::Register);
    assert_eq!(first.request().headers[3].value, "1 REGISTER");
    assert!(first.request().body.is_empty());
    registration
}

fn second_request(progress: Progress) -> Request {
    match progress {
        Progress::Pending(_, transaction) => transaction.request().clone(),
        other => panic!("expected a second request, got {:?}", other),
    }
}

fn value(request: &Request, name: &str) -> String {
    request.headers.iter().find(|h| h.name == name).map(|h| h.value.clone()).unwrap()
}

#[test]
fn success_in_the_first_round_completes_the_registration() {
    let mut connection = connection();
    let registration = begin(&mut connection);
    let progress = registration.advance(&mut connection, &response(200, "OK", vec![]));
    assert!(matches!(progress, Progress::Registered));
}

#[test]
fn challenge_is_answered_with_the_md5_digest() {
    let mut connection = connection();
    let registration = begin(&mut connection);
    let progress = registration.advance(
        &mut connection,
        &challenge("Digest realm=\"example.com\", nonce=\"abc\", algorithm=MD5"),
    );
    let request = second_request(progress);
    assert_eq!(request.method, Method::Register);
    assert_eq!(
        value(&request, "Authorization"),
        "Digest username=\"u\", realm=\"example.com\", nonce=\"abc\", uri=\"\", \
response=\"da3991115ff5281e2185cff860094898\", algorithm=MD5"
    );
    assert_eq!(
        value(&request, "Contact"),
        "<sip:contact0123456789@abcdefgh12345678.invalid;transport=WS>;expires=6000"
    );
    // Same dialog: the Call-ID stays, and CSeq moves on by one.
    assert_eq!(value(&request, "Call-ID"), "reg-1");
    assert_eq!(value(&request, "CSeq"), "2 REGISTER");
    let names: Vec<String> = request.headers.iter().map(|h| h.name.clone()).collect();
    assert_eq!(
        names,
        vec!["Via", "To", "From", "CSeq", "Call-ID", "User-Agent", "Contact", "Authorization"]
    );
}

#[test]
fn challenge_without_algorithm_is_answered_with_md5_and_names_none() {
    let mut connection = connection();
    let registration = begin(&mut connection);
    let progress = registration
        .advance(&mut connection, &challenge("Digest realm=\"example.com\", nonce=\"abc\""));
    let request = second_request(progress);
    assert_eq!(
        value(&request, "Authorization"),
        "Digest username=\"u\", realm=\"example.com\", nonce=\"abc\", uri=\"\", \
response=\"da3991115ff5281e2185cff860094898\""
    );
}

#[test]
fn challenge_with_sha256_and_opaque_is_echoed() {
    let mut connection = connection();
    let registration = begin(&mut connection);
    let progress = registration.advance(
        &mut connection,
        &challenge(
            "Digest realm=\"example.com\", nonce=\"abc\", opaque=\"xyz\", algorithm=sha256, qop=\"auth\"",
        ),
    );
    let request = second_request(progress);
    // Quality of protection is never answered, even where it is offered.
    assert_eq!(
        value(&request, "Authorization"),
        "Digest username=\"u\", realm=\"example.com\", nonce=\"abc\", uri=\"\", \
response=\"6ad080be1197fe5c7795dad51d48e4bfb94eba60711858a39b106bfb7e1af19f\", \
algorithm=SHA256, opaque=\"xyz\""
    );
}

#[test]
fn second_request_is_registered_before_it_is_transmitted() {
    let mut connection = connection();
    let registration = begin(&mut connection);
    let progress = registration
        .advance(&mut connection, &challenge("Digest realm=\"example.com\", nonce=\"abc\""));
    let transaction = match progress {
        Progress::Pending(_, transaction) => transaction,
        other => panic!("expected a second request, got {:?}", other),
    };
    let answer = Response {
        status_code: StatusCode::ok(),
        headers: vec![
            Header::new("Via", "SIP/2.0/WSS abcdefgh12345678.invalid"),
            Header::new("Call-ID", "reg-1"),
            Header::new("CSeq", "2 REGISTER"),
        ],
        body: vec![],
    };
    assert_eq!(connection.route(&answer), Some(transaction.channel()));
}

#[test]
fn success_in_the_second_round_completes_the_registration() {
    let mut connection = connection();
    let registration = begin(&mut connection);
    let progress = registration
        .advance(&mut connection, &challenge("Digest realm=\"example.com\", nonce=\"abc\""));
    let registration = match progress {
        Progress::Pending(registration, _) => registration,
        other => panic!("expected a second request, got {:?}", other),
    };
    assert!(matches!(
        registration.advance(&mut connection, &response(200, "OK", vec![])),
        Progress::Registered
    ));
}

#[test]
fn second_challenge_fails_with_its_status() {
    let mut connection = connection();
    let registration = begin(&mut connection);
    let progress = registration
        .advance(&mut connection, &challenge("Digest realm=\"example.com\", nonce=\"abc\""));
    let registration = match progress {
        Progress::Pending(registration, _) => registration,
        other => panic!("expected a second request, got {:?}", other),
    };
    let progress = registration
        .advance(&mut connection, &challenge("Digest realm=\"example.com\", nonce=\"def\""));
    match progress {
        Progress::Failed(RegisterError::Rejected(status)) => assert_eq!(status.code, 401),
        other => panic!("expected a rejection, got {:?}", other),
    }
}

#[test]
fn other_status_in_the_first_round_fails_with_that_status() {
    let mut connection = connection();
    let registration = begin(&mut connection);
    match registration.advance(&mut connection, &response(403, "Forbidden", vec![])) {
        Progress::Failed(RegisterError::Rejected(status)) => {
            assert_eq!(status.code, 403);
            assert_eq!(status.reason, "Forbidden");
        },
        other => panic!("expected a rejection, got {:?}", other),
    }
}

#[test]
fn unauthorized_without_challenge_fails() {
    let mut connection = connection();
    let registration = begin(&mut connection);
    assert!(matches!(
        registration.advance(&mut connection, &response(401, "Unauthorized", vec![])),
        Progress::Failed(RegisterError::MissingChallenge)
    ));
}

#[test]
fn unauthorized_with_unparseable_challenge_fails() {
    let mut connection = connection();
    let registration = begin(&mut connection);
    assert!(matches!(
        registration.advance(&mut connection, &challenge("Digest nonce=\"abc\"")),
        Progress::Failed(RegisterError::InvalidChallenge)
    ));
}

#[test]
fn read_challenge_takes_realm_nonce_algorithm_and_opaque() {
    let found = read_challenge(&challenge(
        "Digest realm=\"r\", nonce=\"n\", opaque=\"o\", algorithm=SHA512-sess",
    ))
    .unwrap();
    assert_eq!(found.realm, "r");
    assert_eq!(found.nonce, "n");
    assert_eq!(found.opaque, Some("o".to_string()));
    assert_eq!(found.algorithm, Some(Algorithm::Sha512Sess));
}

#[test]
fn algorithm_names_read_back() {
    for algorithm in [
        Algorithm::Md5,
        Algorithm::Md5Sess,
        Algorithm::Sha256,
        Algorithm::Sha256Sess,
        Algorithm::Sha512,
        Algorithm::Sha512Sess,
    ] {
        assert_eq!(Algorithm::from_name(algorithm.name()), Some(algorithm));
    }
    assert_eq!(Algorithm::from_name("md5"), Some(Algorithm::Md5));
    assert_eq!(Algorithm::from_name("SHA1"), None);
}

#[test]
fn register_starts_on_a_fresh_dialog() {
    let mut connection = connection();
    let (registration, first) = connection.register("u", "p").unwrap();
    let request = first.request();
    assert_eq!(request.method, Method::Register);
    assert_eq!(request.uri, "sip:pbx.example.com");
    assert_eq!(request.headers.len(), 6);
    let call_id = request.headers[4].value.clone();
    assert_eq!(call_id.len(), 16);
    assert!(call_id.chars().all(|c| c.is_ascii_alphanumeric()));
    let progress = registration
        .advance(&mut connection, &challenge("Digest realm=\"example.com\", nonce=\"abc\""));
    let second = second_request(progress);
    assert_eq!(value(&second, "Call-ID"), call_id);
    let contact = value(&second, "Contact");
    assert!(contact.starts_with("<sip:"));
    assert!(contact.ends_with("@abcdefgh12345678.invalid;transport=WS>;expires=6000"));
    assert_eq!(contact.len(), "<sip:".len() + 16 + "@abcdefgh12345678.invalid;transport=WS>;expires=6000".len());
    let first_seq: u32 = request.headers[3].value.split(' ').next().unwrap().parse().unwrap();
    let second_seq: u32 = value(&second, "CSeq").split(' ').next().unwrap().parse().unwrap();
    assert_eq!(second_seq, first_seq + 1);
}

#[test]
fn registration_fails_when_no_channel_is_left_for_the_second_request() {
    let mut connection =
        Connection::with_channels_from("pbx.example.com", "alice", "s.invalid", u64::MAX - 1);
    let registration = begin(&mut connection);
    let progress = registration
        .advance(&mut connection, &challenge("Digest realm=\"example.com\", nonce=\"abc\""));
    assert!(matches!(
        progress,
        Progress::Failed(RegisterError::Send(SendError::ChannelsExhausted))
    ));
}

#[test]
fn register_fails_when_no_channel_is_left() {
    let mut connection =
        Connection::with_channels_from("pbx.example.com", "alice", "s.invalid", u64::MAX);
    assert_eq!(connection.register("u", "p").err().map(|e| e), Some(SendError::ChannelsExhausted));
}
