use ucware_cli::codec::{encode_request, encode_response};
use ucware_cli::connection::Connection;
use ucware_cli::dialog::Dialog;
use ucware_cli::message::{Header, Method, Request, Response, StatusCode};
use ucware_cli::registration::{authorize, Algorithm, Challenge};

fn written_host(host: &str) -> String {
    rsip::Host::from(host).to_string()
}

fn value(request: &Request, name: &str) -> String {
    request.headers.iter().find(|h| h.name == name).map(|h| h.value.clone()).unwrap()
}

fn hosts() -> Vec<&'static str> {
    vec![
        "pbx.example.com",
        "abcdefgh12345678.invalid",
        "",
        "192.168.0.1",
        "192.168.000.001",
        "0:0:0:0:0:0:0:1",
        "::ffff:10.0.0.1",
        "[::1]",
        "host with space",
        "host:5060",
        "UPPER.example.COM",
        "émile.example",
    ]
}

fn users() -> Vec<&'static str> {
    vec!["alice", "", "a@b", "a:b", "Alice Smith", "<x>", "ünï"]
}

#[test]
fn via_is_version_transport_and_host() {
    for host in hosts() {
        let connection = Connection::with_identity("example.com", "alice", host);
        let mut dialog = Dialog::new(&connection, "c".to_string(), 1);
        let request = dialog.request(Method::Options).build(vec![]);
        assert_eq!(value(&request, "Via"), format!("SIP/2.0/WSS {}", written_host(host)));
    }
}

#[test]
fn to_and_from_are_the_local_identity_in_angle_brackets() {
    for host in hosts() {
        for user in users() {
            let connection = Connection::with_identity(host, user, "s.invalid");
            let mut dialog = Dialog::new(&connection, "c".to_string(), 1);
            let request = dialog.request(Method::Options).build(vec![]);
            let expected = format!("<sip:{}@{}>", user, written_host(host));
            assert_eq!(value(&request, "To"), expected);
            assert_eq!(value(&request, "From"), expected);
            assert_eq!(request.uri, format!("sip:{}", written_host(host)));
        }
    }
}

#[test]
fn cseq_is_number_space_method() {
    let connection = Connection::with_identity("example.com", "alice", "s.invalid");
    let methods = [
        (Method::Ack, "ACK"),
        (Method::Bye, "BYE"),
        (Method::Cancel, "CANCEL"),
        (Method::Info, "INFO"),
        (Method::Invite, "INVITE"),
        (Method::Message, "MESSAGE"),
        (Method::Notify, "NOTIFY"),
        (Method::Options, "OPTIONS"),
        (Method::PRack, "PRACK"),
        (Method::Publish, "PUBLISH"),
        (Method::Refer, "REFER"),
        (Method::Register, "REGISTER"),
        (Method::Subscribe, "SUBSCRIBE"),
        (Method::Update, "UPDATE"),
    ];
    for seq in [0u32, 1, 9, 10, 99, 100, 65535, 65536, 4294967294, 4294967295] {
        for (method, name) in methods {
            let mut dialog = Dialog::new(&connection, "c".to_string(), seq);
            let request = dialog.request(method).build(vec![]);
            assert_eq!(value(&request, "CSeq"), format!("{} {}", seq, name));
            assert!(encode_request(&request).starts_with(&format!("{} sip:example.com SIP/2.0\r\n", name)));
        }
    }
}

fn authorized(
    send_by: &str,
    username: &str,
    password: &str,
    contact: &str,
    challenge: &Challenge,
) -> Request {
    let connection = Connection::with_identity("example.com", "alice", send_by);
    let mut dialog = Dialog::new(&connection, "c".to_string(), 1);
    let builder = dialog.request(Method::Register);
    authorize(builder, send_by, username, password, contact, challenge).build(vec![])
}

#[test]
fn contact_names_user_host_transport_and_expiry() {
    let challenge = Challenge {
        realm: "r".to_string(),
        nonce: "n".to_string(),
        algorithm: None,
        opaque: None,
    };
    for host in hosts() {
        for user in users() {
            let request = authorized(host, "u", "p", user, &challenge);
            assert_eq!(
                value(&request, "Contact"),
                format!("<sip:{}@{};transport=WS>;expires=6000", user, written_host(host))
            );
        }
    }
}

#[test]
fn authorization_quotes_its_fields_letter_for_letter() {
    let algorithms = [
        (None, "", "75536c64e8ed4728b9c242531722e371"),
        (Some(Algorithm::Md5), ", algorithm=MD5", "75536c64e8ed4728b9c242531722e371"),
        (Some(Algorithm::Md5Sess), ", algorithm=MD5-sess", "75536c64e8ed4728b9c242531722e371"),
        (
            Some(Algorithm::Sha256),
            ", algorithm=SHA256",
            "8ae923a13dc71268fe9e8cea31e4d25709091876a3fa75083246cbf7ce3a8b47",
        ),
        (
            Some(Algorithm::Sha256Sess),
            ", algorithm=SHA256-sess",
            "8ae923a13dc71268fe9e8cea31e4d25709091876a3fa75083246cbf7ce3a8b47",
        ),
        (
            Some(Algorithm::Sha512),
            ", algorithm=SHA512",
            "7016207db936a885960efca0d8da6e4512ba34a7d3d58d033e5ef99a33f4b94746cedb60e96dfcb2655f86d331c76c5394b78ac50209d00ef5c9e9c5e0547b20",
        ),
        (
            Some(Algorithm::Sha512Sess),
            ", algorithm=SHA512-sess",
            "7016207db936a885960efca0d8da6e4512ba34a7d3d58d033e5ef99a33f4b94746cedb60e96dfcb2655f86d331c76c5394b78ac50209d00ef5c9e9c5e0547b20",
        ),
    ];
    for (algorithm, named, response) in algorithms {
        for opaque in [None, Some("o p"), Some("")] {
            let challenge = Challenge {
                realm: "pbx".to_string(),
                nonce: "n0nce".to_string(),
                algorithm,
                opaque: opaque.map(|o| o.to_string()),
            };
            let request = authorized("s.invalid", "alice", "s3cr3t", "c", &challenge);
            let echoed = match opaque {
                Some(o) => format!(", opaque=\"{}\"", o),
                None => String::new(),
            };
            assert_eq!(
                value(&request, "Authorization"),
                format!(
                    "Digest username=\"alice\", realm=\"pbx\", nonce=\"n0nce\", uri=\"\", response=\"{}\"{}{}",
                    response, named, echoed
                )
            );
        }
    }
}

#[test]
fn digest_takes_its_inputs_letter_for_letter() {
    let empty = Challenge {
        realm: String::new(),
        nonce: String::new(),
        algorithm: None,
        opaque: None,
    };
    let request = authorized("s.invalid", "", "", "c", &empty);
    assert_eq!(
        value(&request, "Authorization"),
        "Digest username=\"\", realm=\"\", nonce=\"\", uri=\"\", response=\"2a1ee93d80da93e4e9b2413b0996ab02\""
    );

    let odd = Challenge {
        realm: "r\"x".to_string(),
        nonce: "n n".to_string(),
        algorithm: None,
        opaque: None,
    };
    let request = authorized("s.invalid", "a:b", "p:q", "c", &odd);
    assert_eq!(
        value(&request, "Authorization"),
        "Digest username=\"a:b\", realm=\"r\"x\", nonce=\"n n\", uri=\"\", response=\"b4bb9de3640ff9d0867d8e6e7584171a\""
    );
}

fn bodies() -> Vec<Vec<u8>> {
    vec![
        vec![],
        b"v=0\r\no=- 0 0 IN IP4 0.0.0.0\r\n".to_vec(),
        vec![0xff, 0xfe, b'a'],
        "grüße".as_bytes().to_vec(),
        vec![0xe2, 0x82],
    ]
}

fn header_sets() -> Vec<Vec<Header>> {
    vec![
        vec![],
        vec![Header::new("Via", "v")],
        vec![Header::new("X", ""), Header::new("", "y"), Header::new("a b", " c ")],
    ]
}

fn lines(headers: &Vec<Header>) -> String {
    headers.iter().map(|h| format!("{}: {}\r\n", h.name, h.value)).collect()
}

#[test]
fn request_text_is_request_line_header_lines_empty_line_and_body() {
    for body in bodies() {
        for headers in header_sets() {
            for uri in ["sip:example.com", "", "sip:a@b;x=y", "not a uri"] {
                let request = Request {
                    method: Method::Notify,
                    uri: uri.to_string(),
                    headers: headers.clone(),
                    body: body.clone(),
                };
                assert_eq!(
                    encode_request(&request),
                    format!(
                        "NOTIFY {} SIP/2.0\r\n{}\r\n{}",
                        uri,
                        lines(&headers),
                        String::from_utf8_lossy(&body)
                    )
                );
            }
        }
    }
}

#[test]
fn response_text_is_status_line_header_lines_empty_line_and_body() {
    for body in bodies() {
        for headers in header_sets() {
            for (code, reason) in [(100u16, "Trying"), (200, "OK"), (202, "Accepted"), (0, ""), (65535, "Odd One")] {
                let response = Response {
                    status_code: StatusCode::new(code, reason),
                    headers: headers.clone(),
                    body: body.clone(),
                };
                assert_eq!(
                    encode_response(&response),
                    format!(
                        "SIP/2.0 {} {}\r\n{}\r\n{}",
                        code,
                        reason,
                        lines(&headers),
                        String::from_utf8_lossy(&body)
                    )
                );
            }
        }
    }
}
