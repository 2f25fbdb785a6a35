use ucware_cli::key::TransactionKey;
use ucware_cli::message::{Header, Method, Request, Response, StatusCode};

fn invite() -> Request {
    Request {
        method: Method::Invite,
        uri: "sip:alice@example.com".to_string(),
        headers: vec![
            Header::new("Via", "SIP/2.0/WSS host.invalid;branch=z9hG4bK776"),
            Header::new("Max-Forwards", "70"),
            Header::new("Call-ID", "a84b4c76e66710"),
            Header::new("CSeq", "5 INVITE"),
        ],
        body: vec![],
    }
}

fn answer(code: StatusCode, cseq: &str, call_id: &str, via: &str) -> Response {
    Response {
        status_code: code,
        headers: vec![
            Header::new("Via", via),
            Header::new("Call-ID", call_id),
            Header::new("CSeq", cseq),
        ],
        body: vec![],
    }
}

#[test]
fn request_key_reads_method_call_id_and_branch() {
    let key = TransactionKey::from_request(&invite());
    assert_eq!(key.method, "INVITE");
    assert_eq!(key.call_id, Some("a84b4c76e66710".to_string()));
    assert_eq!(key.branch, Some("z9hG4bK776".to_string()));
}

#[test]
fn response_key_equals_request_key() {
    let response = answer(
        StatusCode::ok(),
        "5 INVITE",
        "a84b4c76e66710",
        "SIP/2.0/WSS host.invalid;branch=z9hG4bK776",
    );
    assert!(TransactionKey::from_response(&response) == TransactionKey::from_request(&invite()));
}

#[test]
fn response_key_takes_method_from_cseq_in_any_case() {
    let response = answer(
        StatusCode::ok(),
        "5 invite",
        "a84b4c76e66710",
        "SIP/2.0/WSS host.invalid;branch=z9hG4bK776",
    );
    let key = TransactionKey::from_response(&response);
    assert_eq!(key.method, "INVITE");
}

#[test]
fn response_without_cseq_has_empty_method() {
    let response = Response {
        status_code: StatusCode::ok(),
        headers: vec![Header::new("Call-ID", "x")],
        body: vec![],
    };
    let key = TransactionKey::from_response(&response);
    assert_eq!(key.method, "");
    assert_eq!(key.call_id, Some("x".to_string()));
    assert_eq!(key.branch, None);
}

#[test]
fn response_with_unparseable_cseq_has_empty_method() {
    let response = answer(StatusCode::ok(), "nonsense", "x", "SIP/2.0/WSS host.invalid");
    assert_eq!(TransactionKey::from_response(&response).method, "");
}

#[test]
fn key_without_headers_has_no_call_id_and_no_branch() {
    let request = Request {
        method: Method::Options,
        uri: "sip:example.com".to_string(),
        headers: vec![],
        body: vec![],
    };
    let key = TransactionKey::from_request(&request);
    assert_eq!(key.method, "OPTIONS");
    assert_eq!(key.call_id, None);
    assert_eq!(key.branch, None);
}

#[test]
fn via_without_branch_gives_no_branch() {
    let response = answer(StatusCode::ok(), "1 REGISTER", "x", "SIP/2.0/WSS host.invalid");
    assert_eq!(TransactionKey::from_response(&response).branch, None);
}

#[test]
fn unparseable_via_gives_no_branch() {
    let response = answer(StatusCode::ok(), "1 REGISTER", "x", "???");
    assert_eq!(TransactionKey::from_response(&response).branch, None);
}

#[test]
fn branch_comes_from_the_topmost_via() {
    let request = Request {
        method: Method::Invite,
        uri: "sip:example.com".to_string(),
        headers: vec![
            Header::new("Via", "SIP/2.0/WSS first.invalid;branch=one"),
            Header::new("Via", "SIP/2.0/WSS second.invalid;branch=two"),
        ],
        body: vec![],
    };
    assert_eq!(TransactionKey::from_request(&request).branch, Some("one".to_string()));
}

#[test]
fn keys_differ_when_one_field_differs() {
    let base = TransactionKey::from_request(&invite());
    let other_method = TransactionKey {
        method: "CANCEL".to_string(),
        call_id: base.call_id.clone(),
        branch: base.branch.clone(),
    };
    let other_call = TransactionKey {
        method: base.method.clone(),
        call_id: Some("other".to_string()),
        branch: base.branch.clone(),
    };
    let other_branch = TransactionKey {
        method: base.method.clone(),
        call_id: base.call_id.clone(),
        branch: None,
    };
    assert!(base == base.clone());
    assert!(base != other_method);
    assert!(base != other_call);
    assert!(base != other_branch);
}

#[test]
fn header_names_match_without_regard_to_case() {
    let request = Request {
        method: Method::Bye,
        uri: "sip:example.com".to_string(),
        headers: vec![Header::new("call-id", "lower"), Header::new("VIA", "SIP/2.0/WSS h;branch=b")],
        body: vec![],
    };
    let key = TransactionKey::from_request(&request);
    assert_eq!(key.call_id, Some("lower".to_string()));
    assert_eq!(key.branch, Some("b".to_string()));
}

#[test]
fn equal_keys_hash_alike() {
    let mut seen = std::collections::HashSet::new();
    seen.insert(TransactionKey::from_request(&invite()));
    let response = answer(
        StatusCode::ok(),
        "5 INVITE",
        "a84b4c76e66710",
        "SIP/2.0/WSS host.invalid;branch=z9hG4bK776",
    );
    assert!(seen.contains(&TransactionKey::from_response(&response)));
    let other = answer(StatusCode::ok(), "5 CANCEL", "a84b4c76e66710", "SIP/2.0/WSS h;branch=z9hG4bK776");
    assert!(!seen.contains(&TransactionKey::from_response(&other)));
}
