//! The calls into the `rsip` crate. Every function here is trusted: Verus
//! believes its contract and does not look at its body. Each contract either
//! states what the `rsip` source shows, or gives the result a name that the
//! verified code reasons with.

use vstd::prelude::*;
use rsip::headers::{ToTypedHeader, UntypedHeader};
use crate::message::{Header, HeaderView, Method, header_views};
use crate::text::decimal;

verus! {

/// The first line of a parsed frame, as `rsip` displays its parts.
#[derive(Debug)]
pub enum Start {
    /// A request line: the method's name and the request-URI.
    Request { method: String, uri: String },
    /// A status line: the numeric code, and the code with its reason phrase.
    Response { code: u16, status: String },
}

/// The mathematical model of `Start`.
pub enum StartView {
    Request { method: Seq<char>, uri: Seq<char> },
    Response { code: u16, status: Seq<char> },
}

impl View for Start {
    type V = StartView;

    open spec fn view(&self) -> StartView {
        match self {
            Start::Request { method, uri } => StartView::Request { method: method@, uri: uri@ },
            Start::Response { code, status } => StartView::Response {
                code: *code,
                status: status@,
            },
        }
    }
}

/// A parsed frame in plain values: the start line, each header as the line
/// `Name: value`, and the body.
#[derive(Debug)]
pub struct Parsed {
    pub start: Start,
    pub lines: Vec<String>,
    pub body: Vec<u8>,
}

/// The mathematical model of `Parsed`.
pub struct ParsedView {
    pub start: StartView,
    pub lines: Seq<Seq<char>>,
    pub body: Seq<u8>,
}

/// The texts of a list of strings, in order.
pub open spec fn line_views(lines: Seq<String>) -> Seq<Seq<char>> {
    lines.map_values(|line: String| line@)
}

impl View for Parsed {
    type V = ParsedView;

    open spec fn view(&self) -> ParsedView {
        ParsedView { start: self.start@, lines: line_views(self.lines@), body: self.body@ }
    }
}

/// A digest challenge in plain values.
#[derive(Debug)]
pub struct ChallengeFields {
    pub realm: String,
    pub nonce: String,
    pub algorithm: Option<String>,
    pub opaque: Option<String>,
}

/// The mathematical model of `ChallengeFields`.
pub struct ChallengeFieldsView {
    pub realm: Seq<char>,
    pub nonce: Seq<char>,
    pub algorithm: Option<Seq<char>>,
    pub opaque: Option<Seq<char>>,
}

/// The text of an optional string.
pub open spec fn option_view(text: Option<String>) -> Option<Seq<char>> {
    match text {
        Some(t) => Some(t@),
        None => None,
    }
}

/// The text of an optional string slice.
pub open spec fn option_str_view(text: Option<&str>) -> Option<Seq<char>> {
    match text {
        Some(t) => Some(t@),
        None => None,
    }
}

impl View for ChallengeFields {
    type V = ChallengeFieldsView;

    open spec fn view(&self) -> ChallengeFieldsView {
        ChallengeFieldsView {
            realm: self.realm@,
            nonce: self.nonce@,
            algorithm: option_view(self.algorithm),
            opaque: option_view(self.opaque),
        }
    }
}

/// `name` is the canonical name of a method.
pub open spec fn is_method_name(name: Seq<char>) -> bool {
    exists|m: Method| name == #[trigger] m.spec_name()
}

/// `name` is one of the transport names that `rsip` displays.
pub open spec fn is_transport_name(name: Seq<char>) -> bool {
    ||| name == "UDP"@
    ||| name == "TCP"@
    ||| name == "TLS"@
    ||| name == "SCTP"@
    ||| name == "TLS-SCTP"@
    ||| name == "WS"@
    ||| name == "WSS"@
}

/// `name` is one of the digest algorithm names that `rsip` displays.
pub open spec fn is_algorithm_name(name: Seq<char>) -> bool {
    ||| name == "MD5"@
    ||| name == "MD5-sess"@
    ||| name == "SHA256"@
    ||| name == "SHA256-sess"@
    ||| name == "SHA512"@
    ||| name == "SHA512-sess"@
}

/// What `rsip` makes of a frame's text: `None` where it rejects the text.
pub uninterp spec fn parsed_frame(text: Seq<char>) -> Option<ParsedView>;

/// The text that bytes stand for, with the replacement character in the
/// place of what is not UTF-8.
pub uninterp spec fn lossy_text(bytes: Seq<u8>) -> Seq<char>;

/// The header lines of a message: each header as `name: value`, closed by
/// a line break.
pub open spec fn header_lines(headers: Seq<HeaderView>) -> Seq<char>
    decreases headers.len(),
{
    if headers.len() == 0 {
        Seq::empty()
    } else {
        header_lines(headers.drop_last()) + headers.last().name + ": "@ + headers.last().value
            + "\r\n"@
    }
}

/// The wire text of a request of version 2.0: the request line, the header
/// lines, an empty line and the body as text.
pub open spec fn request_value(
    method: Seq<char>,
    uri: Seq<char>,
    headers: Seq<HeaderView>,
    body: Seq<char>,
) -> Seq<char> {
    method + " "@ + uri + " SIP/2.0\r\n"@ + header_lines(headers) + "\r\n"@ + body
}

/// The wire text of a response of version 2.0: the status line, the header
/// lines, an empty line and the body as text.
pub open spec fn response_value(
    code: u16,
    reason: Seq<char>,
    headers: Seq<HeaderView>,
    body: Seq<char>,
) -> Seq<char> {
    "SIP/2.0 "@ + decimal(code as nat) + " "@ + reason + "\r\n"@ + header_lines(headers)
        + "\r\n"@ + body
}

/// The wire text of a request.
pub open spec fn request_text(
    method: Seq<char>,
    uri: Seq<char>,
    headers: Seq<HeaderView>,
    body: Seq<u8>,
) -> Seq<char> {
    request_value(method, uri, headers, lossy_text(body))
}

/// The wire text of a response.
pub open spec fn response_text(
    code: u16,
    reason: Seq<char>,
    headers: Seq<HeaderView>,
    body: Seq<u8>,
) -> Seq<char> {
    response_value(code, reason, headers, lossy_text(body))
}

/// The `branch` parameter of a `Via` value, `None` where the value does not
/// parse or has no such parameter.
pub uninterp spec fn via_branch_of(value: Seq<char>) -> Option<Seq<char>>;

/// The method's name in a `CSeq` value, `None` where the value does not parse.
pub uninterp spec fn cseq_method_of(value: Seq<char>) -> Option<Seq<char>>;

/// The sequence number in a `CSeq` value, `None` where the value does not
/// parse.
pub uninterp spec fn cseq_number_of(value: Seq<char>) -> Option<u32>;

/// The display name in a `From` value: `None` where the value does not
/// parse, `Some(None)` where it names nobody.
pub uninterp spec fn from_display_name_of(value: Seq<char>) -> Option<Option<Seq<char>>>;

/// How `rsip` writes a host: a domain name letter for letter, an address
/// in the canonical form of its kind.
pub uninterp spec fn host_text(host: Seq<char>) -> Seq<char>;

/// The hash of `text` under the named digest algorithm, in lower-case
/// hexadecimal digits.
pub uninterp spec fn hash_hex(algorithm: Seq<char>, text: Seq<char>) -> Seq<char>;

/// A `Via` value of version 2.0 without parameters, for a transport and a
/// host as it is written.
pub open spec fn via_value(transport: Seq<char>, host: Seq<char>) -> Seq<char> {
    "SIP/2.0/"@ + transport + " "@ + host
}

/// A `To` or `From` value without display name or parameters, for the
/// address `sip:user@host` and a host as it is written.
pub open spec fn address_value(user: Seq<char>, host: Seq<char>) -> Seq<char> {
    "<sip:"@ + user + "@"@ + host + ">"@
}

/// A `Contact` value without display name, for the address `sip:user@host`
/// with a transport parameter, a host as it is written, and an `expires`
/// parameter on the header.
pub open spec fn contact_value(
    user: Seq<char>,
    host: Seq<char>,
    transport: Seq<char>,
    expires: Seq<char>,
) -> Seq<char> {
    "<sip:"@ + user + "@"@ + host + ";transport="@ + transport + ">;expires="@ + expires
}

/// A request-URI of the scheme `sip`, for a host as it is written.
pub open spec fn request_uri_value(host: Seq<char>) -> Seq<char> {
    "sip:"@ + host
}

/// Two texts with a colon between them.
pub open spec fn colon(left: Seq<char>, right: Seq<char>) -> Seq<char> {
    left + ":"@ + right
}

/// The `Via` value for a transport and a sent-by host.
pub open spec fn via_text(transport: Seq<char>, sent_by: Seq<char>) -> Seq<char> {
    via_value(transport, host_text(sent_by))
}

/// The `To` value that addresses `sip:user@host`.
pub open spec fn to_text(user: Seq<char>, host: Seq<char>) -> Seq<char> {
    address_value(user, host_text(host))
}

/// The `From` value that addresses `sip:user@host`.
pub open spec fn from_text(user: Seq<char>, host: Seq<char>) -> Seq<char> {
    address_value(user, host_text(host))
}

/// The `Contact` value for `sip:user@host` with a transport parameter on
/// the URI and an `expires` parameter on the header.
pub open spec fn contact_text(
    user: Seq<char>,
    host: Seq<char>,
    transport: Seq<char>,
    expires: Seq<char>,
) -> Seq<char> {
    contact_value(user, host_text(host), transport, expires)
}

/// The request-URI `sip:host`.
pub open spec fn request_uri_text(host: Seq<char>) -> Seq<char> {
    request_uri_value(host_text(host))
}

/// The fields of a `WWW-Authenticate` value, `None` where it does not parse.
pub uninterp spec fn challenge_of(value: Seq<char>) -> Option<ChallengeFieldsView>;

/// The digest response without quality of protection: the hash of
/// `HA1:nonce:HA2`, where `HA1` is the hash of `username:realm:password`
/// and `HA2` is the hash of `method:uri`.
pub open spec fn digest_of(
    username: Seq<char>,
    password: Seq<char>,
    realm: Seq<char>,
    nonce: Seq<char>,
    method: Seq<char>,
    uri: Seq<char>,
    algorithm: Seq<char>,
) -> Seq<char> {
    hash_hex(
        algorithm,
        colon(
            colon(hash_hex(algorithm, colon(colon(username, realm), password)), nonce),
            hash_hex(algorithm, colon(method, uri)),
        ),
    )
}

/// The `CSeq` value: the sequence number in decimal, a space, the method.
pub open spec fn cseq_text(seq: u32, method: Seq<char>) -> Seq<char> {
    decimal(seq as nat) + seq![' '] + method
}

/// The `Authorization` value of the digest scheme, without quality of
/// protection: the five quoted fields, then the algorithm and the opaque
/// value where they are given.
pub open spec fn authorization_text(
    username: Seq<char>,
    realm: Seq<char>,
    nonce: Seq<char>,
    uri: Seq<char>,
    response: Seq<char>,
    algorithm: Option<Seq<char>>,
    opaque: Option<Seq<char>>,
) -> Seq<char> {
    "Digest username=\""@ + username + "\", realm=\""@ + realm + "\", nonce=\""@ + nonce
        + "\", uri=\""@ + uri + "\", response=\""@ + response + "\""@ + (match algorithm {
        Some(a) => ", algorithm="@ + a,
        None => Seq::empty(),
    }) + (match opaque {
        Some(o) => ", opaque=\""@ + o + "\""@,
        None => Seq::empty(),
    })
}

/// `rsip::SipMessage::try_from(&str)`: parses a frame, and hands its parts
/// back as `rsip` displays them. Claims only that the outcome is a function
/// of the text.
#[verifier::external_body]
pub(crate) fn parse_frame(text: &str) -> (parsed: Option<Parsed>)
    ensures
        parsed matches Some(p) ==> parsed_frame(text@) == Some(p@),
        parsed is None ==> parsed_frame(text@) is None,
{
    let message = rsip::SipMessage::try_from(text).ok()?;
    let lines = rsip::message::HasHeaders::headers(&message).iter().map(|h| h.to_string()).collect();
    let body = message.body().clone();
    let start = match message {
        rsip::SipMessage::Request(r) => Start::Request { method: r.method.to_string(), uri: r.uri.to_string() },
        rsip::SipMessage::Response(r) => Start::Response { code: r.status_code.code(), status: r.status_code.to_string() },
    };
    Some(Parsed { start, lines, body })
}

/// `Display` of `rsip::Request`, for a request of version 2.0 whose
/// request-URI is written letter for letter. The source writes method, URI
/// and version with spaces between them, the headers as `name: value`, each
/// line closed by a line break, an empty line, and the body as
/// `String::from_utf8_lossy` reads it.
#[verifier::external_body]
pub(crate) fn render_request(method: &str, uri: &str, headers: &Vec<Header>, body: &Vec<u8>) -> (text: String)
    requires
        is_method_name(method@),
    ensures
        text@ == request_value(method@, uri@, header_views(headers@), lossy_text(body@)),
{
    let headers: Vec<rsip::Header> = headers.iter().map(|h| rsip::Header::Other(h.name.clone(), h.value.clone())).collect();
    let request = rsip::Request {
        method: method.parse().expect("method name"),
        uri: rsip::Uri::from(rsip::Host::Domain(uri.into())),
        version: rsip::Version::V2,
        headers: headers.into(),
        body: body.clone(),
    };
    request.to_string()
}

/// `Display` of `rsip::Response`, for a response of version 2.0 with the
/// given code and reason phrase. The source writes version, code and
/// reason with spaces between them, the headers as `name: value`, each
/// line closed by a line break, an empty line, and the body as
/// `String::from_utf8_lossy` reads it.
#[verifier::external_body]
pub(crate) fn render_response(code: u16, reason: &str, headers: &Vec<Header>, body: &Vec<u8>) -> (text: String)
    ensures
        text@ == response_value(code, reason@, header_views(headers@), lossy_text(body@)),
{
    let headers: Vec<rsip::Header> = headers.iter().map(|h| rsip::Header::Other(h.name.clone(), h.value.clone())).collect();
    let response = rsip::Response {
        status_code: rsip::StatusCode::Other(code, reason.to_string()),
        version: rsip::Version::V2,
        headers: headers.into(),
        body: body.clone(),
    };
    response.to_string()
}

/// `rsip::headers::Via::typed` and `rsip::typed::Via::branch`: the branch
/// parameter of a `Via` value. Claims only that the outcome is a function
/// of the value.
#[verifier::external_body]
pub(crate) fn via_branch(value: &str) -> (branch: Option<String>)
    ensures
        option_view(branch) == via_branch_of(value@),
{
    rsip::headers::Via::new(value).typed().ok()?.branch().map(|b| b.to_string())
}

/// `rsip::headers::CSeq::typed`: the name of the method in a `CSeq` value.
/// Claims only that the outcome is a function of the value.
#[verifier::external_body]
pub(crate) fn cseq_method(value: &str) -> (method: Option<String>)
    ensures
        option_view(method) == cseq_method_of(value@),
{
    rsip::headers::CSeq::new(value).typed().ok().map(|c| c.method.to_string())
}

/// `rsip::headers::CSeq::seq`: the sequence number in a `CSeq` value.
/// Claims only that the outcome is a function of the value.
#[verifier::external_body]
pub(crate) fn cseq_number(value: &str) -> (number: Option<u32>)
    ensures
        number == cseq_number_of(value@),
{
    rsip::headers::CSeq::new(value).seq().ok()
}

/// `rsip::headers::From::typed`: the display name in a `From` value.
/// Claims only that the outcome is a function of the value.
#[verifier::external_body]
pub(crate) fn from_display_name(value: &str) -> (name: Option<Option<String>>)
    ensures
        name matches Some(n) ==> from_display_name_of(value@) == Some(option_view(n)),
        name is None ==> from_display_name_of(value@) is None,
{
    Some(rsip::headers::From::new(value).typed().ok()?.display_name)
}

/// `Display` of `rsip::typed::Via` for version 2.0, the named transport, the
/// sent-by host and no parameters. The source writes version, a slash, the
/// transport, a space and the host.
#[verifier::external_body]
pub(crate) fn render_via(transport: &str, sent_by: &str) -> (text: String)
    requires
        is_transport_name(transport@),
    ensures
        text@ == via_value(transport@, host_text(sent_by@)),
{
    let via = rsip::typed::Via {
        version: rsip::Version::V2,
        transport: transport.parse().expect("transport name"),
        uri: rsip::Uri::from(rsip::Host::from(sent_by)),
        params: vec![],
    };
    via.to_string()
}

/// `Display` of `rsip::typed::To` without display name or parameters, for
/// the URI `sip:user@host`. The source writes the URI in angle brackets:
/// scheme, colon, user, `@`, host.
#[verifier::external_body]
pub(crate) fn render_to(user: &str, host: &str) -> (text: String)
    ensures
        text@ == address_value(user@, host_text(host@)),
{
    let uri = rsip::Uri {
        scheme: Some(rsip::Scheme::Sip),
        auth: Some(rsip::Auth { user: user.to_string(), password: None }),
        host_with_port: rsip::Host::from(host).into(),
        ..Default::default()
    };
    rsip::typed::To { display_name: None, uri, params: vec![] }.to_string()
}

/// `Display` of `rsip::typed::From` without display name or parameters, for
/// the URI `sip:user@host`. The source writes the URI in angle brackets:
/// scheme, colon, user, `@`, host.
#[verifier::external_body]
pub(crate) fn render_from(user: &str, host: &str) -> (text: String)
    ensures
        text@ == address_value(user@, host_text(host@)),
{
    let uri = rsip::Uri {
        scheme: Some(rsip::Scheme::Sip),
        auth: Some(rsip::Auth { user: user.to_string(), password: None }),
        host_with_port: rsip::Host::from(host).into(),
        ..Default::default()
    };
    rsip::typed::From { display_name: None, uri, params: vec![] }.to_string()
}

/// `Display` of `rsip::typed::CSeq`, which writes the number, a space and
/// the method's name.
#[verifier::external_body]
pub(crate) fn render_cseq(seq: u32, method: &str) -> (text: String)
    requires
        is_method_name(method@),
    ensures
        text@ == cseq_text(seq, method@),
{
    rsip::typed::CSeq { seq, method: method.parse().expect("method name") }.to_string()
}

/// `Display` of `rsip::typed::Contact` without display name, for the URI
/// `sip:user@host` with the named transport as its parameter, and with the
/// header parameter `expires`. The source writes the URI with its
/// parameter in angle brackets, then the header's parameter.
#[verifier::external_body]
pub(crate) fn render_contact(user: &str, host: &str, transport: &str, expires: &str) -> (text: String)
    requires
        is_transport_name(transport@),
    ensures
        text@ == contact_value(user@, host_text(host@), transport@, expires@),
{
    let uri = rsip::Uri {
        scheme: Some(rsip::Scheme::Sip),
        auth: Some(rsip::Auth { user: user.to_string(), password: None }),
        host_with_port: rsip::Host::from(host).into(),
        params: vec![rsip::Param::Transport(transport.parse().expect("transport name"))],
        ..Default::default()
    };
    let params = vec![rsip::Param::Expires(expires.into())];
    rsip::typed::Contact { display_name: None, uri, params }.to_string()
}

/// `Display` of `rsip::Uri` for the scheme `sip` and a host alone. The
/// source writes scheme, colon and host.
#[verifier::external_body]
pub(crate) fn render_request_uri(host: &str) -> (text: String)
    ensures
        text@ == request_uri_value(host_text(host@)),
{
    rsip::Uri::from((rsip::Scheme::Sip, rsip::Host::from(host))).to_string()
}

/// `Display` of `rsip::typed::Authorization` for the digest scheme without
/// quality of protection. The source writes the five quoted fields, then
/// `algorithm` and `opaque` where they are present; the digest-URI is
/// written letter for letter.
#[verifier::external_body]
pub(crate) fn render_authorization(
    username: &str,
    realm: &str,
    nonce: &str,
    uri: &str,
    response: &str,
    algorithm: Option<&str>,
    opaque: Option<&str>,
) -> (text: String)
    requires
        algorithm matches Some(a) ==> is_algorithm_name(a@),
    ensures
        text@ == authorization_text(username@, realm@, nonce@, uri@, response@, option_str_view(algorithm), option_str_view(opaque)),
{
    let authorization = rsip::typed::Authorization {
        scheme: rsip::headers::auth::Scheme::Digest,
        username: username.to_string(),
        realm: realm.to_string(),
        nonce: nonce.to_string(),
        uri: rsip::Uri::from(rsip::Host::Domain(uri.into())),
        response: response.to_string(),
        algorithm: algorithm.map(|a| a.parse().expect("algorithm name")),
        opaque: opaque.map(|o| o.to_string()),
        qop: None,
    };
    authorization.to_string()
}

/// `rsip::headers::WwwAuthenticate::typed`: the realm, nonce, algorithm and
/// opaque value of a challenge, the algorithm by the name that `rsip`
/// displays. Claims only that the outcome is a function of the value.
#[verifier::external_body]
pub(crate) fn parse_challenge(value: &str) -> (fields: Option<ChallengeFields>)
    ensures
        fields matches Some(f) ==> challenge_of(value@) == Some(f@),
        fields is None ==> challenge_of(value@) is None,
{
    let typed = rsip::headers::WwwAuthenticate::new(value).typed().ok()?;
    Some(ChallengeFields {
        realm: typed.realm,
        nonce: typed.nonce,
        algorithm: typed.algorithm.map(|a| a.to_string()),
        opaque: typed.opaque,
    })
}

/// `rsip::services::DigestGenerator::compute` without quality of
/// protection; the digest-URI enters the hash letter for letter. The source
/// hashes `username:realm:password` and `method:uri`, and then the two
/// hashes with the nonce between them. Of the hash itself the contract
/// claims only that it is a function of the algorithm and the text.
#[verifier::external_body]
pub(crate) fn compute_digest(
    username: &str,
    password: &str,
    realm: &str,
    nonce: &str,
    method: &str,
    uri: &str,
    algorithm: &str,
) -> (response: String)
    requires
        is_method_name(method@),
        is_algorithm_name(algorithm@),
    ensures
        response@ == hash_hex(
            algorithm@,
            colon(
                colon(hash_hex(algorithm@, colon(colon(username@, realm@), password@)), nonce@),
                hash_hex(algorithm@, colon(method@, uri@)),
            ),
        ),
{
    let generator = rsip::services::DigestGenerator {
        username,
        password,
        nonce,
        uri: &rsip::Uri::from(rsip::Host::Domain(uri.into())),
        realm,
        method: &method.parse().expect("method name"),
        qop: None,
        algorithm: algorithm.parse().expect("algorithm name"),
    };
    generator.compute()
}

} // verus!
