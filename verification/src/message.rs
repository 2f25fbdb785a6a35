//! The message model: methods, status codes, headers, requests and
//! responses, each with the mathematical view that the contracts speak of.

use vstd::prelude::*;
use crate::text::{eq_ignore_case, position, same_ignoring_case, find};

verus! {

/// A SIP request method.
#[derive(Clone, Copy, Debug, PartialEq, Eq, Structural)]
pub enum Method {
    Ack,
    Bye,
    Cancel,
    Info,
    Invite,
    Message,
    Notify,
    Options,
    PRack,
    Publish,
    Refer,
    Register,
    Subscribe,
    Update,
}

impl Method {
    /// The method's name as it stands on the wire.
    pub open spec fn spec_name(self) -> Seq<char> {
        match self {
            Method::Ack => "ACK"@,
            Method::Bye => "BYE"@,
            Method::Cancel => "CANCEL"@,
            Method::Info => "INFO"@,
            Method::Invite => "INVITE"@,
            Method::Message => "MESSAGE"@,
            Method::Notify => "NOTIFY"@,
            Method::Options => "OPTIONS"@,
            Method::PRack => "PRACK"@,
            Method::Publish => "PUBLISH"@,
            Method::Refer => "REFER"@,
            Method::Register => "REGISTER"@,
            Method::Subscribe => "SUBSCRIBE"@,
            Method::Update => "UPDATE"@,
        }
    }

    /// The method named by `name`, compared without regard to ASCII case.
    pub open spec fn spec_from_name(name: Seq<char>) -> Option<Method> {
        if eq_ignore_case(name, "ACK"@) {
            Some(Method::Ack)
        } else if eq_ignore_case(name, "BYE"@) {
            Some(Method::Bye)
        } else if eq_ignore_case(name, "CANCEL"@) {
            Some(Method::Cancel)
        } else if eq_ignore_case(name, "INFO"@) {
            Some(Method::Info)
        } else if eq_ignore_case(name, "INVITE"@) {
            Some(Method::Invite)
        } else if eq_ignore_case(name, "MESSAGE"@) {
            Some(Method::Message)
        } else if eq_ignore_case(name, "NOTIFY"@) {
            Some(Method::Notify)
        } else if eq_ignore_case(name, "OPTIONS"@) {
            Some(Method::Options)
        } else if eq_ignore_case(name, "PRACK"@) {
            Some(Method::PRack)
        } else if eq_ignore_case(name, "PUBLISH"@) {
            Some(Method::Publish)
        } else if eq_ignore_case(name, "REFER"@) {
            Some(Method::Refer)
        } else if eq_ignore_case(name, "REGISTER"@) {
            Some(Method::Register)
        } else if eq_ignore_case(name, "SUBSCRIBE"@) {
            Some(Method::Subscribe)
        } else if eq_ignore_case(name, "UPDATE"@) {
            Some(Method::Update)
        } else {
            None
        }
    }

    /// The method's name as it stands on the wire.
    pub fn name(&self) -> (name: &'static str)
        ensures
            name@ == self.spec_name(),
    {
        match self {
            Method::Ack => "ACK",
            Method::Bye => "BYE",
            Method::Cancel => "CANCEL",
            Method::Info => "INFO",
            Method::Invite => "INVITE",
            Method::Message => "MESSAGE",
            Method::Notify => "NOTIFY",
            Method::Options => "OPTIONS",
            Method::PRack => "PRACK",
            Method::Publish => "PUBLISH",
            Method::Refer => "REFER",
            Method::Register => "REGISTER",
            Method::Subscribe => "SUBSCRIBE",
            Method::Update => "UPDATE",
        }
    }

    /// The method that `name` stands for, without regard to ASCII case.
    pub fn from_name(name: &str) -> (method: Option<Method>)
        ensures
            method == Method::spec_from_name(name@),
    {
        if same_ignoring_case(name, "ACK") {
            Some(Method::Ack)
        } else if same_ignoring_case(name, "BYE") {
            Some(Method::Bye)
        } else if same_ignoring_case(name, "CANCEL") {
            Some(Method::Cancel)
        } else if same_ignoring_case(name, "INFO") {
            Some(Method::Info)
        } else if same_ignoring_case(name, "INVITE") {
            Some(Method::Invite)
        } else if same_ignoring_case(name, "MESSAGE") {
            Some(Method::Message)
        } else if same_ignoring_case(name, "NOTIFY") {
            Some(Method::Notify)
        } else if same_ignoring_case(name, "OPTIONS") {
            Some(Method::Options)
        } else if same_ignoring_case(name, "PRACK") {
            Some(Method::PRack)
        } else if same_ignoring_case(name, "PUBLISH") {
            Some(Method::Publish)
        } else if same_ignoring_case(name, "REFER") {
            Some(Method::Refer)
        } else if same_ignoring_case(name, "REGISTER") {
            Some(Method::Register)
        } else if same_ignoring_case(name, "SUBSCRIBE") {
            Some(Method::Subscribe)
        } else if same_ignoring_case(name, "UPDATE") {
            Some(Method::Update)
        } else {
            None
        }
    }
}

/// The class of a status code.
#[derive(Clone, Copy, Debug, PartialEq, Eq, Structural)]
pub enum StatusCodeKind {
    Provisional,
    Successful,
    Redirection,
    RequestFailure,
    ServerFailure,
    GlobalFailure,
    Other,
}

/// The class that a numeric status code falls in.
pub open spec fn kind_of_code(code: u16) -> StatusCodeKind {
    if 100 <= code < 200 {
        StatusCodeKind::Provisional
    } else if 200 <= code < 300 {
        StatusCodeKind::Successful
    } else if 300 <= code < 400 {
        StatusCodeKind::Redirection
    } else if 400 <= code < 500 {
        StatusCodeKind::RequestFailure
    } else if 500 <= code < 600 {
        StatusCodeKind::ServerFailure
    } else if 600 <= code < 700 {
        StatusCodeKind::GlobalFailure
    } else {
        StatusCodeKind::Other
    }
}

/// A response status: the numeric code and its reason phrase.
#[derive(Debug)]
pub struct StatusCode {
    pub code: u16,
    pub reason: String,
}

/// The mathematical model of `StatusCode`.
pub struct StatusCodeView {
    pub code: u16,
    pub reason: Seq<char>,
}

impl View for StatusCode {
    type V = StatusCodeView;

    open spec fn view(&self) -> StatusCodeView {
        StatusCodeView { code: self.code, reason: self.reason@ }
    }
}

impl Clone for StatusCode {
    fn clone(&self) -> (copy: StatusCode)
        ensures
            copy@ == self@,
    {
        StatusCode { code: self.code, reason: self.reason.clone() }
    }
}

impl StatusCode {
    /// The status with the given code and reason phrase.
    pub fn new(code: u16, reason: &str) -> (status: StatusCode)
        ensures
            status@ == (StatusCodeView { code, reason: reason@ }),
    {
        StatusCode { code, reason: reason.to_owned() }
    }

    /// `100 Trying`.
    pub fn trying() -> (status: StatusCode)
        ensures
            status@ == (StatusCodeView { code: 100, reason: "Trying"@ }),
    {
        StatusCode::new(100, "Trying")
    }

    /// `180 Ringing`.
    pub fn ringing() -> (status: StatusCode)
        ensures
            status@ == (StatusCodeView { code: 180, reason: "Ringing"@ }),
    {
        StatusCode::new(180, "Ringing")
    }

    /// `200 OK`.
    pub fn ok() -> (status: StatusCode)
        ensures
            status@ == (StatusCodeView { code: 200, reason: "OK"@ }),
    {
        StatusCode::new(200, "OK")
    }

    /// `202 Accepted`.
    pub fn accepted() -> (status: StatusCode)
        ensures
            status@ == (StatusCodeView { code: 202, reason: "Accepted"@ }),
    {
        StatusCode::new(202, "Accepted")
    }

    /// The class of the status.
    pub fn kind(&self) -> (kind: StatusCodeKind)
        ensures
            kind == kind_of_code(self.code),
    {
        let code = self.code;
        if 100 <= code && code < 200 {
            StatusCodeKind::Provisional
        } else if 200 <= code && code < 300 {
            StatusCodeKind::Successful
        } else if 300 <= code && code < 400 {
            StatusCodeKind::Redirection
        } else if 400 <= code && code < 500 {
            StatusCodeKind::RequestFailure
        } else if 500 <= code && code < 600 {
            StatusCodeKind::ServerFailure
        } else if 600 <= code && code < 700 {
            StatusCodeKind::GlobalFailure
        } else {
            StatusCodeKind::Other
        }
    }

    /// Whether the status reports progress only (1xx).
    pub fn is_provisional(&self) -> (provisional: bool)
        ensures
            provisional == (100 <= self.code < 200),
    {
        100 <= self.code && self.code < 200
    }

    /// Whether the status reports success (2xx).
    pub fn is_successful(&self) -> (successful: bool)
        ensures
            successful == (200 <= self.code < 300),
    {
        200 <= self.code && self.code < 300
    }
}

/// The headers that the engine tells apart; every other header is `Other`.
#[derive(Clone, Copy, Debug, PartialEq, Eq, Structural)]
pub enum HeaderKind {
    Via,
    From,
    To,
    CSeq,
    CallId,
    Contact,
    Authorization,
    WwwAuthenticate,
    UserAgent,
    Other,
}

/// The kind of the header called `name`; names compare without regard to
/// ASCII case.
pub open spec fn kind_of_name(name: Seq<char>) -> HeaderKind {
    if eq_ignore_case(name, "Via"@) {
        HeaderKind::Via
    } else if eq_ignore_case(name, "From"@) {
        HeaderKind::From
    } else if eq_ignore_case(name, "To"@) {
        HeaderKind::To
    } else if eq_ignore_case(name, "CSeq"@) {
        HeaderKind::CSeq
    } else if eq_ignore_case(name, "Call-ID"@) {
        HeaderKind::CallId
    } else if eq_ignore_case(name, "Contact"@) {
        HeaderKind::Contact
    } else if eq_ignore_case(name, "Authorization"@) {
        HeaderKind::Authorization
    } else if eq_ignore_case(name, "WWW-Authenticate"@) {
        HeaderKind::WwwAuthenticate
    } else if eq_ignore_case(name, "User-Agent"@) {
        HeaderKind::UserAgent
    } else {
        HeaderKind::Other
    }
}

/// Each of the nine names that the engine knows is the name of its own
/// kind.
pub proof fn lemma_known_names()
    ensures
        kind_of_name("Via"@) == HeaderKind::Via,
        kind_of_name("From"@) == HeaderKind::From,
        kind_of_name("To"@) == HeaderKind::To,
        kind_of_name("CSeq"@) == HeaderKind::CSeq,
        kind_of_name("Call-ID"@) == HeaderKind::CallId,
        kind_of_name("Contact"@) == HeaderKind::Contact,
        kind_of_name("Authorization"@) == HeaderKind::Authorization,
        kind_of_name("WWW-Authenticate"@) == HeaderKind::WwwAuthenticate,
        kind_of_name("User-Agent"@) == HeaderKind::UserAgent,
{
    reveal_strlit("Via");
    reveal_strlit("From");
    reveal_strlit("To");
    reveal_strlit("CSeq");
    reveal_strlit("Call-ID");
    reveal_strlit("Contact");
    reveal_strlit("Authorization");
    reveal_strlit("WWW-Authenticate");
    reveal_strlit("User-Agent");
    assert(!eq_ignore_case("CSeq"@, "From"@)) by {
        assert("CSeq"@[0] == 'C' && "From"@[0] == 'F');
    }
    assert(!eq_ignore_case("Contact"@, "Call-ID"@)) by {
        assert("Contact"@[1] == 'o' && "Call-ID"@[1] == 'a');
    }
}

/// One header: its name and its value, both as they stand on the wire.
#[derive(Debug)]
pub struct Header {
    pub name: String,
    pub value: String,
}

/// The mathematical model of `Header`.
pub struct HeaderView {
    pub name: Seq<char>,
    pub value: Seq<char>,
}

impl HeaderView {
    /// The kind that the header's name stands for.
    pub open spec fn kind(self) -> HeaderKind {
        kind_of_name(self.name)
    }
}

impl View for Header {
    type V = HeaderView;

    open spec fn view(&self) -> HeaderView {
        HeaderView { name: self.name@, value: self.value@ }
    }
}

impl Clone for Header {
    fn clone(&self) -> (copy: Header)
        ensures
            copy@ == self@,
    {
        Header { name: self.name.clone(), value: self.value.clone() }
    }
}

/// The header that the line `name: value` stands for. The name ends at the
/// first colon; one space after the colon, if there is one, is dropped. A
/// line without a colon is a name with an empty value.
pub open spec fn header_of_line(line: Seq<char>) -> HeaderView {
    let colon = position(line, ':', 0);
    let start = if colon + 1 < line.len() && line[colon + 1] == ' ' {
        colon + 2
    } else if colon < line.len() {
        colon + 1
    } else {
        colon
    };
    HeaderView { name: line.subrange(0, colon), value: line.subrange(start, line.len() as int) }
}

/// The name and version that the client announces about itself.
pub open spec fn user_agent_text() -> Seq<char> {
    "ucware-cli/0.1.0"@
}

/// The User-Agent header that every message of the client carries.
pub open spec fn user_agent_header() -> HeaderView {
    HeaderView { name: "User-Agent"@, value: user_agent_text() }
}

impl Header {
    /// The client's User-Agent header.
    pub fn user_agent() -> (header: Header)
        ensures
            header@ == user_agent_header(),
    {
        Header::new("User-Agent", "ucware-cli/0.1.0")
    }

    /// The header with the given name and value.
    pub fn new(name: &str, value: &str) -> (header: Header)
        ensures
            header@ == (HeaderView { name: name@, value: value@ }),
    {
        Header { name: name.to_owned(), value: value.to_owned() }
    }

    /// Splits a header line into name and value.
    pub fn from_line(line: &str) -> (header: Header)
        ensures
            header@ == header_of_line(line@),
    {
        let n = line.unicode_len();
        let colon = find(line, ':');
        let start = if colon < n && colon + 1 < n && line.get_char(colon + 1) == ' ' {
            colon + 2
        } else if colon < n {
            colon + 1
        } else {
            colon
        };
        Header {
            name: line.substring_char(0, colon).to_owned(),
            value: line.substring_char(start, n).to_owned(),
        }
    }

    /// The kind that the header's name stands for.
    pub fn kind(&self) -> (kind: HeaderKind)
        ensures
            kind == self@.kind(),
    {
        let name = self.name.as_str();
        if same_ignoring_case(name, "Via") {
            HeaderKind::Via
        } else if same_ignoring_case(name, "From") {
            HeaderKind::From
        } else if same_ignoring_case(name, "To") {
            HeaderKind::To
        } else if same_ignoring_case(name, "CSeq") {
            HeaderKind::CSeq
        } else if same_ignoring_case(name, "Call-ID") {
            HeaderKind::CallId
        } else if same_ignoring_case(name, "Contact") {
            HeaderKind::Contact
        } else if same_ignoring_case(name, "Authorization") {
            HeaderKind::Authorization
        } else if same_ignoring_case(name, "WWW-Authenticate") {
            HeaderKind::WwwAuthenticate
        } else if same_ignoring_case(name, "User-Agent") {
            HeaderKind::UserAgent
        } else {
            HeaderKind::Other
        }
    }
}

/// The views of a list of headers, in order.
pub open spec fn header_views(headers: Seq<Header>) -> Seq<HeaderView> {
    headers.map_values(|h: Header| h@)
}

/// Index of the first header of `kind` at or after `from`, or the length of
/// the list when there is none.
pub open spec fn header_position(headers: Seq<HeaderView>, kind: HeaderKind, from: int) -> int
    decreases headers.len() - from,
{
    if from < 0 || from >= headers.len() {
        headers.len() as int
    } else if headers[from].kind() == kind {
        from
    } else {
        header_position(headers, kind, from + 1)
    }
}

/// The value of the first header of `kind`, if there is one.
pub open spec fn header_value(headers: Seq<HeaderView>, kind: HeaderKind) -> Option<Seq<char>> {
    let at = header_position(headers, kind, 0);
    if at < headers.len() {
        Some(headers[at].value)
    } else {
        None
    }
}

/// Finds the first header of `kind`.
pub fn find_header(headers: &Vec<Header>, kind: HeaderKind) -> (found: Option<&Header>)
    ensures
        found matches Some(h) ==> header_value(header_views(headers@), kind) == Some(h@.value)
            && h@.kind() == kind,
        found is None ==> header_value(header_views(headers@), kind) is None,
{
    let ghost views = header_views(headers@);
    let mut i: usize = 0;
    while i < headers.len()
        invariant
            i <= headers.len(),
            views == header_views(headers@),
            header_position(views, kind, 0) == header_position(views, kind, i as int),
        decreases headers.len() - i,
    {
        if headers[i].kind() == kind {
            return Some(&headers[i]);
        }
        i += 1;
    }
    None
}

/// Copies a list of headers.
pub fn clone_headers(headers: &Vec<Header>) -> (copy: Vec<Header>)
    ensures
        header_views(copy@) == header_views(headers@),
{
    let mut copy: Vec<Header> = Vec::new();
    let mut i: usize = 0;
    while i < headers.len()
        invariant
            i <= headers.len(),
            copy.len() == i,
            forall|j: int| 0 <= j < i ==> (#[trigger] copy@[j])@ == headers@[j]@,
        decreases headers.len() - i,
    {
        copy.push(headers[i].clone());
        i += 1;
    }
    copy
}

/// A request: method, request-URI, headers and body.
#[derive(Debug)]
pub struct Request {
    pub method: Method,
    pub uri: String,
    pub headers: Vec<Header>,
    pub body: Vec<u8>,
}

/// The mathematical model of `Request`.
pub struct RequestView {
    pub method: Method,
    pub uri: Seq<char>,
    pub headers: Seq<HeaderView>,
    pub body: Seq<u8>,
}

impl View for Request {
    type V = RequestView;

    open spec fn view(&self) -> RequestView {
        RequestView {
            method: self.method,
            uri: self.uri@,
            headers: header_views(self.headers@),
            body: self.body@,
        }
    }
}

impl Clone for Request {
    fn clone(&self) -> (copy: Request)
        ensures
            copy@ == self@,
    {
        Request {
            method: self.method,
            uri: self.uri.clone(),
            headers: clone_headers(&self.headers),
            body: self.body.clone(),
        }
    }
}

/// A response: status, headers and body.
#[derive(Debug)]
pub struct Response {
    pub status_code: StatusCode,
    pub headers: Vec<Header>,
    pub body: Vec<u8>,
}

/// The mathematical model of `Response`.
pub struct ResponseView {
    pub status_code: StatusCodeView,
    pub headers: Seq<HeaderView>,
    pub body: Seq<u8>,
}

impl View for Response {
    type V = ResponseView;

    open spec fn view(&self) -> ResponseView {
        ResponseView {
            status_code: self.status_code@,
            headers: header_views(self.headers@),
            body: self.body@,
        }
    }
}

impl Clone for Response {
    fn clone(&self) -> (copy: Response)
        ensures
            copy@ == self@,
    {
        Response {
            status_code: self.status_code.clone(),
            headers: clone_headers(&self.headers),
            body: self.body.clone(),
        }
    }
}

/// Either kind of message.
#[derive(Debug)]
pub enum Message {
    Request(Request),
    Response(Response),
}

/// The mathematical model of `Message`.
pub enum MessageView {
    Request(RequestView),
    Response(ResponseView),
}

impl View for Message {
    type V = MessageView;

    open spec fn view(&self) -> MessageView {
        match self {
            Message::Request(request) => MessageView::Request(request@),
            Message::Response(response) => MessageView::Response(response@),
        }
    }
}

} // verus!
