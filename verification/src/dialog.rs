//! The dialog: one Call-ID and a sequence counter, from which the
//! correlated requests of a call are built.

use vstd::prelude::*;
use crate::connection::{Connection, ConnectionView, SendError};
use crate::key::request_key;
use crate::message::{
    Header, HeaderKind, HeaderView, Method, Request, RequestView, header_position, header_value,
    header_views, lemma_known_names, user_agent_header,
};
use crate::random::{all_alphanumeric, random_alphanumeric, random_u16};
use crate::sip::{
    cseq_text, from_text, host_text, render_cseq, render_from, render_request_uri, render_to,
    render_via, request_uri_text, to_text, via_text,
};
use crate::transaction::ClientTransaction;

verus! {

/// The sequence number that follows `seq`; the counter wraps at the end of
/// its range.
pub open spec fn next_seq(seq: u32) -> u32 {
    if seq == u32::MAX {
        0
    } else {
        (seq + 1) as u32
    }
}

/// A dialog of one connection.
#[derive(Debug)]
pub struct Dialog {
    domain: String,
    user: String,
    send_by: String,
    call_id: String,
    seq: u32,
}

/// The mathematical model of `Dialog`.
pub struct DialogView {
    /// The domain of the connection's server.
    pub domain: Seq<char>,
    /// The connection's local user.
    pub user: Seq<char>,
    /// The connection's send-by host.
    pub send_by: Seq<char>,
    /// The dialog's Call-ID.
    pub call_id: Seq<char>,
    /// The sequence number that the next request gets.
    pub seq: u32,
}

impl DialogView {
    /// The headers that a request of this dialog starts with: Via for the
    /// secure WebSocket transport and the send-by host, To and From for the
    /// local identity, CSeq with the dialog's next number and the method,
    /// the dialog's Call-ID, and the client's User-Agent.
    pub open spec fn headers(self, method: Method) -> Seq<HeaderView> {
        seq![
            HeaderView { name: "Via"@, value: via_text("WSS"@, self.send_by) },
            HeaderView { name: "To"@, value: to_text(self.user, self.domain) },
            HeaderView { name: "From"@, value: from_text(self.user, self.domain) },
            HeaderView { name: "CSeq"@, value: cseq_text(self.seq, method.spec_name()) },
            HeaderView { name: "Call-ID"@, value: self.call_id },
            user_agent_header(),
        ]
    }

    /// The dialog after it issued one request.
    pub open spec fn advanced(self) -> DialogView {
        DialogView { seq: next_seq(self.seq), ..self }
    }
}

impl View for Dialog {
    type V = DialogView;

    closed spec fn view(&self) -> DialogView {
        DialogView {
            domain: self.domain@,
            user: self.user@,
            send_by: self.send_by@,
            call_id: self.call_id@,
            seq: self.seq,
        }
    }
}

/// Whether `dialog` is a new dialog of `connection`: it has the
/// connection's identity, a Call-ID of 16 ASCII letters and digits, and a
/// first sequence number of 16 bits.
pub open spec fn is_fresh_dialog(connection: ConnectionView, dialog: DialogView) -> bool {
    &&& dialog.domain == connection.domain
    &&& dialog.user == connection.user
    &&& dialog.send_by == connection.send_by
    &&& dialog.call_id.len() == 16
    &&& all_alphanumeric(dialog.call_id)
    &&& dialog.seq <= u16::MAX
}

/// A request in the making.
#[derive(Debug)]
pub struct RequestBuilder {
    method: Method,
    domain: String,
    headers: Vec<Header>,
}

/// The mathematical model of `RequestBuilder`.
pub struct RequestBuilderView {
    pub method: Method,
    /// The domain that the request is addressed to.
    pub domain: Seq<char>,
    pub headers: Seq<HeaderView>,
}

impl RequestBuilderView {
    /// The request that the builder makes of a body.
    pub open spec fn request(self, body: Seq<u8>) -> RequestView {
        RequestView {
            method: self.method,
            uri: request_uri_text(self.domain),
            headers: self.headers,
            body,
        }
    }
}

impl View for RequestBuilder {
    type V = RequestBuilderView;

    closed spec fn view(&self) -> RequestBuilderView {
        RequestBuilderView {
            method: self.method,
            domain: self.domain@,
            headers: header_views(self.headers@),
        }
    }
}

impl Dialog {
    /// A dialog of `connection` with the given Call-ID and first sequence
    /// number.
    pub fn new(connection: &Connection, call_id: String, seq: u32) -> (dialog: Dialog)
        ensures
            dialog@ == (DialogView {
                domain: connection@.domain,
                user: connection@.user,
                send_by: connection@.send_by,
                call_id: call_id@,
                seq,
            }),
    {
        Dialog {
            domain: connection.domain().to_owned(),
            user: connection.user().to_owned(),
            send_by: connection.send_by().to_owned(),
            call_id,
            seq,
        }
    }

    /// The dialog's Call-ID.
    pub fn call_id(&self) -> (call_id: &str)
        ensures
            call_id@ == self@.call_id,
    {
        self.call_id.as_str()
    }

    /// The send-by host of the dialog's connection.
    pub fn send_by(&self) -> (send_by: &str)
        ensures
            send_by@ == self@.send_by,
    {
        self.send_by.as_str()
    }

    /// The sequence number that the next request gets.
    pub fn seq(&self) -> (seq: u32)
        ensures
            seq == self@.seq,
    {
        self.seq
    }

    /// Starts a request of the dialog: it carries the mandatory headers,
    /// with the dialog's next sequence number in CSeq, and the counter
    /// moves on by one.
    pub fn request(&mut self, method: Method) -> (builder: RequestBuilder)
        ensures
            builder@ == (RequestBuilderView {
                method,
                domain: old(self)@.domain,
                headers: old(self)@.headers(method),
            }),
            final(self)@ == old(self)@.advanced(),
    {
        let seq = self.seq;
        self.seq = seq.wrapping_add(1);
        let mut headers: Vec<Header> = Vec::new();
        headers.push(
            Header::new("Via", render_via("WSS", self.send_by.as_str()).as_str()),
        );
        headers.push(
            Header::new("To", render_to(self.user.as_str(), self.domain.as_str()).as_str()),
        );
        headers.push(
            Header::new("From", render_from(self.user.as_str(), self.domain.as_str()).as_str()),
        );
        headers.push(Header::new("CSeq", render_cseq(seq, method.name()).as_str()));
        headers.push(Header::new("Call-ID", self.call_id.as_str()));
        headers.push(Header::user_agent());
        assert(header_views(headers@) =~= old(self)@.headers(method));
        RequestBuilder { method, domain: self.domain.clone(), headers }
    }
}

impl Connection {
    /// A new dialog of the connection, with a random Call-ID and a random
    /// first sequence number.
    pub fn dialog(&self) -> (dialog: Dialog)
        ensures
            is_fresh_dialog(self@, dialog@),
    {
        let call_id = random_alphanumeric(16);
        let seq: u32 = random_u16().into();
        Dialog::new(self, call_id, seq)
    }
}

impl RequestBuilder {
    /// Appends a header.
    pub fn header(self, header: Header) -> (builder: RequestBuilder)
        ensures
            builder@ == (RequestBuilderView {
                method: self@.method,
                domain: self@.domain,
                headers: self@.headers.push(header@),
            }),
    {
        let mut headers = self.headers;
        let ghost before = header_views(headers@);
        headers.push(header);
        assert(header_views(headers@) =~= before.push(header@));
        RequestBuilder { method: self.method, domain: self.domain, headers }
    }

    /// Finishes the request with the given body: it is addressed to
    /// `sip:domain`.
    pub fn build(self, body: Vec<u8>) -> (request: Request)
        ensures
            request@ == self@.request(body@),
    {
        Request {
            method: self.method,
            uri: render_request_uri(self.domain.as_str()),
            headers: self.headers,
            body,
        }
    }

    /// Finishes the request and opens its client transaction on
    /// `connection`: the transaction is registered, and its handle holds the
    /// request for transmission.
    pub fn send(self, connection: &mut Connection, body: Vec<u8>) -> (transaction: Result<
        ClientTransaction,
        SendError,
    >)
        requires
            old(connection)@.wf(),
        ensures
            final(connection)@.wf(),
            old(connection)@.next_channel == u64::MAX <==> transaction is Err,
            transaction is Err ==> final(connection)@ == old(connection)@,
            transaction matches Ok(t) ==> {
                &&& t@.request == self@.request(body@)
                &&& t@.channel == old(connection)@.next_channel
                &&& final(connection)@ == old(connection)@.with_routes(
                    old(connection)@.routes.insert(request_key(self@.request(body@)), t@.channel),
                    (old(connection)@.next_channel + 1) as u64,
                )
            },
    {
        let request = self.build(body);
        connection.send(request)
    }
}

impl DialogView {
    /// The dialog after it issued `count` requests.
    pub open spec fn advanced_by(self, count: nat) -> DialogView
        decreases count,
    {
        if count == 0 {
            self
        } else {
            self.advanced_by((count - 1) as nat).advanced()
        }
    }
}

/// The sequence numbers of a dialog count up by one with every request,
/// whatever the methods are, and the Call-ID stays: as long as the counter
/// does not reach the end of its range, the request after `count` others
/// carries the first number plus `count`.
pub proof fn lemma_sequence_numbers_count_up(dialog: DialogView, count: nat, method: Method)
    requires
        dialog.seq + count <= u32::MAX,
    ensures
        dialog.advanced_by(count).seq == dialog.seq + count,
        dialog.advanced_by(count).call_id == dialog.call_id,
        header_value(dialog.advanced_by(count).headers(method), HeaderKind::CSeq) == Some(
            cseq_text((dialog.seq + count) as u32, method.spec_name()),
        ),
        header_value(dialog.advanced_by(count).headers(method), HeaderKind::CallId) == Some(
            dialog.call_id,
        ),
    decreases count,
{
    if count > 0 {
        lemma_sequence_numbers_count_up(dialog, (count - 1) as nat, method);
    }
    lemma_dialog_headers(dialog.advanced_by(count), method);
}

/// Three requests in a row on one dialog carry the sequence numbers `N`,
/// `N + 1` and `N + 2` in their CSeq headers, whatever their methods are,
/// as long as the counter does not reach the end of its range.
pub proof fn lemma_successive_requests_count_up(
    dialog: DialogView,
    first: Method,
    second: Method,
    third: Method,
)
    requires
        dialog.seq + 2 <= u32::MAX,
    ensures
        header_value(dialog.headers(first), HeaderKind::CSeq) == Some(
            cseq_text(dialog.seq, first.spec_name()),
        ),
        header_value(dialog.advanced().headers(second), HeaderKind::CSeq) == Some(
            cseq_text((dialog.seq + 1) as u32, second.spec_name()),
        ),
        header_value(dialog.advanced().advanced().headers(third), HeaderKind::CSeq) == Some(
            cseq_text((dialog.seq + 2) as u32, third.spec_name()),
        ),
        dialog.advanced().call_id == dialog.call_id,
        dialog.advanced().advanced().call_id == dialog.call_id,
{
    lemma_dialog_headers(dialog, first);
    lemma_dialog_headers(dialog.advanced(), second);
    lemma_dialog_headers(dialog.advanced().advanced(), third);
}

/// Among the headers that a dialog gives a request, each is found under
/// its name: the CSeq header holds the dialog's sequence number and the
/// method, and the Call-ID header holds the dialog's Call-ID.
pub proof fn lemma_dialog_headers(dialog: DialogView, method: Method)
    ensures
        header_value(dialog.headers(method), HeaderKind::Via) == Some(
            via_text("WSS"@, dialog.send_by),
        ),
        header_value(dialog.headers(method), HeaderKind::To) == Some(
            to_text(dialog.user, dialog.domain),
        ),
        header_value(dialog.headers(method), HeaderKind::From) == Some(
            from_text(dialog.user, dialog.domain),
        ),
        header_value(dialog.headers(method), HeaderKind::CSeq) == Some(
            cseq_text(dialog.seq, method.spec_name()),
        ),
        header_value(dialog.headers(method), HeaderKind::CallId) == Some(dialog.call_id),
{
    lemma_known_names();
    reveal_with_fuel(header_position, 6);
}

/// Every request of a dialog is sent by the placeholder host over the
/// secure WebSocket transport, and is from and to the local identity
/// `sip:user@domain`.
pub proof fn lemma_requests_name_the_local_identity(dialog: DialogView, method: Method)
    ensures
        header_value(dialog.headers(method), HeaderKind::Via) == Some(
            "SIP/2.0/WSS "@ + host_text(dialog.send_by),
        ),
        header_value(dialog.headers(method), HeaderKind::To) == Some(
            "<sip:"@ + dialog.user + "@"@ + host_text(dialog.domain) + ">"@,
        ),
        header_value(dialog.headers(method), HeaderKind::From) == Some(
            "<sip:"@ + dialog.user + "@"@ + host_text(dialog.domain) + ">"@,
        ),
{
    lemma_dialog_headers(dialog, method);
    reveal_strlit("SIP/2.0/WSS ");
    reveal_strlit("SIP/2.0/");
    reveal_strlit("WSS");
    reveal_strlit(" ");
    assert("SIP/2.0/"@ + "WSS"@ + " "@ + host_text(dialog.send_by) =~= "SIP/2.0/WSS "@ + host_text(
        dialog.send_by,
    ));
}

} // verus!
