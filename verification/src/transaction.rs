//! The two handles of a transaction: the server's side, which answers an
//! inbound request, and the client's side, which waits for the final
//! response to an outbound one.

use vstd::prelude::*;
use crate::connection::Connection;
use crate::key::{TransactionKey, request_key};
use crate::message::{
    Header, HeaderKind, HeaderView, Request, RequestView, Response, ResponseView, StatusCode,
    StatusCodeView, header_views, user_agent_header,
};
use crate::registry::ChannelId;

verus! {

/// Whether a header of this kind ties a response to its request: Via, From,
/// To, CSeq and Call-ID do.
pub open spec fn is_correlation(kind: HeaderKind) -> bool {
    kind == HeaderKind::Via || kind == HeaderKind::From || kind == HeaderKind::To || kind
        == HeaderKind::CSeq || kind == HeaderKind::CallId
}

/// The correlation headers among `headers`, in their order.
pub open spec fn correlation_headers(headers: Seq<HeaderView>) -> Seq<HeaderView> {
    headers.filter(|h: HeaderView| is_correlation(h.kind()))
}

/// The headers that a response to `request` starts with: the request's
/// correlation headers, then the client's User-Agent.
pub open spec fn response_headers(request: RequestView) -> Seq<HeaderView> {
    correlation_headers(request.headers).push(user_agent_header())
}

/// A transaction as seen from the server: the participant that received the
/// request.
#[derive(Debug)]
pub struct ServerTransaction {
    pub request: Request,
}

impl View for ServerTransaction {
    type V = RequestView;

    open spec fn view(&self) -> RequestView {
        self.request@
    }
}

/// A response in the making.
#[derive(Debug)]
pub struct ResponseBuilder {
    status_code: StatusCode,
    headers: Vec<Header>,
}

/// The mathematical model of `ResponseBuilder`.
pub struct ResponseBuilderView {
    pub status_code: StatusCodeView,
    pub headers: Seq<HeaderView>,
}

impl View for ResponseBuilder {
    type V = ResponseBuilderView;

    closed spec fn view(&self) -> ResponseBuilderView {
        ResponseBuilderView { status_code: self.status_code@, headers: header_views(self.headers@) }
    }
}

fn copy_correlation_headers(headers: &Vec<Header>) -> (copy: Vec<Header>)
    ensures
        header_views(copy@) == correlation_headers(header_views(headers@)),
{
    let ghost views = header_views(headers@);
    let ghost keep = |h: HeaderView| is_correlation(h.kind());
    let mut copy: Vec<Header> = Vec::new();
    let mut i: usize = 0;
    proof {
        reveal(Seq::filter);
    }
    while i < headers.len()
        invariant
            i <= headers.len(),
            views == header_views(headers@),
            keep == |h: HeaderView| is_correlation(h.kind()),
            header_views(copy@) == views.subrange(0, i as int).filter(keep),
        decreases headers.len() - i,
    {
        let kind = headers[i].kind();
        let correlates = match kind {
            HeaderKind::Via => true,
            HeaderKind::From => true,
            HeaderKind::To => true,
            HeaderKind::CSeq => true,
            HeaderKind::CallId => true,
            _ => false,
        };
        if correlates {
            copy.push(headers[i].clone());
        }
        proof {
            let next = views.subrange(0, i + 1);
            assert(next.drop_last() =~= views.subrange(0, i as int));
            reveal(Seq::filter);
        }
        i += 1;
    }
    proof {
        assert(views.subrange(0, i as int) =~= views);
    }
    copy
}

impl ServerTransaction {
    /// The server's side of the transaction that `request` opens.
    pub fn new(request: Request) -> (transaction: ServerTransaction)
        ensures
            transaction.request == request,
    {
        ServerTransaction { request }
    }

    /// Starts a response with the given status: it carries the request's
    /// Via, From, To, CSeq and Call-ID headers, in the request's order, then
    /// the client's User-Agent, and no other header of the request.
    pub fn respond(&mut self, status_code: StatusCode) -> (builder: ResponseBuilder)
        ensures
            *final(self) == *old(self),
            builder@ == (ResponseBuilderView {
                status_code: status_code@,
                headers: response_headers(old(self)@),
            }),
    {
        let mut headers = copy_correlation_headers(&self.request.headers);
        let ghost before = header_views(headers@);
        headers.push(Header::user_agent());
        assert(header_views(headers@) =~= before.push(user_agent_header()));
        ResponseBuilder { status_code, headers }
    }
}

impl ResponseBuilder {
    /// Appends a header.
    pub fn header(self, header: Header) -> (builder: ResponseBuilder)
        ensures
            builder@ == (ResponseBuilderView {
                status_code: self@.status_code,
                headers: self@.headers.push(header@),
            }),
    {
        let mut headers = self.headers;
        let ghost before = header_views(headers@);
        headers.push(header);
        assert(header_views(headers@) =~= before.push(header@));
        ResponseBuilder { status_code: self.status_code, headers }
    }

    /// Finishes the response with the given body. The response is then
    /// handed to the multiplexer, which writes it to the transport.
    pub fn send(self, body: Vec<u8>) -> (response: Response)
        ensures
            response@ == (ResponseView {
                status_code: self@.status_code,
                headers: self@.headers,
                body: body@,
            }),
    {
        Response { status_code: self.status_code, headers: self.headers, body }
    }
}

/// A header is kept exactly when it is a correlation header of the list.
pub proof fn lemma_correlation_headers(headers: Seq<HeaderView>, header: HeaderView)
    ensures
        correlation_headers(headers).contains(header) <==> (headers.contains(header)
            && is_correlation(header.kind())),
    decreases headers.len(),
{
    reveal(Seq::filter);
    if headers.len() > 0 {
        lemma_correlation_headers(headers.drop_last(), header);
    }
}

/// A response carries the correlation headers of its request and the
/// client's User-Agent, and nothing else: the last header is the
/// User-Agent, and a header stands before it exactly when it is a Via,
/// From, To, CSeq or Call-ID header of the request.
pub proof fn lemma_response_carries_the_correlation_headers_only(
    request: RequestView,
    header: HeaderView,
)
    ensures
        response_headers(request).last() == user_agent_header(),
        response_headers(request).drop_last() == correlation_headers(request.headers),
        response_headers(request).drop_last().contains(header) <==> (request.headers.contains(
            header,
        ) && is_correlation(header.kind())),
{
    lemma_correlation_headers(request.headers, header);
}

/// Why a client transaction ended without a final response.
#[derive(Clone, Copy, Debug, PartialEq, Eq, Structural)]
pub enum TransactionError {
    /// The channel closed before a final response arrived.
    Closed,
}

/// A transaction as seen from the client: the participant that sent the
/// request.
#[derive(Debug)]
pub struct ClientTransaction {
    request: Request,
    channel: ChannelId,
}

/// The mathematical model of `ClientTransaction`.
pub struct ClientTransactionView {
    pub request: RequestView,
    pub channel: u64,
}

impl View for ClientTransaction {
    type V = ClientTransactionView;

    closed spec fn view(&self) -> ClientTransactionView {
        ClientTransactionView { request: self.request@, channel: self.channel }
    }
}

/// Index of the first response at or after `from` that is not provisional,
/// or the length of the list when there is none.
pub open spec fn final_position(responses: Seq<ResponseView>, from: int) -> int
    decreases responses.len() - from,
{
    if from < 0 || from >= responses.len() {
        responses.len() as int
    } else if !(100 <= responses[from].status_code.code < 200) {
        from
    } else {
        final_position(responses, from + 1)
    }
}

/// What waiting on a channel yields: the first response that is not
/// provisional, or the closing of the channel where there is none.
pub open spec fn received(responses: Seq<ResponseView>) -> Result<ResponseView, TransactionError> {
    let at = final_position(responses, 0);
    if at < responses.len() {
        Ok(responses[at])
    } else {
        Err(TransactionError::Closed)
    }
}

/// The views of a list of responses, in order.
pub open spec fn response_views(responses: Seq<Response>) -> Seq<ResponseView> {
    responses.map_values(|r: Response| r@)
}

/// The view of what a wait handed back.
pub open spec fn outcome_view(outcome: Result<Response, TransactionError>) -> Result<
    ResponseView,
    TransactionError,
> {
    match outcome {
        Ok(response) => Ok(response@),
        Err(error) => Err(error),
    }
}

impl ClientTransaction {
    pub(crate) fn new(request: Request, channel: ChannelId) -> (transaction: ClientTransaction)
        ensures
            transaction@ == (ClientTransactionView { request: request@, channel }),
    {
        ClientTransaction { request, channel }
    }

    /// The request that opened the transaction.
    pub fn request(&self) -> (request: &Request)
        ensures
            request@ == self@.request,
    {
        &self.request
    }

    /// The channel on which the responses arrive.
    pub fn channel(&self) -> (channel: ChannelId)
        ensures
            channel == self@.channel,
    {
        self.channel
    }

    /// The key under which the transaction is registered.
    pub fn key(&self) -> (key: TransactionKey)
        ensures
            key@ == request_key(self@.request),
    {
        TransactionKey::from_request(&self.request)
    }

    /// One step of the wait: a provisional response is dropped and the wait
    /// goes on (`None`); any other response ends it.
    pub fn accept(&self, response: Response) -> (done: Option<Response>)
        ensures
            (100 <= response@.status_code.code < 200) <==> done is None,
            done matches Some(r) ==> r@ == response@,
    {
        if response.status_code.is_provisional() {
            None
        } else {
            Some(response)
        }
    }

    /// Waits for the final response, given everything that arrived on the
    /// channel before it closed: provisional responses are skipped, and the
    /// first other response is returned. Fails where the channel closed
    /// without one.
    pub fn receive(self, responses: Vec<Response>) -> (outcome: Result<Response, TransactionError>)
        ensures
            outcome_view(outcome) == received(response_views(responses@)),
            outcome matches Ok(r) ==> !(100 <= r@.status_code.code < 200),
    {
        let ghost views = response_views(responses@);
        let mut i: usize = 0;
        while i < responses.len()
            invariant
                i <= responses.len(),
                views == response_views(responses@),
                final_position(views, 0) == final_position(views, i as int),
            decreases responses.len() - i,
        {
            if !responses[i].status_code.is_provisional() {
                return Ok(responses[i].clone());
            }
            i += 1;
        }
        Err(TransactionError::Closed)
    }

    /// Abandons the transaction: its key leaves the registry of the
    /// connection, so that a late response is unmatched. Where the
    /// connection is gone already (`None`), nothing is done.
    pub fn close(self, connection: Option<&mut Connection>)
        ensures
            connection matches Some(c) ==> final(c)@ == c@.with_routes(
                c@.routes.remove(request_key(self@.request)),
                c@.next_channel,
            ) && (c@.wf() ==> final(c)@.wf()),
    {
        match connection {
            Some(c) => {
                let key = self.key();
                c.deregister(&key);
            },
            None => {},
        }
    }
}

} // verus!
