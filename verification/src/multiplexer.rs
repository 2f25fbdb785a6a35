//! The multiplexer's decisions. One task owns the transport; whatever
//! happens to it arrives here as an event, and what the task has to do next
//! leaves as an action. The state that the decisions read is the
//! connection's registry.

use vstd::prelude::*;
use crate::codec::{
    DecodeError, decode, decoded, encode_request, encode_response, encoded_request,
    encoded_response,
};
use crate::connection::Connection;
use crate::key::{TransactionKeyView, branch_of, call_id_of, cseq_method_name, request_key};
use crate::message::{Message, MessageView, Request, RequestView, Response, ResponseView};
use crate::registry::{
    ChannelId, lemma_deregistered_response_is_unmatched, lemma_registered_response_is_routed,
    routed,
};
use crate::transaction::ServerTransaction;

verus! {

/// A frame of the transport.
#[derive(Debug)]
pub enum Frame {
    Text(String),
    Binary(Vec<u8>),
    Ping(Vec<u8>),
    Pong(Vec<u8>),
    Close,
}

/// The mathematical model of `Frame`.
pub enum FrameView {
    Text(Seq<char>),
    Binary(Seq<u8>),
    Ping(Seq<u8>),
    Pong(Seq<u8>),
    Close,
}

impl View for Frame {
    type V = FrameView;

    open spec fn view(&self) -> FrameView {
        match self {
            Frame::Text(text) => FrameView::Text(text@),
            Frame::Binary(bytes) => FrameView::Binary(bytes@),
            Frame::Ping(payload) => FrameView::Ping(payload@),
            Frame::Pong(payload) => FrameView::Pong(payload@),
            Frame::Close => FrameView::Close,
        }
    }
}

/// What can happen to the multiplexer.
#[derive(Debug)]
pub enum Event {
    /// A frame arrived from the transport.
    Frame(Frame),
    /// The transport's stream ended.
    Closed,
    /// Reading from or writing to the transport failed.
    Failed,
    /// A caller handed over a request to send.
    Request(Request),
    /// A caller handed over a response to send.
    Response(Response),
}

/// The mathematical model of `Event`.
pub enum EventView {
    Frame(FrameView),
    Closed,
    Failed,
    Request(RequestView),
    Response(ResponseView),
}

impl View for Event {
    type V = EventView;

    open spec fn view(&self) -> EventView {
        match self {
            Event::Frame(frame) => EventView::Frame(frame@),
            Event::Closed => EventView::Closed,
            Event::Failed => EventView::Failed,
            Event::Request(request) => EventView::Request(request@),
            Event::Response(response) => EventView::Response(response@),
        }
    }
}

/// Why the multiplexer gave up.
#[derive(Clone, Copy, Debug, PartialEq, Eq, Structural)]
pub enum RunError {
    /// The transport failed.
    Transport,
    /// An inbound frame was no message.
    Malformed(DecodeError),
}

/// What the multiplexer has to do next.
#[derive(Debug)]
pub enum Action {
    /// Push a new server transaction to the inbound queue.
    Deliver(ServerTransaction),
    /// Pass a response on to the channel of its client transaction.
    Forward { channel: ChannelId, response: Response },
    /// Drop a response that no pending transaction matches.
    Discard(Response),
    /// Write a frame to the transport.
    Transmit(Frame),
    /// Nothing; wait for the next event.
    Continue,
    /// End the loop: the transport was closed.
    Stop,
    /// End the loop with an error.
    Fail(RunError),
}

/// The mathematical model of `Action`.
pub enum ActionView {
    Deliver(RequestView),
    Forward { channel: u64, response: ResponseView },
    Discard(ResponseView),
    Transmit(FrameView),
    Continue,
    Stop,
    Fail(RunError),
}

impl View for Action {
    type V = ActionView;

    open spec fn view(&self) -> ActionView {
        match self {
            Action::Deliver(transaction) => ActionView::Deliver(transaction@),
            Action::Forward { channel, response } => ActionView::Forward {
                channel: *channel,
                response: response@,
            },
            Action::Discard(response) => ActionView::Discard(response@),
            Action::Transmit(frame) => ActionView::Transmit(frame@),
            Action::Continue => ActionView::Continue,
            Action::Stop => ActionView::Stop,
            Action::Fail(error) => ActionView::Fail(*error),
        }
    }
}

/// What becomes of an inbound message: a request opens a server
/// transaction; a response goes to the channel of its pending client
/// transaction, or is dropped where there is none.
pub open spec fn dispatched(routes: Map<TransactionKeyView, u64>, message: MessageView) -> ActionView {
    match message {
        MessageView::Request(request) => ActionView::Deliver(request),
        MessageView::Response(response) => match routed(routes, response) {
            Some(channel) => ActionView::Forward { channel, response },
            None => ActionView::Discard(response),
        },
    }
}

/// The multiplexer's action on an event.
pub open spec fn next_action(routes: Map<TransactionKeyView, u64>, event: EventView) -> ActionView {
    match event {
        EventView::Frame(FrameView::Text(text)) => match decoded(text) {
            Ok(message) => dispatched(routes, message),
            Err(error) => ActionView::Fail(RunError::Malformed(error)),
        },
        EventView::Frame(FrameView::Ping(payload)) => ActionView::Transmit(FrameView::Pong(payload)),
        EventView::Frame(FrameView::Close) => ActionView::Stop,
        EventView::Frame(FrameView::Binary(_)) => ActionView::Continue,
        EventView::Frame(FrameView::Pong(_)) => ActionView::Continue,
        EventView::Closed => ActionView::Stop,
        EventView::Failed => ActionView::Fail(RunError::Transport),
        EventView::Request(request) => ActionView::Transmit(
            FrameView::Text(encoded_request(request)),
        ),
        EventView::Response(response) => ActionView::Transmit(
            FrameView::Text(encoded_response(response)),
        ),
    }
}

impl Connection {
    /// Decides what becomes of an inbound message.
    pub fn on_message(&self, message: Message) -> (action: Action)
        ensures
            action@ == dispatched(self@.routes, message@),
    {
        match message {
            Message::Request(request) => Action::Deliver(ServerTransaction::new(request)),
            Message::Response(response) => match self.route(&response) {
                Some(channel) => Action::Forward { channel, response },
                None => Action::Discard(response),
            },
        }
    }

    /// One turn of the multiplexer: decides what to do on an event. A text
    /// frame is parsed and dispatched, and ends the loop with an error where
    /// it is no message; a ping is answered with the matching pong; a close
    /// frame or the end of the stream ends the loop; requests and responses
    /// handed over by callers are written as text frames; a failure of the
    /// transport ends the loop with an error.
    pub fn run(&self, event: Event) -> (action: Action)
        ensures
            action@ == next_action(self@.routes, event@),
    {
        match event {
            Event::Frame(Frame::Text(text)) => {
                let message = decode(text.as_str());
                match message {
                    Ok(message) => self.on_message(message),
                    Err(error) => Action::Fail(RunError::Malformed(error)),
                }
            },
            Event::Frame(Frame::Ping(payload)) => Action::Transmit(Frame::Pong(payload)),
            Event::Frame(Frame::Close) => Action::Stop,
            Event::Frame(Frame::Binary(_)) => Action::Continue,
            Event::Frame(Frame::Pong(_)) => Action::Continue,
            Event::Closed => Action::Stop,
            Event::Failed => Action::Fail(RunError::Transport),
            Event::Request(request) => Action::Transmit(Frame::Text(encode_request(&request))),
            Event::Response(response) => Action::Transmit(Frame::Text(encode_response(&response))),
        }
    }
}

/// No response is lost between registering and sending: once `request` is
/// registered for `channel`, a frame that holds a response to it is
/// forwarded to `channel`, whether or not the request has been written to
/// the transport.
pub proof fn lemma_response_to_registered_request_is_forwarded(
    routes: Map<TransactionKeyView, u64>,
    request: RequestView,
    channel: u64,
    text: Seq<char>,
    response: ResponseView,
)
    requires
        decoded(text) is Ok,
        decoded(text)->Ok_0 == MessageView::Response(response),
        cseq_method_name(response.headers) == request.method.spec_name(),
        call_id_of(response.headers) == call_id_of(request.headers),
        branch_of(response.headers) == branch_of(request.headers),
    ensures
        next_action(
            routes.insert(request_key(request), channel),
            EventView::Frame(FrameView::Text(text)),
        ) == (ActionView::Forward { channel, response }),
{
    lemma_registered_response_is_routed(routes, request, channel, response);
}

/// Once the transaction of `request` is abandoned, a frame that holds a
/// response to it is dropped and goes to nobody.
pub proof fn lemma_response_to_abandoned_request_is_discarded(
    routes: Map<TransactionKeyView, u64>,
    request: RequestView,
    text: Seq<char>,
    response: ResponseView,
)
    requires
        decoded(text) is Ok,
        decoded(text)->Ok_0 == MessageView::Response(response),
        cseq_method_name(response.headers) == request.method.spec_name(),
        call_id_of(response.headers) == call_id_of(request.headers),
        branch_of(response.headers) == branch_of(request.headers),
    ensures
        next_action(routes.remove(request_key(request)), EventView::Frame(FrameView::Text(text)))
            == ActionView::Discard(response),
{
    crate::key::lemma_response_shares_request_key(request, response);
    lemma_deregistered_response_is_unmatched(routes, request_key(request), response);
}

} // verus!
