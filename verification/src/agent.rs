//! How the client answers the requests that reach it: OPTIONS and CANCEL
//! are accepted, an INVITE is acknowledged and rung, and every other
//! method is left without an answer. Beside the answers stands what the
//! user is to be told: a call that comes in, and a call that was taken
//! back.

use vstd::prelude::*;
use crate::message::{
    HeaderKind, Method, Request, RequestView, Response, ResponseView, StatusCode,
    StatusCodeView, find_header, header_value,
};
use crate::sip::{cseq_number, cseq_number_of, from_display_name, from_display_name_of};
use crate::transaction::{ServerTransaction, response_headers, response_views};

verus! {

/// The statuses that the client answers a request of `method` with, in the
/// order in which they are sent.
pub open spec fn answer_statuses(method: Method) -> Seq<StatusCodeView> {
    match method {
        Method::Options => seq![StatusCodeView { code: 202, reason: "Accepted"@ }],
        Method::Invite => seq![
            StatusCodeView { code: 100, reason: "Trying"@ },
            StatusCodeView { code: 180, reason: "Ringing"@ },
        ],
        Method::Cancel => seq![StatusCodeView { code: 202, reason: "Accepted"@ }],
        _ => Seq::empty(),
    }
}

/// The response to `request` with the given status: the request's
/// correlation headers, the client's User-Agent, and no body.
pub open spec fn answer_with(request: RequestView, status_code: StatusCodeView) -> ResponseView {
    ResponseView { status_code, headers: response_headers(request), body: Seq::empty() }
}

/// The responses that the client sends to `request`, in order.
pub open spec fn answers(request: RequestView) -> Seq<ResponseView> {
    answer_statuses(request.method).map_values(
        |status_code: StatusCodeView| answer_with(request, status_code),
    )
}

fn respond_with(transaction: &mut ServerTransaction, status_code: StatusCode) -> (response: Response)
    ensures
        *final(transaction) == *old(transaction),
        response@ == answer_with(old(transaction)@, status_code@),
{
    transaction.respond(status_code).send(Vec::new())
}

/// Answers an inbound request: hands back the responses that go out on its
/// transaction, in the order in which they are to be sent.
pub fn answer(transaction: &mut ServerTransaction) -> (responses: Vec<Response>)
    ensures
        *final(transaction) == *old(transaction),
        response_views(responses@) == answers(old(transaction)@),
{
    let mut responses: Vec<Response> = Vec::new();
    match transaction.request.method {
        Method::Options => {
            responses.push(respond_with(transaction, StatusCode::accepted()));
        },
        Method::Invite => {
            responses.push(respond_with(transaction, StatusCode::trying()));
            responses.push(respond_with(transaction, StatusCode::ringing()));
        },
        Method::Cancel => {
            responses.push(respond_with(transaction, StatusCode::accepted()));
        },
        _ => {},
    }
    responses
}

/// Why a request cannot be read.
#[derive(Clone, Copy, Debug, PartialEq, Eq, Structural)]
pub enum HeaderError {
    /// The request has no header of this kind.
    Missing(HeaderKind),
    /// The header of this kind does not parse.
    Invalid(HeaderKind),
}

/// What the user is to be told about a request.
#[derive(Debug)]
pub enum Notice {
    /// A call comes in: show it under `id`, with the caller's name.
    Incoming { id: u32, caller: String },
    /// The call shown under `id` was taken back: close it.
    Cancelled { id: u32 },
    /// Nothing.
    Nothing,
}

/// The mathematical model of `Notice`.
pub enum NoticeView {
    Incoming { id: u32, caller: Seq<char> },
    Cancelled { id: u32 },
    Nothing,
}

impl View for Notice {
    type V = NoticeView;

    open spec fn view(&self) -> NoticeView {
        match self {
            Notice::Incoming { id, caller } => NoticeView::Incoming { id: *id, caller: caller@ },
            Notice::Cancelled { id } => NoticeView::Cancelled { id: *id },
            Notice::Nothing => NoticeView::Nothing,
        }
    }
}

/// The view of a notice or the error in its place.
pub open spec fn notice_view(outcome: Result<Notice, HeaderError>) -> Result<
    NoticeView,
    HeaderError,
> {
    match outcome {
        Ok(notice) => Ok(notice@),
        Err(error) => Err(error),
    }
}

/// The name under which a caller is shown: the display name of the From
/// header, or `Unknown` where it has none.
pub open spec fn caller_label(name: Option<Seq<char>>) -> Seq<char> {
    match name {
        Some(n) => n,
        None => "Unknown"@,
    }
}

/// The notice for an INVITE: the call is shown under the number of its
/// CSeq. A missing header is reported before an invalid one, and From
/// before CSeq.
pub open spec fn incoming_notice(request: RequestView) -> Result<NoticeView, HeaderError> {
    match (
        header_value(request.headers, HeaderKind::From),
        header_value(request.headers, HeaderKind::CSeq),
    ) {
        (None, _) => Err(HeaderError::Missing(HeaderKind::From)),
        (Some(_), None) => Err(HeaderError::Missing(HeaderKind::CSeq)),
        (Some(from), Some(cseq)) => match (from_display_name_of(from), cseq_number_of(cseq)) {
            (None, _) => Err(HeaderError::Invalid(HeaderKind::From)),
            (Some(_), None) => Err(HeaderError::Invalid(HeaderKind::CSeq)),
            (Some(name), Some(id)) => Ok(NoticeView::Incoming { id, caller: caller_label(name) }),
        },
    }
}

/// The notice for a CANCEL: the call shown under the number of its CSeq is
/// closed.
pub open spec fn cancelled_notice(request: RequestView) -> Result<NoticeView, HeaderError> {
    match header_value(request.headers, HeaderKind::CSeq) {
        None => Err(HeaderError::Missing(HeaderKind::CSeq)),
        Some(cseq) => match cseq_number_of(cseq) {
            None => Err(HeaderError::Invalid(HeaderKind::CSeq)),
            Some(id) => Ok(NoticeView::Cancelled { id }),
        },
    }
}

/// What the user is to be told about `request`.
pub open spec fn notice_for(request: RequestView) -> Result<NoticeView, HeaderError> {
    match request.method {
        Method::Invite => incoming_notice(request),
        Method::Cancel => cancelled_notice(request),
        _ => Ok(NoticeView::Nothing),
    }
}

/// Decides what the user is to be told about an inbound request.
pub fn notice(request: &Request) -> (outcome: Result<Notice, HeaderError>)
    ensures
        notice_view(outcome) == notice_for(request@),
{
    match request.method {
        Method::Invite => {
            let from = match find_header(&request.headers, HeaderKind::From) {
                Some(header) => header,
                None => {
                    return Err(HeaderError::Missing(HeaderKind::From));
                },
            };
            let cseq = match find_header(&request.headers, HeaderKind::CSeq) {
                Some(header) => header,
                None => {
                    return Err(HeaderError::Missing(HeaderKind::CSeq));
                },
            };
            let name = match from_display_name(from.value.as_str()) {
                Some(name) => name,
                None => {
                    return Err(HeaderError::Invalid(HeaderKind::From));
                },
            };
            let id = match cseq_number(cseq.value.as_str()) {
                Some(id) => id,
                None => {
                    return Err(HeaderError::Invalid(HeaderKind::CSeq));
                },
            };
            let caller = match name {
                Some(n) => n,
                None => "Unknown".to_owned(),
            };
            Ok(Notice::Incoming { id, caller })
        },
        Method::Cancel => {
            let cseq = match find_header(&request.headers, HeaderKind::CSeq) {
                Some(header) => header,
                None => {
                    return Err(HeaderError::Missing(HeaderKind::CSeq));
                },
            };
            match cseq_number(cseq.value.as_str()) {
                Some(id) => Ok(Notice::Cancelled { id }),
                None => Err(HeaderError::Invalid(HeaderKind::CSeq)),
            }
        },
        _ => Ok(Notice::Nothing),
    }
}

} // verus!
