//! Frames to messages and back. Parsing and formatting are the SIP
//! library's work; what is verified here is how its plain results become
//! the message model, and what is handed to it on the way out.

use vstd::prelude::*;
use crate::message::{
    Header, HeaderView, Message, MessageView, Method, Request, RequestView, Response,
    ResponseView, StatusCode, StatusCodeView, header_of_line, header_views,
};
use crate::sip::{
    Parsed, ParsedView, Start, StartView, line_views, parse_frame, parsed_frame,
    render_request, render_response, request_text, response_text,
};
use crate::text::{find, position};

verus! {

/// Why a frame is no message.
#[derive(Clone, Copy, Debug, PartialEq, Eq, Structural)]
pub enum DecodeError {
    /// The text is not a well-formed SIP message.
    Malformed,
    /// The request names a method outside the message model.
    UnknownMethod,
}

/// The reason phrase of a status text `code reason`: what follows the first
/// space, or nothing where there is no space.
pub open spec fn reason_of_status(status: Seq<char>) -> Seq<char> {
    let space = position(status, ' ', 0);
    if space < status.len() {
        status.subrange(space + 1, status.len() as int)
    } else {
        Seq::empty()
    }
}

/// The headers that a list of header lines stands for.
pub open spec fn headers_of_lines(lines: Seq<Seq<char>>) -> Seq<HeaderView> {
    lines.map_values(|line: Seq<char>| header_of_line(line))
}

/// The message that a parsed frame stands for.
pub open spec fn message_of(parsed: ParsedView) -> Result<MessageView, DecodeError> {
    match parsed.start {
        StartView::Request { method, uri } => match Method::spec_from_name(method) {
            Some(m) => Ok(
                MessageView::Request(
                    RequestView {
                        method: m,
                        uri,
                        headers: headers_of_lines(parsed.lines),
                        body: parsed.body,
                    },
                ),
            ),
            None => Err(DecodeError::UnknownMethod),
        },
        StartView::Response { code, status } => Ok(
            MessageView::Response(
                ResponseView {
                    status_code: StatusCodeView { code, reason: reason_of_status(status) },
                    headers: headers_of_lines(parsed.lines),
                    body: parsed.body,
                },
            ),
        ),
    }
}

/// The message that a frame's text stands for.
pub open spec fn decoded(text: Seq<char>) -> Result<MessageView, DecodeError> {
    match parsed_frame(text) {
        Some(parsed) => message_of(parsed),
        None => Err(DecodeError::Malformed),
    }
}

/// The view of a decoding result.
pub open spec fn result_view(result: Result<Message, DecodeError>) -> Result<
    MessageView,
    DecodeError,
> {
    match result {
        Ok(message) => Ok(message@),
        Err(error) => Err(error),
    }
}

/// The wire text of a request.
pub open spec fn encoded_request(request: RequestView) -> Seq<char> {
    request_text(request.method.spec_name(), request.uri, request.headers, request.body)
}

/// The wire text of a response.
pub open spec fn encoded_response(response: ResponseView) -> Seq<char> {
    response_text(
        response.status_code.code,
        response.status_code.reason,
        response.headers,
        response.body,
    )
}

fn reason_phrase(status: &str) -> (reason: String)
    ensures
        reason@ == reason_of_status(status@),
{
    let n = status.unicode_len();
    let space = find(status, ' ');
    if space < n {
        status.substring_char(space + 1, n).to_owned()
    } else {
        String::new()
    }
}

fn headers_from_lines(lines: &Vec<String>) -> (headers: Vec<Header>)
    ensures
        header_views(headers@) == headers_of_lines(line_views(lines@)),
{
    let mut headers: Vec<Header> = Vec::new();
    let mut i: usize = 0;
    while i < lines.len()
        invariant
            i <= lines.len(),
            headers.len() == i,
            forall|j: int| 0 <= j < i ==> (#[trigger] headers@[j])@ == header_of_line(lines@[j]@),
        decreases lines.len() - i,
    {
        headers.push(Header::from_line(lines[i].as_str()));
        i += 1;
    }
    headers
}

/// Turns a parsed frame into a message.
pub fn assemble(parsed: Parsed) -> (message: Result<Message, DecodeError>)
    ensures
        result_view(message) == message_of(parsed@),
{
    let headers = headers_from_lines(&parsed.lines);
    match parsed.start {
        Start::Request { method, uri } => match Method::from_name(method.as_str()) {
            Some(m) => Ok(Message::Request(Request { method: m, uri, headers, body: parsed.body })),
            None => Err(DecodeError::UnknownMethod),
        },
        Start::Response { code, status } => {
            let reason = reason_phrase(status.as_str());
            Ok(
                Message::Response(
                    Response { status_code: StatusCode { code, reason }, headers, body: parsed.body },
                ),
            )
        },
    }
}

/// Parses the text of one frame as a message.
pub fn decode(text: &str) -> (message: Result<Message, DecodeError>)
    ensures
        result_view(message) == decoded(text@),
{
    match parse_frame(text) {
        Some(parsed) => assemble(parsed),
        None => Err(DecodeError::Malformed),
    }
}

/// Writes a request as the text of one frame.
pub fn encode_request(request: &Request) -> (text: String)
    ensures
        text@ == encoded_request(request@),
{
    render_request(request.method.name(), request.uri.as_str(), &request.headers, &request.body)
}

/// Writes a response as the text of one frame.
pub fn encode_response(response: &Response) -> (text: String)
    ensures
        text@ == encoded_response(response@),
{
    render_response(
        response.status_code.code,
        response.status_code.reason.as_str(),
        &response.headers,
        &response.body,
    )
}

} // verus!
