//! The transaction key: the identity that ties every response to the
//! request it answers.

use vstd::prelude::*;
use vstd::std_specs::cmp::PartialEqSpecImpl;
use crate::message::{
    Header, HeaderKind, HeaderView, Request, RequestView, Response, ResponseView, find_header,
    header_value, header_views,
};
use crate::sip::{cseq_method, cseq_method_of, option_view, via_branch, via_branch_of};

verus! {

/// Method, Call-ID and Via branch of a transaction.
#[derive(Debug, Hash)]
pub struct TransactionKey {
    pub method: String,
    pub call_id: Option<String>,
    pub branch: Option<String>,
}

/// The mathematical model of `TransactionKey`.
pub struct TransactionKeyView {
    pub method: Seq<char>,
    pub call_id: Option<Seq<char>>,
    pub branch: Option<Seq<char>>,
}

impl View for TransactionKey {
    type V = TransactionKeyView;

    open spec fn view(&self) -> TransactionKeyView {
        TransactionKeyView {
            method: self.method@,
            call_id: option_view(self.call_id),
            branch: option_view(self.branch),
        }
    }
}

/// The value of the Call-ID header, if the message has one.
pub open spec fn call_id_of(headers: Seq<HeaderView>) -> Option<Seq<char>> {
    header_value(headers, HeaderKind::CallId)
}

/// The branch parameter of the topmost Via header, if the message has one
/// that parses and carries a branch.
pub open spec fn branch_of(headers: Seq<HeaderView>) -> Option<Seq<char>> {
    match header_value(headers, HeaderKind::Via) {
        Some(value) => via_branch_of(value),
        None => None,
    }
}

/// The method named in the CSeq header; the empty text where the header is
/// absent or does not parse.
pub open spec fn cseq_method_name(headers: Seq<HeaderView>) -> Seq<char> {
    match header_value(headers, HeaderKind::CSeq) {
        Some(value) => match cseq_method_of(value) {
            Some(method) => method,
            None => Seq::empty(),
        },
        None => Seq::empty(),
    }
}

/// The key of the transaction that a request opens.
pub open spec fn request_key(request: RequestView) -> TransactionKeyView {
    TransactionKeyView {
        method: request.method.spec_name(),
        call_id: call_id_of(request.headers),
        branch: branch_of(request.headers),
    }
}

/// The key of the transaction that a response belongs to.
pub open spec fn response_key(response: ResponseView) -> TransactionKeyView {
    TransactionKeyView {
        method: cseq_method_name(response.headers),
        call_id: call_id_of(response.headers),
        branch: branch_of(response.headers),
    }
}

fn call_id(headers: &Vec<Header>) -> (id: Option<String>)
    ensures
        option_view(id) == call_id_of(header_views(headers@)),
{
    match find_header(headers, HeaderKind::CallId) {
        Some(header) => Some(header.value.clone()),
        None => None,
    }
}

fn branch(headers: &Vec<Header>) -> (branch: Option<String>)
    ensures
        option_view(branch) == branch_of(header_views(headers@)),
{
    match find_header(headers, HeaderKind::Via) {
        Some(header) => via_branch(header.value.as_str()),
        None => None,
    }
}

fn same_text(a: &Option<String>, b: &Option<String>) -> (same: bool)
    ensures
        same == (option_view(*a) == option_view(*b)),
{
    match (a, b) {
        (Some(x), Some(y)) => *x == *y,
        (None, None) => true,
        _ => false,
    }
}

fn clone_text(text: &Option<String>) -> (copy: Option<String>)
    ensures
        option_view(copy) == option_view(*text),
{
    match text {
        Some(t) => Some(t.clone()),
        None => None,
    }
}

impl TransactionKey {
    /// The key of a request: its method, its Call-ID and the branch of its
    /// topmost Via.
    pub fn from_request(request: &Request) -> (key: TransactionKey)
        ensures
            key@ == request_key(request@),
    {
        TransactionKey {
            method: request.method.name().to_owned(),
            call_id: call_id(&request.headers),
            branch: branch(&request.headers),
        }
    }

    /// The key of a response: the method that its CSeq names, its Call-ID
    /// and the branch of its topmost Via.
    pub fn from_response(response: &Response) -> (key: TransactionKey)
        ensures
            key@ == response_key(response@),
    {
        let method = match find_header(&response.headers, HeaderKind::CSeq) {
            Some(header) => match cseq_method(header.value.as_str()) {
                Some(method) => method,
                None => String::new(),
            },
            None => String::new(),
        };
        TransactionKey {
            method,
            call_id: call_id(&response.headers),
            branch: branch(&response.headers),
        }
    }
}

impl Clone for TransactionKey {
    fn clone(&self) -> (copy: TransactionKey)
        ensures
            copy@ == self@,
    {
        TransactionKey {
            method: self.method.clone(),
            call_id: clone_text(&self.call_id),
            branch: clone_text(&self.branch),
        }
    }
}

impl PartialEq for TransactionKey {
    /// Two keys are equal when method, Call-ID and branch are.
    fn eq(&self, other: &TransactionKey) -> (equal: bool) {
        self.method == other.method && same_text(&self.call_id, &other.call_id) && same_text(
            &self.branch,
            &other.branch,
        )
    }
}

impl PartialEqSpecImpl for TransactionKey {
    open spec fn obeys_eq_spec() -> bool {
        true
    }

    open spec fn eq_spec(&self, other: &TransactionKey) -> bool {
        self@ == other@
    }
}

impl Eq for TransactionKey {

}

/// A response that names the request's method in its CSeq, and carries the
/// request's Call-ID and the request's Via branch, has the request's key.
pub proof fn lemma_response_shares_request_key(request: RequestView, response: ResponseView)
    requires
        cseq_method_name(response.headers) == request.method.spec_name(),
        call_id_of(response.headers) == call_id_of(request.headers),
        branch_of(response.headers) == branch_of(request.headers),
    ensures
        response_key(response) == request_key(request),
{
}

/// Two keys are equal exactly when method, Call-ID and branch are equal.
pub proof fn lemma_key_equality(a: TransactionKeyView, b: TransactionKeyView)
    ensures
        a == b <==> (a.method == b.method && a.call_id == b.call_id && a.branch == b.branch),
{
}

} // verus!
