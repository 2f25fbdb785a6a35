//! The calls into the `url` crate. Each contract gives the outcome a name
//! and claims only that it is a function of the arguments.

use vstd::prelude::*;

verus! {

/// The domain name that is the host of a URL; `None` where the text is no
/// URL, or its host is an address or absent.
pub uninterp spec fn url_domain_of(url: Seq<char>) -> Option<Seq<char>>;

/// The path of a URL; `None` where the text is no URL.
pub uninterp spec fn url_path_of(url: Seq<char>) -> Option<Seq<char>>;

/// The URL with its path replaced; `None` where the text is no URL.
pub uninterp spec fn url_with_path_of(url: Seq<char>, path: Seq<char>) -> Option<Seq<char>>;

/// The URL that a reference stands for, relative to a base; `None` where
/// the base is no URL or the reference cannot be resolved.
pub uninterp spec fn url_join_of(base: Seq<char>, reference: Seq<char>) -> Option<Seq<char>>;

/// `url::Url::parse` and `url::Url::domain`: the domain of a URL. Claims
/// only that the outcome is a function of the text.
#[verifier::external_body]
pub(crate) fn url_domain(url: &str) -> (domain: Option<String>)
    ensures
        domain matches Some(d) ==> url_domain_of(url@) == Some(d@),
        domain is None ==> url_domain_of(url@) is None,
{
    url::Url::parse(url).ok()?.domain().map(|domain| domain.to_string())
}

/// `url::Url::parse` and `url::Url::path`: the path of a URL. Claims only
/// that the outcome is a function of the text.
#[verifier::external_body]
pub(crate) fn url_path(url: &str) -> (path: Option<String>)
    ensures
        path matches Some(p) ==> url_path_of(url@) == Some(p@),
        path is None ==> url_path_of(url@) is None,
{
    Some(url::Url::parse(url).ok()?.path().to_string())
}

/// `url::Url::parse` and `url::Url::set_path`: the URL with another path.
/// Claims only that the outcome is a function of the arguments.
#[verifier::external_body]
pub(crate) fn url_with_path(url: &str, path: &str) -> (changed: Option<String>)
    ensures
        changed matches Some(u) ==> url_with_path_of(url@, path@) == Some(u@),
        changed is None ==> url_with_path_of(url@, path@) is None,
{
    let mut parsed = url::Url::parse(url).ok()?;
    parsed.set_path(path);
    Some(parsed.to_string())
}

/// `url::Url::parse` and `url::Url::join`: resolves a reference against a
/// base. Claims only that the outcome is a function of the arguments.
#[verifier::external_body]
pub(crate) fn url_join(base: &str, reference: &str) -> (joined: Option<String>)
    ensures
        joined matches Some(u) ==> url_join_of(base@, reference@) == Some(u@),
        joined is None ==> url_join_of(base@, reference@) is None,
{
    Some(url::Url::parse(base).ok()?.join(reference).ok()?.to_string())
}

} // verus!
