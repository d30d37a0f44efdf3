//! Resolving a URL reference against a base URL.

use vstd::prelude::*;

verus! {

/// The serialised URL obtained by parsing `base` as an absolute URL and
/// resolving `reference` against it, or `None` where either step fails.
pub uninterp spec fn joined_url(base: Seq<char>, reference: Seq<char>) -> Option<Seq<char>>;

/// The view of an optional string.
pub open spec fn opt_view(s: Option<String>) -> Option<Seq<char>> {
    match s {
        Some(v) => Some(v@),
        None => None,
    }
}

/// Relies on `Url::parse` and `Url::join` (url, through http-types): parses
/// `base`, resolves `reference` against it and serialises the result.
#[verifier::external_body]
pub(crate) fn join(base: &str, reference: &str) -> (r: Option<String>)
    ensures
        opt_view(r) == joined_url(base@, reference@),
{
    http_types::url::Url::parse(base).and_then(|b| b.join(reference)).ok().map(|u| u.as_str().to_string())
}

} // verus!
