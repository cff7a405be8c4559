//! The one place the library leans on the URL parser: extracting the path
//! component of an upstream URL, from which artifact paths are derived.

use vstd::prelude::*;

verus! {

/// The path component of `s` parsed as a URL, or nothing when `s` does not
/// parse; known only to the outside parser, but a function of `s` alone.
pub uninterp spec fn url_path_of(s: Seq<char>) -> Option<Seq<char>>;

/// Relies on url::Url::parse and url::Url::path: whether a string parses as a
/// URL, and the percent-encoded ASCII path component of the parsed URL, are
/// functions of the string alone.
#[verifier::external_body]
pub(crate) fn url_path(s: &str) -> (r: Option<String>)
    ensures
        r is Some <==> url_path_of(s@) is Some,
        r is Some ==> r.unwrap()@ == url_path_of(s@).unwrap(),
{
    match url::Url::parse(s) {
        Ok(u) => Some(u.path().to_owned()),
        Err(_) => None,
    }
}

} // verus!
