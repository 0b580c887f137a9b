//! The one place where the crawler touches the `url` crate: extracting
//! the path component of an absolute URL.

use vstd::prelude::*;

verus! {

/// The path component of `s` when `s` parses as an absolute URL, and
/// `None` when it does not.  Parsing is a function of the string alone.
pub uninterp spec fn url_path_of(s: Seq<char>) -> Option<Seq<char>>;

/// Relies on `url::Url::parse` and `url::Url::path`: whether a string
/// parses as an absolute URL, and the path component of the parsed URL,
/// depend on the string alone.
#[verifier::external_body]
pub(crate) fn parse_url_path(s: &str) -> (r: Option<String>)
    ensures
        r matches Some(p) ==> url_path_of(s@) == Some(p@),
        r is Some <==> url_path_of(s@) is Some,
{
    match url::Url::parse(s) {
        Ok(u) => Some(u.path().to_string()),
        Err(_) => None,
    }
}

} // verus!
