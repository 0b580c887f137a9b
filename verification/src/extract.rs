//! The one place where the crawler touches the `select` crate: turning a
//! document body into the list of attribute values of matching elements.

use vstd::prelude::*;
use crate::views_of;

verus! {

/// Which kind of element the extractor looks for.
#[derive(Clone, Copy, Debug, PartialEq, Eq, Structural)]
pub enum ElementKind {
    /// `<a>` elements; the extracted attribute is `href`.
    Link,
    /// `<img>` elements; the extracted attribute is `src`.
    Image,
}

/// The most characters a body handed to the extractor may hold: the
/// HTML parser copies the body into buffers of at most `u32::MAX`
/// bytes, and a character encodes to at most four UTF-8 bytes, so this
/// many characters (`u32::MAX` divided by four, rounded down) always
/// fit.
pub const EXTRACTOR_CHAR_LIMIT: usize = 1073741823;

/// Whether a body is small enough for the extractor.
pub open spec fn body_within_limit(body: Seq<char>) -> bool {
    body.len() <= EXTRACTOR_CHAR_LIMIT
}

/// The attribute values named `attr` of the elements named `elem` in the
/// HTML document `body`, in document order.  The result is a function of
/// the three strings alone.
pub uninterp spec fn extracted_attrs(body: Seq<char>, elem: Seq<char>, attr: Seq<char>) -> Seq<
    Seq<char>,
>;

/// The raw references a page body yields for one element kind.
pub open spec fn refs_of(body: Seq<char>, kind: ElementKind) -> Seq<Seq<char>> {
    match kind {
        ElementKind::Link => extracted_attrs(body, "a"@, "href"@),
        ElementKind::Image => extracted_attrs(body, "img"@, "src"@),
    }
}

/// Relies on `select::document::Document::from`, `Document::find` with
/// the `Name` predicate, and `Node::attr`: the attribute values of the
/// matching elements, in document order, depend only on the body and the
/// two names.  `Document::from` copies the body into buffers that hold
/// at most `u32::MAX` bytes and aborts beyond that, so callers keep the
/// body within `EXTRACTOR_CHAR_LIMIT` characters.
#[verifier::external_body]
fn extract_attrs(body: &str, elem: &str, attr: &str) -> (r: Vec<String>)
    requires
        body_within_limit(body@),
    ensures
        views_of(r@) == extracted_attrs(body@, elem@, attr@),
{
    select::document::Document::from(body)
        .find(select::predicate::Name(elem))
        .filter_map(|n| n.attr(attr))
        .map(|a| a.to_string())
        .collect()
}

/// Extract the raw reference strings of one element kind from a body.
pub fn extract(body: &str, kind: ElementKind) -> (r: Vec<String>)
    requires
        body_within_limit(body@),
    ensures
        views_of(r@) == refs_of(body@, kind),
{
    match kind {
        ElementKind::Link => extract_attrs(body, "a", "href"),
        ElementKind::Image => extract_attrs(body, "img", "src"),
    }
}

} // verus!
