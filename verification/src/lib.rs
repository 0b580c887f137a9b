//! A single-host web crawler core: scope resolution, link normalization,
//! and frontier management, with the crawl-state invariants proved.
//!
//! The crawler follows only root-relative and scope-prefixed absolute
//! links.  Fetching bodies over the network is left to the surrounding
//! program; everything that decides what to crawl next lives here.

use vstd::prelude::*;

pub mod extract;
pub mod laws;
pub mod norm;
pub mod state;
pub mod step;
pub mod urls;

verus! {

/// Fatal error conditions of the crawler.
#[derive(Clone, Copy, Debug, PartialEq, Eq, Structural)]
pub enum CrawlError {
    /// No seed URL was supplied on the command line.
    MissingArgument,
    /// The seed (or the current location derived from it) is not a
    /// parseable absolute URL.
    InvalidSeedUrl,
    /// The HTTP transport failed to retrieve a body.
    FetchError,
    /// A progress counter would exceed its machine range.
    CounterOverflow,
    /// A fetched body is larger than the extractor supports.
    BodyTooLarge,
}

/// The character sequences of a sequence of strings.
pub open spec fn views_of(s: Seq<String>) -> Seq<Seq<char>> {
    Seq::new(s.len(), |i: int| s[i]@)
}

} // verus!
