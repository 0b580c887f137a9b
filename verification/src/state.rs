//! The crawl state and its frontier: the harvested and queued sets, the
//! progress counters, and the novelty policy.

use vstd::prelude::*;
use crate::norm::{str_eq, str_is_prefix};
use crate::urls::{parse_url_path, url_path_of};
use crate::CrawlError;
use crate::views_of;

verus! {

/// The mathematical model of a crawl state.
///
/// `harvested` holds canonical path identifiers of visited locations as
/// a set; `queued` keeps the pending absolute URLs in discovery order,
/// since the next location is taken from the front.
#[verifier::ext_equal]
pub ghost struct StateView {
    pub scope: Seq<char>,
    pub current: Seq<char>,
    pub done: nat,
    pub found: nat,
    pub harvested: Set<Seq<char>>,
    pub queued: Seq<Seq<char>>,
}

/// The crawl state: the fixed scope, the location to visit next, the
/// two progress counters, and the frontier.
///
/// `harvested` and `queued` are kept as duplicate-free vectors; `queued`
/// is a queue in discovery order, so the pick of the next location is
/// deterministic (first discovered, first visited).
pub struct CrawlState {
    pub scope: String,
    pub current: String,
    pub done: u64,
    pub found: u64,
    pub harvested: Vec<String>,
    pub queued: Vec<String>,
}

impl View for CrawlState {
    type V = StateView;

    open spec fn view(&self) -> StateView {
        StateView {
            scope: self.scope@,
            current: self.current@,
            done: self.done as nat,
            found: self.found as nat,
            harvested: views_of(self.harvested@).to_set(),
            queued: views_of(self.queued@),
        }
    }
}

/// No two entries of `s` hold the same characters.
pub open spec fn no_dups(s: Seq<Seq<char>>) -> bool {
    forall|i: int, j: int| 0 <= i < j < s.len() ==> s[i] != s[j]
}

impl CrawlState {
    /// Well-formedness: both frontier vectors are duplicate-free (set
    /// semantics), and the scope is a non-empty prefix of every queued
    /// URL.
    pub open spec fn wf(&self) -> bool {
        &&& self.scope@.len() > 0
        &&& no_dups(views_of(self.harvested@))
        &&& no_dups(views_of(self.queued@))
        &&& forall|i: int|
            0 <= i < self.queued@.len() ==> self.scope@.is_prefix_of(views_of(self.queued@)[i])
    }
}

/// Whether a normalized URL is novel: its path identifier has not been
/// harvested and the URL string itself is not already queued.  A URL
/// that does not parse is never novel.
///
/// The asymmetry — a path-only identifier against `harvested`, the full
/// URL string against `queued` — is deliberate frontier policy.
pub open spec fn novel_spec(st: StateView, url: Seq<char>) -> bool {
    match url_path_of(url) {
        Some(p) => !st.harvested.contains(p) && !st.queued.contains(url),
        None => false,
    }
}

/// The state after recording a discovery: a non-empty, novel URL is
/// appended to the queue and counted; anything else changes nothing.
pub open spec fn record_spec(st: StateView, url: Seq<char>) -> StateView {
    if url.len() > 0 && novel_spec(st, url) {
        StateView { queued: st.queued.push(url), found: st.found + 1, ..st }
    } else {
        st
    }
}

/// The state after marking a URL harvested: its path identifier joins
/// the harvested set; a URL that does not parse changes nothing.
pub open spec fn mark_spec(st: StateView, url: Seq<char>) -> StateView {
    match url_path_of(url) {
        Some(p) => StateView { harvested: st.harvested.insert(p), ..st },
        None => st,
    }
}

/// The state after selecting the next location: the front of the queue
/// becomes current and leaves the queue; an empty queue changes nothing.
pub open spec fn pop_spec(st: StateView) -> StateView {
    if st.queued.len() > 0 {
        StateView { current: st.queued[0], queued: st.queued.drop_first(), ..st }
    } else {
        st
    }
}

/// The scope of a seed: the seed with its path component removed as a
/// suffix, or the seed unchanged when the path is not a suffix of it.
pub open spec fn scope_spec(seed: Seq<char>) -> Seq<char>
    recommends
        url_path_of(seed) is Some,
{
    let p = url_path_of(seed)->Some_0;
    if p.is_suffix_of(seed) {
        seed.take(seed.len() - p.len())
    } else {
        seed
    }
}

/// The initial crawl state for a seed: its scope, the seed as the first
/// location, zeroed counters, and an empty frontier.
pub open spec fn spawn_spec(seed: Seq<char>) -> StateView
    recommends
        url_path_of(seed) is Some,
{
    StateView {
        scope: scope_spec(seed),
        current: seed,
        done: 0,
        found: 0,
        harvested: Set::empty(),
        queued: Seq::empty(),
    }
}

/// Whether the crawl must go on: no step has run yet, or the last steps
/// left more discoveries than completions.
pub open spec fn continue_spec(st: StateView) -> bool {
    st.done == 0 || st.done < st.found
}

/// Appending an element to a sequence inserts it into the sequence's set.
proof fn lemma_to_set_push(s: Seq<Seq<char>>, x: Seq<char>)
    ensures
        s.push(x).to_set() =~= s.to_set().insert(x),
{
    assert forall|a: Seq<char>| s.push(x).contains(a) implies s.contains(a) || a == x by {
        let i = choose|i: int| 0 <= i < s.push(x).len() && s.push(x)[i] == a;
        if i < s.len() {
            assert(s[i] == a);
        }
    }
    assert forall|a: Seq<char>| s.contains(a) implies s.push(x).contains(a) by {
        let i = choose|i: int| 0 <= i < s.len() && s[i] == a;
        assert(s.push(x)[i] == a);
    }
    assert(s.push(x)[s.len() as int] == x);
}

/// Whether `v` holds an entry with the characters of `s`.
fn vec_contains_str(v: &Vec<String>, s: &str) -> (r: bool)
    ensures
        r == views_of(v@).contains(s@),
{
    let n = v.len();
    let mut i: usize = 0;
    while i < n
        invariant
            0 <= i <= n,
            n == v@.len(),
            forall|j: int| 0 <= j < i ==> views_of(v@)[j] != s@,
        decreases n - i,
    {
        if str_eq(v[i].as_str(), s) {
            assert(views_of(v@)[i as int] == s@);
            return true;
        }
        i += 1;
    }
    assert(!views_of(v@).contains(s@));
    false
}

/// Whether no two entries of `v` hold the same characters.
fn vec_no_dups(v: &Vec<String>) -> (r: bool)
    ensures
        r == no_dups(views_of(v@)),
{
    let n = v.len();
    let mut j: usize = 1;
    while j < n
        invariant
            1 <= j,
            n == v@.len(),
            forall|a: int, b: int| 0 <= a < b < j && b < n ==> views_of(v@)[a] != views_of(v@)[b],
        decreases n - j,
    {
        let mut a: usize = 0;
        while a < j
            invariant
                0 <= a <= j < n,
                n == v@.len(),
                forall|t: int| 0 <= t < a ==> views_of(v@)[t] != views_of(v@)[j as int],
            decreases j - a,
        {
            if str_eq(v[a].as_str(), v[j].as_str()) {
                assert(views_of(v@)[a as int] == views_of(v@)[j as int]);
                return false;
            }
            a += 1;
        }
        j += 1;
    }
    true
}

impl CrawlState {
    /// Whether this state is well formed, checked at run time: the same
    /// condition that `wf` states.
    pub fn is_well_formed(&self) -> (r: bool)
        ensures
            r == self.wf(),
    {
        if self.scope.as_str().is_empty() {
            return false;
        }
        if !vec_no_dups(&self.harvested) {
            return false;
        }
        if !vec_no_dups(&self.queued) {
            return false;
        }
        let n = self.queued.len();
        let mut i: usize = 0;
        while i < n
            invariant
                0 <= i <= n,
                n == self.queued@.len(),
                forall|j: int| 0 <= j < i ==> self.scope@.is_prefix_of(views_of(self.queued@)[j]),
            decreases n - i,
        {
            if !str_is_prefix(self.scope.as_str(), self.queued[i].as_str()) {
                assert(views_of(self.queued@)[i as int] == self.queued@[i as int]@);
                return false;
            }
            i += 1;
        }
        true
    }
}

/// Derive the crawl scope from a seed URL: the seed with its parsed
/// path component stripped off as a suffix.  A seed that is no
/// parseable absolute URL is rejected, as is one whose derived scope
/// would be empty, and only such seeds are.
pub fn resolve(seed: &str) -> (r: Result<String, CrawlError>)
    ensures
        match r {
            Ok(s) => url_path_of(seed@) is Some && s@ == scope_spec(seed@) && s@.len() > 0,
            Err(e) => e == CrawlError::InvalidSeedUrl && (url_path_of(seed@) is None
                || scope_spec(seed@).len() == 0),
        },
{
    match parse_url_path(seed) {
        None => Err(CrawlError::InvalidSeedUrl),
        Some(p) => {
            let ns = seed.unicode_len();
            let np = p.as_str().unicode_len();
            let scope: String = if np <= ns && str_eq(
                seed.substring_char(ns - np, ns),
                p.as_str(),
            ) {
                assert(p@.is_suffix_of(seed@));
                seed.substring_char(0, ns - np).to_owned()
            } else {
                proof {
                    if np <= ns {
                        assert(seed@.subrange(ns - np, ns as int) != p@);
                    }
                }
                seed.to_owned()
            };
            if scope.as_str().is_empty() {
                Err(CrawlError::InvalidSeedUrl)
            } else {
                Ok(scope)
            }
        },
    }
}

/// Build the initial crawl state for a seed URL, or reject a seed that
/// is no parseable absolute URL.
pub fn spawn(seed: &String) -> (r: Result<CrawlState, CrawlError>)
    ensures
        match r {
            Ok(st) => url_path_of(seed@) is Some && scope_spec(seed@).len() > 0 && st.wf()
                && st@ == spawn_spec(seed@),
            Err(e) => e == CrawlError::InvalidSeedUrl && (url_path_of(seed@) is None
                || scope_spec(seed@).len() == 0),
        },
{
    match resolve(seed.as_str()) {
        Err(e) => Err(e),
        Ok(scope) => {
            let st = CrawlState {
                scope,
                current: seed.clone(),
                done: 0,
                found: 0,
                harvested: Vec::new(),
                queued: Vec::new(),
            };
            proof {
                assert(views_of(st.harvested@) =~= Seq::<Seq<char>>::empty());
                assert(views_of(st.queued@) =~= Seq::<Seq<char>>::empty());
                assert(views_of(st.harvested@).to_set() =~= Set::<Seq<char>>::empty());
                assert(st@ =~= spawn_spec(seed@));
            }
            Ok(st)
        },
    }
}

/// Whether a normalized URL is novel for the current frontier.
pub fn is_novel(url: &String, state: &CrawlState) -> (r: bool)
    ensures
        r == novel_spec(state@, url@),
{
    match parse_url_path(url.as_str()) {
        None => false,
        Some(p) => {
            let in_harvested = vec_contains_str(&state.harvested, p.as_str());
            let in_queued = vec_contains_str(&state.queued, url.as_str());
            proof {
                assert(state@.harvested.contains(p@) == views_of(state.harvested@).contains(p@));
            }
            !in_harvested && !in_queued
        },
    }
}

/// Record a discovered URL: append it to the queue and count it, but
/// only when it is non-empty and novel.
pub fn record_discovery(url: &String, state: &mut CrawlState)
    requires
        old(state).wf(),
        old(state).found < u64::MAX,
        url@.len() > 0 ==> old(state).scope@.is_prefix_of(url@),
    ensures
        final(state).wf(),
        final(state)@ == record_spec(old(state)@, url@),
        final(state).found <= old(state).found + 1,
        final(state).scope == old(state).scope,
        final(state).current == old(state).current,
        final(state).done == old(state).done,
{
    if !url.as_str().is_empty() && is_novel(url, state) {
        let ghost pre = state@;
        state.queued.push(url.clone());
        state.found = state.found + 1;
        proof {
            assert(views_of(state.queued@) =~= views_of(old(state).queued@).push(url@));
            assert(state@ =~= record_spec(pre, url@));
        }
    }
}

/// Mark a URL harvested: its path identifier joins the harvested set.
/// Returns whether the URL parsed; one that did not leaves the state
/// unchanged.
pub fn mark_harvested(url: &String, state: &mut CrawlState) -> (r: bool)
    requires
        old(state).wf(),
    ensures
        final(state).wf(),
        final(state)@ == mark_spec(old(state)@, url@),
        r == (url_path_of(url@) is Some),
        final(state).scope == old(state).scope,
        final(state).current == old(state).current,
        final(state).done == old(state).done,
        final(state).found == old(state).found,
        final(state).queued == old(state).queued,
{
    match parse_url_path(url.as_str()) {
        None => false,
        Some(p) => {
            let ghost pre = state@;
            if !vec_contains_str(&state.harvested, p.as_str()) {
                state.harvested.push(p);
                proof {
                    assert(views_of(state.harvested@) =~= views_of(old(state).harvested@).push(
                        p@,
                    ));
                    lemma_to_set_push(views_of(old(state).harvested@), p@);
                    assert(views_of(state.harvested@).to_set() =~= pre.harvested.insert(p@));
                    assert(state@ =~= mark_spec(pre, url@));
                }
            } else {
                proof {
                    assert(pre.harvested.contains(p@));
                    assert(pre.harvested =~= pre.harvested.insert(p@));
                    assert(state@ =~= mark_spec(pre, url@));
                }
            }
            true
        },
    }
}

/// Whether the crawl must go on.
pub fn should_continue(state: &CrawlState) -> (r: bool)
    ensures
        r == continue_spec(state@),
{
    state.done == 0 || state.done < state.found
}

} // verus!
