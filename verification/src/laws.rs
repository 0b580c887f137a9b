//! Laws of the frontier, proved once and for all: recording the same
//! discovery twice changes nothing, and a harvested path stays excluded
//! through any later step.

use vstd::prelude::*;
use crate::extract::{refs_of, ElementKind};
use crate::state::{continue_spec, mark_spec, novel_spec, record_spec, spawn_spec, StateView};
use crate::step::{
    lemma_process_frame, lemma_process_growth, process_body_spec, process_spec, step_spec,
};
use crate::urls::url_path_of;

verus! {

/// The driver's accounting invariant: every discovery is either still
/// queued or was selected by one of the completed steps, so the
/// discovery count equals the queue length plus the completion count.
pub open spec fn balanced(st: StateView) -> bool {
    st.found == st.queued.len() + st.done
}

/// A crawl starts balanced: no discoveries, nothing queued, no steps.
pub proof fn lemma_spawn_balanced(seed: Seq<char>)
    ensures
        balanced(spawn_spec(seed)),
{
}

/// A crawl step keeps the accounting invariant — or ends the crawl: the
/// state after a step is balanced again, unless its queue ran empty, in
/// which case the continue condition has just turned false.
pub proof fn lemma_step_preserves_balance(st: StateView, body: Seq<char>, include_images: bool)
    requires
        balanced(st),
    ensures
        balanced(step_spec(st, body, include_images)) || !continue_spec(
            step_spec(st, body, include_images),
        ),
{
    let bumped = StateView { done: st.done + 1, ..st };
    let marked = mark_spec(bumped, st.current);
    let linked = process_spec(marked, refs_of(body, ElementKind::Link));
    lemma_process_growth(marked, refs_of(body, ElementKind::Link));
    lemma_process_frame(marked, refs_of(body, ElementKind::Link));
    lemma_process_growth(linked, refs_of(body, ElementKind::Image));
    lemma_process_frame(linked, refs_of(body, ElementKind::Image));
    let mid = process_body_spec(st, body, include_images);
    assert(mid.found + st.queued.len() == st.found + mid.queued.len());
    if mid.queued.len() == 0 {
        assert(step_spec(st, body, include_images) == mid);
    }
}

/// Once at least one step has run, a balanced crawl goes on exactly as
/// long as its queue is non-empty: termination means an empty queue.
pub proof fn lemma_termination_is_queue_empty(st: StateView)
    requires
        balanced(st),
        st.done > 0,
    ensures
        continue_spec(st) <==> st.queued.len() > 0,
{
}

/// Recording the same URL a second time changes nothing: the first call
/// either queued it (so it is no longer novel) or refused it (leaving
/// the state as it was).
pub proof fn lemma_record_discovery_idempotent(st: StateView, u: Seq<char>)
    ensures
        record_spec(record_spec(st, u), u) == record_spec(st, u),
{
    if u.len() > 0 && novel_spec(st, u) {
        let st1 = record_spec(st, u);
        assert(st1.queued[st.queued.len() as int] == u);
        assert(st1.queued.contains(u));
        assert(!novel_spec(st1, u));
    }
}

/// A URL whose path identifier is already harvested is never novel.
pub proof fn lemma_harvested_excluded(st: StateView, u: Seq<char>)
    requires
        url_path_of(u) matches Some(p) && st.harvested.contains(p),
    ensures
        !novel_spec(st, u),
{
}

/// A crawl step never forgets a harvested path: the harvested set only
/// grows.
pub proof fn lemma_step_harvested_monotone(st: StateView, body: Seq<char>, include_images: bool)
    ensures
        st.harvested.subset_of(step_spec(st, body, include_images).harvested),
{
    let bumped = StateView { done: st.done + 1, ..st };
    let marked = mark_spec(bumped, st.current);
    assert(st.harvested.subset_of(marked.harvested));
    let linked = process_spec(marked, refs_of(body, ElementKind::Link));
    lemma_process_frame(marked, refs_of(body, ElementKind::Link));
    lemma_process_frame(linked, refs_of(body, ElementKind::Image));
}

/// One crawl step completes exactly one fetch and never forgets a
/// discovery: the completion count rises by exactly one, the discovery
/// count never falls, and the scope never changes.
pub proof fn lemma_step_counts(st: StateView, body: Seq<char>, include_images: bool)
    ensures
        step_spec(st, body, include_images).done == st.done + 1,
        step_spec(st, body, include_images).found >= st.found,
        step_spec(st, body, include_images).scope == st.scope,
{
    let bumped = StateView { done: st.done + 1, ..st };
    let marked = mark_spec(bumped, st.current);
    let linked = process_spec(marked, refs_of(body, ElementKind::Link));
    lemma_process_frame(marked, refs_of(body, ElementKind::Link));
    lemma_process_frame(linked, refs_of(body, ElementKind::Image));
}

/// Once a URL's path has been marked harvested, a URL with that same
/// path is still rejected as non-novel after any later crawl step.
pub proof fn lemma_harvested_excludes_later(
    st: StateView,
    body: Seq<char>,
    include_images: bool,
    u: Seq<char>,
)
    requires
        url_path_of(u) matches Some(p) && st.harvested.contains(p),
    ensures
        !novel_spec(step_spec(st, body, include_images), u),
{
    lemma_step_harvested_monotone(st, body, include_images);
    lemma_harvested_excluded(step_spec(st, body, include_images), u);
}

} // verus!
