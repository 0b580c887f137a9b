//! One crawl step: count the completed fetch, mark the current location
//! harvested, feed every extracted reference through normalization and
//! the frontier, and select the next location to visit.

use vstd::prelude::*;
use crate::extract::{body_within_limit, extract, refs_of, ElementKind, EXTRACTOR_CHAR_LIMIT};
use crate::norm::{lemma_norm_scoped, norm_spec, normalize};
use crate::state::{
    mark_harvested, mark_spec, pop_spec, record_discovery, record_spec, CrawlState, StateView,
};
use crate::urls::{parse_url_path, url_path_of};
use crate::CrawlError;
use crate::views_of;

verus! {

/// The state after recording every reference of `refs`, each first
/// normalized against the state's scope, in order.
pub open spec fn process_spec(st: StateView, refs: Seq<Seq<char>>) -> StateView
    decreases refs.len(),
{
    if refs.len() == 0 {
        st
    } else {
        process_spec(record_spec(st, norm_spec(refs[0], st.scope)), refs.drop_first())
    }
}

/// Processing references touches only the queue and the discovery
/// count; scope, current location, completion count and harvested set
/// stay as they were, and the discovery count grows by at most one per
/// reference.
pub proof fn lemma_process_frame(st: StateView, refs: Seq<Seq<char>>)
    ensures
        process_spec(st, refs).scope == st.scope,
        process_spec(st, refs).current == st.current,
        process_spec(st, refs).done == st.done,
        process_spec(st, refs).harvested == st.harvested,
        st.found <= process_spec(st, refs).found <= st.found + refs.len(),
    decreases refs.len(),
{
    if refs.len() > 0 {
        lemma_process_frame(record_spec(st, norm_spec(refs[0], st.scope)), refs.drop_first());
    }
}

/// Every recorded reference adds one discovery and one queue entry at
/// once, so processing keeps the difference between the discovery count
/// and the queue length as it was.
pub proof fn lemma_process_growth(st: StateView, refs: Seq<Seq<char>>)
    ensures
        process_spec(st, refs).found + st.queued.len() == st.found + process_spec(
            st,
            refs,
        ).queued.len(),
    decreases refs.len(),
{
    if refs.len() > 0 {
        lemma_process_growth(record_spec(st, norm_spec(refs[0], st.scope)), refs.drop_first());
    }
}

/// Whether the progress counters can absorb one step on this body.
pub open spec fn counters_fit(st: StateView, body: Seq<char>, include_images: bool) -> bool {
    &&& st.done < u64::MAX
    &&& st.found + refs_of(body, ElementKind::Link).len() + (if include_images {
        refs_of(body, ElementKind::Image).len()
    } else {
        0
    }) <= u64::MAX
}

/// The state after the fetched `body` of the current location has been
/// worked through: the completion count is up by one, the current
/// location's path is harvested, and every hyperlink reference (and,
/// when images are followed, every image reference) has run through
/// normalization and the frontier.
pub open spec fn process_body_spec(st: StateView, body: Seq<char>, include_images: bool) -> StateView
    recommends
        url_path_of(st.current) is Some,
{
    let marked = mark_spec(StateView { done: st.done + 1, ..st }, st.current);
    let linked = process_spec(marked, refs_of(body, ElementKind::Link));
    if include_images {
        process_spec(linked, refs_of(body, ElementKind::Image))
    } else {
        linked
    }
}

/// The state after one full crawl step: the body worked through, then
/// the next location taken from the front of the queue.
pub open spec fn step_spec(st: StateView, body: Seq<char>, include_images: bool) -> StateView
    recommends
        url_path_of(st.current) is Some,
{
    pop_spec(process_body_spec(st, body, include_images))
}

/// Normalize and record every reference of `refs`, in order.
fn process_refs(state: &mut CrawlState, refs: &Vec<String>)
    requires
        old(state).wf(),
        old(state).found + refs@.len() <= u64::MAX,
    ensures
        final(state).wf(),
        final(state)@ == process_spec(old(state)@, views_of(refs@)),
        final(state).found <= old(state).found + refs@.len(),
{
    let ghost all = views_of(refs@);
    proof {
        assert(all.skip(0) =~= all);
    }
    let n = refs.len();
    let mut i: usize = 0;
    while i < n
        invariant
            0 <= i <= n,
            n == refs@.len(),
            state.wf(),
            state.found <= old(state).found + i,
            old(state).found + n <= u64::MAX,
            state.scope == old(state).scope,
            process_spec(old(state)@, all) == process_spec(state@, all.skip(i as int)),
            all == views_of(refs@),
        decreases n - i,
    {
        let ghost pre = state@;
        let normalized = normalize(refs[i].as_str(), state.scope.as_str());
        proof {
            lemma_norm_scoped(all[i as int], pre.scope);
        }
        record_discovery(&normalized, state);
        proof {
            assert(all.skip(i as int).drop_first() =~= all.skip(i + 1));
            assert(all.skip(i as int)[0] == all[i as int]);
            assert(state@ == record_spec(pre, norm_spec(all[i as int], pre.scope)));
            assert(process_spec(pre, all.skip(i as int)) == process_spec(
                state@,
                all.skip(i + 1),
            ));
        }
        i += 1;
    }
    proof {
        assert(all.skip(n as int) =~= Seq::<Seq<char>>::empty());
    }
}

/// Work through the already-fetched `body` of the current location:
/// count the completed fetch, mark the current location harvested, and
/// feed every extracted reference through normalization and the
/// frontier.
///
/// A body too large for the extractor is rejected first; then a current
/// location that is no parseable absolute URL is rejected as an invalid
/// seed (the first location is the seed itself); then a step whose
/// discoveries could not be counted is rejected as a counter overflow.
/// A rejected step leaves the state untouched.
pub fn process_body(state: &mut CrawlState, body: &String, include_images: bool) -> (r: Result<
    (),
    CrawlError,
>)
    requires
        old(state).wf(),
    ensures
        final(state).wf(),
        match r {
            Ok(_) => body_within_limit(body@) && url_path_of(old(state).current@) is Some
                && counters_fit(old(state)@, body@, include_images) && final(state)@
                == process_body_spec(old(state)@, body@, include_images),
            Err(e) => *final(state) == *old(state) && (e == CrawlError::BodyTooLarge || e
                == CrawlError::InvalidSeedUrl || e == CrawlError::CounterOverflow),
        },
        r matches Err(e) && e == CrawlError::BodyTooLarge <==> !body_within_limit(body@),
        r matches Err(e) && e == CrawlError::InvalidSeedUrl <==> body_within_limit(body@)
            && url_path_of(old(state).current@) is None,
        r matches Err(e) && e == CrawlError::CounterOverflow <==> body_within_limit(body@)
            && url_path_of(old(state).current@) is Some && !counters_fit(
            old(state)@,
            body@,
            include_images,
        ),
{
    if body.as_str().unicode_len() > EXTRACTOR_CHAR_LIMIT {
        return Err(CrawlError::BodyTooLarge);
    }
    let links = extract(body.as_str(), ElementKind::Link);
    let images: Vec<String> = if include_images {
        extract(body.as_str(), ElementKind::Image)
    } else {
        Vec::new()
    };
    let current = state.current.clone();
    if parse_url_path(current.as_str()).is_none() {
        return Err(CrawlError::InvalidSeedUrl);
    }
    if state.done == u64::MAX {
        return Err(CrawlError::CounterOverflow);
    }
    let budget = u64::MAX - state.found;
    if links.len() as u64 > budget {
        return Err(CrawlError::CounterOverflow);
    }
    if include_images && images.len() as u64 > budget - links.len() as u64 {
        return Err(CrawlError::CounterOverflow);
    }
    proof {
        if !include_images {
            assert(views_of(images@) =~= Seq::<Seq<char>>::empty());
        }
    }
    state.done = state.done + 1;
    let _ = mark_harvested(&current, state);
    let ghost after_mark = state@;
    proof {
        assert(after_mark =~= mark_spec(
            StateView { done: old(state)@.done + 1, ..old(state)@ },
            old(state).current@,
        ));
    }
    process_refs(state, &links);
    proof {
        lemma_process_frame(after_mark, views_of(links@));
    }
    if include_images {
        process_refs(state, &images);
    }
    proof {
        assert(state@ =~= process_body_spec(old(state)@, body@, include_images));
    }
    Ok(())
}

/// Select the next location to visit: take the front of the queue, or
/// leave everything as it is when the queue is empty.
pub fn select_next(state: &mut CrawlState)
    requires
        old(state).wf(),
    ensures
        final(state).wf(),
        final(state)@ == pop_spec(old(state)@),
{
    if state.queued.len() > 0 {
        let ghost qpre = state.queued@;
        let next = state.queued.remove(0);
        state.current = next;
        proof {
            assert(views_of(state.queued@) =~= views_of(qpre).drop_first());
            assert(state@ =~= pop_spec(old(state)@));
        }
    }
}

/// Run one full crawl step on the already-fetched `body` of the current
/// location: work through the body, then select the next location.
///
/// The same inputs are rejected as in `process_body`, and a rejected
/// step leaves the state untouched.
pub fn step(state: &mut CrawlState, body: &String, include_images: bool) -> (r: Result<
    (),
    CrawlError,
>)
    requires
        old(state).wf(),
    ensures
        final(state).wf(),
        match r {
            Ok(_) => body_within_limit(body@) && url_path_of(old(state).current@) is Some
                && counters_fit(old(state)@, body@, include_images) && final(state)@
                == step_spec(old(state)@, body@, include_images),
            Err(e) => *final(state) == *old(state) && (e == CrawlError::BodyTooLarge || e
                == CrawlError::InvalidSeedUrl || e == CrawlError::CounterOverflow),
        },
        r matches Err(e) && e == CrawlError::BodyTooLarge <==> !body_within_limit(body@),
        r matches Err(e) && e == CrawlError::InvalidSeedUrl <==> body_within_limit(body@)
            && url_path_of(old(state).current@) is None,
        r matches Err(e) && e == CrawlError::CounterOverflow <==> body_within_limit(body@)
            && url_path_of(old(state).current@) is Some && !counters_fit(
            old(state)@,
            body@,
            include_images,
        ),
{
    match process_body(state, body, include_images) {
        Err(e) => Err(e),
        Ok(_) => {
            select_next(state);
            Ok(())
        },
    }
}

} // verus!
