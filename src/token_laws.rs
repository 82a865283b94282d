//! What holds of the token cache over sequences of calls.
//!
//! A run of the cache is a sequence of events: a poll at some time, or the
//! end of a fetch with its outcome. These spec functions replay a run over
//! the state transitions that `poll` and `finish` are proved to make.

use vstd::prelude::*;
use crate::metadata_token::{TokenView, is_fresh, poll_fetches, poll_view, finish_view, install_view};

verus! {

/// One call into the cache.
pub enum Event {
    /// A caller polls at this time.
    Poll(u64),
    /// The fetch in flight ends: a token and expiry, or `None` on failure.
    Finish(Option<(Seq<char>, u64)>),
}

pub open spec fn step_view(v: TokenView, ev: Event) -> TokenView {
    match ev {
        Event::Poll(now) => poll_view(v, now),
        Event::Finish(o) => finish_view(v, o),
    }
}

/// Whether the event, taken in state `v`, starts a fetch.
pub open spec fn starts_fetch(v: TokenView, ev: Event) -> bool {
    match ev {
        Event::Poll(now) => poll_fetches(v, now),
        Event::Finish(_) => false,
    }
}

/// The state after a run.
pub open spec fn run(v: TokenView, evs: Seq<Event>) -> TokenView
    decreases evs.len(),
{
    if evs.len() == 0 {
        v
    } else {
        run(step_view(v, evs[0]), evs.drop_first())
    }
}

/// How many fetches a run starts.
pub open spec fn fetch_count(v: TokenView, evs: Seq<Event>) -> nat
    decreases evs.len(),
{
    if evs.len() == 0 {
        0
    } else {
        (if starts_fetch(v, evs[0]) { 1nat } else { 0nat }) + fetch_count(
            step_view(v, evs[0]),
            evs.drop_first(),
        )
    }
}

/// How many fetches end in a run.
pub open spec fn finish_count(evs: Seq<Event>) -> nat
    decreases evs.len(),
{
    if evs.len() == 0 {
        0
    } else {
        (if evs[0] is Finish { 1nat } else { 0nat }) + finish_count(evs.drop_first())
    }
}

/// A fetch ends only while one is in flight: only the caller told to fetch
/// calls `finish`.
pub open spec fn well_formed_run(v: TokenView, evs: Seq<Event>) -> bool
    decreases evs.len(),
{
    evs.len() == 0 || ((evs[0] is Finish ==> v.refreshing) && well_formed_run(
        step_view(v, evs[0]),
        evs.drop_first(),
    ))
}

/// Every poll of the run comes before `bound`, and every fetch succeeds with
/// a token valid until at least `bound`.
pub open spec fn outlived_by(evs: Seq<Event>, bound: u64) -> bool {
    forall|i: int|
        0 <= i < evs.len() ==> match #[trigger] evs[i] {
            Event::Poll(now) => now < bound,
            Event::Finish(o) => o matches Some((_, e)) && bound <= e,
        }
}

/// Whether the state serves every poll before `bound` without a new fetch.
pub open spec fn settled(v: TokenView, bound: u64) -> bool {
    v.refreshing || (v.cached matches Some((_, e)) && bound <= e)
}

proof fn lemma_settled_no_fetch(v: TokenView, evs: Seq<Event>, bound: u64)
    requires
        settled(v, bound),
        outlived_by(evs, bound),
        well_formed_run(v, evs),
    ensures
        fetch_count(v, evs) == 0,
    decreases evs.len(),
{
    if evs.len() > 0 {
        let rest = evs.drop_first();
        assert(outlived_by(rest, bound)) by {
            assert forall|i: int| 0 <= i < rest.len() implies match #[trigger] rest[i] {
                Event::Poll(now) => now < bound,
                Event::Finish(o) => o matches Some((_, e)) && bound <= e,
            } by {
                assert(rest[i] == evs[i + 1]);
            }
        }
        let ev0 = evs[0];
        assert(match ev0 {
            Event::Poll(now) => now < bound,
            Event::Finish(o) => o matches Some((_, e)) && bound <= e,
        });
        lemma_settled_no_fetch(step_view(v, ev0), rest, bound);
    }
}

/// Concurrent callers against a cache with nothing cached start exactly one
/// fetch, provided that the fetch succeeds with a token that outlives their
/// polls: the first poll fetches, every other one waits for it or uses its
/// token.
pub proof fn lemma_single_fetch(v: TokenView, evs: Seq<Event>, bound: u64)
    requires
        v.cached is None,
        !v.refreshing,
        evs.len() > 0,
        outlived_by(evs, bound),
        well_formed_run(v, evs),
    ensures
        fetch_count(v, evs) == 1,
{
    let ev0 = evs[0];
    let rest = evs.drop_first();
    assert(ev0 is Poll);
    assert(outlived_by(rest, bound)) by {
        assert forall|i: int| 0 <= i < rest.len() implies match #[trigger] rest[i] {
            Event::Poll(now) => now < bound,
            Event::Finish(o) => o matches Some((_, e)) && bound <= e,
        } by {
            assert(rest[i] == evs[i + 1]);
        }
    }
    lemma_settled_no_fetch(step_view(v, ev0), rest, bound);
}

/// At most one fetch is in flight: over any run, the fetches started exceed
/// the fetches ended by exactly whether one is in flight at the end, less
/// whether one was at the start.
pub proof fn lemma_fetches_in_flight(v: TokenView, evs: Seq<Event>)
    requires
        well_formed_run(v, evs),
    ensures
        fetch_count(v, evs) + (if v.refreshing { 1int } else { 0int }) == finish_count(evs) + (
        if run(v, evs).refreshing { 1int } else { 0int }),
    decreases evs.len(),
{
    if evs.len() > 0 {
        lemma_fetches_in_flight(step_view(v, evs[0]), evs.drop_first());
    }
}

/// A poll on an expired or empty cache with no fetch in flight starts exactly
/// one fetch; once it succeeds, the fetched token is what the cache holds and
/// what every poll before its expiry is served.
pub proof fn lemma_refresh_installs(v: TokenView, now: u64, token: Seq<char>, exp: u64, later: u64)
    requires
        !is_fresh(v.cached, now),
        !v.refreshing,
        later < exp,
    ensures
        poll_fetches(v, now),
        finish_view(poll_view(v, now), Some((token, exp))).cached == Some((token, exp)),
        !poll_fetches(finish_view(poll_view(v, now), Some((token, exp))), later),
        is_fresh(finish_view(poll_view(v, now), Some((token, exp))).cached, later),
{
}

/// Installing a pair and reading it back gives exactly that pair, and
/// installing it again changes nothing.
pub proof fn lemma_install_peek(v: TokenView, token: Seq<char>, exp: u64)
    ensures
        install_view(v, token, exp).cached == Some((token, exp)),
        install_view(install_view(v, token, exp), token, exp) == install_view(v, token, exp),
{
}

/// A failed fetch leaves the cached value as it was and ends the refresh, so
/// the next poll at which that value is not valid fetches again.
pub proof fn lemma_failed_fetch_retries(v: TokenView, now: u64)
    requires
        v.refreshing,
        !is_fresh(v.cached, now),
    ensures
        finish_view(v, None).cached == v.cached,
        poll_fetches(finish_view(v, None), now),
{
}

} // verus!
