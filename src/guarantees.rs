//! The laws the cache entry keeps, over any sequence of events.
use vstd::prelude::*;

use crate::cache::{
    action_for, expiration_after, fetch_requests, fetches_started, first_outcome, next_status, run,
    statuses, ActorAction, CacheEvent, FetchStatus,
};
use crate::content::UrlResourceContent;
use crate::error::UrlResourceError;

verus! {

/// Requests that arrive while a fetch is in flight join it: none starts a
/// fetch, and the status stays in flight throughout.
proof fn lemma_requests_join_in_flight(times: Seq<u64>, ttl: u64)
    ensures
        fetches_started(FetchStatus::Fetching, fetch_requests(times), ttl) == 0,
        run(FetchStatus::Fetching, fetch_requests(times), ttl) == FetchStatus::Fetching,
        statuses(FetchStatus::Fetching, fetch_requests(times), ttl).len() == times.len(),
        forall|k: int|
            0 <= k < times.len() ==> #[trigger] statuses(
                FetchStatus::Fetching,
                fetch_requests(times),
                ttl,
            )[k] == FetchStatus::Fetching,
    decreases times.len(),
{
    let events = fetch_requests(times);
    if times.len() > 0 {
        assert(events.drop_first() == fetch_requests(times.drop_first()));
        lemma_requests_join_in_flight(times.drop_first(), ttl);
        let rest = statuses(FetchStatus::Fetching, events.drop_first(), ttl);
        assert forall|k: int| 0 <= k < times.len() implies #[trigger] statuses(
            FetchStatus::Fetching,
            events,
            ttl,
        )[k] == FetchStatus::Fetching by {
            if k > 0 {
                assert(statuses(FetchStatus::Fetching, events, ttl)[k] == rest[k - 1]);
            }
        }
    }
}

/// Handling two sequences of events one after the other is handling their
/// concatenation.
proof fn lemma_run_append(s: FetchStatus, a: Seq<CacheEvent>, b: Seq<CacheEvent>, ttl: u64)
    ensures
        run(s, a + b, ttl) == run(run(s, a, ttl), b, ttl),
        fetches_started(s, a + b, ttl) == fetches_started(s, a, ttl) + fetches_started(
            run(s, a, ttl),
            b,
            ttl,
        ),
        statuses(s, a + b, ttl) == statuses(s, a, ttl) + statuses(run(s, a, ttl), b, ttl),
    decreases a.len(),
{
    if a.len() > 0 {
        let next = next_status(s, a[0], ttl);
        assert((a + b).drop_first() == a.drop_first() + b);
        assert((a + b)[0] == a[0]);
        lemma_run_append(next, a.drop_first(), b, ttl);
        assert(statuses(s, a + b, ttl) == seq![next] + statuses(next, a.drop_first() + b, ttl));
        assert(seq![next] + (statuses(next, a.drop_first(), ttl) + statuses(
            run(next, a.drop_first(), ttl),
            b,
            ttl,
        )) == (seq![next] + statuses(next, a.drop_first(), ttl)) + statuses(
            run(next, a.drop_first(), ttl),
            b,
            ttl,
        ));
    }
}

/// A caller that watches statuses of which all but the last hold no
/// result takes the result of the last.
proof fn lemma_outcome_of_last(watched: Seq<FetchStatus>)
    requires
        watched.len() > 0,
        forall|k: int| 0 <= k < watched.len() - 1 ==> (#[trigger] watched[k]).spec_outcome() is None,
    ensures
        first_outcome(watched) == watched.last().spec_outcome(),
    decreases watched.len(),
{
    if watched.len() > 1 {
        let rest = watched.drop_first();
        assert forall|k: int| 0 <= k < rest.len() - 1 implies (#[trigger] rest[k]).spec_outcome() is None by {
            assert(rest[k] == watched[k + 1]);
        }
        lemma_outcome_of_last(rest);
        assert(rest.last() == watched.last());
    } else {
        assert(watched.drop_first().len() == 0);
        assert(first_outcome(watched.drop_first()) is None);
    }
}

/// Single flight: when any number of callers ask for a resource, before
/// the fetch they need completes, at most one fetch operation starts:
/// exactly one where the resource was never fetched or its result had
/// expired, none where a fetch was already in flight. Every one of those
/// callers, from whichever status it began to watch, takes the same
/// result: the one that fetch produced.
pub proof fn lemma_single_flight(
    start: FetchStatus,
    times: Seq<u64>,
    result: Result<UrlResourceContent, UrlResourceError>,
    done: u64,
    ttl: u64,
)
    requires
        times.len() > 0,
        start is NotFetched || start is Fetching || (start is Fetched && start.spec_starts_fetch(
            times[0],
        )),
    ensures
        ({
            let events = fetch_requests(times).push(CacheEvent::Completed { result, now: done });
            &&& fetches_started(start, events, ttl) == if start is Fetching {
                0nat
            } else {
                1nat
            }
            &&& forall|i: int|
                0 <= i < times.len() ==> first_outcome(
                    #[trigger] statuses(start, events, ttl).skip(i),
                ) == Some(result)
        }),
{
    let completion = CacheEvent::Completed { result, now: done };
    let requests = fetch_requests(times);
    let events = requests.push(completion);
    let first = seq![requests[0]];
    let later = requests.drop_first();
    assert(requests == first + later);
    assert(later == fetch_requests(times.drop_first()));
    lemma_requests_join_in_flight(times.drop_first(), ttl);
    lemma_run_append(start, first, later, ttl);
    assert(first.drop_first() == Seq::<CacheEvent>::empty());
    assert(run(FetchStatus::Fetching, Seq::<CacheEvent>::empty(), ttl) == FetchStatus::Fetching);
    assert(statuses(FetchStatus::Fetching, Seq::<CacheEvent>::empty(), ttl) == Seq::<
        FetchStatus,
    >::empty());
    assert(run(start, first, ttl) == FetchStatus::Fetching);
    assert(fetches_started(start, first, ttl) == if start is Fetching {
        0nat
    } else {
        1nat
    });
    assert(statuses(start, first, ttl) == seq![FetchStatus::Fetching]);
    lemma_run_append(start, requests, seq![completion], ttl);
    assert(events == requests + seq![completion]);
    let fetched = FetchStatus::Fetched { result, expiration: expiration_after(done, ttl) };
    assert(seq![completion].drop_first() == Seq::<CacheEvent>::empty());
    assert(statuses(fetched, Seq::<CacheEvent>::empty(), ttl) == Seq::<FetchStatus>::empty());
    assert(fetches_started(fetched, Seq::<CacheEvent>::empty(), ttl) == 0);
    assert(statuses(FetchStatus::Fetching, seq![completion], ttl) == seq![fetched]);
    assert(fetches_started(FetchStatus::Fetching, seq![completion], ttl) == 0);
    let all = statuses(start, events, ttl);
    assert(all.len() == times.len() + 1);
    assert forall|k: int| 0 <= k < times.len() implies #[trigger] all[k] == FetchStatus::Fetching by {
        if k > 0 {
            assert(all[k] == statuses(FetchStatus::Fetching, later, ttl)[k - 1]);
        }
    }
    assert(all[times.len() as int] == fetched);
    assert forall|i: int| 0 <= i < times.len() implies first_outcome(
        #[trigger] all.skip(i),
    ) == Some(result) by {
        let watched = all.skip(i);
        assert forall|k: int| 0 <= k < watched.len() - 1 implies (
        #[trigger] watched[k]).spec_outcome() is None by {
            assert(watched[k] == all[k + i]);
        }
        lemma_outcome_of_last(watched);
        assert(watched.last() == fetched);
    }
}

/// Whether, while the actor handles the events from status `s` with
/// `in_flight` fetches running, no more than one fetch ever runs. A
/// completion is taken to answer a running fetch; a sequence in which one
/// arrives with none running is no run of the actor, and holds vacuously
/// from that point on.
pub open spec fn at_most_one_in_flight(
    s: FetchStatus,
    events: Seq<CacheEvent>,
    ttl: u64,
    in_flight: nat,
) -> bool
    decreases events.len(),
{
    if events.len() == 0 {
        true
    } else if events[0] is Completed && in_flight == 0 {
        true
    } else {
        let started: nat = if action_for(s, events[0], ttl) is ReplyAndStartFetch {
            1
        } else {
            0
        };
        let finished: nat = if events[0] is Completed {
            1
        } else {
            0
        };
        let running = (in_flight + started - finished) as nat;
        running <= 1 && at_most_one_in_flight(
            next_status(s, events[0], ttl),
            events.drop_first(),
            ttl,
            running,
        )
    }
}

proof fn lemma_in_flight_matches_status(
    s: FetchStatus,
    events: Seq<CacheEvent>,
    ttl: u64,
    in_flight: nat,
)
    requires
        in_flight <= 1,
        (s is Fetching) <==> in_flight == 1,
    ensures
        at_most_one_in_flight(s, events, ttl, in_flight),
    decreases events.len(),
{
    if events.len() > 0 {
        let next = next_status(s, events[0], ttl);
        let started: nat = if action_for(s, events[0], ttl) is ReplyAndStartFetch {
            1
        } else {
            0
        };
        let finished: nat = if events[0] is Completed {
            1
        } else {
            0
        };
        if !(events[0] is Completed && in_flight == 0) {
            let running = (in_flight + started - finished) as nat;
            assert(running <= 1);
            assert((next is Fetching) <==> running == 1);
            lemma_in_flight_matches_status(next, events.drop_first(), ttl, running);
        }
    }
}

/// Single flight at every moment: however requests, clears and
/// completions interleave, the actor never has two fetch operations of its
/// resource running at once.
pub proof fn lemma_never_two_fetches(events: Seq<CacheEvent>, ttl: u64)
    ensures
        at_most_one_in_flight(FetchStatus::NotFetched, events, ttl, 0),
{
    lemma_in_flight_matches_status(FetchStatus::NotFetched, events, ttl, 0);
}

/// A stored result, success and failure alike, is served from the cache
/// without a new fetch until its time-to-live has elapsed; a request at
/// or after that moment starts exactly one new fetch, which every later
/// request joins.
pub proof fn lemma_cached_until_expiry(
    result: Result<UrlResourceContent, UrlResourceError>,
    done: u64,
    ttl: u64,
    now: u64,
    later: Seq<u64>,
)
    requires
        done + ttl <= u64::MAX,
    ensures
        ({
            let stored = next_status(
                FetchStatus::Fetching,
                CacheEvent::Completed { result, now: done },
                ttl,
            );
            &&& stored == FetchStatus::Fetched { result, expiration: (done + ttl) as u64 }
            &&& now < done + ttl ==> {
                &&& action_for(stored, CacheEvent::Fetch { now }, ttl) == ActorAction::Reply
                &&& next_status(stored, CacheEvent::Fetch { now }, ttl) == stored
                &&& stored.spec_outcome() == Some(result)
            }
            &&& now >= done + ttl ==> fetches_started(
                stored,
                fetch_requests(seq![now] + later),
                ttl,
            ) == 1
        }),
{
    let stored = next_status(FetchStatus::Fetching, CacheEvent::Completed { result, now: done }, ttl);
    if now >= done + ttl {
        let events = fetch_requests(seq![now] + later);
        assert(events[0] == CacheEvent::Fetch { now });
        assert(events.drop_first() == fetch_requests(later));
        lemma_requests_join_in_flight(later, ttl);
    }
}

/// A clear that was scheduled for an older result, and arrives after a
/// newer result has replaced it, leaves the newer result in place as long
/// as that one has not expired.
pub proof fn lemma_stale_clear_ignored(
    older: Result<UrlResourceContent, UrlResourceError>,
    first_done: u64,
    refetch_at: u64,
    newer: Result<UrlResourceContent, UrlResourceError>,
    second_done: u64,
    clear_at: u64,
    ttl: u64,
)
    requires
        refetch_at >= expiration_after(first_done, ttl),
        clear_at <= expiration_after(second_done, ttl),
    ensures
        run(
            FetchStatus::Fetching,
            seq![
                CacheEvent::Completed { result: older, now: first_done },
                CacheEvent::Fetch { now: refetch_at },
                CacheEvent::Completed { result: newer, now: second_done },
                CacheEvent::Clear { now: clear_at },
            ],
            ttl,
        ) == (FetchStatus::Fetched { result: newer, expiration: expiration_after(second_done, ttl) }),
{
    let events = seq![
        CacheEvent::Completed { result: older, now: first_done },
        CacheEvent::Fetch { now: refetch_at },
        CacheEvent::Completed { result: newer, now: second_done },
        CacheEvent::Clear { now: clear_at },
    ];
    let s1 = next_status(FetchStatus::Fetching, events[0], ttl);
    let s2 = next_status(s1, events[1], ttl);
    let s3 = next_status(s2, events[2], ttl);
    assert(events.drop_first() == seq![events[1], events[2], events[3]]);
    assert(seq![events[1], events[2], events[3]].drop_first() == seq![events[2], events[3]]);
    assert(seq![events[2], events[3]].drop_first() == seq![events[3]]);
    assert(seq![events[3]].drop_first() == Seq::<CacheEvent>::empty());
    assert(s2 == FetchStatus::Fetching);
    let s4 = next_status(s3, events[3], ttl);
    assert(run(s4, Seq::<CacheEvent>::empty(), ttl) == s4);
    assert(run(s3, seq![events[3]], ttl) == s4);
    assert(run(s2, seq![events[2], events[3]], ttl) == s4);
    assert(run(s1, seq![events[1], events[2], events[3]], ttl) == s4);
}

} // verus!
