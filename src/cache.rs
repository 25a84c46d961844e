//! The cache entry of one resource: its states, the events its actor
//! handles, and what the runtime must do after each.
use vstd::prelude::*;

use crate::content::{same_content, UrlResourceContent};
use crate::error::UrlResourceError;

verus! {

/// The state of one resource's cache entry, as the actor holds it and as
/// it publishes it to every caller that waits.
///
/// Times are milliseconds of a monotonic clock.
#[derive(Debug)]
pub enum FetchStatus {
    NotFetched,
    Fetching,
    Fetched { result: Result<UrlResourceContent, UrlResourceError>, expiration: u64 },
}

/// Whether two results are alike: the same bytes and label, or the same
/// failure.
pub open spec fn same_result(
    a: Result<UrlResourceContent, UrlResourceError>,
    b: Result<UrlResourceContent, UrlResourceError>,
) -> bool {
    match (a, b) {
        (Ok(x), Ok(y)) => same_content(x, y),
        (Err(x), Err(y)) => x == y,
        _ => false,
    }
}

impl Clone for FetchStatus {
    /// The same status; a fetched one keeps its expiration, and its result
    /// the same bytes, label or failure.
    fn clone(&self) -> (r: Self)
        ensures
            match *self {
                FetchStatus::NotFetched => r is NotFetched,
                FetchStatus::Fetching => r is Fetching,
                FetchStatus::Fetched { result, expiration } => r matches FetchStatus::Fetched {
                    result: cloned,
                    expiration: e,
                } && e == expiration && same_result(cloned, result),
            },
    {
        match self {
            FetchStatus::NotFetched => FetchStatus::NotFetched,
            FetchStatus::Fetching => FetchStatus::Fetching,
            FetchStatus::Fetched { result, expiration } => {
                let result = match result {
                    Ok(content) => Ok(content.clone()),
                    Err(e) => Err(e.clone()),
                };
                FetchStatus::Fetched { result, expiration: *expiration }
            },
        }
    }
}

/// What the actor is asked to do, with the time at which it handles it.
pub enum CacheEvent {
    /// A caller wants the resource.
    Fetch { now: u64 },
    /// The deferred self-clear of an entry whose time-to-live elapsed.
    Clear { now: u64 },
    /// The fetch operation that the actor started has finished.
    Completed { result: Result<UrlResourceContent, UrlResourceError>, now: u64 },
}

/// What the runtime around the actor must do after one event.
#[derive(Clone, Copy, Debug, PartialEq, Eq)]
pub enum ActorAction {
    /// Hand the caller a watch on the published status.
    Reply,
    /// Publish the new status (a fetch is in flight), start the fetch
    /// operation, and hand the caller a watch on the published status.
    ReplyAndStartFetch,
    /// Publish the new status (the entry was cleared).
    Publish,
    /// Publish the new status (a result was stored), and deliver a clear
    /// to the actor at the given time: the first instant at which the
    /// result's expiration lies in the past.
    PublishAndScheduleClear { at: u64 },
    /// Nothing changed.
    Ignore,
}

/// Whether an entry that expires at `expiration` has expired at `now`, as
/// a fetch request sees it: from the expiration on, the entry is stale.
pub open spec fn is_expired(expiration: u64, now: u64) -> bool {
    expiration <= now
}

/// Whether the expiration of an entry lies in the past at `now`, as the
/// deferred clear sees it: a clear handled at the very instant of the
/// expiration keeps the entry.
pub open spec fn is_past(expiration: u64, now: u64) -> bool {
    expiration < now
}

/// The expiration of a result stored at `now` under a time-to-live of
/// `ttl`; the clock's last instant where the sum exceeds it.
pub open spec fn expiration_after(now: u64, ttl: u64) -> u64 {
    if now + ttl <= u64::MAX {
        (now + ttl) as u64
    } else {
        u64::MAX
    }
}

/// When the clear of an entry that expires at `expiration` is delivered:
/// just after it, or at the clock's last instant.
pub open spec fn clear_instant(expiration: u64) -> u64 {
    if expiration < u64::MAX {
        (expiration + 1) as u64
    } else {
        u64::MAX
    }
}

impl FetchStatus {
    /// Whether a fetch request arriving at `now` must start a fetch: the
    /// resource was never fetched, or its result has expired.
    pub open spec fn spec_starts_fetch(self, now: u64) -> bool {
        match self {
            FetchStatus::NotFetched => true,
            FetchStatus::Fetching => false,
            FetchStatus::Fetched { expiration, .. } => is_expired(expiration, now),
        }
    }

    /// The result a waiting caller takes from a published status, if the
    /// status holds one.
    pub open spec fn spec_outcome(self) -> Option<Result<UrlResourceContent, UrlResourceError>> {
        match self {
            FetchStatus::Fetched { result, .. } => Some(result),
            _ => None,
        }
    }

    /// The result a waiting caller takes from a published status: the
    /// result of a fetched status; none while the resource is not yet
    /// fetched or a fetch is in flight, so the caller keeps waiting.
    pub fn into_outcome(self) -> (r: Option<Result<UrlResourceContent, UrlResourceError>>)
        ensures
            r == self.spec_outcome(),
    {
        match self {
            FetchStatus::Fetched { result, .. } => Some(result),
            _ => None,
        }
    }
}

/// The failure a waiting caller reports when the published statuses end
/// before any holds a result: the actor is gone.
pub fn watch_closed() -> (e: UrlResourceError)
    ensures
        e matches UrlResourceError::ServiceUnavailable { message } && message@
            == "URL resource watch stream ended"@,
{
    UrlResourceError::new_service_unavailable(
        String::from_str("URL resource watch stream ended"),
    )
}

/// The status after the actor handles one event.
pub open spec fn next_status(s: FetchStatus, e: CacheEvent, ttl: u64) -> FetchStatus {
    match e {
        CacheEvent::Fetch { now } => if s.spec_starts_fetch(now) {
            FetchStatus::Fetching
        } else {
            s
        },
        CacheEvent::Clear { now } => match s {
            FetchStatus::Fetched { expiration, .. } => if is_past(expiration, now) {
                FetchStatus::NotFetched
            } else {
                s
            },
            _ => s,
        },
        CacheEvent::Completed { result, now } => match s {
            FetchStatus::Fetching => FetchStatus::Fetched {
                result,
                expiration: expiration_after(now, ttl),
            },
            _ => s,
        },
    }
}

/// What the runtime must do after the actor handles one event.
pub open spec fn action_for(s: FetchStatus, e: CacheEvent, ttl: u64) -> ActorAction {
    match e {
        CacheEvent::Fetch { now } => if s.spec_starts_fetch(now) {
            ActorAction::ReplyAndStartFetch
        } else {
            ActorAction::Reply
        },
        CacheEvent::Clear { now } => if next_status(s, e, ttl) is NotFetched && s is Fetched {
            ActorAction::Publish
        } else {
            ActorAction::Ignore
        },
        CacheEvent::Completed { now, .. } => if s is Fetching {
            ActorAction::PublishAndScheduleClear { at: clear_instant(expiration_after(now, ttl)) }
        } else {
            ActorAction::Ignore
        },
    }
}

/// The status after the actor handles a sequence of events in order.
pub open spec fn run(s: FetchStatus, events: Seq<CacheEvent>, ttl: u64) -> FetchStatus
    decreases events.len(),
{
    if events.len() == 0 {
        s
    } else {
        run(next_status(s, events[0], ttl), events.drop_first(), ttl)
    }
}

/// How many fetch operations the actor starts while it handles a sequence
/// of events.
pub open spec fn fetches_started(s: FetchStatus, events: Seq<CacheEvent>, ttl: u64) -> nat
    decreases events.len(),
{
    if events.len() == 0 {
        0
    } else {
        (if action_for(s, events[0], ttl) is ReplyAndStartFetch {
            1nat
        } else {
            0nat
        }) + fetches_started(next_status(s, events[0], ttl), events.drop_first(), ttl)
    }
}

/// The statuses the actor holds after each event of a sequence; a caller
/// whose request is the `i`-th event watches them from index `i` on.
pub open spec fn statuses(s: FetchStatus, events: Seq<CacheEvent>, ttl: u64) -> Seq<FetchStatus>
    decreases events.len(),
{
    if events.len() == 0 {
        Seq::empty()
    } else {
        let next = next_status(s, events[0], ttl);
        seq![next] + statuses(next, events.drop_first(), ttl)
    }
}

/// The result a caller takes from the statuses it watches: that of the
/// first status that holds one.
pub open spec fn first_outcome(watched: Seq<FetchStatus>) -> Option<
    Result<UrlResourceContent, UrlResourceError>,
>
    decreases watched.len(),
{
    if watched.len() == 0 {
        None
    } else {
        match watched[0].spec_outcome() {
            Some(r) => Some(r),
            None => first_outcome(watched.drop_first()),
        }
    }
}

/// Fetch requests that arrive at the given times.
pub open spec fn fetch_requests(times: Seq<u64>) -> Seq<CacheEvent> {
    times.map_values(|t: u64| CacheEvent::Fetch { now: t })
}

/// The cache entry of one resource, owned by its actor, which alone
/// changes it.
pub struct ResourceCache {
    status: FetchStatus,
    ttl_millis: u64,
}

impl ResourceCache {
    pub closed spec fn spec_status(&self) -> FetchStatus {
        self.status
    }

    pub closed spec fn spec_ttl(&self) -> u64 {
        self.ttl_millis
    }

    /// An entry that was never fetched.
    pub fn new(ttl_millis: u64) -> (r: Self)
        ensures
            r.spec_status() is NotFetched,
            r.spec_ttl() == ttl_millis,
    {
        ResourceCache { status: FetchStatus::NotFetched, ttl_millis }
    }

    /// The status to publish.
    pub fn status(&self) -> (r: &FetchStatus)
        ensures
            *r == self.spec_status(),
    {
        &self.status
    }

    pub fn ttl_millis(&self) -> (r: u64)
        ensures
            r == self.spec_ttl(),
    {
        self.ttl_millis
    }

    /// A caller wants the resource. It joins a fetch in flight, or takes a
    /// result that has not expired; otherwise a fetch starts.
    pub fn on_fetch(&mut self, now: u64) -> (r: ActorAction)
        ensures
            final(self).spec_status() == next_status(
                old(self).spec_status(),
                CacheEvent::Fetch { now },
                old(self).spec_ttl(),
            ),
            final(self).spec_ttl() == old(self).spec_ttl(),
            r == action_for(old(self).spec_status(), CacheEvent::Fetch { now }, old(self).spec_ttl()),
    {
        let starts = match &self.status {
            FetchStatus::NotFetched => true,
            FetchStatus::Fetching => false,
            FetchStatus::Fetched { expiration, .. } => *expiration <= now,
        };
        if starts {
            self.status = FetchStatus::Fetching;
            ActorAction::ReplyAndStartFetch
        } else {
            ActorAction::Reply
        }
    }

    /// The deferred clear of an entry. It resets a result whose expiration
    /// lies in the past and leaves everything else as it is, so a clear meant for an older
    /// result cannot reset a newer one.
    pub fn on_clear(&mut self, now: u64) -> (r: ActorAction)
        ensures
            final(self).spec_status() == next_status(
                old(self).spec_status(),
                CacheEvent::Clear { now },
                old(self).spec_ttl(),
            ),
            final(self).spec_ttl() == old(self).spec_ttl(),
            r == action_for(old(self).spec_status(), CacheEvent::Clear { now }, old(self).spec_ttl()),
    {
        let clear = match &self.status {
            FetchStatus::Fetched { expiration, .. } => *expiration < now,
            _ => false,
        };
        if clear {
            self.status = FetchStatus::NotFetched;
            ActorAction::Publish
        } else {
            ActorAction::Ignore
        }
    }

    /// The fetch in flight has finished. Its result, success or failure
    /// alike, is stored until its time-to-live has elapsed.
    pub fn on_fetch_completed(
        &mut self,
        result: Result<UrlResourceContent, UrlResourceError>,
        now: u64,
    ) -> (r: ActorAction)
        ensures
            final(self).spec_status() == next_status(
                old(self).spec_status(),
                CacheEvent::Completed { result, now },
                old(self).spec_ttl(),
            ),
            final(self).spec_ttl() == old(self).spec_ttl(),
            r == action_for(
                old(self).spec_status(),
                CacheEvent::Completed { result, now },
                old(self).spec_ttl(),
            ),
    {
        if matches!(self.status, FetchStatus::Fetching) {
            let expiration = now.saturating_add(self.ttl_millis);
            self.status = FetchStatus::Fetched { result, expiration };
            ActorAction::PublishAndScheduleClear { at: expiration.saturating_add(1) }
        } else {
            ActorAction::Ignore
        }
    }

    /// Handles one event, in the order in which events arrive.
    pub fn handle(&mut self, event: CacheEvent) -> (r: ActorAction)
        ensures
            final(self).spec_status() == next_status(old(self).spec_status(), event, old(self).spec_ttl()),
            final(self).spec_ttl() == old(self).spec_ttl(),
            r == action_for(old(self).spec_status(), event, old(self).spec_ttl()),
    {
        match event {
            CacheEvent::Fetch { now } => self.on_fetch(now),
            CacheEvent::Clear { now } => self.on_clear(now),
            CacheEvent::Completed { result, now } => self.on_fetch_completed(result, now),
        }
    }
}

} // verus!
