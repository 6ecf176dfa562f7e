use std::sync::Arc;
use vstd::prelude::*;

use crate::cadence::{header_instant, next_poll_delay, poll_delay, ttl_from_headers, ttl_of};
use crate::diff::{diff, diff_events, events_view, TerrSockMessage};
use crate::merge::{merge, merged_map, GuildColor, UpstreamTerritory};
use crate::namemap::NameMap;
use crate::snapshot::Snapshot;
use crate::store::{valid_fn, Store};
use crate::territory::ExTerrInfo;

verus! {

/// The candidate snapshot of one poll: the upstream records merged with the
/// enrichment, stored at `now` (the end of the response) and valid for the
/// window that the response's `Date` and `Expires` headers give.
pub fn build_snapshot(
    upstream: &Vec<UpstreamTerritory>,
    guilds: &NameMap<GuildColor>,
    extra: &NameMap<ExTerrInfo>,
    now: i64,
    date: &Option<String>,
    expires: &Option<String>,
) -> (r: Snapshot)
    requires
        guilds.wf(),
        extra.wf(),
    ensures
        r.wf(),
        r.territories@ == merged_map(upstream@, guilds@, extra@),
        r.stored_at == now,
        r.expires == now + ttl_of(header_instant(*date), header_instant(*expires)),
{
    let territories = merge(upstream, guilds, extra);
    let ttl = ttl_from_headers(date, expires);
    Snapshot::new(territories, now, ttl)
}

/// What one publication did: the snapshot that was replaced, the one that
/// replaced it, and the events for subscribers between the two.
pub struct Published {
    pub previous: Arc<Snapshot>,
    pub current: Arc<Snapshot>,
    pub events: Vec<TerrSockMessage>,
}

impl Published {
    pub open spec fn wf(&self) -> bool {
        &&& (*self.previous).wf()
        &&& (*self.current).wf()
        &&& events_view(self.events@) == diff_events(
            self.previous.territories@,
            self.current.territories.key_seq(),
            self.current.territories.value_seq(),
        )
    }
}

/// Swaps `candidate` into the store, then computes the events between the
/// snapshot it replaced and it. The events are only handed out after the
/// swap, so a reader that looks at the store after seeing one sees at least
/// that state.
pub fn publish(store: &Store<Snapshot>, candidate: Snapshot) -> (r: Published)
    requires
        store.wf(),
        store.admits() == valid_fn::<Snapshot>(),
        candidate.wf(),
    ensures
        r.wf(),
        *r.current == candidate,
{
    let current = Arc::new(candidate);
    let previous = store.swap(current.clone());
    let events = diff(&previous.territories, &current.territories);
    Published { previous, current, events }
}

/// The result of one poll: what was published, and the wait before the next poll.
pub struct PollOutcome {
    pub published: Published,
    pub next_poll_secs: u64,
}

/// One successful poll: reads the current enrichment, merges the upstream
/// records into a candidate snapshot, publishes it, and computes when to poll
/// again.
pub fn poll_cycle(
    territories: &Store<Snapshot>,
    guilds: &Store<NameMap<GuildColor>>,
    extra: &Store<NameMap<ExTerrInfo>>,
    upstream: &Vec<UpstreamTerritory>,
    now: i64,
    date: &Option<String>,
    expires: &Option<String>,
) -> (r: PollOutcome)
    requires
        territories.wf(),
        guilds.wf(),
        extra.wf(),
        territories.admits() == valid_fn::<Snapshot>(),
        guilds.admits() == valid_fn::<NameMap<GuildColor>>(),
        extra.admits() == valid_fn::<NameMap<ExTerrInfo>>(),
    ensures
        r.published.wf(),
        exists|g: NameMap<GuildColor>, e: NameMap<ExTerrInfo>|
            g.wf() && e.wf() && r.published.current.territories@ == merged_map(upstream@, g@, e@),
        r.published.current.stored_at == now,
        r.published.current.expires == now + ttl_of(header_instant(*date), header_instant(*expires)),
        r.next_poll_secs == poll_delay(ttl_of(header_instant(*date), header_instant(*expires))),
{
    let g = guilds.read();
    let e = extra.read();
    let candidate = build_snapshot(upstream, &g, &e, now, date, expires);
    let published = publish(territories, candidate);
    let ttl = ttl_from_headers(date, expires);
    proof {
        let gv: NameMap<GuildColor> = *g;
        let ev: NameMap<ExTerrInfo> = *e;
        assert(gv.wf() && ev.wf() && published.current.territories@ == merged_map(upstream@, gv@, ev@));
    }
    PollOutcome { published, next_poll_secs: next_poll_delay(ttl) }
}

} // verus!
