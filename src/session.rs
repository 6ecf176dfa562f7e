use vstd::prelude::*;

use crate::diff::{EventView, TerrSockMessage};
use crate::namemap::{zip_map, Duplicate, NameMap};
use crate::snapshot::Snapshot;
use crate::territory::{Territory, TerritoryView};

verus! {

/// Where a subscriber session stands. A session starts in `Syncing`, moves to
/// `Streaming` once it has sent the full state, and ends in `Closed`.
#[derive(Clone, Copy, Debug, PartialEq, Eq, Structural)]
pub enum SessionState {
    Syncing,
    Streaming,
    Closed,
}

/// The code and reason of a close frame.
#[derive(Clone, Debug)]
pub struct CloseFrame {
    pub code: u16,
    pub reason: String,
}

/// What happened to a streaming session.
#[derive(Clone, Debug)]
pub enum SessionEvent {
    /// The hub delivered an event.
    Broadcast(TerrSockMessage),
    /// The session fell behind the hub, which dropped this many events.
    Lagged(u64),
    /// The hub has no producer left.
    HubClosed,
    /// The peer sent a keepalive probe with this payload.
    Ping(Vec<u8>),
    /// The peer sent a close frame.
    Close(Option<CloseFrame>),
    /// The peer sent some other frame.
    OtherFrame,
    /// The connection ended or failed to deliver a frame.
    ConnectionEnded,
    /// Nothing happened for the keepalive interval.
    IdleTimeout,
    /// Sending a frame failed.
    SendFailed,
}

/// What a session does next.
#[derive(Clone, Debug)]
pub enum SessionAction {
    /// Send this message to the peer.
    Send(TerrSockMessage),
    /// Answer a keepalive probe with the same payload.
    Pong(Vec<u8>),
    /// Send a keepalive probe.
    Ping,
    /// Echo the peer's close frame; the session then ends.
    Close(Option<CloseFrame>),
    /// End the session.
    Stop,
    /// Wait for the next event.
    Wait,
}

/// Seconds without traffic after which a session sends its own keepalive probe.
pub const KEEPALIVE_SECS: u64 = 30;

/// The full-state message that a session sends first: every territory of the snapshot.
pub fn resync_message(snap: &Snapshot) -> (r: TerrSockMessage)
    requires
        snap.wf(),
    ensures
        r.wf(),
        r@ == EventView::Territory(snap.territories@),
{
    TerrSockMessage::Territory(snap.territories.duplicate_map())
}

/// Starts a session on the snapshot that the store holds at connection time:
/// it sends the full state and moves on to streaming.
pub fn begin(snap: &Snapshot) -> (r: (SessionState, SessionAction))
    requires
        snap.wf(),
    ensures
        r.0 == SessionState::Streaming,
        r.1 matches SessionAction::Send(m) && m@ == EventView::Territory(snap.territories@)
            && m.wf(),
{
    (SessionState::Streaming, SessionAction::Send(resync_message(snap)))
}

/// The state and action that follow an event in a streaming or closed session.
pub open spec fn step_spec(state: SessionState, ev: SessionEvent) -> (SessionState, SessionAction) {
    if state == SessionState::Closed {
        (SessionState::Closed, SessionAction::Stop)
    } else {
        match ev {
            SessionEvent::Broadcast(m) => (SessionState::Streaming, SessionAction::Send(m)),
            SessionEvent::Lagged(_) => (SessionState::Streaming, SessionAction::Wait),
            SessionEvent::HubClosed => (SessionState::Closed, SessionAction::Stop),
            SessionEvent::Ping(p) => (SessionState::Streaming, SessionAction::Pong(p)),
            SessionEvent::Close(f) => (SessionState::Closed, SessionAction::Close(f)),
            SessionEvent::OtherFrame => (SessionState::Streaming, SessionAction::Wait),
            SessionEvent::ConnectionEnded => (SessionState::Closed, SessionAction::Stop),
            SessionEvent::IdleTimeout => (SessionState::Streaming, SessionAction::Ping),
            SessionEvent::SendFailed => (SessionState::Closed, SessionAction::Stop),
        }
    }
}

/// Advances a session that has sent its full state: relays hub events,
/// answers probes, echoes a close and ends, and ends when the connection or a
/// send fails. A dropped run of hub events does not end the session.
pub fn step(state: SessionState, ev: SessionEvent) -> (r: (SessionState, SessionAction))
    requires
        state != SessionState::Syncing,
    ensures
        r == step_spec(state, ev),
{
    if state == SessionState::Closed {
        return (SessionState::Closed, SessionAction::Stop);
    }
    match ev {
        SessionEvent::Broadcast(m) => (SessionState::Streaming, SessionAction::Send(m)),
        SessionEvent::Lagged(_) => (SessionState::Streaming, SessionAction::Wait),
        SessionEvent::HubClosed => (SessionState::Closed, SessionAction::Stop),
        SessionEvent::Ping(p) => (SessionState::Streaming, SessionAction::Pong(p)),
        SessionEvent::Close(f) => (SessionState::Closed, SessionAction::Close(f)),
        SessionEvent::OtherFrame => (SessionState::Streaming, SessionAction::Wait),
        SessionEvent::ConnectionEnded => (SessionState::Closed, SessionAction::Stop),
        SessionEvent::IdleTimeout => (SessionState::Streaming, SessionAction::Ping),
        SessionEvent::SendFailed => (SessionState::Closed, SessionAction::Stop),
    }
}

/// A subscriber's mapping after it applies an event: a territory event adds
/// or replaces its entries, a capture replaces the captured territory.
pub open spec fn apply_event(
    client: Map<Seq<char>, TerritoryView>,
    e: EventView,
) -> Map<Seq<char>, TerritoryView> {
    match e {
        EventView::Territory(m) => client.union_prefer_right(m),
        EventView::Capture { name, new, .. } => client.insert(name, new),
    }
}

proof fn lemma_zip_take_step(ks: Seq<Seq<char>>, vs: Seq<TerritoryView>, i: int)
    requires
        ks.no_duplicates(),
        ks.len() == vs.len(),
        0 <= i < ks.len(),
    ensures
        zip_map(ks.take(i + 1), vs.take(i + 1)) == zip_map(ks.take(i), vs.take(i)).insert(
            ks[i],
            vs[i],
        ),
{
    let a = zip_map(ks.take(i + 1), vs.take(i + 1));
    let b = zip_map(ks.take(i), vs.take(i)).insert(ks[i], vs[i]);
    assert(ks.take(i + 1).no_duplicates());
    assert(ks.take(i).no_duplicates());
    assert forall|k: Seq<char>| a.contains_key(k) <==> b.contains_key(k) by {
        if ks.take(i + 1).contains(k) {
            let j = ks.take(i + 1).index_of(k);
            if j < i {
                assert(ks.take(i)[j] == k);
            }
        }
        if ks.take(i).contains(k) {
            let j = ks.take(i).index_of(k);
            assert(ks.take(i + 1)[j] == k);
        }
        if k == ks[i] {
            assert(ks.take(i + 1)[i] == k);
        }
    }
    assert forall|k: Seq<char>| a.contains_key(k) implies a[k] == b[k] by {
        let j = ks.take(i + 1).index_of(k);
        assert(ks.take(i + 1)[j] == k);
        if j < i {
            assert(ks.take(i)[j] == k);
            assert(ks.take(i).contains(k));
            let j2 = ks.take(i).index_of(k);
            assert(ks.take(i)[j2] == k);
            assert(ks[j2] == ks[j]);
            assert(k != ks[i]);
        } else {
            assert(j == i);
        }
    }
    assert(a =~= b);
}

/// Applies a received message to a subscriber's mapping.
pub fn apply_message(client: &mut NameMap<Territory>, msg: &TerrSockMessage)
    requires
        old(client).wf(),
        msg.wf(),
    ensures
        final(client).wf(),
        final(client)@ == apply_event(old(client)@, msg@),
{
    match msg {
        TerrSockMessage::Capture { name, new, .. } => {
            client.insert(name.clone(), new.duplicate());
        },
        TerrSockMessage::Territory(m) => {
            proof {
                m.lemma_view();
            }
            let ghost start = client@;
            let mut i: usize = 0;
            while i < m.len()
                invariant
                    m.wf(),
                    client.wf(),
                    i <= m.key_seq().len(),
                    m.key_seq().len() == m.value_seq().len(),
                    m.key_seq().no_duplicates(),
                    client@ == start.union_prefer_right(
                        zip_map(m.key_seq().take(i as int), m.value_seq().take(i as int)),
                    ),
                decreases m.key_seq().len() - i,
            {
                let name = m.name_at(i);
                let t = m.value_at(i);
                client.insert(name.clone(), t.duplicate());
                proof {
                    lemma_zip_take_step(m.key_seq(), m.value_seq(), i as int);
                    assert(client@ =~= start.union_prefer_right(
                        zip_map(m.key_seq().take(i + 1), m.value_seq().take(i + 1)),
                    ));
                }
                i = i + 1;
            }
            proof {
                assert(m.key_seq().take(m.key_seq().len() as int) =~= m.key_seq());
                assert(m.value_seq().take(m.value_seq().len() as int) =~= m.value_seq());
            }
        },
    }
}

/// A subscriber that has received only the first message of its session
/// holds exactly the territories of the snapshot the session started on.
pub proof fn law_resync_rebuilds_snapshot(snap: &Snapshot)
    requires
        snap.wf(),
    ensures
        apply_event(Map::empty(), EventView::Territory(snap.territories@)) == snap.territories@,
{
    assert(Map::<Seq<char>, TerritoryView>::empty().union_prefer_right(snap.territories@)
        =~= snap.territories@);
}

/// A subscriber that reconnects rebuilds its mapping from the first message
/// of the new session alone: whatever it held and whatever events it missed,
/// it ends up with exactly the territories of the store's current snapshot.
pub proof fn law_reconnect_ignores_missed_events(
    current: &Snapshot,
    held_before: Map<Seq<char>, TerritoryView>,
    missed: Seq<EventView>,
)
    requires
        current.wf(),
    ensures
        apply_event(Map::empty(), EventView::Territory(current.territories@))
            == current.territories@,
{
    law_resync_rebuilds_snapshot(current);
}

} // verus!
