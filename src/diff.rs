use vstd::prelude::*;

use crate::namemap::{Duplicate, NameMap};
use crate::territory::{Territory, TerritoryView};

verus! {

/// The view of a change event.
pub enum EventView {
    Territory(Map<Seq<char>, TerritoryView>),
    Capture { name: Seq<char>, old: Option<TerritoryView>, new: TerritoryView },
}

/// A message of the subscriber protocol.
///
/// `Territory` carries territories whose state changed without a change of
/// owner, or the whole current mapping when a session starts. `Capture` says
/// that a territory changed owner (or appeared) and carries it before and after.
#[derive(Clone, Debug)]
pub enum TerrSockMessage {
    Territory(NameMap<Territory>),
    Capture { name: String, old: Option<Territory>, new: Territory },
}

pub open spec fn opt_territory(o: Option<Territory>) -> Option<TerritoryView> {
    match o {
        Some(t) => Some(t@),
        None => None,
    }
}

impl View for TerrSockMessage {
    type V = EventView;

    open spec fn view(&self) -> EventView {
        match self {
            TerrSockMessage::Territory(m) => EventView::Territory(m@),
            TerrSockMessage::Capture { name, old, new } => EventView::Capture {
                name: name@,
                old: opt_territory(*old),
                new: new@,
            },
        }
    }
}

impl TerrSockMessage {
    pub open spec fn wf(&self) -> bool {
        match self {
            TerrSockMessage::Territory(m) => m.wf(),
            _ => true,
        }
    }
}

/// The views of a list of messages.
pub open spec fn events_view(v: Seq<TerrSockMessage>) -> Seq<EventView> {
    v.map_values(|m: TerrSockMessage| m@)
}

/// The event, if any, for territory `name`, now `t`, against the previous mapping:
/// a capture where it is new or its owner's prefix changed, a single-entry
/// territory event where anything else changed, and nothing where it is unchanged.
pub open spec fn event_for(
    old: Map<Seq<char>, TerritoryView>,
    name: Seq<char>,
    t: TerritoryView,
) -> Option<EventView> {
    if !old.contains_key(name) {
        Some(EventView::Capture { name, old: None, new: t })
    } else if old[name].guild.prefix != t.guild.prefix {
        Some(EventView::Capture { name, old: Some(old[name]), new: t })
    } else if old[name] != t {
        Some(EventView::Territory(map![name => t]))
    } else {
        None
    }
}

/// The events for the new territories `keys` / `vals`, in their order.
pub open spec fn diff_events(
    old: Map<Seq<char>, TerritoryView>,
    keys: Seq<Seq<char>>,
    vals: Seq<TerritoryView>,
) -> Seq<EventView>
    decreases keys.len(),
{
    if keys.len() == 0 || vals.len() == 0 {
        Seq::empty()
    } else {
        let rest = diff_events(old, keys.drop_last(), vals.drop_last());
        match event_for(old, keys.last(), vals.last()) {
            Some(e) => rest.push(e),
            None => rest,
        }
    }
}

/// Compares the previous and the new mapping of territories and lists the
/// events that subscribers need, one at most per territory of `new`, in the
/// order of `new`. Territories only in `old` give no event.
pub fn diff(old: &NameMap<Territory>, new: &NameMap<Territory>) -> (r: Vec<TerrSockMessage>)
    requires
        old.wf(),
        new.wf(),
    ensures
        events_view(r@) == diff_events(old@, new.key_seq(), new.value_seq()),
        forall|i: int| 0 <= i < r.len() ==> (#[trigger] r@[i]).wf(),
{
    proof {
        new.lemma_view();
    }
    let mut out: Vec<TerrSockMessage> = Vec::new();
    let mut i: usize = 0;
    while i < new.len()
        invariant
            old.wf(),
            new.wf(),
            i <= new.key_seq().len(),
            new.key_seq().len() == new.value_seq().len(),
            events_view(out@) == diff_events(
                old@,
                new.key_seq().take(i as int),
                new.value_seq().take(i as int),
            ),
            forall|j: int| 0 <= j < out.len() ==> (#[trigger] out@[j]).wf(),
        decreases new.key_seq().len() - i,
    {
        let name = new.name_at(i);
        let t = new.value_at(i);
        let ghost ks = new.key_seq().take(i + 1);
        let ghost vs = new.value_seq().take(i + 1);
        proof {
            assert(ks.drop_last() =~= new.key_seq().take(i as int));
            assert(vs.drop_last() =~= new.value_seq().take(i as int));
            assert(ks.last() == name@);
            assert(vs.last() == t@);
        }
        let ghost prev = out@;
        match old.get(name) {
            None => {
                out.push(TerrSockMessage::Capture { name: name.clone(), old: None, new: t.duplicate() });
            },
            Some(o) => {
                if !o.same_owner(t) {
                    out.push(
                        TerrSockMessage::Capture {
                            name: name.clone(),
                            old: Some(o.duplicate()),
                            new: t.duplicate(),
                        },
                    );
                } else if !o.same_as(t) {
                    let mut m: NameMap<Territory> = NameMap::new();
                    m.insert(name.clone(), t.duplicate());
                    proof {
                        assert(m@ =~= map![name@ => t@]);
                    }
                    out.push(TerrSockMessage::Territory(m));
                }
            },
        }
        proof {
            assert(out@.drop_last() == prev || out@ == prev);
            if out@.len() > prev.len() {
                assert(out@ =~= prev.push(out@.last()));
                assert(events_view(out@) =~= events_view(prev).push(out@.last()@));
            }
        }
        i = i + 1;
    }
    proof {
        assert(new.key_seq().take(new.key_seq().len() as int) =~= new.key_seq());
        assert(new.value_seq().take(new.value_seq().len() as int) =~= new.value_seq());
    }
    out
}


/// How many capture events in `evs` name `name`.
pub open spec fn capture_count(evs: Seq<EventView>, name: Seq<char>) -> nat
    decreases evs.len(),
{
    if evs.len() == 0 {
        0
    } else {
        capture_count(evs.drop_last(), name) + match evs.last() {
            EventView::Capture { name: n, .. } => if n == name {
                1nat
            } else {
                0nat
            },
            _ => 0nat,
        }
    }
}

/// No territory event of `evs` carries `name`.
pub open spec fn no_territory_event_for(evs: Seq<EventView>, name: Seq<char>) -> bool {
    forall|j: int|
        0 <= j < evs.len() ==> match #[trigger] evs[j] {
            EventView::Territory(m) => !m.contains_key(name),
            _ => true,
        }
}

proof fn lemma_capture_once(
    old: Map<Seq<char>, TerritoryView>,
    keys: Seq<Seq<char>>,
    vals: Seq<TerritoryView>,
    name: Seq<char>,
)
    requires
        keys.no_duplicates(),
        keys.len() == vals.len(),
        forall|j: int|
            0 <= j < keys.len() && keys[j] == name ==> (event_for(old, name, #[trigger] vals[j]) matches Some(
                EventView::Capture { .. },
            )),
    ensures
        capture_count(diff_events(old, keys, vals), name) == (if keys.contains(name) {
            1nat
        } else {
            0nat
        }),
        no_territory_event_for(diff_events(old, keys, vals), name),
    decreases keys.len(),
{
    if keys.len() > 0 {
        let ks = keys.drop_last();
        let vs = vals.drop_last();
        assert(ks.no_duplicates());
        assert forall|j: int| 0 <= j < ks.len() && ks[j] == name implies (event_for(
            old,
            name,
            #[trigger] vs[j],
        ) matches Some(EventView::Capture { .. })) by {
            assert(keys[j] == name);
            assert(vals[j] == vs[j]);
        }
        lemma_capture_once(old, ks, vs, name);
        let rest = diff_events(old, ks, vs);
        let k = keys.last();
        assert(keys[keys.len() - 1] == k);
        if k == name {
            assert(!ks.contains(name)) by {
                if ks.contains(name) {
                    let j = ks.index_of(name);
                    assert(keys[j] == keys[keys.len() - 1]);
                }
            }
            assert(keys.contains(name));
        } else {
            assert(keys.contains(name) == ks.contains(name)) by {
                if keys.contains(name) {
                    let j = keys.index_of(name);
                    assert(ks[j] == name);
                }
            }
        }
        let evs = diff_events(old, keys, vals);
        match event_for(old, k, vals.last()) {
            Some(e) => {
                assert(evs == rest.push(e));
                assert(evs.drop_last() =~= rest);
                assert forall|j: int| 0 <= j < evs.len() implies match #[trigger] evs[j] {
                    EventView::Territory(m) => !m.contains_key(name),
                    _ => true,
                } by {
                    if j < rest.len() {
                        assert(evs[j] == rest[j]);
                    }
                }
            },
            None => {},
        }
    }
}

/// A territory present in both mappings whose owner's prefix differs (in
/// particular, one where only the prefix differs) gives exactly one capture
/// event and no territory event.
pub proof fn law_prefix_change_is_one_capture(
    old: &NameMap<Territory>,
    new: &NameMap<Territory>,
    name: Seq<char>,
)
    requires
        old.wf(),
        new.wf(),
        old@.contains_key(name),
        new@.contains_key(name),
        old@[name].guild.prefix != new@[name].guild.prefix,
    ensures
        capture_count(diff_events(old@, new.key_seq(), new.value_seq()), name) == 1,
        no_territory_event_for(diff_events(old@, new.key_seq(), new.value_seq()), name),
{
    new.lemma_view();
    assert(new.key_seq().to_set().contains(name));
    assert forall|j: int|
        0 <= j < new.key_seq().len() && new.key_seq()[j] == name implies (event_for(
        old@,
        name,
        #[trigger] new.value_seq()[j],
    ) matches Some(EventView::Capture { .. })) by {
        assert(new@[new.key_seq()[j]] == new.value_seq()[j]);
    }
    lemma_capture_once(old@, new.key_seq(), new.value_seq(), name);
}

proof fn lemma_no_change_no_events(
    old: Map<Seq<char>, TerritoryView>,
    keys: Seq<Seq<char>>,
    vals: Seq<TerritoryView>,
)
    requires
        keys.len() == vals.len(),
        forall|j: int|
            0 <= j < keys.len() ==> old.contains_key(#[trigger] keys[j]) && old[keys[j]] == vals[j],
    ensures
        diff_events(old, keys, vals) == Seq::<EventView>::empty(),
    decreases keys.len(),
{
    if keys.len() > 0 {
        let ks = keys.drop_last();
        let vs = vals.drop_last();
        assert forall|j: int| 0 <= j < ks.len() implies old.contains_key(#[trigger] ks[j])
            && old[ks[j]] == vs[j] by {
            assert(keys[j] == ks[j]);
        }
        lemma_no_change_no_events(old, ks, vs);
        assert(keys[keys.len() - 1] == keys.last());
    }
}

/// Two equal mappings give no events.
pub proof fn law_no_change_no_events(old: &NameMap<Territory>, new: &NameMap<Territory>)
    requires
        old.wf(),
        new.wf(),
        old@ == new@,
    ensures
        diff_events(old@, new.key_seq(), new.value_seq()) == Seq::<EventView>::empty(),
{
    new.lemma_view();
    assert forall|j: int| 0 <= j < new.key_seq().len() implies old@.contains_key(
        #[trigger] new.key_seq()[j],
    ) && old@[new.key_seq()[j]] == new.value_seq()[j] by {
        assert(new.key_seq().to_set().contains(new.key_seq()[j]));
    }
    lemma_no_change_no_events(old@, new.key_seq(), new.value_seq());
}

} // verus!
