use std::sync::Arc;

use wynnmap::cache::{extra_cache_control, http_date, snapshot_headers, static_cache_control};
use wynnmap::cadence::{next_poll_delay, ttl_from_headers, ttl_from_instants};
use wynnmap::diff::{diff, TerrSockMessage};
use wynnmap::externals::find_externals;
use wynnmap::guild::Guild;
use wynnmap::merge::{build_guild_directory, merge, ColoredGuild, GuildColor, UpstreamTerritory};
use wynnmap::namemap::NameMap;
use wynnmap::poll::{build_snapshot, poll_cycle, publish};
use wynnmap::region::Region;
use wynnmap::resources::Resources;
use wynnmap::session::{
    apply_message, begin, resync_message, step, CloseFrame, SessionAction, SessionEvent,
    SessionState,
};
use wynnmap::snapshot::Snapshot;
use wynnmap::store::Store;
use wynnmap::territory::{ExTerrInfo, Territory};

const T0: i64 = 1_700_000_000_000;
const T1: i64 = 1_700_000_360_000;

fn guild(prefix: &str) -> Guild {
    Guild {
        uuid: None,
        name: format!("{prefix} Guild"),
        prefix: prefix.to_string(),
        color: None,
    }
}

fn terr(prefix: &str, acquired: i64) -> Territory {
    Territory {
        location: Region::new([0, 0], [10, 10]),
        guild: guild(prefix),
        acquired,
        connections: vec!["Detlas".to_string()],
        generates: Resources { emeralds: 9000, ore: 0, crops: 0, fish: 0, wood: 0 },
    }
}

fn map_of(entries: Vec<(&str, Territory)>) -> NameMap<Territory> {
    let mut m = NameMap::new();
    for (n, t) in entries {
        m.insert(n.to_string(), t);
    }
    m
}

fn no_enrichment() -> (NameMap<GuildColor>, NameMap<ExTerrInfo>) {
    (NameMap::new(), NameMap::new())
}

#[test]
fn ownership_change_is_one_capture() {
    let old = map_of(vec![("Ahmsord", terr("ABC", T0)), ("Detlas", terr("DDD", T0))]);
    let new = map_of(vec![("Ahmsord", terr("XYZ", T1)), ("Detlas", terr("DDD", T0))]);
    let evs = diff(&old, &new);
    assert_eq!(evs.len(), 1);
    match &evs[0] {
        TerrSockMessage::Capture { name, old, new } => {
            assert_eq!(name, "Ahmsord");
            let old = old.as_ref().expect("old territory");
            assert_eq!(old.guild.prefix, "ABC");
            assert_eq!(old.acquired, T0);
            assert_eq!(new.guild.prefix, "XYZ");
            assert_eq!(new.acquired, T1);
        }
        other => panic!("expected a capture, got {other:?}"),
    }
}

#[test]
fn capture_is_visible_in_store_after_publish() {
    let store = Store::new(Snapshot::new(map_of(vec![("Ahmsord", terr("ABC", T0))]), 100, 10));
    let next = Snapshot::new(map_of(vec![("Ahmsord", terr("XYZ", T1))]), 200, 10);
    let p = publish(&store, next);
    assert_eq!(p.events.len(), 1);
    assert!(matches!(p.events[0], TerrSockMessage::Capture { .. }));
    let now = store.read();
    let owner = now.territories.get(&"Ahmsord".to_string()).expect("present");
    assert_eq!(owner.guild.prefix, "XYZ");
    assert_eq!(p.previous.stored_at, 100);
}

#[test]
fn prefix_only_change_gives_no_territory_event() {
    let old = map_of(vec![("Ahmsord", terr("ABC", T0))]);
    let mut changed = terr("ABC", T0);
    changed.guild.prefix = "ABD".to_string();
    let new = map_of(vec![("Ahmsord", changed)]);
    let evs = diff(&old, &new);
    assert_eq!(evs.len(), 1);
    assert!(matches!(&evs[0], TerrSockMessage::Capture { name, old: Some(_), .. } if name == "Ahmsord"));
}

#[test]
fn resource_change_is_territory_event() {
    let old = map_of(vec![("Ahmsord", terr("ABC", T0)), ("Detlas", terr("DDD", T0))]);
    let mut richer = terr("ABC", T0);
    richer.generates.ore = 9500;
    let new = map_of(vec![("Ahmsord", richer), ("Detlas", terr("DDD", T0))]);
    let evs = diff(&old, &new);
    assert_eq!(evs.len(), 1);
    match &evs[0] {
        TerrSockMessage::Territory(m) => {
            assert_eq!(m.len(), 1);
            assert_eq!(m.name_at(0), "Ahmsord");
            assert_eq!(m.value_at(0).generates.ore, 9500);
            assert_eq!(m.value_at(0).guild.prefix, "ABC");
        }
        other => panic!("expected a territory event, got {other:?}"),
    }
}

#[test]
fn color_refresh_is_not_a_capture() {
    let old = map_of(vec![("Ahmsord", terr("ABC", T0))]);
    let mut recolored = terr("ABC", T0);
    recolored.guild.color = Some("#123456".to_string());
    let evs = diff(&old, &map_of(vec![("Ahmsord", recolored)]));
    assert_eq!(evs.len(), 1);
    assert!(matches!(evs[0], TerrSockMessage::Territory(_)));
}

#[test]
fn identical_snapshots_give_no_events() {
    let old = map_of(vec![("Ahmsord", terr("ABC", T0)), ("Detlas", terr("DDD", T0))]);
    let new = map_of(vec![("Detlas", terr("DDD", T0)), ("Ahmsord", terr("ABC", T0))]);
    assert!(diff(&old, &new).is_empty());
    assert!(diff(&NameMap::new(), &NameMap::new()).is_empty());
}

#[test]
fn connection_order_does_not_count_as_change() {
    let mut a = terr("ABC", T0);
    a.connections = vec!["X".to_string(), "Y".to_string()];
    let mut b = terr("ABC", T0);
    b.connections = vec!["Y".to_string(), "X".to_string(), "Y".to_string()];
    assert!(a.same_as(&b));
    assert!(diff(&map_of(vec![("A", a)]), &map_of(vec![("A", b)])).is_empty());
}

#[test]
fn new_territory_is_capture_without_old() {
    let evs = diff(&NameMap::new(), &map_of(vec![("Ahmsord", terr("ABC", T0))]));
    assert_eq!(evs.len(), 1);
    assert!(matches!(&evs[0], TerrSockMessage::Capture { old: None, .. }));
}

#[test]
fn removed_territory_gives_no_event() {
    let old = map_of(vec![("Ahmsord", terr("ABC", T0)), ("Detlas", terr("DDD", T0))]);
    let new = map_of(vec![("Ahmsord", terr("ABC", T0))]);
    assert!(diff(&old, &new).is_empty());
}

#[test]
fn resync_rebuilds_snapshot() {
    let snap = Snapshot::new(
        map_of(vec![("Ahmsord", terr("ABC", T0)), ("Detlas", terr("DDD", T0))]),
        100,
        10,
    );
    let (state, action) = begin(&snap);
    assert_eq!(state, SessionState::Streaming);
    let msg = match action {
        SessionAction::Send(m) => m,
        other => panic!("expected a send, got {other:?}"),
    };
    let mut client = NameMap::new();
    apply_message(&mut client, &msg);
    assert_eq!(client.len(), 2);
    assert_eq!(client.get(&"Ahmsord".to_string()).unwrap().guild.prefix, "ABC");
    assert_eq!(client.get(&"Detlas".to_string()).unwrap().guild.prefix, "DDD");
}

#[test]
fn reconnect_after_missed_captures_matches_store() {
    let store = Store::new(Snapshot::new(map_of(vec![("Ahmsord", terr("AAA", T0))]), 0, 10));
    let before = store.read();
    let mut client = NameMap::new();
    apply_message(&mut client, &resync_message(&before));
    for (i, p) in ["BBB", "CCC", "DDD"].iter().enumerate() {
        let next = Snapshot::new(map_of(vec![("Ahmsord", terr(p, T0 + i as i64))]), 10, 10);
        let published = publish(&store, next);
        assert_eq!(published.events.len(), 1);
    }
    assert_eq!(client.get(&"Ahmsord".to_string()).unwrap().guild.prefix, "AAA");
    let current = store.read();
    let mut fresh = NameMap::new();
    apply_message(&mut fresh, &resync_message(&current));
    assert_eq!(fresh.len(), 1);
    let t = fresh.get(&"Ahmsord".to_string()).unwrap();
    assert_eq!(t.guild.prefix, "DDD");
    assert!(t.same_as(current.territories.get(&"Ahmsord".to_string()).unwrap()));
}

#[test]
fn store_reads_whole_values() {
    let store = Store::new(Snapshot::empty(0));
    assert_eq!(store.read().territories.len(), 0);
    for n in 1..=5i64 {
        let entries: Vec<(String, Territory)> =
            (0..n).map(|i| (format!("T{i}"), terr("ABC", n))).collect();
        let mut m = NameMap::new();
        for (k, v) in entries {
            m.insert(k, v);
        }
        let prev = store.swap(Arc::new(Snapshot::new(m, n, 10)));
        assert_eq!(prev.territories.len() as i64, n - 1);
        let cur = store.read();
        assert_eq!(cur.territories.len() as i64, n);
        assert!((0..cur.territories.len()).all(|i| cur.territories.value_at(i).acquired == n));
    }
}

#[test]
fn capture_applies_to_client_view() {
    let mut client = map_of(vec![("Ahmsord", terr("ABC", T0))]);
    let msg = TerrSockMessage::Capture {
        name: "Ahmsord".to_string(),
        old: None,
        new: terr("XYZ", T1),
    };
    apply_message(&mut client, &msg);
    assert_eq!(client.len(), 1);
    assert_eq!(client.get(&"Ahmsord".to_string()).unwrap().guild.prefix, "XYZ");
}

#[test]
fn session_steps() {
    let s = SessionState::Streaming;
    let m = TerrSockMessage::Territory(NameMap::new());
    assert!(matches!(step(s, SessionEvent::Broadcast(m)), (SessionState::Streaming, SessionAction::Send(_))));
    assert!(matches!(step(s, SessionEvent::Ping(vec![1, 2])), (SessionState::Streaming, SessionAction::Pong(p)) if p == vec![1, 2]));
    assert!(matches!(step(s, SessionEvent::Lagged(3)), (SessionState::Streaming, SessionAction::Wait)));
    assert!(matches!(step(s, SessionEvent::IdleTimeout), (SessionState::Streaming, SessionAction::Ping)));
    let f = CloseFrame { code: 1000, reason: "bye".to_string() };
    assert!(matches!(step(s, SessionEvent::Close(Some(f))), (SessionState::Closed, SessionAction::Close(Some(c))) if c.code == 1000));
    assert!(matches!(step(s, SessionEvent::SendFailed), (SessionState::Closed, SessionAction::Stop)));
    assert!(matches!(step(s, SessionEvent::ConnectionEnded), (SessionState::Closed, SessionAction::Stop)));
    assert!(matches!(step(SessionState::Closed, SessionEvent::IdleTimeout), (SessionState::Closed, SessionAction::Stop)));
}

#[test]
fn cache_headers_age_and_window() {
    let snap = Snapshot::new(NameMap::new(), 1_000, 30);
    for now in [1_000i64, 1_010, 1_030] {
        let h = snapshot_headers(&snap, now);
        assert_eq!(h.cache_control, "public, max-age=10");
        let remaining = snap.expires - now as i128;
        assert_eq!(h.age as i128 + remaining, 30);
    }
    assert_eq!(snapshot_headers(&snap, 1_010).age, 10);
    assert_eq!(snapshot_headers(&snap, 900).age, 0);
    assert_eq!(snapshot_headers(&snap, 1_000).expires.as_deref(), Some("Thu, 1 Jan 1970 00:17:10 +0000"));
    assert_eq!(extra_cache_control(), "public, max-age=3600");
}

#[test]
fn http_date_text() {
    assert_eq!(http_date(0).as_deref(), Some("Thu, 1 Jan 1970 00:00:00 +0000"));
    assert_eq!(http_date(1_445_412_480).as_deref(), Some("Wed, 21 Oct 2015 07:28:00 +0000"));
    assert_eq!(http_date(253_402_300_800), None);
    assert_eq!(http_date(-62_167_219_201), None);
}

#[test]
fn ttl_from_upstream_headers() {
    let date = Some("Wed, 21 Oct 2015 07:28:00 GMT".to_string());
    let expires = Some("Wed, 21 Oct 2015 07:28:30 GMT".to_string());
    assert_eq!(ttl_from_headers(&date, &expires), 30);
    assert_eq!(ttl_from_headers(&None, &expires), 10);
    assert_eq!(ttl_from_headers(&date, &Some("soon".to_string())), 10);
    assert_eq!(ttl_from_instants(Some(5), Some(2)), -3);
}

#[test]
fn poll_delay_adds_grace() {
    assert_eq!(next_poll_delay(30), 31);
    assert_eq!(next_poll_delay(10), 11);
    assert_eq!(next_poll_delay(-5), 0);
    assert_eq!(next_poll_delay(i128::MAX), u64::MAX);
}

#[test]
fn guild_directory_colors_listed_prefixes() {
    let prefixes = vec!["ABC".to_string(), "XYZ".to_string()];
    let colored = vec![
        ColoredGuild { prefix: Some("ABC".to_string()), color: Some("#111111".to_string()) },
        ColoredGuild { prefix: Some("QQQ".to_string()), color: Some("#222222".to_string()) },
        ColoredGuild { prefix: None, color: Some("#333333".to_string()) },
        ColoredGuild { prefix: Some("ABC".to_string()), color: Some("#444444".to_string()) },
    ];
    let dir = build_guild_directory(&prefixes, &colored);
    assert_eq!(dir.len(), 2);
    assert_eq!(dir.get(&"ABC".to_string()).unwrap().color.as_deref(), Some("#444444"));
    assert_eq!(dir.get(&"XYZ".to_string()).unwrap().color, None);
    assert!(dir.get(&"QQQ".to_string()).is_none());
}

fn upstream(name: &str, prefix: &str) -> UpstreamTerritory {
    let mut g = guild(prefix);
    g.color = Some("#ABCDEF".to_string());
    UpstreamTerritory { name: name.to_string(), guild: g, acquired: T0, location: Region::new([1, 2], [3, 4]) }
}

#[test]
fn merge_attaches_enrichment() {
    let dir = build_guild_directory(
        &vec!["ABC".to_string()],
        &vec![ColoredGuild { prefix: Some("ABC".to_string()), color: Some("#010203".to_string()) }],
    );
    let mut extra = NameMap::new();
    extra.insert(
        "Ahmsord".to_string(),
        ExTerrInfo {
            resources: Resources { emeralds: 9000, ore: 3600, crops: 0, fish: 0, wood: 0 },
            conns: vec!["Detlas".to_string()],
        },
    );
    let m = merge(&vec![upstream("Ahmsord", "ABC"), upstream("Detlas", "XYZ")], &dir, &extra);
    assert_eq!(m.len(), 2);
    let a = m.get(&"Ahmsord".to_string()).unwrap();
    assert_eq!(a.guild.color.as_deref(), Some("#010203"));
    assert_eq!(a.generates.ore, 3600);
    assert_eq!(a.connections, vec!["Detlas".to_string()]);
    assert_eq!(a.location.right_side(), 3);
    let d = m.get(&"Detlas".to_string()).unwrap();
    assert_eq!(d.guild.color, None);
    assert_eq!(d.generates, Resources::zero());
    assert!(d.connections.is_empty());
}

#[test]
fn merge_without_enrichment_and_duplicates() {
    let (g, e) = no_enrichment();
    let mut second = upstream("Ahmsord", "XYZ");
    second.acquired = T1;
    let m = merge(&vec![upstream("Ahmsord", "ABC"), second], &g, &e);
    assert_eq!(m.len(), 1);
    assert_eq!(m.value_at(0).guild.prefix, "XYZ");
    assert_eq!(m.value_at(0).acquired, T1);
}

#[test]
fn poll_cycle_swaps_and_reports() {
    let territories = Store::new(Snapshot::empty(0));
    let guilds = Store::new(NameMap::<GuildColor>::new());
    let extra = Store::new(NameMap::<ExTerrInfo>::new());
    let date = Some("Wed, 21 Oct 2015 07:28:00 GMT".to_string());
    let expires = Some("Wed, 21 Oct 2015 07:28:20 GMT".to_string());
    let out = poll_cycle(&territories, &guilds, &extra, &vec![upstream("Ahmsord", "ABC")], 500, &date, &expires);
    assert_eq!(out.next_poll_secs, 21);
    assert_eq!(out.published.events.len(), 1);
    assert_eq!(out.published.current.expires, 520);
    assert_eq!(territories.read().territories.len(), 1);
    let again = poll_cycle(&territories, &guilds, &extra, &vec![upstream("Ahmsord", "ABC")], 530, &None, &None);
    assert!(again.published.events.is_empty());
    assert_eq!(again.next_poll_secs, 11);
    assert_eq!(again.published.current.expires, 540);
}

#[test]
fn build_snapshot_uses_default_window() {
    let (g, e) = no_enrichment();
    let s = build_snapshot(&vec![], &g, &e, 7, &None, &Some("x".to_string()));
    assert_eq!(s.stored_at, 7);
    assert_eq!(s.expires, 17);
    assert_eq!(s.territories.len(), 0);
}

#[test]
fn externals_within_three_connections() {
    let mut m = NameMap::new();
    let chain = ["A", "B", "C", "D", "E"];
    for (i, n) in chain.iter().enumerate() {
        let mut conns = vec![];
        if i > 0 {
            conns.push(chain[i - 1].to_string());
        }
        if i + 1 < chain.len() {
            conns.push(chain[i + 1].to_string());
        }
        m.insert(n.to_string(), ExTerrInfo { resources: Resources::zero(), conns });
    }
    let mut ext = find_externals(&"A".to_string(), &m);
    ext.sort();
    assert_eq!(ext, vec!["B", "C", "D"]);
    let mut mid = find_externals(&"C".to_string(), &m);
    mid.sort();
    assert_eq!(mid, vec!["A", "B", "D", "E"]);
    assert!(find_externals(&"Z".to_string(), &m).is_empty());
}

#[test]
fn static_file_cache_control() {
    assert_eq!(static_cache_control("text/html").as_deref(), Some("public, max-age=3600"));
    assert_eq!(static_cache_control("application/wasm").as_deref(), Some("public, max-age=604800"));
    assert_eq!(static_cache_control("application/json"), None);
}

#[test]
fn territory_externals_follow_connections() {
    let mut a = terr("ABC", T0);
    a.connections = vec!["B".to_string()];
    let mut b = terr("ABC", T0);
    b.connections = vec!["A".to_string(), "C".to_string()];
    let mut c = terr("ABC", T0);
    c.connections = vec!["D".to_string()];
    let mut d = terr("ABC", T0);
    d.connections = vec!["E".to_string()];
    let m = map_of(vec![("A", a), ("B", b), ("C", c), ("D", d)]);
    let mut ext = wynnmap::territory::find_externals(&"A".to_string(), &m);
    ext.sort();
    assert_eq!(ext, vec!["B", "C", "D"]);
}

#[test]
fn territory_equality_is_by_content() {
    let mut a = terr("ABC", T0);
    a.connections = vec!["X".to_string(), "Y".to_string()];
    let mut b = a.clone();
    b.connections.reverse();
    assert_eq!(a, b);
    b.acquired = T1;
    assert_ne!(a, b);
    assert_eq!(guild("ABC"), guild("ABC"));
    assert_ne!(guild("ABC"), guild("ABD"));
}
