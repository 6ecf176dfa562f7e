use wynnmap::guild::{parse_color_value, rgb_from_value, Guild};
use wynnmap::namemap::NameMap;
use wynnmap::territory::ExTerrInfo;
use wynnmap::region::Region;
use wynnmap::resources::{Resources, TerrRes};

fn guild(name: &str, prefix: &str, color: Option<&str>) -> Guild {
    Guild {
        uuid: None,
        name: name.to_string(),
        prefix: prefix.to_string(),
        color: color.map(|c| c.to_string()),
    }
}

#[test]
fn region_sides_follow_corner_order() {
    let r = Region::new([10, -5], [-20, 15]);
    assert_eq!(r.left_side(), -20);
    assert_eq!(r.right_side(), 10);
    assert_eq!(r.top_side(), -5);
    assert_eq!(r.bottom_side(), 15);
    assert_eq!(r.width(), 30);
    assert_eq!(r.height(), 20);
}

#[test]
fn region_midpoint_rounds_towards_zero() {
    let r = Region::new([-3, 3], [0, 0]);
    assert_eq!(r.midpoint_x(), -1);
    assert_eq!(r.midpoint_y(), 1);
    assert_eq!(r.get_midpoint(), (-1, 1));
}

#[test]
fn region_extremes_do_not_overflow() {
    let r = Region::new([i32::MIN, i32::MAX], [i32::MAX, i32::MAX]);
    assert_eq!(r.width(), u32::MAX);
    assert_eq!(r.height(), 0);
    assert_eq!(r.midpoint_x(), 0);
    assert_eq!(r.midpoint_y(), i32::MAX);
}

#[test]
fn resources_flags() {
    let r = Resources { emeralds: 9000, ore: 3600, crops: 0, fish: 7200, wood: 7199 };
    assert!(!r.has_emeralds());
    assert_eq!(r.has_res(), (false, false, true, true, true));
    assert_eq!(r.has_double_res(), (false, true, false, false));
    let rich = Resources { emeralds: 18000, ore: 0, crops: 14400, fish: 0, wood: 0 };
    assert!(rich.has_emeralds());
    assert!(rich.has_double_crops());
    assert!(!rich.has_ore());
}

#[test]
fn text_resources_flags() {
    let r = TerrRes {
        emeralds: "9000".to_string(),
        ore: "0".to_string(),
        crops: "3600".to_string(),
        fish: "0".to_string(),
        wood: "00".to_string(),
    };
    assert!(!r.has_emeralds());
    assert_eq!(r.has_res(), (false, true, false, false, true));
    let e = TerrRes { emeralds: "18000".to_string(), ..r.clone() };
    assert!(e.has_emeralds());
    let z = TerrRes { emeralds: "0".to_string(), ..r };
    assert!(!z.has_emeralds());
}

#[test]
fn guild_color_from_text() {
    assert_eq!(guild("A", "A", Some("#1EFE8D")).get_color(), (30, 254, 141));
    assert_eq!(guild("A", "A", Some("#ff0080")).get_color(), (255, 0, 128));
    assert_eq!(parse_color_value("#+10"), 16);
}

#[test]
fn guild_color_unreadable_is_black() {
    assert_eq!(guild("A", "A", Some("#zz0000")).get_color(), (0, 0, 0));
    assert_eq!(guild("A", "A", Some("")).get_color(), (0, 0, 0));
    assert_eq!(guild("A", "A", Some("#")).get_color(), (0, 0, 0));
    assert_eq!(parse_color_value("#100000000"), 0);
    assert_eq!(parse_color_value("#FFFFFFFF"), u32::MAX);
}

#[test]
fn guild_color_computed_from_name() {
    assert_eq!(guild("Nobody", "N", None).calculate_color(), (30, 254, 141));
    assert_eq!(guild("Test Guild", "TG", None).get_color(), (118, 72, 96));
    assert_eq!(guild("Test Guild", "TG", None).hex_color(), "#764860");
    assert_eq!(guild("ABC Guild", "ABC", None).hex_color(), "#B4091A");
    assert_eq!(guild("ABC Guild", "ABC", Some("#123456")).hex_color(), "#123456");
}

#[test]
fn packed_color_channels() {
    assert_eq!(rgb_from_value(0xAB12_34CD), (0x12, 0x34, 0xCD));
}

#[test]
fn default_guild_is_unowned_sentinel() {
    let g = Guild::default();
    assert_eq!(g.prefix, "None");
    assert_eq!(g.name, "Nobody");
    assert_eq!(g.color.as_deref(), Some("#FFFFFF"));
    assert_eq!(g.uuid, None);
    assert_eq!(g.get_color(), (255, 255, 255));
}

#[test]
fn guild_equality_is_structural() {
    let a = guild("A", "AA", Some("#000000"));
    assert!(a.same_as(&a.clone()));
    assert!(!a.same_as(&guild("A", "AA", None)));
    let mut b = a.clone();
    b.uuid = Some(7);
    assert!(!a.same_as(&b));
}

#[test]
fn name_map_replaces_in_place() {
    let mut m: NameMap<wynnmap::merge::GuildColor> = NameMap::new();
    m.insert("B".to_string(), wynnmap::merge::GuildColor { color: None });
    m.insert("A".to_string(), wynnmap::merge::GuildColor { color: None });
    m.insert("B".to_string(), wynnmap::merge::GuildColor { color: Some("#010101".to_string()) });
    assert_eq!(m.len(), 2);
    assert_eq!(m.name_at(0), "B");
    assert_eq!(m.name_at(1), "A");
    assert_eq!(m.value_at(0).color.as_deref(), Some("#010101"));
    assert_eq!(m.position(&"A".to_string()), Some(1));
    assert!(m.get(&"C".to_string()).is_none());
}

#[test]
fn name_map_from_entries_later_wins() {
    let entries = vec![
        ("A".to_string(), ExTerrInfo { resources: Resources::zero(), conns: vec![] }),
        ("A".to_string(), ExTerrInfo { resources: Resources::zero(), conns: vec!["B".to_string()] }),
    ];
    let m = NameMap::from_entries(&entries);
    assert_eq!(m.len(), 1);
    assert_eq!(m.value_at(0).conns, vec!["B".to_string()]);
}
