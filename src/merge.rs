use vstd::prelude::*;

use crate::guild::{opt_text, Guild, GuildView};
use crate::namemap::{Duplicate, NameMap};
use crate::names::name_set;
use crate::region::Region;
use crate::resources::Resources;
use crate::territory::{ExTerrInfo, ExTerrInfoView, Territory, TerritoryView};

verus! {

/// A territory as the upstream list reports it, before enrichment.
#[derive(Clone, Debug)]
pub struct UpstreamTerritory {
    pub name: String,
    pub guild: Guild,
    pub acquired: i64,
    pub location: Region,
}

/// The color enrichment that the guild directory holds for one prefix.
#[derive(Clone, Debug)]
pub struct GuildColor {
    pub color: Option<String>,
}

impl View for GuildColor {
    type V = Option<Seq<char>>;

    open spec fn view(&self) -> Option<Seq<char>> {
        opt_text(self.color)
    }
}

impl Duplicate for GuildColor {
    fn duplicate(&self) -> (r: GuildColor) {
        match &self.color {
            Some(c) => GuildColor { color: Some(c.clone()) },
            None => GuildColor { color: None },
        }
    }
}

/// A guild as one color source reports it: a prefix, if known, and a color, if set.
#[derive(Clone, Debug)]
pub struct ColoredGuild {
    pub prefix: Option<String>,
    pub color: Option<String>,
}

/// The directory holding each listed prefix with no color.
pub open spec fn listed_map(prefixes: Seq<String>) -> Map<Seq<char>, Option<Seq<char>>>
    decreases prefixes.len(),
{
    if prefixes.len() == 0 {
        Map::empty()
    } else {
        listed_map(prefixes.drop_last()).insert(prefixes.last()@, None)
    }
}

/// `dir` after each colored guild, in order, set the color of its prefix where
/// the directory lists that prefix.
pub open spec fn apply_colors(
    dir: Map<Seq<char>, Option<Seq<char>>>,
    colored: Seq<ColoredGuild>,
) -> Map<Seq<char>, Option<Seq<char>>>
    decreases colored.len(),
{
    if colored.len() == 0 {
        dir
    } else {
        let before = apply_colors(dir, colored.drop_last());
        match colored.last().prefix {
            Some(p) => if before.contains_key(p@) {
                before.insert(p@, opt_text(colored.last().color))
            } else {
                before
            },
            None => before,
        }
    }
}

/// Builds the guild directory: every listed prefix, with the color that the
/// last colored guild of that prefix gives it, and no color where none does.
pub fn build_guild_directory(prefixes: &Vec<String>, colored: &Vec<ColoredGuild>) -> (r: NameMap<
    GuildColor,
>)
    ensures
        r.wf(),
        r@ == apply_colors(listed_map(prefixes@), colored@),
{
    let mut dir: NameMap<GuildColor> = NameMap::new();
    let mut i: usize = 0;
    while i < prefixes.len()
        invariant
            i <= prefixes.len(),
            dir.wf(),
            dir@ == listed_map(prefixes@.take(i as int)),
        decreases prefixes.len() - i,
    {
        dir.insert(prefixes[i].clone(), GuildColor { color: None });
        assert(prefixes@.take(i + 1).drop_last() =~= prefixes@.take(i as int));
        i = i + 1;
    }
    assert(prefixes@.take(prefixes.len() as int) =~= prefixes@);
    let mut j: usize = 0;
    while j < colored.len()
        invariant
            j <= colored.len(),
            dir.wf(),
            dir@ == apply_colors(listed_map(prefixes@), colored@.take(j as int)),
        decreases colored.len() - j,
    {
        let c = &colored[j];
        assert(colored@.take(j + 1).drop_last() =~= colored@.take(j as int));
        assert(colored@.take(j + 1).last() == *c);
        match &c.prefix {
            Some(p) => {
                if dir.position(p).is_some() {
                    let col = GuildColor { color: c.color.clone() };
                    proof {
                        assert(col@ == opt_text(c.color)) by {
                            match c.color {
                                Some(s) => {},
                                None => {},
                            }
                        }
                    }
                    dir.insert(p.clone(), col);
                }
            },
            None => {},
        }
        j = j + 1;
    }
    assert(colored@.take(colored.len() as int) =~= colored@);
    dir
}

/// The territory that the merge makes of one upstream record.
pub open spec fn merged_territory(
    u: UpstreamTerritory,
    guilds: Map<Seq<char>, Option<Seq<char>>>,
    extra: Map<Seq<char>, ExTerrInfoView>,
) -> TerritoryView {
    TerritoryView {
        location: u.location.corners(),
        guild: GuildView {
            color: if guilds.contains_key(u.guild.prefix@) {
                guilds[u.guild.prefix@]
            } else {
                None
            },
            ..u.guild@
        },
        acquired: u.acquired,
        connections: if extra.contains_key(u.name@) {
            extra[u.name@].conns
        } else {
            Set::empty()
        },
        generates: if extra.contains_key(u.name@) {
            extra[u.name@].resources
        } else {
            Resources { emeralds: 0, ore: 0, crops: 0, fish: 0, wood: 0 }
        },
    }
}

/// The mapping that the merge makes of the upstream records, in order; of two
/// records with one name the later wins.
pub open spec fn merged_map(
    up: Seq<UpstreamTerritory>,
    guilds: Map<Seq<char>, Option<Seq<char>>>,
    extra: Map<Seq<char>, ExTerrInfoView>,
) -> Map<Seq<char>, TerritoryView>
    decreases up.len(),
{
    if up.len() == 0 {
        Map::empty()
    } else {
        merged_map(up.drop_last(), guilds, extra).insert(
            up.last().name@,
            merged_territory(up.last(), guilds, extra),
        )
    }
}

/// Enriches one upstream record: the color from the guild directory by
/// prefix (none where the prefix is missing), and resources and connections
/// from the enrichment store by name (zero and none where the name is missing).
pub fn merge_territory(
    u: &UpstreamTerritory,
    guilds: &NameMap<GuildColor>,
    extra: &NameMap<ExTerrInfo>,
) -> (r: Territory)
    requires
        guilds.wf(),
        extra.wf(),
    ensures
        r@ == merged_territory(*u, guilds@, extra@),
{
    let color = match guilds.get(&u.guild.prefix) {
        Some(g) => g.duplicate().color,
        None => None,
    };
    let guild = Guild {
        uuid: u.guild.uuid,
        name: u.guild.name.clone(),
        prefix: u.guild.prefix.clone(),
        color,
    };
    let (connections, generates) = match extra.get(&u.name) {
        Some(e) => {
            let d = e.duplicate();
            (d.conns, d.resources)
        },
        None => {
            let v: Vec<String> = Vec::new();
            assert(name_set(v@) =~= Set::empty());
            (v, Resources::zero())
        },
    };
    let r = Territory { location: u.location, guild, acquired: u.acquired, connections, generates };
    assert(r@.guild == merged_territory(*u, guilds@, extra@).guild);
    r
}

/// Builds the candidate mapping of one poll from the upstream records and the
/// current enrichment stores.
pub fn merge(
    upstream: &Vec<UpstreamTerritory>,
    guilds: &NameMap<GuildColor>,
    extra: &NameMap<ExTerrInfo>,
) -> (r: NameMap<Territory>)
    requires
        guilds.wf(),
        extra.wf(),
    ensures
        r.wf(),
        r@ == merged_map(upstream@, guilds@, extra@),
{
    let mut m: NameMap<Territory> = NameMap::new();
    let mut i: usize = 0;
    while i < upstream.len()
        invariant
            i <= upstream.len(),
            guilds.wf(),
            extra.wf(),
            m.wf(),
            m@ == merged_map(upstream@.take(i as int), guilds@, extra@),
        decreases upstream.len() - i,
    {
        let u = &upstream[i];
        let t = merge_territory(u, guilds, extra);
        m.insert(u.name.clone(), t);
        assert(upstream@.take(i + 1).drop_last() =~= upstream@.take(i as int));
        i = i + 1;
    }
    assert(upstream@.take(upstream.len() as int) =~= upstream@);
    m
}

} // verus!
