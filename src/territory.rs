use vstd::prelude::*;

use crate::guild::{Guild, GuildView};
use crate::names::{copy_names, name_set, same_names};
use crate::externals::{externals_in, externals_of};
use crate::namemap::{Duplicate, NameMap};
use crate::region::Region;
use crate::resources::Resources;

verus! {

/// A territory as the mirror sees it.
pub struct TerritoryView {
    pub location: (i32, i32, i32, i32),
    pub guild: GuildView,
    pub acquired: i64,
    pub connections: Set<Seq<char>>,
    pub generates: Resources,
}

/// One zone of the world: where it lies, the guild that owns it, when that
/// guild acquired it (milliseconds since the Unix epoch), the names of the
/// territories it connects to, and what it generates.
#[derive(Clone, Debug)]
pub struct Territory {
    pub location: Region,
    pub guild: Guild,
    pub acquired: i64,
    pub connections: Vec<String>,
    pub generates: Resources,
}

impl View for Territory {
    type V = TerritoryView;

    open spec fn view(&self) -> TerritoryView {
        TerritoryView {
            location: self.location.corners(),
            guild: self.guild@,
            acquired: self.acquired,
            connections: name_set(self.connections@),
            generates: self.generates,
        }
    }
}

impl Duplicate for Guild {
    fn duplicate(&self) -> (r: Guild) {
        let color = match &self.color {
            Some(c) => Some(c.clone()),
            None => None,
        };
        Guild { uuid: self.uuid, name: self.name.clone(), prefix: self.prefix.clone(), color }
    }
}

impl Duplicate for Territory {
    fn duplicate(&self) -> (r: Territory) {
        Territory {
            location: self.location,
            guild: self.guild.duplicate(),
            acquired: self.acquired,
            connections: copy_names(&self.connections),
            generates: self.generates,
        }
    }
}

impl PartialEq for Territory {
    fn eq(&self, other: &Territory) -> (r: bool) {
        self.same_as(other)
    }
}

impl vstd::std_specs::cmp::PartialEqSpecImpl for Territory {
    open spec fn obeys_eq_spec() -> bool {
        true
    }

    open spec fn eq_spec(&self, other: &Territory) -> bool {
        self@ == other@
    }
}

impl Territory {
    /// Whether two territories agree in every field; connections compare as sets.
    pub fn same_as(&self, other: &Territory) -> (r: bool)
        ensures
            r == (self@ == other@),
    {
        self.location.same_as(&other.location) && self.guild.same_as(&other.guild)
            && self.acquired == other.acquired && same_names(
            &self.connections,
            &other.connections,
        ) && self.generates.same_as(&other.generates)
    }

    /// Whether two territories are owned by guilds with the same prefix.
    pub fn same_owner(&self, other: &Territory) -> (r: bool)
        ensures
            r == (self@.guild.prefix == other@.guild.prefix),
    {
        self.guild.prefix == other.guild.prefix
    }
}

/// The externals of territory `name`: every other territory within three
/// connections of it, by the connections of the territories themselves.
pub fn find_externals(name: &String, territories: &NameMap<Territory>) -> (r: Vec<String>)
    requires
        territories.wf(),
    ensures
        name_set(r@) == externals_of::<Territory>(territories@, name@),
{
    externals_in(name, territories)
}

/// The view of per-territory enrichment: resources and the set of connections.
pub struct ExTerrInfoView {
    pub resources: Resources,
    pub conns: Set<Seq<char>>,
}

/// Enrichment of one territory from a separate source: what it generates and
/// the names of the territories it has trade routes to.
#[derive(Clone, Debug)]
pub struct ExTerrInfo {
    pub resources: Resources,
    pub conns: Vec<String>,
}

impl View for ExTerrInfo {
    type V = ExTerrInfoView;

    open spec fn view(&self) -> ExTerrInfoView {
        ExTerrInfoView { resources: self.resources, conns: name_set(self.conns@) }
    }
}

impl Duplicate for ExTerrInfo {
    fn duplicate(&self) -> (r: ExTerrInfo) {
        ExTerrInfo { resources: self.resources, conns: copy_names(&self.conns) }
    }
}

} // verus!
