use vstd::prelude::*;

use crate::names::text_eq;

verus! {

/// Amount generated below which a channel does not count as doubled.
pub const DOUBLE_THRESHOLD: i32 = 7200;

/// Emerald amount that every territory generates; only more counts as an emerald bonus.
pub const BASE_EMERALDS: i32 = 9000;

/// Resource amounts that a territory generates, one per channel.
#[derive(Clone, Copy, Debug, PartialEq, Eq, Structural)]
pub struct Resources {
    pub emeralds: i32,
    pub ore: i32,
    pub crops: i32,
    pub fish: i32,
    pub wood: i32,
}

impl Resources {
    /// No resources in any channel: what a territory without enrichment generates.
    pub fn zero() -> (r: Resources)
        ensures
            r == (Resources { emeralds: 0, ore: 0, crops: 0, fish: 0, wood: 0 }),
    {
        Resources { emeralds: 0, ore: 0, crops: 0, fish: 0, wood: 0 }
    }

    pub fn same_as(&self, other: &Resources) -> (r: bool)
        ensures
            r == (*self == *other),
    {
        self.emeralds == other.emeralds && self.ore == other.ore && self.crops == other.crops
            && self.fish == other.fish && self.wood == other.wood
    }

    pub fn has_emeralds(&self) -> (r: bool)
        ensures
            r == (self.emeralds > BASE_EMERALDS),
    {
        self.emeralds > BASE_EMERALDS
    }

    pub fn has_ore(&self) -> (r: bool)
        ensures
            r == (self.ore != 0),
    {
        self.ore != 0
    }

    pub fn has_crops(&self) -> (r: bool)
        ensures
            r == (self.crops != 0),
    {
        self.crops != 0
    }

    pub fn has_fish(&self) -> (r: bool)
        ensures
            r == (self.fish != 0),
    {
        self.fish != 0
    }

    pub fn has_wood(&self) -> (r: bool)
        ensures
            r == (self.wood != 0),
    {
        self.wood != 0
    }

    pub fn has_double_ore(&self) -> (r: bool)
        ensures
            r == (self.ore >= DOUBLE_THRESHOLD),
    {
        self.ore >= DOUBLE_THRESHOLD
    }

    pub fn has_double_crops(&self) -> (r: bool)
        ensures
            r == (self.crops >= DOUBLE_THRESHOLD),
    {
        self.crops >= DOUBLE_THRESHOLD
    }

    pub fn has_double_fish(&self) -> (r: bool)
        ensures
            r == (self.fish >= DOUBLE_THRESHOLD),
    {
        self.fish >= DOUBLE_THRESHOLD
    }

    pub fn has_double_wood(&self) -> (r: bool)
        ensures
            r == (self.wood >= DOUBLE_THRESHOLD),
    {
        self.wood >= DOUBLE_THRESHOLD
    }

    /// Which channels the territory produces, in the order emeralds, crops, fish, ore, wood.
    pub fn has_res(&self) -> (r: (bool, bool, bool, bool, bool))
        ensures
            r == (self.emeralds > BASE_EMERALDS, self.crops != 0, self.fish != 0, self.ore != 0,
                self.wood != 0),
    {
        (self.has_emeralds(), self.has_crops(), self.has_fish(), self.has_ore(), self.has_wood())
    }

    /// Which channels are doubled, in the order crops, fish, ore, wood.
    pub fn has_double_res(&self) -> (r: (bool, bool, bool, bool))
        ensures
            r == (self.crops >= DOUBLE_THRESHOLD, self.fish >= DOUBLE_THRESHOLD, self.ore
                >= DOUBLE_THRESHOLD, self.wood >= DOUBLE_THRESHOLD),
    {
        (self.has_double_crops(), self.has_double_fish(), self.has_double_ore(), self.has_double_wood())
    }
}

/// Resource amounts of a territory as its enrichment source writes them, as decimal text.
#[derive(Clone, Debug)]
pub struct TerrRes {
    pub emeralds: String,
    pub ore: String,
    pub crops: String,
    pub fish: String,
    pub wood: String,
}

impl TerrRes {
    /// Produces emeralds beyond the base amount: neither `"0"` nor `"9000"`.
    pub fn has_emeralds(&self) -> (r: bool)
        ensures
            r == (self.emeralds@ != "0"@ && self.emeralds@ != "9000"@),
    {
        !text_eq(self.emeralds.as_str(), "0") && !text_eq(self.emeralds.as_str(), "9000")
    }

    pub fn has_ore(&self) -> (r: bool)
        ensures
            r == (self.ore@ != "0"@),
    {
        !text_eq(self.ore.as_str(), "0")
    }

    pub fn has_crops(&self) -> (r: bool)
        ensures
            r == (self.crops@ != "0"@),
    {
        !text_eq(self.crops.as_str(), "0")
    }

    pub fn has_fish(&self) -> (r: bool)
        ensures
            r == (self.fish@ != "0"@),
    {
        !text_eq(self.fish.as_str(), "0")
    }

    pub fn has_wood(&self) -> (r: bool)
        ensures
            r == (self.wood@ != "0"@),
    {
        !text_eq(self.wood.as_str(), "0")
    }

    /// Which channels the territory produces, in the order emeralds, crops, fish, ore, wood.
    pub fn has_res(&self) -> (r: (bool, bool, bool, bool, bool))
        ensures
            r == (self.emeralds@ != "0"@ && self.emeralds@ != "9000"@, self.crops@ != "0"@,
                self.fish@ != "0"@, self.ore@ != "0"@, self.wood@ != "0"@),
    {
        (self.has_emeralds(), self.has_crops(), self.has_fish(), self.has_ore(), self.has_wood())
    }
}

} // verus!
