use vstd::prelude::*;

verus! {

/// Midpoint of two integers as if computed without overflow, rounded towards zero.
pub open spec fn midpoint_toward_zero(a: int, b: int) -> int {
    let s = a + b;
    if s >= 0 {
        s / 2
    } else {
        -((-s) / 2)
    }
}

pub open spec fn min_int(a: int, b: int) -> int {
    if a < b {
        a
    } else {
        b
    }
}

pub open spec fn max_int(a: int, b: int) -> int {
    if a > b {
        a
    } else {
        b
    }
}

pub open spec fn dist(a: int, b: int) -> int {
    if a >= b {
        a - b
    } else {
        b - a
    }
}

/// A rectangular region of the world, given by two corners.
/// The first coordinate of each corner is X, the second is Z.
#[derive(Clone, Copy, Debug)]
pub struct Region {
    pub start: [i32; 2],
    pub end: [i32; 2],
}

fn abs_diff(a: i32, b: i32) -> (r: u32)
    ensures
        r as int == dist(a as int, b as int),
{
    let d: i64 = a as i64 - b as i64;
    if d >= 0 {
        d as u32
    } else {
        (-d) as u32
    }
}

fn midpoint(a: i32, b: i32) -> (r: i32)
    ensures
        r as int == midpoint_toward_zero(a as int, b as int),
{
    let s: i64 = a as i64 + b as i64;
    if s >= 0 {
        (s / 2) as i32
    } else {
        let h: i64 = (-s) / 2;
        (-h) as i32
    }
}

impl Region {
    pub open spec fn x0(&self) -> int {
        self.start[0] as int
    }

    pub open spec fn z0(&self) -> int {
        self.start[1] as int
    }

    pub open spec fn x1(&self) -> int {
        self.end[0] as int
    }

    pub open spec fn z1(&self) -> int {
        self.end[1] as int
    }

    pub fn new(start: [i32; 2], end: [i32; 2]) -> (r: Region)
        ensures
            r.start == start,
            r.end == end,
    {
        Region { start, end }
    }

    /// The four corner coordinates, in the order start X, start Z, end X, end Z.
    pub open spec fn corners(&self) -> (i32, i32, i32, i32) {
        (self.start[0], self.start[1], self.end[0], self.end[1])
    }

    /// Equality of the two corners.
    pub fn same_as(&self, other: &Region) -> (r: bool)
        ensures
            r == (self.corners() == other.corners()),
    {
        self.start[0] == other.start[0] && self.start[1] == other.start[1]
            && self.end[0] == other.end[0] && self.end[1] == other.end[1]
    }

    /// The smaller X coordinate.
    pub fn left_side(&self) -> (r: i32)
        ensures
            r as int == min_int(self.x0(), self.x1()),
    {
        if self.start[0] < self.end[0] {
            self.start[0]
        } else {
            self.end[0]
        }
    }

    /// The larger X coordinate.
    pub fn right_side(&self) -> (r: i32)
        ensures
            r as int == max_int(self.x0(), self.x1()),
    {
        if self.start[0] > self.end[0] {
            self.start[0]
        } else {
            self.end[0]
        }
    }

    /// The smaller Z coordinate.
    pub fn top_side(&self) -> (r: i32)
        ensures
            r as int == min_int(self.z0(), self.z1()),
    {
        if self.start[1] < self.end[1] {
            self.start[1]
        } else {
            self.end[1]
        }
    }

    /// The larger Z coordinate.
    pub fn bottom_side(&self) -> (r: i32)
        ensures
            r as int == max_int(self.z0(), self.z1()),
    {
        if self.start[1] > self.end[1] {
            self.start[1]
        } else {
            self.end[1]
        }
    }

    pub fn width(&self) -> (r: u32)
        ensures
            r as int == dist(self.x0(), self.x1()),
    {
        abs_diff(self.start[0], self.end[0])
    }

    pub fn height(&self) -> (r: u32)
        ensures
            r as int == dist(self.z0(), self.z1()),
    {
        abs_diff(self.start[1], self.end[1])
    }

    /// Midpoint on the X axis, rounded towards zero.
    pub fn midpoint_x(&self) -> (r: i32)
        ensures
            r as int == midpoint_toward_zero(self.x0(), self.x1()),
    {
        midpoint(self.start[0], self.end[0])
    }

    /// Midpoint on the Z axis, rounded towards zero.
    pub fn midpoint_y(&self) -> (r: i32)
        ensures
            r as int == midpoint_toward_zero(self.z0(), self.z1()),
    {
        midpoint(self.start[1], self.end[1])
    }

    pub fn get_midpoint(&self) -> (r: (i32, i32))
        ensures
            r.0 as int == midpoint_toward_zero(self.x0(), self.x1()),
            r.1 as int == midpoint_toward_zero(self.z0(), self.z1()),
    {
        (self.midpoint_x(), self.midpoint_y())
    }
}

} // verus!
