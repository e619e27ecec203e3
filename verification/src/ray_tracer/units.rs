//! Plain-value vectors: scene data in hundredths, and triples of
//! single-precision bit patterns.

use vstd::prelude::*;
use crate::bits32;

verus! {

/// A point, direction or color in hundredths. Dividing an entry by one hundred
/// in single precision gives the value nearest to the decimal that it stands for.
#[derive(Clone, Copy, PartialEq, Eq, Structural, Debug)]
pub struct Centi3 {
    pub x: i32,
    pub y: i32,
    pub z: i32,
}

/// The triple with the given entries.
pub open spec fn centi3(x: int, y: int, z: int) -> Centi3 {
    Centi3 { x: x as i32, y: y as i32, z: z as i32 }
}

/// A vector of single-precision bit patterns.
#[derive(Clone, Copy, PartialEq, Eq, Structural, Debug)]
pub struct V3 {
    pub x: u32,
    pub y: u32,
    pub z: u32,
}

/// A vector shorter than this length (1e-10) has no direction.
pub const NULL_LENGTH: u32 = 0x2edb_e6ff;

/// Radiance above this value (16) is cut off.
pub const FIREFLY_CLAMP: u32 = 0x4180_0000;

impl V3 {
    /// The vector pointing the other way.
    pub open spec fn reversed(self) -> V3 {
        V3 { x: bits32::flipped(self.x), y: bits32::flipped(self.y), z: bits32::flipped(self.z) }
    }

    /// The largest entry.
    pub open spec fn largest(self) -> u32 {
        bits32::greater(self.x, bits32::greater(self.y, self.z))
    }

    /// The vector with each entry between zero and one.
    pub open spec fn in_unit(self) -> V3 {
        V3 {
            x: bits32::clamped(self.x, bits32::ZERO, bits32::ONE),
            y: bits32::clamped(self.y, bits32::ZERO, bits32::ONE),
            z: bits32::clamped(self.z, bits32::ZERO, bits32::ONE),
        }
    }

    /// The color with each entry at most the firefly limit.
    pub open spec fn without_fireflies(self) -> V3 {
        V3 {
            x: bits32::lesser(self.x, FIREFLY_CLAMP),
            y: bits32::lesser(self.y, FIREFLY_CLAMP),
            z: bits32::lesser(self.z, FIREFLY_CLAMP),
        }
    }

    /// The smaller entries of two vectors.
    pub open spec fn lower(self, b: V3) -> V3 {
        V3 {
            x: bits32::lesser(self.x, b.x),
            y: bits32::lesser(self.y, b.y),
            z: bits32::lesser(self.z, b.z),
        }
    }

    /// The larger entries of two vectors.
    pub open spec fn upper(self, b: V3) -> V3 {
        V3 {
            x: bits32::greater(self.x, b.x),
            y: bits32::greater(self.y, b.y),
            z: bits32::greater(self.z, b.z),
        }
    }

    /// The vector with the given entries.
    pub fn new(x: u32, y: u32, z: u32) -> (r: V3)
        ensures
            r == (V3 { x, y, z }),
    {
        V3 { x, y, z }
    }

    /// The vector with three equal entries.
    pub fn splat(v: u32) -> (r: V3)
        ensures
            r == (V3 { x: v, y: v, z: v }),
    {
        V3 { x: v, y: v, z: v }
    }

    /// The vector pointing the other way.
    pub fn neg(self) -> (r: V3)
        ensures
            r == self.reversed(),
    {
        V3 { x: bits32::neg(self.x), y: bits32::neg(self.y), z: bits32::neg(self.z) }
    }

    /// The largest entry.
    pub fn max_comp(self) -> (r: u32)
        ensures
            r == self.largest(),
    {
        bits32::max(self.x, bits32::max(self.y, self.z))
    }

    /// Each entry moved between zero and one.
    pub fn clamp01(self) -> (r: V3)
        ensures
            r == self.in_unit(),
    {
        V3 {
            x: bits32::clamp(self.x, bits32::ZERO, bits32::ONE),
            y: bits32::clamp(self.y, bits32::ZERO, bits32::ONE),
            z: bits32::clamp(self.z, bits32::ZERO, bits32::ONE),
        }
    }

    /// Each entry cut off at the firefly limit.
    pub fn clamp_fireflies(self) -> (r: V3)
        ensures
            r == self.without_fireflies(),
    {
        V3 {
            x: bits32::min(self.x, FIREFLY_CLAMP),
            y: bits32::min(self.y, FIREFLY_CLAMP),
            z: bits32::min(self.z, FIREFLY_CLAMP),
        }
    }

    /// The smaller entries.
    pub fn min(self, b: V3) -> (r: V3)
        ensures
            r == self.lower(b),
    {
        V3 {
            x: bits32::min(self.x, b.x),
            y: bits32::min(self.y, b.y),
            z: bits32::min(self.z, b.z),
        }
    }

    /// The larger entries.
    pub fn max(self, b: V3) -> (r: V3)
        ensures
            r == self.upper(b),
    {
        V3 {
            x: bits32::max(self.x, b.x),
            y: bits32::max(self.y, b.y),
            z: bits32::max(self.z, b.z),
        }
    }
}

/// Whether a length is enough for a direction.
pub open spec fn is_long(length: u32) -> bool {
    !bits32::less(length, NULL_LENGTH)
}

/// Whether a vector of this length has a direction, so that it can be brought to
/// unit length; it is left as it is otherwise.
pub fn has_direction(length: u32) -> (r: bool)
    ensures
        r == is_long(length),
{
    !bits32::lt(length, NULL_LENGTH)
}

/// A clamped color never holds anything above the firefly limit, and no entry
/// that is not a number.
pub proof fn fireflies_are_cut(c: V3)
    ensures
        bits32::at_most(c.without_fireflies().x, FIREFLY_CLAMP),
        bits32::at_most(c.without_fireflies().y, FIREFLY_CLAMP),
        bits32::at_most(c.without_fireflies().z, FIREFLY_CLAMP),
{
}

/// The largest entry is one of the three, and no entry that is a number is
/// larger.
pub proof fn largest_is_largest(v: V3)
    ensures
        v.largest() == v.x || v.largest() == v.y || v.largest() == v.z,
        !bits32::is_nan(v.x) ==> bits32::at_most(v.x, v.largest()),
        !bits32::is_nan(v.y) ==> bits32::at_most(v.y, v.largest()),
        !bits32::is_nan(v.z) ==> bits32::at_most(v.z, v.largest()),
{
}

/// Whether `after` is `before` brought into the unit range.
pub open spec fn is_in_unit(before: u32, after: u32) -> bool {
    &&& bits32::at_most(0, before) && bits32::at_most(before, 0x3f80_0000) ==> after == before
    &&& bits32::less(before, 0) ==> after == 0
    &&& bits32::less(0x3f80_0000, before) ==> after == 0x3f80_0000
    &&& bits32::is_nan(before) ==> after == before
}

/// Each entry is brought into the unit range by itself.
pub proof fn unit_range_is_kept(v: V3)
    ensures
        is_in_unit(v.x, v.in_unit().x),
        is_in_unit(v.y, v.in_unit().y),
        is_in_unit(v.z, v.in_unit().z),
{
}

/// Each entry up to sixteen is kept, and everything else becomes sixteen.
pub proof fn fireflies_become_sixteen(c: V3)
    ensures
        c.without_fireflies().x == if bits32::at_most(c.x, 0x4180_0000) {
            c.x
        } else {
            0x4180_0000
        },
        c.without_fireflies().y == if bits32::at_most(c.y, 0x4180_0000) {
            c.y
        } else {
            0x4180_0000
        },
        c.without_fireflies().z == if bits32::at_most(c.z, 0x4180_0000) {
            c.z
        } else {
            0x4180_0000
        },
{
}

/// Reversing changes the sign of each entry, and undoes itself.
pub proof fn reversal_undoes_itself(v: V3)
    ensures
        v.reversed().reversed() == v,
        v.reversed().x - v.x == 0x8000_0000 || v.x - v.reversed().x == 0x8000_0000,
        v.reversed().y - v.y == 0x8000_0000 || v.y - v.reversed().y == 0x8000_0000,
        v.reversed().z - v.z == 0x8000_0000 || v.z - v.reversed().z == 0x8000_0000,
{
}

/// The lower and the upper of two vectors enclose both on each axis, and hold the
/// entries of that axis and no others.
pub proof fn lower_and_upper_enclose(a: V3, b: V3)
    requires
        !bits32::is_nan(a.x) && !bits32::is_nan(a.y) && !bits32::is_nan(a.z),
        !bits32::is_nan(b.x) && !bits32::is_nan(b.y) && !bits32::is_nan(b.z),
    ensures
        bits32::at_most(a.lower(b).x, a.x) && bits32::at_most(a.lower(b).x, b.x),
        bits32::at_most(a.lower(b).y, a.y) && bits32::at_most(a.lower(b).y, b.y),
        bits32::at_most(a.lower(b).z, a.z) && bits32::at_most(a.lower(b).z, b.z),
        bits32::at_most(a.x, a.upper(b).x) && bits32::at_most(b.x, a.upper(b).x),
        bits32::at_most(a.y, a.upper(b).y) && bits32::at_most(b.y, a.upper(b).y),
        bits32::at_most(a.z, a.upper(b).z) && bits32::at_most(b.z, a.upper(b).z),
        a.lower(b).x == a.x || a.lower(b).x == b.x,
        a.lower(b).y == a.y || a.lower(b).y == b.y,
        a.lower(b).z == a.z || a.lower(b).z == b.z,
        a.upper(b).x == a.x || a.upper(b).x == b.x,
        a.upper(b).y == a.y || a.upper(b).y == b.y,
        a.upper(b).z == a.z || a.upper(b).z == b.z,
{
}

/// Only a length below 1e-10 is too short for a direction, and none that is not a
/// number is.
pub proof fn short_vectors_have_no_direction(length: u32)
    ensures
        !is_long(length) <==> bits32::less(length, 0x2edb_e6ff),
        bits32::is_nan(length) ==> is_long(length),
{
}

} // verus!
