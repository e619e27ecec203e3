//! The material table of the scene.

use vstd::prelude::*;
use crate::ray_tracer::units::{centi3, Centi3};

verus! {

/// Scatters light evenly.
pub const DIFFUSE: u8 = 0;

/// Mirrors light, with some fuzz.
pub const METAL: u8 = 1;

/// Lets light through and bends it.
pub const DIELECTRIC: u8 = 2;

/// Gives light off.
pub const EMISSIVE: u8 = 3;

/// The material of the area light in the ceiling.
pub const MAIN_LIGHT: u8 = 3;

/// The material of the checkered floor.
pub const CHECKERED: u8 = 9;

/// What a surface is made of. The parameter, in hundredths, is the strength of
/// an emissive material, the fuzz of a metal and the refractive index of a
/// dielectric.
#[derive(Clone, Copy, PartialEq, Eq, Structural, Debug)]
pub struct Mat {
    pub kind: u8,
    pub albedo: Centi3,
    pub param: i32,
}

/// How material `id` treats light.
pub open spec fn kind_of(id: u8) -> u8 {
    if id == 3 || id == 16 {
        EMISSIVE
    } else if id == 4 || id == 8 || id == 14 {
        METAL
    } else if id == 5 {
        DIELECTRIC
    } else {
        DIFFUSE
    }
}

/// The parameter of material `id`.
pub open spec fn param_of(id: u8) -> i32 {
    match id {
        3 => 1800,
        16 => 600,
        4 => 2,
        8 => 14,
        14 => 4,
        5 => 150,
        _ => 0,
    }
}

/// The color of material `id`; an id without an entry is mid gray.
pub open spec fn albedo_of(id: u8) -> Centi3 {
    match id {
        0 => centi3(73, 73, 73),
        1 => centi3(63, 26, 30),
        2 => centi3(20, 52, 50),
        3 => centi3(100, 90, 70),
        4 => centi3(95, 78, 45),
        5 => centi3(100, 100, 100),
        6 => centi3(16, 28, 72),
        7 => centi3(72, 55, 22),
        8 => centi3(86, 88, 95),
        10 => centi3(78, 78, 80),
        11 => centi3(70, 72, 75),
        12 => centi3(74, 34, 62),
        13 => centi3(80, 71, 28),
        14 => centi3(80, 84, 92),
        15 => centi3(80, 45, 20),
        16 => centi3(100, 55, 22),
        _ => centi3(50, 50, 50),
    }
}

/// The table entry with the given values.
fn entry(kind: u8, x: i32, y: i32, z: i32, param: i32) -> (r: Mat)
    ensures
        r == (Mat { kind, albedo: centi3(x as int, y as int, z as int), param }),
{
    Mat { kind, albedo: Centi3 { x, y, z }, param }
}

/// Looks a material up.
pub fn get_mat(id: u8) -> (r: Mat)
    ensures
        r.kind == kind_of(id),
        r.albedo == albedo_of(id),
        r.param == param_of(id),
{
    match id {
        0 => entry(DIFFUSE, 73, 73, 73, 0),
        1 => entry(DIFFUSE, 63, 26, 30, 0),
        2 => entry(DIFFUSE, 20, 52, 50, 0),
        3 => entry(EMISSIVE, 100, 90, 70, 1800),
        4 => entry(METAL, 95, 78, 45, 2),
        5 => entry(DIELECTRIC, 100, 100, 100, 150),
        6 => entry(DIFFUSE, 16, 28, 72, 0),
        7 => entry(DIFFUSE, 72, 55, 22, 0),
        8 => entry(METAL, 86, 88, 95, 14),
        9 => entry(DIFFUSE, 50, 50, 50, 0),
        10 => entry(DIFFUSE, 78, 78, 80, 0),
        11 => entry(DIFFUSE, 70, 72, 75, 0),
        12 => entry(DIFFUSE, 74, 34, 62, 0),
        13 => entry(DIFFUSE, 80, 71, 28, 0),
        14 => entry(METAL, 80, 84, 92, 4),
        15 => entry(DIFFUSE, 80, 45, 20, 0),
        16 => entry(EMISSIVE, 100, 55, 22, 600),
        _ => entry(DIFFUSE, 50, 50, 50, 0),
    }
}

/// Whether the square of the checkered floor in column `ix` and row `iz` is a
/// light one.
pub open spec fn light_square(ix: i32, iz: i32) -> bool {
    (ix + iz) % 2 == 0
}

/// The color of a floor square.
pub open spec fn square_color(ix: i32, iz: i32) -> Centi3 {
    if light_square(ix, iz) {
        centi3(82, 80, 76)
    } else {
        centi3(18, 19, 22)
    }
}

/// The color of the floor square in column `ix` and row `iz`.
pub fn checker(ix: i32, iz: i32) -> (r: Centi3)
    ensures
        r == square_color(ix, iz),
{
    let even: bool = (ix.wrapping_add(iz)) & 1 == 0;
    proof {
        let s: i32 = ix.wrapping_add(iz);
        assert(s & 1 == 0 <==> s % 2 == 0) by (bit_vector);
    }
    if even {
        Centi3 { x: 82, y: 80, z: 76 }
    } else {
        Centi3 { x: 18, y: 19, z: 22 }
    }
}

/// No surface sends back more light than reaches it.
pub proof fn albedo_conserves_energy(id: u8)
    ensures
        0 <= albedo_of(id).x <= 100,
        0 <= albedo_of(id).y <= 100,
        0 <= albedo_of(id).z <= 100,
{
}

/// Neighboring squares of the floor have different colors.
pub proof fn checker_alternates(ix: i32, iz: i32)
    requires
        ix < i32::MAX,
        iz < i32::MAX,
    ensures
        light_square((ix + 1) as i32, iz) != light_square(ix, iz),
        light_square(ix, (iz + 1) as i32) != light_square(ix, iz),
{
}

/// The floor has two colors. The square at the origin is the light one, and any
/// other has the same color just when it is an even number of squares away,
/// along both axes together.
pub proof fn floor_is_a_checkerboard(ix: i32, iz: i32)
    ensures
        square_color(0, 0).x == 82 && square_color(0, 0).y == 80 && square_color(0, 0).z == 76,
        (ix + iz) % 2 == 0 ==> square_color(ix, iz) == square_color(0, 0),
        (ix + iz) % 2 != 0 ==> square_color(ix, iz).x == 18 && square_color(ix, iz).y == 19
            && square_color(ix, iz).z == 22,
{
}

/// Two materials give light, three mirror it, one bends it, and all others
/// scatter it. Those have no parameter; the ones that bend or give light are
/// stronger than one, and the mirrors are less than a fifth fuzzy. Beyond the
/// table everything is mid gray.
pub proof fn materials_behave(id: u8)
    ensures
        kind_of(id) == 3 <==> id == 3 || id == 16,
        kind_of(id) == 1 <==> id == 4 || id == 8 || id == 14,
        kind_of(id) == 2 <==> id == 5,
        kind_of(id) == 0 <==> id != 3 && id != 16 && id != 4 && id != 8 && id != 14 && id != 5,
        kind_of(id) == 0 <==> param_of(id) == 0,
        kind_of(id) == 3 ==> param_of(id) == if id == 3 {
            1800
        } else {
            600int
        },
        kind_of(id) == 2 ==> param_of(id) == 150,
        kind_of(id) == 1 ==> 0 < param_of(id) < 20,
        id > 16 ==> albedo_of(id).x == 50 && albedo_of(id).y == 50 && albedo_of(id).z == 50,
{
}

} // verus!
