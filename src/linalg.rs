use vstd::prelude::*;

verus! {

/// A point or extent in world units.
#[derive(Clone, Copy, Debug, PartialEq, Eq, Structural, Default)]
pub struct Vec2 {
    pub x: i32,
    pub y: i32,
}

/// A point in texture pixel space.
#[derive(Clone, Copy, Debug, PartialEq, Eq, Structural, Default)]
pub struct Vec2i {
    pub x: i32,
    pub y: i32,
}

/// A translation in world space. The depth is kept in tenths of a world unit,
/// so that integer layers map onto exact depth values.
#[derive(Clone, Copy, Debug, PartialEq, Eq, Structural, Default)]
pub struct Vec3 {
    pub x: i32,
    pub y: i32,
    pub z_tenths: i64,
}

} // verus!
