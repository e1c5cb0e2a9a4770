use vstd::prelude::*;

verus! {

/// The coordinate plane that an axis-aligned rectangle lies parallel to.
#[derive(Clone, Copy, Debug, PartialEq, Eq, Structural)]
pub enum Plane {
    YZ,
    ZX,
    XY,
}

/// Index of the axis perpendicular to `plane` (x = 0, y = 1, z = 2).
pub open spec fn normal_index(plane: Plane) -> int {
    match plane {
        Plane::YZ => 0,
        Plane::ZX => 1,
        Plane::XY => 2,
    }
}

/// The axis `k` that the rectangle's normal points along, then the two axes
/// `a`, `b` that span the rectangle, in cyclic order: a `ZX` rectangle spans
/// `z` first, then `x`.
pub fn plane_axes(plane: &Plane) -> (r: (usize, usize, usize))
    ensures
        r.0 == normal_index(*plane),
        r.1 == (r.0 + 1) % 3,
        r.2 == (r.0 + 2) % 3,
{
    match plane {
        Plane::YZ => (0, 1, 2),
        Plane::ZX => (1, 2, 0),
        Plane::XY => (2, 0, 1),
    }
}

} // verus!
