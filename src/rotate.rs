use vstd::prelude::*;

verus! {

/// The coordinate axis that a rotation turns about.
#[derive(Clone, Copy, Debug, PartialEq, Eq, Structural)]
pub enum Axis {
    X,
    Y,
    Z,
}

/// Index of `axis` among the coordinates (x = 0, y = 1, z = 2).
pub open spec fn axis_index(axis: Axis) -> int {
    match axis {
        Axis::X => 0,
        Axis::Y => 1,
        Axis::Z => 2,
    }
}

/// The rotation axis `r` followed by the two axes `a`, `b` of the plane it
/// turns, in cyclic order, so that `(r, a, b)` is a right-handed frame.
pub fn get_axis(axis: &Axis) -> (r: (usize, usize, usize))
    ensures
        r.0 == axis_index(*axis),
        r.1 == (r.0 + 1) % 3,
        r.2 == (r.0 + 2) % 3,
{
    match axis {
        Axis::X => (0, 1, 2),
        Axis::Y => (1, 2, 0),
        Axis::Z => (2, 0, 1),
    }
}

} // verus!
