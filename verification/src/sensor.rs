use vstd::prelude::*;

verus! {

/// The magnetometer's raw field vector: three signed components, produced
/// fresh on every sensor read and never retained. Only `x` and `y` — the
/// horizontal plane — feed the heading; `z` is carried but not consumed.
///
/// The read itself is a blocking bus transaction and stays outside this
/// crate; a cycle receives the vector (or the fault that took its place) as
/// a plain value.
#[derive(Clone, Copy, Debug, PartialEq, Eq, Structural)]
pub struct RawField {
    pub x: i32,
    pub y: i32,
    pub z: i32,
}

impl RawField {
    pub fn new(x: i32, y: i32, z: i32) -> (f: RawField)
        ensures
            f.x == x,
            f.y == y,
            f.z == z,
    {
        RawField { x, y, z }
    }
}

} // verus!
