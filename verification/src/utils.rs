//! The mesh vertex model.  A vertex is held as the plain integer values the
//! mesh tables are written in: a corner position with coordinates in
//! `{-1, 1}` and a texture coordinate in `{0, 1}`.  The host widens them to
//! the GPU's floating-point layout (position with a unit `w` component,
//! floating-point texture coordinates) when it uploads a buffer.

pub mod models;

use vstd::prelude::*;

verus! {

/// One mesh vertex: an integer corner position and texture coordinate.
#[derive(Clone, Copy, PartialEq, Eq, Debug)]
pub struct Vertex {
    pub pos: [i8; 3],
    pub tex_coord: [i8; 2],
}

/// Builds one vertex from a position and a texture coordinate.
pub fn vertex(pos: [i8; 3], tc: [i8; 2]) -> (r: Vertex)
    ensures
        r.pos == pos,
        r.tex_coord == tc,
{
    Vertex { pos, tex_coord: tc }
}

impl Vertex {
    /// A cube-corner vertex: every position coordinate is a corner value and
    /// the texture coordinate lies on the unit square's corners.
    pub open spec fn is_corner(self) -> bool {
        &&& forall|i: int|
            0 <= i < 3 ==> (#[trigger] self.pos@[i] == -1 || self.pos@[i] == 1)
        &&& forall|i: int| 0 <= i < 2 ==> (#[trigger] self.tex_coord@[i] == 0 || self.tex_coord@[i] == 1)
    }
}

} // verus!
