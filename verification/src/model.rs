//! The cube mesh data: twenty-four corner vertices, four per face, and an
//! index buffer of six faces with two triangles each.  The texel and
//! projection-matrix helpers that go with it on the host side are
//! floating-point work and stay there; what is modeled here is the integer
//! mesh itself.

use vstd::arithmetic::div_mod::lemma_fundamental_div_mod_converse;
use vstd::prelude::*;

use crate::utils::{vertex, Vertex};

verus! {

/// Which of a face's four corners the `p`-th slot of its six indices names:
/// the two triangles `0 1 2` and `2 3 0` of the quad.
pub open spec fn corner_of_slot(p: int) -> int {
    if p == 0 {
        0
    } else if p == 1 {
        1
    } else if p == 2 {
        2
    } else if p == 3 {
        2
    } else if p == 4 {
        3
    } else {
        0
    }
}

/// The `k`-th entry of the cube's index buffer: face `k / 6` contributes its
/// corners `4 * (k / 6) + corner_of_slot(k % 6)`.
pub open spec fn cube_index_at(k: int) -> int {
    4 * (k / 6) + corner_of_slot(k % 6)
}

/// The cube's index buffer: six faces of four vertices each, two triangles
/// per face, every index within the twenty-four cube vertices.
pub fn gen_indexes() -> (r: Vec<u16>)
    ensures
        r@.len() == 36,
        forall|k: int| 0 <= k < 36 ==> #[trigger] r@[k] == cube_index_at(k),
        forall|k: int| 0 <= k < 36 ==> 0 <= #[trigger] r@[k] < 24,
{
    let mut indices: Vec<u16> = Vec::new();
    let mut face: u16 = 0;
    while face < 6
        invariant
            face <= 6,
            indices@.len() == 6 * face,
            forall|k: int|
                0 <= k < indices@.len() ==> #[trigger] indices@[k] == cube_index_at(k) && 0 <= indices@[k] < 24,
        decreases 6 - face,
    {
        let base = 4 * face;
        indices.push(base);
        indices.push(base + 1);
        indices.push(base + 2);
        indices.push(base + 2);
        indices.push(base + 3);
        indices.push(base);
        proof {
            assert forall|k: int| 0 <= k < indices@.len() implies #[trigger] indices@[k]
                == cube_index_at(k) && 0 <= indices@[k] < 24 by {
                if k >= 6 * face {
                    lemma_fundamental_div_mod_converse(k, 6, face as int, k - 6 * (face as int));
                }
            }
        }
        face = face + 1;
    }
    indices
}

/// The cube mesh: its twenty-four corner vertices — four per face, with the
/// face's texture coordinates — and its index buffer.
pub fn create_vertices() -> (r: (Vec<Vertex>, Vec<u16>))
    ensures
        r.0@.len() == 24,
        forall|i: int| 0 <= i < 24 ==> (#[trigger] r.0@[i]).is_corner(),
        r.1@.len() == 36,
        forall|k: int| 0 <= k < 36 ==> #[trigger] r.1@[k] == cube_index_at(k),
        forall|k: int| 0 <= k < 36 ==> 0 <= #[trigger] r.1@[k] < 24,
{
    let mut vertex_data: Vec<Vertex> = Vec::new();
    // top (0, 0, 1)
    vertex_data.push(vertex([-1, -1, 1], [0, 0]));
    vertex_data.push(vertex([1, -1, 1], [1, 0]));
    vertex_data.push(vertex([1, 1, 1], [1, 1]));
    vertex_data.push(vertex([-1, 1, 1], [0, 1]));
    // bottom (0, 0, -1)
    vertex_data.push(vertex([-1, 1, -1], [1, 0]));
    vertex_data.push(vertex([1, 1, -1], [0, 0]));
    vertex_data.push(vertex([1, -1, -1], [0, 1]));
    vertex_data.push(vertex([-1, -1, -1], [1, 1]));
    // right (1, 0, 0)
    vertex_data.push(vertex([1, -1, -1], [0, 0]));
    vertex_data.push(vertex([1, 1, -1], [1, 0]));
    vertex_data.push(vertex([1, 1, 1], [1, 1]));
    vertex_data.push(vertex([1, -1, 1], [0, 1]));
    // left (-1, 0, 0)
    vertex_data.push(vertex([-1, -1, 1], [1, 0]));
    vertex_data.push(vertex([-1, 1, 1], [0, 0]));
    vertex_data.push(vertex([-1, 1, -1], [0, 1]));
    vertex_data.push(vertex([-1, -1, -1], [1, 1]));
    // front (0, 1, 0)
    vertex_data.push(vertex([1, 1, -1], [1, 0]));
    vertex_data.push(vertex([-1, 1, -1], [0, 0]));
    vertex_data.push(vertex([-1, 1, 1], [0, 1]));
    vertex_data.push(vertex([1, 1, 1], [1, 1]));
    // back (0, -1, 0)
    vertex_data.push(vertex([1, -1, 1], [0, 0]));
    vertex_data.push(vertex([-1, -1, 1], [1, 0]));
    vertex_data.push(vertex([-1, -1, -1], [1, 1]));
    vertex_data.push(vertex([1, -1, -1], [0, 1]));

    let index_data = gen_indexes();
    (vertex_data, index_data)
}

} // verus!
