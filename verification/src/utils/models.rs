//! The model catalogue: which meshes the demo scenes draw from, and the
//! integer mesh data each one contributes.  Vertex layouts that are
//! floating-point through and through (the plane's positions and normals,
//! the sphere's trigonometry) are generated host-side; their index buffers
//! and the cube's full mesh are plain values and stand here.

use vstd::prelude::*;

use crate::model::{create_vertices, cube_index_at};
use crate::utils::Vertex;

verus! {

/// The meshes the catalogue can produce buffers for.
#[derive(Clone, Copy, PartialEq, Eq, Structural, Debug)]
pub enum ModelType {
    Plane,
    Sphere,
    Cube,
}

impl ModelType {
    /// The fixed draw order of the catalogue: plane, sphere, cube, and the
    /// plane once more.
    pub fn iterator() -> (r: Vec<ModelType>)
        ensures
            r@.len() == 4,
            r@[0] is Plane,
            r@[1] is Sphere,
            r@[2] is Cube,
            r@[3] is Plane,
    {
        let mut order: Vec<ModelType> = Vec::new();
        order.push(ModelType::Plane);
        order.push(ModelType::Sphere);
        order.push(ModelType::Cube);
        order.push(ModelType::Plane);
        order
    }
}

/// The cube mesh, as the catalogue hands it out: the corner vertices and
/// the six-face index buffer.
pub fn gen_cube() -> (r: (Vec<Vertex>, Vec<u16>))
    ensures
        r.0@.len() == 24,
        forall|i: int| 0 <= i < 24 ==> (#[trigger] r.0@[i]).is_corner(),
        r.1@.len() == 36,
        forall|k: int| 0 <= k < 36 ==> #[trigger] r.1@[k] == cube_index_at(k),
{
    create_vertices()
}

/// How many index entries the sphere's stacks `0 .. i` contribute: every
/// stack triangulates one quad ring of `sectors` quads, except that the
/// first stack omits its upper triangles and the last its lower ones.
spec fn sphere_index_prefix_len(i: int, sectors: int, stacks: int) -> int {
    3 * sectors * (if i == 0 {
        0
    } else {
        i - 1
    }) + 3 * sectors * (if i < stacks {
        i
    } else {
        i - 1
    })
}

/// The sphere's index buffer for a grid of `sectors` columns and `stacks`
/// rows of quads over `(stacks + 1) * (sectors + 1)` ring vertices: two
/// triangles per interior quad, one at the poles, every index within the
/// vertex grid.  The grid must fit the index type.
pub fn gen_sphere_indexes(sectors: u32, stacks: u32) -> (r: Vec<u16>)
    requires
        1 <= sectors,
        1 <= stacks,
        (stacks + 1) * (sectors + 1) <= 65536,
    ensures
        r@.len() == 6 * sectors * (stacks - 1),
        forall|k: int| 0 <= k < r@.len() ==> (#[trigger] r@[k]) < (stacks + 1) * (sectors + 1),
{
    proof {
        assert(stacks + 1 <= 32768 && sectors + 1 <= 32768) by (nonlinear_arith)
            requires
                1 <= sectors,
                1 <= stacks,
                (stacks + 1) * (sectors + 1) <= 65536,
        ;
    }
    let vertex_count: u32 = (stacks + 1) * (sectors + 1);
    let mut indices: Vec<u16> = Vec::new();
    let mut i: u32 = 0;
    while i < stacks
        invariant
            1 <= sectors,
            1 <= stacks,
            i <= stacks,
            sectors + 1 <= 32768,
            stacks + 1 <= 32768,
            vertex_count == (stacks + 1) * (sectors + 1),
            vertex_count <= 65536,
            indices@.len() == sphere_index_prefix_len(i as int, sectors as int, stacks as int),
            forall|k: int| 0 <= k < indices@.len() ==> (#[trigger] indices@[k]) < vertex_count,
        decreases stacks - i,
    {
        proof {
            assert(i * (sectors + 1) + (sectors + 1) <= vertex_count) by (nonlinear_arith)
                requires
                    i < stacks,
                    vertex_count == (stacks + 1) * (sectors + 1),
                    1 <= sectors,
            ;
        }
        let mut k1: u32 = i * (sectors + 1);
        let mut k2: u32 = k1 + sectors + 1;
        let ghost len_at_stack = indices@.len() as int;
        let ghost tri: int = (if i != 0 {
            3int
        } else {
            0int
        }) + (if i + 1 != stacks {
            3int
        } else {
            0int
        });
        let mut j: u32 = 0;
        while j < sectors
            invariant
                1 <= sectors,
                1 <= stacks,
                i < stacks,
                j <= sectors,
                vertex_count == (stacks + 1) * (sectors + 1),
                vertex_count <= 65536,
                k1 == i * (sectors + 1) + j,
                k2 == k1 + sectors + 1,
                tri == (if i != 0 {
                    3int
                } else {
                    0int
                }) + (if i + 1 != stacks {
                    3int
                } else {
                    0int
                }),
                indices@.len() == len_at_stack + j * tri,
                forall|k: int| 0 <= k < indices@.len() ==> (#[trigger] indices@[k]) < vertex_count,
            decreases sectors - j,
        {
            proof {
                assert(k2 + 1 < vertex_count) by (nonlinear_arith)
                    requires
                        k1 == i * (sectors + 1) + j,
                        k2 == k1 + sectors + 1,
                        vertex_count == (stacks + 1) * (sectors + 1),
                        i < stacks,
                        j < sectors,
                ;
                assert(k1 < k2 && k2 + 1 < vertex_count && vertex_count <= 65536);
                assert(((k1 as u16) == k1) && (((k1 + 1) as u16) == k1 + 1) && ((k2 as u16) == k2)
                    && (((k2 + 1) as u16) == k2 + 1));
                assert((j + 1) * tri == j * tri + tri) by (nonlinear_arith);
            }
            if i != 0 {
                indices.push(k1 as u16);
                indices.push(k2 as u16);
                indices.push((k1 + 1) as u16);
            }
            if i + 1 != stacks {
                indices.push((k1 + 1) as u16);
                indices.push(k2 as u16);
                indices.push((k2 + 1) as u16);
            }
            k1 = k1 + 1;
            k2 = k2 + 1;
            j = j + 1;
        }
        proof {
            assert(len_at_stack + sectors * tri == sphere_index_prefix_len(
                i + 1,
                sectors as int,
                stacks as int,
            )) by (nonlinear_arith)
                requires
                    len_at_stack == sphere_index_prefix_len(i as int, sectors as int, stacks as int),
                    tri == (if i != 0 {
                        3int
                    } else {
                        0int
                    }) + (if i + 1 != stacks {
                        3int
                    } else {
                        0int
                    }),
                    0 <= i < stacks,
                    1 <= sectors,
                    1 <= stacks,
            ;
        }
        i = i + 1;
    }
    proof {
        assert(sphere_index_prefix_len(stacks as int, sectors as int, stacks as int) == 6 * sectors
            * (stacks - 1)) by (nonlinear_arith)
            requires
                1 <= stacks,
        ;
    }
    indices
}

/// The plane's index buffer: its six vertices in order, one triangle after
/// the other.
pub fn gen_plane_indexes() -> (r: Vec<u16>)
    ensures
        r@.len() == 6,
        forall|k: int| 0 <= k < 6 ==> #[trigger] r@[k] == k,
{
    let mut indexes: Vec<u16> = Vec::new();
    let mut i: u16 = 0;
    while i < 6
        invariant
            i <= 6,
            indexes@.len() == i,
            forall|k: int| 0 <= k < i ==> #[trigger] indexes@[k] == k,
        decreases 6 - i,
    {
        indexes.push(i);
        i = i + 1;
    }
    indexes
}

} // verus!
