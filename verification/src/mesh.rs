//! The cube mesh: 24 vertices (four per face, so each face can carry
//! its own atlas cell) and 36 indices forming two triangles per face.

use crate::camera::Vec3i;
use vstd::prelude::*;

verus! {

/// A texture coordinate into the atlas, kept exact: `u` in quarters
/// of the atlas width (0 to 4) and `v` in halves of the atlas height
/// (0 to 2), so both always denote a point inside [0, 1] x [0, 1].
#[derive(Clone, Copy, Debug, PartialEq, Eq, Structural)]
pub struct TexCoord {
    pub u_quarters: u8,
    pub v_halves: u8,
}

impl TexCoord {
    /// The coordinate stays inside the atlas: u/4 and v/2 lie in [0, 1].
    pub open spec fn wf(self) -> bool {
        self.u_quarters <= 4 && self.v_halves <= 2
    }
}

/// One cube vertex: a corner position in whole world units (every
/// coordinate is -1 or 1) and its atlas coordinate.
#[derive(Clone, Copy, Debug, PartialEq, Eq, Structural)]
pub struct Vertex {
    pub position: Vec3i,
    pub tex: TexCoord,
}

/// The vertex with index `i` of the cube mesh. Faces come in the
/// order front, back, top, bottom, right, left, four corners each;
/// the first four faces map to the top row of atlas cells and the
/// last two to the first two cells of the bottom row.
pub open spec fn cube_vertex(i: int) -> Vertex {
    if i == 0 {
        Vertex { position: Vec3i { x: -1i32, y: -1i32, z: 1i32 }, tex: TexCoord { u_quarters: 0u8, v_halves: 2u8 } }
    } else if i == 1 {
        Vertex { position: Vec3i { x: 1i32, y: -1i32, z: 1i32 }, tex: TexCoord { u_quarters: 1u8, v_halves: 2u8 } }
    } else if i == 2 {
        Vertex { position: Vec3i { x: 1i32, y: 1i32, z: 1i32 }, tex: TexCoord { u_quarters: 1u8, v_halves: 1u8 } }
    } else if i == 3 {
        Vertex { position: Vec3i { x: -1i32, y: 1i32, z: 1i32 }, tex: TexCoord { u_quarters: 0u8, v_halves: 1u8 } }
    } else if i == 4 {
        Vertex { position: Vec3i { x: -1i32, y: -1i32, z: -1i32 }, tex: TexCoord { u_quarters: 1u8, v_halves: 2u8 } }
    } else if i == 5 {
        Vertex { position: Vec3i { x: -1i32, y: 1i32, z: -1i32 }, tex: TexCoord { u_quarters: 1u8, v_halves: 1u8 } }
    } else if i == 6 {
        Vertex { position: Vec3i { x: 1i32, y: 1i32, z: -1i32 }, tex: TexCoord { u_quarters: 2u8, v_halves: 1u8 } }
    } else if i == 7 {
        Vertex { position: Vec3i { x: 1i32, y: -1i32, z: -1i32 }, tex: TexCoord { u_quarters: 2u8, v_halves: 2u8 } }
    } else if i == 8 {
        Vertex { position: Vec3i { x: -1i32, y: 1i32, z: -1i32 }, tex: TexCoord { u_quarters: 2u8, v_halves: 2u8 } }
    } else if i == 9 {
        Vertex { position: Vec3i { x: -1i32, y: 1i32, z: 1i32 }, tex: TexCoord { u_quarters: 2u8, v_halves: 1u8 } }
    } else if i == 10 {
        Vertex { position: Vec3i { x: 1i32, y: 1i32, z: 1i32 }, tex: TexCoord { u_quarters: 3u8, v_halves: 1u8 } }
    } else if i == 11 {
        Vertex { position: Vec3i { x: 1i32, y: 1i32, z: -1i32 }, tex: TexCoord { u_quarters: 3u8, v_halves: 2u8 } }
    } else if i == 12 {
        Vertex { position: Vec3i { x: -1i32, y: -1i32, z: -1i32 }, tex: TexCoord { u_quarters: 3u8, v_halves: 2u8 } }
    } else if i == 13 {
        Vertex { position: Vec3i { x: 1i32, y: -1i32, z: -1i32 }, tex: TexCoord { u_quarters: 4u8, v_halves: 2u8 } }
    } else if i == 14 {
        Vertex { position: Vec3i { x: 1i32, y: -1i32, z: 1i32 }, tex: TexCoord { u_quarters: 4u8, v_halves: 1u8 } }
    } else if i == 15 {
        Vertex { position: Vec3i { x: -1i32, y: -1i32, z: 1i32 }, tex: TexCoord { u_quarters: 3u8, v_halves: 1u8 } }
    } else if i == 16 {
        Vertex { position: Vec3i { x: 1i32, y: -1i32, z: -1i32 }, tex: TexCoord { u_quarters: 0u8, v_halves: 1u8 } }
    } else if i == 17 {
        Vertex { position: Vec3i { x: 1i32, y: 1i32, z: -1i32 }, tex: TexCoord { u_quarters: 0u8, v_halves: 0u8 } }
    } else if i == 18 {
        Vertex { position: Vec3i { x: 1i32, y: 1i32, z: 1i32 }, tex: TexCoord { u_quarters: 1u8, v_halves: 0u8 } }
    } else if i == 19 {
        Vertex { position: Vec3i { x: 1i32, y: -1i32, z: 1i32 }, tex: TexCoord { u_quarters: 1u8, v_halves: 1u8 } }
    } else if i == 20 {
        Vertex { position: Vec3i { x: -1i32, y: -1i32, z: -1i32 }, tex: TexCoord { u_quarters: 1u8, v_halves: 1u8 } }
    } else if i == 21 {
        Vertex { position: Vec3i { x: -1i32, y: -1i32, z: 1i32 }, tex: TexCoord { u_quarters: 2u8, v_halves: 1u8 } }
    } else if i == 22 {
        Vertex { position: Vec3i { x: -1i32, y: 1i32, z: 1i32 }, tex: TexCoord { u_quarters: 2u8, v_halves: 0u8 } }
    } else {
        Vertex { position: Vec3i { x: -1i32, y: 1i32, z: -1i32 }, tex: TexCoord { u_quarters: 1u8, v_halves: 0u8 } }
    }
}

/// The corner pattern of the two triangles of one face quad: the
/// first triangle uses corners 0, 1, 2 and the second corners 2, 3, 0.
pub open spec fn corner_pattern(j: int) -> int {
    if j == 0 {
        0
    } else if j == 1 {
        1
    } else if j == 2 {
        2
    } else if j == 3 {
        2
    } else if j == 4 {
        3
    } else {
        0
    }
}

/// The index with position `i` in the 36-entry index list: entry `i`
/// belongs to face `i / 6` and picks that face's corner
/// `corner_pattern(i % 6)`.
pub open spec fn cube_index(i: int) -> int {
    4 * (i / 6) + corner_pattern(i % 6)
}

/// Builds the 24 cube vertices. Every vertex matches the fixed table
/// `cube_vertex`, and every texture coordinate stays inside the atlas.
pub fn cube_vertices() -> (vertices: Vec<Vertex>)
    ensures
        vertices@.len() == 24,
        forall|i: int| 0 <= i < 24 ==> vertices@[i] == cube_vertex(i),
        forall|i: int| 0 <= i < 24 ==> (#[trigger] vertices@[i]).tex.wf(),
{
    let mut vertices: Vec<Vertex> = Vec::new();
    let mut i: usize = 0;
    while i < 24
        invariant
            i <= 24,
            vertices@.len() == i,
            forall|k: int| 0 <= k < i ==> vertices@[k] == cube_vertex(k),
        decreases 24 - i,
    {
        vertices.push(vertex_at(i));
        i = i + 1;
    }
    assert forall|i: int| 0 <= i < 24 implies (#[trigger] vertices@[i]).tex.wf() by {
        assert(vertices@[i] == cube_vertex(i));
    }
    vertices
}

/// Returns the cube vertex with index `i` of the fixed table.
fn vertex_at(i: usize) -> (v: Vertex)
    requires
        i < 24,
    ensures
        v == cube_vertex(i as int),
{
    let (x, y, z, u, w): (i32, i32, i32, u8, u8) = if i == 0 {
        (-1, -1, 1, 0, 2)
    } else if i == 1 {
        (1, -1, 1, 1, 2)
    } else if i == 2 {
        (1, 1, 1, 1, 1)
    } else if i == 3 {
        (-1, 1, 1, 0, 1)
    } else if i == 4 {
        (-1, -1, -1, 1, 2)
    } else if i == 5 {
        (-1, 1, -1, 1, 1)
    } else if i == 6 {
        (1, 1, -1, 2, 1)
    } else if i == 7 {
        (1, -1, -1, 2, 2)
    } else if i == 8 {
        (-1, 1, -1, 2, 2)
    } else if i == 9 {
        (-1, 1, 1, 2, 1)
    } else if i == 10 {
        (1, 1, 1, 3, 1)
    } else if i == 11 {
        (1, 1, -1, 3, 2)
    } else if i == 12 {
        (-1, -1, -1, 3, 2)
    } else if i == 13 {
        (1, -1, -1, 4, 2)
    } else if i == 14 {
        (1, -1, 1, 4, 1)
    } else if i == 15 {
        (-1, -1, 1, 3, 1)
    } else if i == 16 {
        (1, -1, -1, 0, 1)
    } else if i == 17 {
        (1, 1, -1, 0, 0)
    } else if i == 18 {
        (1, 1, 1, 1, 0)
    } else if i == 19 {
        (1, -1, 1, 1, 1)
    } else if i == 20 {
        (-1, -1, -1, 1, 1)
    } else if i == 21 {
        (-1, -1, 1, 2, 1)
    } else if i == 22 {
        (-1, 1, 1, 2, 0)
    } else {
        (-1, 1, -1, 1, 0)
    };
    Vertex { position: Vec3i { x, y, z }, tex: TexCoord { u_quarters: u, v_halves: w } }
}

/// Builds the 36-entry index list: for each of the six faces, the two
/// triangles (0, 1, 2) and (2, 3, 0) over that face's four corners.
/// Every entry matches `cube_index`, refers to one of the 24 vertices,
/// and the three corners of each triangle are pairwise distinct.
pub fn cube_indices() -> (indices: Vec<u16>)
    ensures
        indices@.len() == 36,
        forall|i: int| 0 <= i < 36 ==> indices@[i] == cube_index(i),
        forall|i: int| 0 <= i < 36 ==> 0 <= #[trigger] indices@[i] < 24,
        forall|t: int| 0 <= t < 12 ==> triangle_distinct(indices@, t),
{
    let mut indices: Vec<u16> = Vec::new();
    let mut f: u16 = 0;
    while f < 6
        invariant
            f <= 6,
            indices@.len() == 6 * f,
            forall|k: int| 0 <= k < 6 * f ==> indices@[k] == cube_index(k),
        decreases 6 - f,
    {
        let base: u16 = 4 * f;
        indices.push(base);
        indices.push(base + 1);
        indices.push(base + 2);
        indices.push(base + 2);
        indices.push(base + 3);
        indices.push(base);
        proof {
            lemma_face_entries(f as int);
        }
        f = f + 1;
    }
    proof {
        lemma_cube_index_bounds();
        assert forall|i: int| 0 <= i < 36 implies 0 <= #[trigger] indices@[i] < 24 by {
            assert(indices@[i] == cube_index(i));
        }
        assert forall|t: int| 0 <= t < 12 implies triangle_distinct(indices@, t) by {
            lemma_triangle_distinct(t);
        }
    }
    indices
}

/// The three entries of triangle `t` of an index list name three
/// different vertices.
pub open spec fn triangle_distinct(indices: Seq<u16>, t: int) -> bool {
    &&& indices[3 * t] != indices[3 * t + 1]
    &&& indices[3 * t + 1] != indices[3 * t + 2]
    &&& indices[3 * t] != indices[3 * t + 2]
}

/// Within face `f`, the six index-list entries take the values
/// 4f, 4f+1, 4f+2, 4f+2, 4f+3, 4f.
proof fn lemma_face_entries(f: int)
    requires
        0 <= f < 6,
    ensures
        cube_index(6 * f) == 4 * f,
        cube_index(6 * f + 1) == 4 * f + 1,
        cube_index(6 * f + 2) == 4 * f + 2,
        cube_index(6 * f + 3) == 4 * f + 2,
        cube_index(6 * f + 4) == 4 * f + 3,
        cube_index(6 * f + 5) == 4 * f,
{
    lemma_entry_decomposition(f, 0);
    lemma_entry_decomposition(f, 1);
    lemma_entry_decomposition(f, 2);
    lemma_entry_decomposition(f, 3);
    lemma_entry_decomposition(f, 4);
    lemma_entry_decomposition(f, 5);
}

/// Entry `6f + j` of the index list belongs to face `f` and corner
/// slot `j`.
proof fn lemma_entry_decomposition(f: int, j: int)
    requires
        0 <= f,
        0 <= j < 6,
    ensures
        (6 * f + j) / 6 == f,
        (6 * f + j) % 6 == j,
{
    vstd::arithmetic::div_mod::lemma_div_multiples_vanish_fancy(f, j, 6);
    vstd::arithmetic::div_mod::lemma_mod_multiples_vanish(f, j, 6);
    vstd::arithmetic::div_mod::lemma_small_mod(j as nat, 6);
}

/// Index validity: every entry of the index list lies in [0, 24).
pub proof fn lemma_cube_index_bounds()
    ensures
        forall|i: int| 0 <= i < 36 ==> 0 <= #[trigger] cube_index(i) < 24,
{
    assert forall|i: int| 0 <= i < 36 implies 0 <= #[trigger] cube_index(i) < 24 by {
        assert(0 <= i / 6 < 6) by {
            vstd::arithmetic::div_mod::lemma_div_pos_is_pos(i, 6);
            vstd::arithmetic::div_mod::lemma_div_is_ordered(i, 35, 6);
        }
        assert(0 <= corner_pattern(i % 6) <= 3);
    }
}

/// Triangle distinctness: the three entries of each of the twelve
/// triangles of the cube's index list are pairwise different.
pub proof fn lemma_triangle_distinct(t: int)
    requires
        0 <= t < 12,
    ensures
        cube_index(3 * t) != cube_index(3 * t + 1),
        cube_index(3 * t + 1) != cube_index(3 * t + 2),
        cube_index(3 * t) != cube_index(3 * t + 2),
{
    let f = t / 2;
    lemma_face_entries(f);
    if t % 2 == 0 {
        assert(3 * t == 6 * f && 3 * t + 1 == 6 * f + 1 && 3 * t + 2 == 6 * f + 2) by {
            vstd::arithmetic::div_mod::lemma_fundamental_div_mod(t, 2);
        }
    } else {
        assert(3 * t == 6 * f + 3 && 3 * t + 1 == 6 * f + 4 && 3 * t + 2 == 6 * f + 5) by {
            vstd::arithmetic::div_mod::lemma_fundamental_div_mod(t, 2);
        }
    }
}

} // verus!
