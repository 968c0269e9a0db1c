//! Geometry value types: vertices and immutable vertex/index pairs.

use vstd::prelude::*;

verus! {

/// One vertex: a 4-component position and a 2-component texture
/// coordinate.  Each component is carried as the raw bit pattern of
/// the 32-bit floating-point value the GPU will read, so the layout
/// stays fixed while the harness itself never does float arithmetic.
#[derive(Clone, Copy, Debug, PartialEq, Eq)]
pub struct Vertex {
    /// Position, as the bit patterns of (x, y, z, w).
    pub pos: [u32; 4],
    /// Texture coordinate, as the bit patterns of (u, v).
    pub tex_coord: [u32; 2],
}

/// An immutable geometry object: an ordered sequence of vertices and
/// an ordered sequence of indices into it.
///
/// Invariants ([`Object::wf`]): every index value is below the vertex
/// count, and the indices form a triangle list (their count is a
/// multiple of 3).  The object is constructed once by a scene author
/// and never mutated afterwards; resizing touches only derived uniform
/// data, never the geometry.
#[derive(Debug)]
pub struct Object {
    /// The vertices, in the order they are uploaded.
    pub vertices: Vec<Vertex>,
    /// The triangle-list indices into `vertices`.
    pub indices: Vec<u16>,
}

impl Object {
    /// Every index refers to an existing vertex.
    pub open spec fn indices_in_bounds(self) -> bool {
        forall|i: int|
            0 <= i < self.indices@.len() ==> (self.indices@[i] as int) < self.vertices@.len()
    }

    /// The indices describe whole triangles.
    pub open spec fn is_triangle_list(self) -> bool {
        self.indices@.len() % 3 == 0
    }

    /// The geometry invariant: in-bounds indices forming a triangle
    /// list.
    pub open spec fn wf(self) -> bool {
        self.indices_in_bounds() && self.is_triangle_list()
    }

    /// Pair up vertices and indices.
    pub fn new(vertices: Vec<Vertex>, indices: Vec<u16>) -> (o: Object)
        ensures
            o.vertices@ == vertices@,
            o.indices@ == indices@,
    {
        Object { vertices, indices }
    }

    /// Check the geometry invariant: true exactly when every index is
    /// below the vertex count and the index count is a multiple of 3.
    pub fn is_well_formed(&self) -> (b: bool)
        ensures
            b == self.wf(),
    {
        if self.indices.len() % 3 != 0 {
            return false;
        }
        let n = self.vertices.len();
        let mut i: usize = 0;
        while i < self.indices.len()
            invariant
                i <= self.indices@.len(),
                n == self.vertices@.len(),
                self.indices@.len() % 3 == 0,
                forall|j: int| 0 <= j < i ==> (self.indices@[j] as int) < n,
            decreases self.indices@.len() - i,
        {
            if self.indices[i] as usize >= n {
                return false;
            }
            i += 1;
        }
        true
    }
}

} // verus!
