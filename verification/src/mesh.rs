//! The indexed triangle mesh and the extraction of its drawable edges.
//!
//! A mesh arrives as a flat array of vertex coordinates, three per vertex,
//! and an array of triangle vertex indices, three per triangle — the shape
//! an external mesh-file parser hands over.  Edge extraction turns every
//! triangle (i0, i1, i2) into the three segments (v[i0], v[i1]),
//! (v[i1], v[i2]), (v[i2], v[i0]), in triangle order; an edge shared by two
//! triangles appears once per triangle.

use vstd::prelude::*;
use crate::geom::{Point3, Segment, RenderError};

verus! {

/// An indexed triangle mesh over fixed-point coordinates.
pub struct Mesh {
    /// Flat vertex coordinates: vertex `i` is `(positions[3i],
    /// positions[3i+1], positions[3i+2])`.
    pub positions: Vec<i64>,
    /// Triangle vertex indices, grouped in triples; trailing indices short
    /// of a full triple describe no triangle and are ignored.
    pub indices: Vec<u32>,
}

impl Mesh {
    /// Number of complete triangles the index list describes.
    pub open spec fn triangle_count(self) -> int {
        self.indices@.len() as int / 3
    }

    /// Vertex `i` has all three coordinates inside the position array.
    pub open spec fn index_ok(self, i: int) -> bool {
        0 <= i && 3 * i + 2 < self.positions@.len()
    }

    /// The position of vertex `i`.
    pub open spec fn spec_position(self, i: int) -> Point3 {
        Point3 {
            x: self.positions@[3 * i],
            y: self.positions@[3 * i + 1],
            z: self.positions@[3 * i + 2],
        }
    }

    /// Every index used by a complete triangle names an existing vertex.
    pub open spec fn well_formed(self) -> bool {
        forall|k: int|
            0 <= k < 3 * self.triangle_count() ==> self.index_ok(
                #[trigger] self.indices@[k] as int,
            )
    }

    /// Edge `j` of the extracted list: side `j % 3` of triangle `j / 3`.
    pub open spec fn spec_edge(self, j: int) -> Segment {
        let t = j / 3;
        let i0 = self.indices@[3 * t] as int;
        let i1 = self.indices@[3 * t + 1] as int;
        let i2 = self.indices@[3 * t + 2] as int;
        if j % 3 == 0 {
            Segment { a: self.spec_position(i0), b: self.spec_position(i1) }
        } else if j % 3 == 1 {
            Segment { a: self.spec_position(i1), b: self.spec_position(i2) }
        } else {
            Segment { a: self.spec_position(i2), b: self.spec_position(i0) }
        }
    }

    /// Looks up the position of vertex `index`; `None` exactly when the
    /// index points past the position array.
    pub fn get_position(&self, index: u32) -> (r: Option<Point3>)
        ensures
            match r {
                Some(p) => self.index_ok(index as int) && p == self.spec_position(index as int),
                None => !self.index_ok(index as int),
            },
    {
        let need: u64 = 3 * (index as u64) + 2;
        if need < self.positions.len() as u64 {
            let base: usize = 3 * (index as usize);
            Some(
                Point3 {
                    x: self.positions[base],
                    y: self.positions[base + 1],
                    z: self.positions[base + 2],
                },
            )
        } else {
            None
        }
    }

    /// Extracts the drawable edges: three segments per complete triangle, in
    /// triangle-then-edge order.  Fails with `MalformedMesh` exactly when
    /// some triangle names a vertex that does not exist; the mesh is never
    /// silently clamped.
    pub fn edges(&self) -> (r: Result<Vec<Segment>, RenderError>)
        ensures
            match r {
                Ok(segs) => {
                    &&& self.well_formed()
                    &&& segs@.len() == 3 * self.triangle_count()
                    &&& forall|j: int|
                        0 <= j < segs@.len() ==> #[trigger] segs@[j] == self.spec_edge(j)
                },
                Err(e) => {
                    &&& e == RenderError::MalformedMesh
                    &&& !self.well_formed()
                },
            },
    {
        let t_count: usize = self.indices.len() / 3;
        let mut segs: Vec<Segment> = Vec::new();
        let mut t: usize = 0;
        while t < t_count
            invariant
                t <= t_count,
                t_count == self.indices@.len() as int / 3,
                self.indices@.len() <= usize::MAX,
                segs@.len() == 3 * t,
                forall|k: int|
                    0 <= k < 3 * t ==> self.index_ok(#[trigger] self.indices@[k] as int),
                forall|j: int| 0 <= j < 3 * t ==> #[trigger] segs@[j] == self.spec_edge(j),
            decreases t_count - t,
        {
            proof {
                vstd::arithmetic::div_mod::lemma_fundamental_div_mod(
                    self.indices@.len() as int,
                    3,
                );
                assert(3 * (t as int) + 2 < self.indices@.len());
            }
            let i0 = self.indices[3 * t];
            let i1 = self.indices[3 * t + 1];
            let i2 = self.indices[3 * t + 2];
            let p0 = match self.get_position(i0) {
                Some(p) => p,
                None => {
                    proof {
                        assert(!self.index_ok(self.indices@[3 * t as int] as int));
                    }
                    return Err(RenderError::MalformedMesh);
                },
            };
            let p1 = match self.get_position(i1) {
                Some(p) => p,
                None => {
                    proof {
                        assert(!self.index_ok(self.indices@[3 * t as int + 1] as int));
                    }
                    return Err(RenderError::MalformedMesh);
                },
            };
            let p2 = match self.get_position(i2) {
                Some(p) => p,
                None => {
                    proof {
                        assert(!self.index_ok(self.indices@[3 * t as int + 2] as int));
                    }
                    return Err(RenderError::MalformedMesh);
                },
            };
            segs.push(Segment { a: p0, b: p1 });
            segs.push(Segment { a: p1, b: p2 });
            segs.push(Segment { a: p2, b: p0 });
            proof {
                let j0 = 3 * t as int;
                assert(j0 / 3 == t as int && j0 % 3 == 0);
                assert((j0 + 1) / 3 == t as int && (j0 + 1) % 3 == 1);
                assert((j0 + 2) / 3 == t as int && (j0 + 2) % 3 == 2);
                assert(segs@[j0] == self.spec_edge(j0));
                assert(segs@[j0 + 1] == self.spec_edge(j0 + 1));
                assert(segs@[j0 + 2] == self.spec_edge(j0 + 2));
            }
            t += 1;
        }
        Ok(segs)
    }
}

} // verus!
