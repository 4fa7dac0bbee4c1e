//! The shared unit quad: four corners in {0,1}×{0,1} and six indices forming
//! two triangles. Created once and reused by every pass that draws
//! axis-aligned rectangles.

use vstd::prelude::*;

verus! {

/// One corner of the unit quad; both coordinates are 0 or 1.
#[derive(Clone, Copy, Debug, PartialEq, Eq, Structural)]
pub struct QuadCorner {
    pub x: u8,
    pub y: u8,
}

/// The canonical corner table of the unit quad, in the order the vertex
/// buffer holds it: (0,0), (0,1), (1,1), (1,0).
pub open spec fn quad_corner_spec(i: int) -> (int, int) {
    if i == 0 {
        (0, 0)
    } else if i == 1 {
        (0, 1)
    } else if i == 2 {
        (1, 1)
    } else {
        (1, 0)
    }
}

/// The unit quad geometry shared by all passes: 4 corner vertices and the
/// 6 indices 0,1,2,2,3,0 that split it into two triangles.
#[derive(Debug)]
pub struct GeometryPrimitive {
    /// The four corner vertices, in `quad_corner_spec` order.
    pub corners: Vec<QuadCorner>,
    /// The six indices splitting the quad into two triangles.
    pub indices: Vec<u16>,
}

impl GeometryPrimitive {
    /// The corner table matches `quad_corner_spec` and every index points at
    /// one of the four corners.
    pub open spec fn wf(&self) -> bool {
        &&& self.corners@.len() == 4
        &&& self.indices@.len() == 6
        &&& forall|i: int|
            0 <= i < 4 ==> (#[trigger] self.corners@[i]).x as int == quad_corner_spec(i).0
                && self.corners@[i].y as int == quad_corner_spec(i).1
        &&& forall|i: int| 0 <= i < 6 ==> #[trigger] self.indices@[i] < 4
    }

    /// Builds the one shared quad: corners (0,0),(0,1),(1,1),(1,0) and
    /// indices 0,1,2,2,3,0.
    pub fn unit_quad() -> (r: GeometryPrimitive)
        ensures
            r.wf(),
            r.indices@ == seq![0u16, 1u16, 2u16, 2u16, 3u16, 0u16],
    {
        let corners: Vec<QuadCorner> = vec![
            QuadCorner { x: 0, y: 0 },
            QuadCorner { x: 0, y: 1 },
            QuadCorner { x: 1, y: 1 },
            QuadCorner { x: 1, y: 0 },
        ];
        let indices: Vec<u16> = vec![0, 1, 2, 2, 3, 0];
        let r = GeometryPrimitive { corners, indices };
        proof {
            assert(r.indices@ =~= seq![0u16, 1u16, 2u16, 2u16, 3u16, 0u16]);
            assert forall|i: int|
                0 <= i < 4 implies (#[trigger] r.corners@[i]).x as int == quad_corner_spec(i).0
                && r.corners@[i].y as int == quad_corner_spec(i).1 by {
                assert(r.corners@ =~= seq![
                    QuadCorner { x: 0u8, y: 0u8 },
                    QuadCorner { x: 0u8, y: 1u8 },
                    QuadCorner { x: 1u8, y: 1u8 },
                    QuadCorner { x: 1u8, y: 0u8 },
                ]);
            }
        }
        r
    }
}

} // verus!
