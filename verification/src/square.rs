use vstd::prelude::*;

use crate::math::{Vec2, Vec3, Vertex};

verus! {

/// A renderable unit square: four corner vertices half a unit from the
/// origin and two triangles over them.
pub struct Square;

/// The square's corner vertices, counter-clockwise from the lower left, with
/// texture coordinates pinning the full image onto it.
pub open spec fn spec_square_vertices() -> Seq<Vertex> {
    seq![
        Vertex {
            position_coordinates: Vec3 { x: -32768i64, y: -32768i64, z: 0 },
            texture_coordinates: Vec2 { x: 65536, y: 65536 },
        },
        Vertex {
            position_coordinates: Vec3 { x: 32768, y: -32768i64, z: 0 },
            texture_coordinates: Vec2 { x: 0, y: 65536 },
        },
        Vertex {
            position_coordinates: Vec3 { x: 32768, y: 32768, z: 0 },
            texture_coordinates: Vec2 { x: 0, y: 0 },
        },
        Vertex {
            position_coordinates: Vec3 { x: -32768i64, y: 32768, z: 0 },
            texture_coordinates: Vec2 { x: 65536, y: 0 },
        },
    ]
}

/// The square's two triangles over those vertices.
pub open spec fn spec_square_indices() -> Seq<u16> {
    seq![0u16, 1u16, 3u16, 1u16, 2u16, 3u16]
}

impl Square {
    /// The square's vertices.
    pub fn vertices(&self) -> (v: Vec<Vertex>)
        ensures
            v@ == spec_square_vertices(),
    {
        let mut v: Vec<Vertex> = Vec::new();
        v.push(Vertex {
            position_coordinates: Vec3 { x: -32768i64, y: -32768i64, z: 0 },
            texture_coordinates: Vec2 { x: 65536, y: 65536 },
        });
        v.push(Vertex {
            position_coordinates: Vec3 { x: 32768, y: -32768i64, z: 0 },
            texture_coordinates: Vec2 { x: 0, y: 65536 },
        });
        v.push(Vertex {
            position_coordinates: Vec3 { x: 32768, y: 32768, z: 0 },
            texture_coordinates: Vec2 { x: 0, y: 0 },
        });
        v.push(Vertex {
            position_coordinates: Vec3 { x: -32768i64, y: 32768, z: 0 },
            texture_coordinates: Vec2 { x: 65536, y: 0 },
        });
        proof {
            assert(v@ =~= spec_square_vertices());
        }
        v
    }

    /// The square's triangle indices.
    pub fn indices(&self) -> (r: Vec<u16>)
        ensures
            r@ == spec_square_indices(),
    {
        let mut r: Vec<u16> = Vec::new();
        r.push(0);
        r.push(1);
        r.push(3);
        r.push(1);
        r.push(2);
        r.push(3);
        proof {
            assert(r@ =~= spec_square_indices());
        }
        r
    }
}

} // verus!
