use vstd::prelude::*;

verus! {

/// A mesh given as a vertex list and a triangle list over it.
pub trait GenericMesh {
    type Vertex;

    /// The mesh's vertices.
    spec fn mesh_vertices() -> Seq<Self::Vertex>;

    /// The mesh's indices, three per triangle.
    spec fn mesh_indices() -> Seq<u32>;

    /// The vertices, in order.
    fn vertices() -> (r: Vec<Self::Vertex>)
        ensures
            r@ == Self::mesh_vertices(),
    ;

    /// The indices, three per triangle, each naming a vertex.
    fn indices() -> (r: Vec<u32>)
        ensures
            r@ == Self::mesh_indices(),
            r@.len() % 3 == 0,
            forall|i: int| 0 <= i < r@.len() ==> (#[trigger] r@[i]) < Self::mesh_vertices().len(),
    ;
}

/// A corner of a quad: `u` and `v` are 0 on the minimum side and 1 on the
/// maximum side of each axis. The corner gives the vertex's position (the
/// quad's minimum or maximum coordinate on each axis) and, as they are, its
/// texture coordinates.
#[derive(Clone, Copy, Debug, PartialEq, Eq, Structural)]
pub struct QuadCorner {
    pub u: u32,
    pub v: u32,
}

/// An axis-aligned quad made of two triangles over its four corners.
pub struct Quad;

/// The corners of a quad, counterclockwise from the minimum corner.
pub open spec fn quad_corners() -> Seq<QuadCorner> {
    seq![
        QuadCorner { u: 0, v: 0 },
        QuadCorner { u: 0, v: 1 },
        QuadCorner { u: 1, v: 1 },
        QuadCorner { u: 1, v: 0 },
    ]
}

/// The two triangles of a quad: both share the diagonal from the minimum to
/// the maximum corner.
pub open spec fn quad_indices() -> Seq<u32> {
    seq![0u32, 2, 1, 0, 3, 2]
}

impl GenericMesh for Quad {
    type Vertex = QuadCorner;

    open spec fn mesh_vertices() -> Seq<QuadCorner> {
        quad_corners()
    }

    open spec fn mesh_indices() -> Seq<u32> {
        quad_indices()
    }

    fn vertices() -> (r: Vec<QuadCorner>) {
        let r = vec![
            QuadCorner { u: 0, v: 0 },
            QuadCorner { u: 0, v: 1 },
            QuadCorner { u: 1, v: 1 },
            QuadCorner { u: 1, v: 0 },
        ];
        assert(r@ =~= quad_corners());
        r
    }

    fn indices() -> (r: Vec<u32>) {
        let r: Vec<u32> = vec![0, 2, 1, 0, 3, 2];
        assert(r@ =~= quad_indices());
        r
    }
}

/// The parameters of one indexed, instanced draw call.
#[derive(Clone, Copy, Debug, PartialEq, Eq, Structural)]
pub struct IndexedDraw {
    pub index_count: u32,
    pub instance_count: u32,
    pub first_index: u32,
    pub vertex_offset: i32,
    pub first_instance: u32,
}

/// The draw that instances a mesh of `index_count` indices once per point of
/// a stream of `point_count` points, from the start of both.
pub fn instanced_draw(index_count: u32, point_count: u32) -> (d: IndexedDraw)
    ensures
        d == (IndexedDraw {
            index_count,
            instance_count: point_count,
            first_index: 0,
            vertex_offset: 0,
            first_instance: 0,
        }),
{
    IndexedDraw {
        index_count,
        instance_count: point_count,
        first_index: 0,
        vertex_offset: 0,
        first_instance: 0,
    }
}

} // verus!
