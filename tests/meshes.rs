use hatchery::mesh::{instanced_draw, GenericMesh, IndexedDraw, Quad, QuadCorner};

#[test]
fn quad_vertices_and_indices() {
    assert_eq!(
        Quad::vertices(),
        vec![
            QuadCorner { u: 0, v: 0 },
            QuadCorner { u: 0, v: 1 },
            QuadCorner { u: 1, v: 1 },
            QuadCorner { u: 1, v: 0 },
        ]
    );
    let idx = Quad::indices();
    assert_eq!(idx, vec![0, 2, 1, 0, 3, 2]);
    assert_eq!(idx.len() % 3, 0);
    assert!(idx.iter().all(|i| (*i as usize) < Quad::vertices().len()));
}

#[test]
fn instanced_draw_counts() {
    assert_eq!(
        instanced_draw(6, 100_000),
        IndexedDraw {
            index_count: 6,
            instance_count: 100_000,
            first_index: 0,
            vertex_offset: 0,
            first_instance: 0,
        }
    );
}
