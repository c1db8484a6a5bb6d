use tri_mesh::mesh::{FaceID, HalfedgeID, Mesh, Vec3, VertexID};

fn p(i: i64) -> Vec3<i64> {
    Vec3 { x: i, y: 10 * i, z: 100 * i }
}

fn n(i: i64) -> Vec3<i64> {
    Vec3 { x: -i, y: 0, z: 1 }
}

fn hs(a: u32, b: u32, c: u32) -> [HalfedgeID; 3] {
    [HalfedgeID(a), HalfedgeID(b), HalfedgeID(c)]
}

fn vids(ids: &[u32]) -> Vec<VertexID> {
    ids.iter().map(|&i| VertexID(i)).collect()
}

fn fids(ids: &[u32]) -> Vec<FaceID> {
    ids.iter().map(|&i| FaceID(i)).collect()
}

/// Two triangles over four vertices, enumerated in a shuffled order.
fn quad_parts() -> (
    Vec<VertexID>,
    Vec<FaceID>,
    Vec<[HalfedgeID; 3]>,
    Vec<VertexID>,
    Vec<Vec3<i64>>,
    Vec<Vec3<i64>>,
) {
    (
        vids(&[2, 0, 3, 1]),
        fids(&[1, 0]),
        vec![hs(0, 1, 2), hs(3, 4, 5)],
        vids(&[0, 1, 2, 0, 2, 3]),
        (0..4).map(p).collect(),
        (0..4).map(n).collect(),
    )
}

fn quad() -> Mesh<i64> {
    let (v, f, fh, hv, ps, ns) = quad_parts();
    Mesh::new(v, f, fh, hv, ps, ns).unwrap()
}

fn flat(vs: &[Vec3<i64>]) -> Vec<i64> {
    vs.iter().flat_map(|v| [v.x, v.y, v.z]).collect()
}

#[test]
fn quad_indices_are_enumeration_slots() {
    let mesh = quad();
    assert_eq!(mesh.indices_buffer(), vec![1, 0, 2, 1, 3, 0]);
}

#[test]
fn quad_indexed_attributes_follow_enumeration() {
    let mesh = quad();
    assert_eq!(mesh.positions_buffer(), vec![p(2), p(0), p(3), p(1)]);
    assert_eq!(mesh.normals_buffer(), vec![n(2), n(0), n(3), n(1)]);
}

#[test]
fn quad_non_indexed_attributes_follow_faces() {
    let mesh = quad();
    assert_eq!(
        mesh.non_indexed_positions_buffer(),
        flat(&[p(0), p(2), p(3), p(0), p(1), p(2)])
    );
    assert_eq!(
        mesh.non_indexed_normals_buffer(),
        flat(&[n(0), n(2), n(3), n(0), n(1), n(2)])
    );
}

#[test]
fn quad_corner_lookups() {
    let mesh = quad();
    assert_eq!(mesh.face_vertices(FaceID(1)), (VertexID(0), VertexID(2), VertexID(3)));
    assert_eq!(mesh.face_positions(FaceID(0)), (p(0), p(1), p(2)));
    assert_eq!(mesh.halfedge_vertex(HalfedgeID(5)), VertexID(3));
    assert_eq!(mesh.vertex_position(VertexID(3)), p(3));
    assert_eq!(mesh.vertex_normal(VertexID(1)), n(1));
}

#[test]
fn indexed_and_non_indexed_agree() {
    let mesh = quad();
    let indices = mesh.indices_buffer();
    let positions = mesh.positions_buffer();
    let normals = mesh.normals_buffer();
    let flat_positions = mesh.non_indexed_positions_buffer();
    let flat_normals = mesh.non_indexed_normals_buffer();
    for (c, &i) in indices.iter().enumerate() {
        let q = positions[i as usize];
        assert_eq!(&flat_positions[3 * c..3 * c + 3], &[q.x, q.y, q.z]);
        let m = normals[i as usize];
        assert_eq!(&flat_normals[3 * c..3 * c + 3], &[m.x, m.y, m.z]);
    }
}

#[test]
fn repeated_exports_are_identical() {
    let mesh = quad();
    assert_eq!(mesh.indices_buffer(), mesh.indices_buffer());
    assert_eq!(mesh.positions_buffer(), mesh.positions_buffer());
    assert_eq!(mesh.normals_buffer(), mesh.normals_buffer());
    assert_eq!(mesh.non_indexed_positions_buffer(), mesh.non_indexed_positions_buffer());
    assert_eq!(mesh.non_indexed_normals_buffer(), mesh.non_indexed_normals_buffer());
}

#[test]
fn empty_mesh_gives_empty_buffers() {
    let mesh: Mesh<i64> =
        Mesh::new(vec![], vec![], vec![], vec![], vec![], vec![]).unwrap();
    assert_eq!(mesh.no_faces(), 0);
    assert!(mesh.indices_buffer().is_empty());
    assert!(mesh.positions_buffer().is_empty());
    assert!(mesh.normals_buffer().is_empty());
    assert!(mesh.non_indexed_positions_buffer().is_empty());
    assert!(mesh.non_indexed_normals_buffer().is_empty());
}

#[test]
fn faceless_mesh_keeps_its_vertices() {
    let mesh = Mesh::new(vids(&[1, 0]), vec![], vec![], vec![], vec![p(0), p(1)], vec![n(0), n(1)])
        .unwrap();
    assert!(mesh.indices_buffer().is_empty());
    assert!(mesh.non_indexed_positions_buffer().is_empty());
    assert!(mesh.non_indexed_normals_buffer().is_empty());
    assert_eq!(mesh.positions_buffer(), vec![p(1), p(0)]);
    assert_eq!(mesh.normals_buffer(), vec![n(1), n(0)]);
}

#[test]
fn rejects_mismatched_attribute_tables() {
    let (v, f, fh, hv, ps, mut ns) = quad_parts();
    ns.pop();
    assert!(Mesh::new(v, f, fh, hv, ps, ns).is_none());
}

#[test]
fn rejects_repeated_vertex() {
    let (_, f, fh, hv, ps, ns) = quad_parts();
    assert!(Mesh::new(vids(&[2, 0, 3, 1, 0]), f, fh, hv, ps, ns).is_none());
}

#[test]
fn rejects_vertex_out_of_range() {
    let (_, f, fh, hv, ps, ns) = quad_parts();
    assert!(Mesh::new(vids(&[2, 0, 3, 1, 4]), f, fh, hv, ps, ns).is_none());
}

#[test]
fn rejects_repeated_face() {
    let (v, _, fh, hv, ps, ns) = quad_parts();
    assert!(Mesh::new(v, fids(&[1, 0, 1]), fh, hv, ps, ns).is_none());
}

#[test]
fn rejects_face_out_of_range() {
    let (v, _, fh, hv, ps, ns) = quad_parts();
    assert!(Mesh::new(v, fids(&[1, 0, 2]), fh, hv, ps, ns).is_none());
}

#[test]
fn rejects_halfedge_out_of_range() {
    let (v, f, _, hv, ps, ns) = quad_parts();
    assert!(Mesh::new(v, f, vec![hs(0, 1, 2), hs(3, 4, 6)], hv, ps, ns).is_none());
}

#[test]
fn rejects_halfedge_target_out_of_range() {
    let (v, f, fh, _, ps, ns) = quad_parts();
    assert!(Mesh::new(v, f, fh, vids(&[0, 1, 2, 0, 2, 4]), ps, ns).is_none());
}

#[test]
fn rejects_corner_not_enumerated() {
    let (_, f, fh, hv, ps, ns) = quad_parts();
    assert!(Mesh::new(vids(&[2, 0, 1]), f, fh, hv, ps, ns).is_none());
}

#[test]
fn unlisted_face_is_not_exported() {
    let (v, _, fh, hv, ps, ns) = quad_parts();
    let mesh = Mesh::new(v, fids(&[0]), fh, hv, ps, ns).unwrap();
    assert_eq!(mesh.no_faces(), 1);
    assert_eq!(mesh.indices_buffer(), vec![1, 3, 0]);
    assert_eq!(mesh.non_indexed_positions_buffer(), flat(&[p(0), p(1), p(2)]));
}
