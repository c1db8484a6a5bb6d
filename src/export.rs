//! Indexed and non-indexed buffers built from a [`Mesh`](crate::mesh::Mesh).
use vstd::prelude::*;

use crate::mesh::{Mesh, MeshModel, Vec3, VertexID};

verus! {

/// The components of `s`, three per vector, in order.
pub open spec fn flatten<S>(s: Seq<Vec3<S>>) -> Seq<S> {
    Seq::new(3 * s.len(), |i: int| s[i / 3].components()[i % 3])
}

/// Appending one vector appends its three components.
pub proof fn lemma_flatten_push<S>(s: Seq<Vec3<S>>, p: Vec3<S>)
    ensures
        flatten(s.push(p)) == flatten(s) + p.components(),
{
    let a = flatten(s.push(p));
    let b = flatten(s) + p.components();
    assert forall|i: int| 0 <= i < a.len() implies a[i] == b[i] by {
        if i < 3 * s.len() {
            assert(s.push(p)[i / 3] == s[i / 3]);
        } else {
            assert(i / 3 == s.len());
        }
    }
    assert(a =~= b);
}

/// Appends the three components of `p`.
fn push_vec3<S: Copy>(buffer: &mut Vec<S>, p: Vec3<S>)
    ensures
        final(buffer)@ == old(buffer)@ + p.components(),
{
    buffer.push(p.x);
    buffer.push(p.y);
    buffer.push(p.z);
    assert(final(buffer)@ =~= old(buffer)@ + p.components());
}

impl<S> MeshModel<S> {
    /// The corner vertices of the enumerated faces: three per face, in face
    /// enumeration order and, within a face, in winding order.
    pub open spec fn corner_vertices(self) -> Seq<VertexID> {
        Seq::new(3 * self.faces.len(), |i: int| self.face_corner(self.faces[i / 3], i % 3))
    }

    /// Whether each entry of `indices` is the slot, in the vertex enumeration,
    /// of the corner vertex at the same place.
    pub open spec fn indexes_corners(self, indices: Seq<u32>) -> bool {
        &&& indices.len() == self.corner_vertices().len()
        &&& forall|i: int| 0 <= i < indices.len() ==> {
            &&& #[trigger] indices[i] < self.vertices.len()
            &&& self.vertices[indices[i] as int] == self.corner_vertices()[i]
        }
    }

    /// The positions of the vertices, in vertex enumeration order.
    pub open spec fn vertex_positions(self) -> Seq<Vec3<S>> {
        self.vertices.map_values(|v: VertexID| self.positions[v.0 as int])
    }

    /// The normals of the vertices, in vertex enumeration order.
    pub open spec fn vertex_normals(self) -> Seq<Vec3<S>> {
        self.vertices.map_values(|v: VertexID| self.normals[v.0 as int])
    }

    /// The positions of the face corners, in the order of `corner_vertices`.
    pub open spec fn corner_positions(self) -> Seq<Vec3<S>> {
        self.corner_vertices().map_values(|v: VertexID| self.positions[v.0 as int])
    }

    /// The normals of the face corners, in the order of `corner_vertices`.
    pub open spec fn corner_normals(self) -> Seq<Vec3<S>> {
        self.corner_vertices().map_values(|v: VertexID| self.normals[v.0 as int])
    }
}

impl<S: Copy> Mesh<S> {
    /// A table from vertex identifier to the vertex's slot in the enumeration,
    /// so that each corner is resolved in constant time.
    fn vertex_slots(&self) -> (r: Vec<u32>)
        ensures
            r@.len() == self@.positions.len(),
            forall|i: int| 0 <= i < self@.vertices.len()
                ==> r@[#[trigger] self@.vertices[i].0 as int] == i,
    {
        let nv = self.no_vertices();
        let n = self.vertex_table_len();
        let vertices = self.vertex_ids();
        let mut slots: Vec<u32> = Vec::new();
        let mut j: usize = 0;
        while j < n
            invariant
                j <= n,
                slots@.len() == j,
            decreases n - j,
        {
            slots.push(0);
            j = j + 1;
        }
        let mut i: usize = 0;
        while i < nv
            invariant
                self@.wf(),
                nv == self@.vertices.len(),
                vertices@ == self@.vertices,
                i <= nv,
                slots@.len() == self@.positions.len(),
                forall|j: int| 0 <= j < i ==> slots@[#[trigger] self@.vertices[j].0 as int] == j,
            decreases nv - i,
        {
            let v = vertices[i];
            assert(self@.valid_vertex(self@.vertices[i as int]));
            proof {
                assert forall|j: int| 0 <= j < i implies #[trigger] self@.vertices[j].0 != v.0 by {
                    assert(self@.vertices[j] != self@.vertices[i as int]);
                }
            }
            slots.set(v.0 as usize, i as u32);
            i = i + 1;
        }
        slots
    }

    /// The triangle index buffer: for each face in enumeration order, the
    /// slots of its three corner vertices in winding order, as positions in
    /// [`Mesh::positions_buffer`] and [`Mesh::normals_buffer`].
    pub fn indices_buffer(&self) -> (r: Vec<u32>)
        ensures
            r@.len() == 3 * self@.faces.len(),
            self@.indexes_corners(r@),
    {
        let nf = self.no_faces();
        let slots = self.vertex_slots();
        let faces = self.face_ids();
        let mut indices: Vec<u32> = Vec::new();
        let mut i: usize = 0;
        while i < nf
            invariant
                self@.wf(),
                nf == self@.faces.len(),
                faces@ == self@.faces,
                slots@.len() == self@.positions.len(),
                forall|j: int| 0 <= j < self@.vertices.len()
                    ==> slots@[#[trigger] self@.vertices[j].0 as int] == j,
                i <= nf,
                indices@.len() == 3 * i,
                forall|j: int| 0 <= j < indices@.len() ==> {
                    &&& #[trigger] indices@[j] < self@.vertices.len()
                    &&& self@.vertices[indices@[j] as int] == self@.corner_vertices()[j]
                },
            decreases nf - i,
        {
            let face = faces[i];
            assert(self@.valid_face(self@.faces[i as int]));
            let halfedges = self.face_halfedges(face);
            let mut k: usize = 0;
            while k < 3
                invariant
                    self@.wf(),
                    i < nf,
                    nf == self@.faces.len(),
                    face == self@.faces[i as int],
                    halfedges == self@.face_halfedges[face.0 as int],
                    self@.valid_face(face),
                    slots@.len() == self@.positions.len(),
                    forall|j: int| 0 <= j < self@.vertices.len()
                        ==> slots@[#[trigger] self@.vertices[j].0 as int] == j,
                    k <= 3,
                    indices@.len() == 3 * i + k,
                    forall|j: int| 0 <= j < indices@.len() ==> {
                        &&& #[trigger] indices@[j] < self@.vertices.len()
                        &&& self@.vertices[indices@[j] as int] == self@.corner_vertices()[j]
                    },
                decreases 3 - k,
            {
                let ghost j = 3 * i + k;
                assert(self@.valid_halfedge(self@.face_halfedges[face.0 as int][k as int]));
                let vertex = self.halfedge_vertex(halfedges[k]);
                assert(vertex == self@.face_corner(self@.faces[i as int], k as int));
                assert(self@.vertices.contains(vertex));
                let ghost s = choose|s: int| 0 <= s < self@.vertices.len() && self@.vertices[s] == vertex;
                assert(self@.valid_vertex(self@.halfedge_vertices[halfedges[k as int].0 as int]));
                let slot = slots[vertex.0 as usize];
                assert(slots@[self@.vertices[s].0 as int] == s);
                assert(j / 3 == i as int && j % 3 == k as int);
                indices.push(slot);
                k = k + 1;
            }
            i = i + 1;
        }
        indices
    }

    /// The positions of the vertices, in enumeration order: entry `s` belongs
    /// to the vertex at slot `s`.
    pub fn positions_buffer(&self) -> (r: Vec<Vec3<S>>)
        ensures
            r@.len() == self@.vertices.len(),
            r@ == self@.vertex_positions(),
    {
        let nv = self.no_vertices();
        let vertices = self.vertex_ids();
        let mut positions: Vec<Vec3<S>> = Vec::new();
        let mut i: usize = 0;
        while i < nv
            invariant
                self@.wf(),
                nv == self@.vertices.len(),
                vertices@ == self@.vertices,
                i <= nv,
                positions@ == self@.vertex_positions().take(i as int),
            decreases nv - i,
        {
            assert(self@.valid_vertex(self@.vertices[i as int]));
            positions.push(self.vertex_position(vertices[i]));
            assert(self@.vertex_positions().take(i + 1) =~= self@.vertex_positions().take(
                i as int,
            ).push(self@.vertex_positions()[i as int]));
            i = i + 1;
        }
        assert(self@.vertex_positions().take(nv as int) =~= self@.vertex_positions());
        positions
    }

    /// The normals of the vertices, in enumeration order: entry `s` belongs
    /// to the vertex at slot `s`.
    pub fn normals_buffer(&self) -> (r: Vec<Vec3<S>>)
        ensures
            r@.len() == self@.vertices.len(),
            r@ == self@.vertex_normals(),
    {
        let nv = self.no_vertices();
        let vertices = self.vertex_ids();
        let mut normals: Vec<Vec3<S>> = Vec::new();
        let mut i: usize = 0;
        while i < nv
            invariant
                self@.wf(),
                nv == self@.vertices.len(),
                vertices@ == self@.vertices,
                i <= nv,
                normals@ == self@.vertex_normals().take(i as int),
            decreases nv - i,
        {
            assert(self@.valid_vertex(self@.vertices[i as int]));
            normals.push(self.vertex_normal(vertices[i]));
            assert(self@.vertex_normals().take(i + 1) =~= self@.vertex_normals().take(
                i as int,
            ).push(self@.vertex_normals()[i as int]));
            i = i + 1;
        }
        assert(self@.vertex_normals().take(nv as int) =~= self@.vertex_normals());
        normals
    }

    /// The positions of the face corners, flattened: nine scalars per face in
    /// enumeration order, three per corner in winding order.
    pub fn non_indexed_positions_buffer(&self) -> (r: Vec<S>)
        ensures
            r@.len() == 9 * self@.faces.len(),
            r@ == flatten(self@.corner_positions()),
    {
        let nf = self.no_faces();
        let faces = self.face_ids();
        let ghost corners = self@.corner_positions();
        let mut positions: Vec<S> = Vec::new();
        let mut i: usize = 0;
        while i < nf
            invariant
                self@.wf(),
                nf == self@.faces.len(),
                faces@ == self@.faces,
                corners == self@.corner_positions(),
                i <= nf,
                positions@ == flatten(corners.take(3 * i)),
            decreases nf - i,
        {
            let face = faces[i];
            assert(self@.valid_face(self@.faces[i as int]));
            let (p0, p1, p2) = self.face_positions(face);
            proof {
                let b = 3 * i as int;
                assert(b / 3 == i && (b + 1) / 3 == i && (b + 2) / 3 == i);
                assert(b % 3 == 0 && (b + 1) % 3 == 1 && (b + 2) % 3 == 2);
                assert(corners[b] == p0 && corners[b + 1] == p1 && corners[b + 2] == p2);
                assert(corners.take(b + 1) =~= corners.take(b).push(p0));
                assert(corners.take(b + 2) =~= corners.take(b + 1).push(p1));
                assert(corners.take(b + 3) =~= corners.take(b + 2).push(p2));
                lemma_flatten_push(corners.take(b), p0);
                lemma_flatten_push(corners.take(b + 1), p1);
                lemma_flatten_push(corners.take(b + 2), p2);
            }
            push_vec3(&mut positions, p0);
            push_vec3(&mut positions, p1);
            push_vec3(&mut positions, p2);
            i = i + 1;
        }
        assert(corners.take(3 * nf) =~= corners);
        positions
    }

    /// The normals of the face corners, flattened: nine scalars per face in
    /// enumeration order, three per corner in winding order.
    pub fn non_indexed_normals_buffer(&self) -> (r: Vec<S>)
        ensures
            r@.len() == 9 * self@.faces.len(),
            r@ == flatten(self@.corner_normals()),
    {
        let nf = self.no_faces();
        let faces = self.face_ids();
        let ghost corners = self@.corner_normals();
        let mut normals: Vec<S> = Vec::new();
        let mut i: usize = 0;
        while i < nf
            invariant
                self@.wf(),
                nf == self@.faces.len(),
                faces@ == self@.faces,
                corners == self@.corner_normals(),
                i <= nf,
                normals@ == flatten(corners.take(3 * i)),
            decreases nf - i,
        {
            let face = faces[i];
            assert(self@.valid_face(self@.faces[i as int]));
            let (v0, v1, v2) = self.face_vertices(face);
            assert(self@.valid_halfedge(self@.face_halfedges[face.0 as int][0]));
            assert(self@.valid_halfedge(self@.face_halfedges[face.0 as int][1]));
            assert(self@.valid_halfedge(self@.face_halfedges[face.0 as int][2]));
            let n0 = self.vertex_normal(v0);
            let n1 = self.vertex_normal(v1);
            let n2 = self.vertex_normal(v2);
            proof {
                let b = 3 * i as int;
                assert(b / 3 == i && (b + 1) / 3 == i && (b + 2) / 3 == i);
                assert(b % 3 == 0 && (b + 1) % 3 == 1 && (b + 2) % 3 == 2);
                assert(corners[b] == n0 && corners[b + 1] == n1 && corners[b + 2] == n2);
                assert(corners.take(b + 1) =~= corners.take(b).push(n0));
                assert(corners.take(b + 2) =~= corners.take(b + 1).push(n1));
                assert(corners.take(b + 3) =~= corners.take(b + 2).push(n2));
                lemma_flatten_push(corners.take(b), n0);
                lemma_flatten_push(corners.take(b + 1), n1);
                lemma_flatten_push(corners.take(b + 2), n2);
            }
            push_vec3(&mut normals, n0);
            push_vec3(&mut normals, n1);
            push_vec3(&mut normals, n2);
            i = i + 1;
        }
        assert(corners.take(3 * nf) =~= corners);
        normals
    }
}

/// Where an index buffer points for corner `k` of the `f`-th face, the
/// indexed positions hold that corner's position; the `f`-th block of nine in
/// the flattened corner positions holds it too, at offset `3 * k`.
pub proof fn lemma_positions_agree<S>(m: MeshModel<S>, indices: Seq<u32>, f: int, k: int)
    requires
        m.wf(),
        m.indexes_corners(indices),
        0 <= f < m.faces.len(),
        0 <= k < 3,
    ensures
        m.vertex_positions()[indices[3 * f + k] as int] == m.positions[m.face_corner(m.faces[f], k).0 as int],
        flatten(m.corner_positions()).subrange(9 * f + 3 * k, 9 * f + 3 * k + 3)
            == m.positions[m.face_corner(m.faces[f], k).0 as int].components(),
{
    lemma_corner_block(m.corner_positions(), 3 * f + k);
    assert((3 * f + k) / 3 == f && (3 * f + k) % 3 == k);
    assert(m.corner_vertices()[3 * f + k] == m.face_corner(m.faces[f], k));
    assert(indices[3 * f + k] < m.vertices.len());
}

/// Where an index buffer points for corner `k` of the `f`-th face, the
/// indexed normals hold that corner vertex's normal; the `f`-th block of nine
/// in the flattened corner normals holds it too, at offset `3 * k`.
pub proof fn lemma_normals_agree<S>(m: MeshModel<S>, indices: Seq<u32>, f: int, k: int)
    requires
        m.wf(),
        m.indexes_corners(indices),
        0 <= f < m.faces.len(),
        0 <= k < 3,
    ensures
        m.vertex_normals()[indices[3 * f + k] as int] == m.normals[m.face_corner(m.faces[f], k).0 as int],
        flatten(m.corner_normals()).subrange(9 * f + 3 * k, 9 * f + 3 * k + 3)
            == m.normals[m.face_corner(m.faces[f], k).0 as int].components(),
{
    lemma_corner_block(m.corner_normals(), 3 * f + k);
    assert((3 * f + k) / 3 == f && (3 * f + k) % 3 == k);
    assert(m.corner_vertices()[3 * f + k] == m.face_corner(m.faces[f], k));
    assert(indices[3 * f + k] < m.vertices.len());
}

/// The `c`-th vector of `s` stands at offset `3 * c` of its flattening.
proof fn lemma_corner_block<S>(s: Seq<Vec3<S>>, c: int)
    requires
        0 <= c < s.len(),
    ensures
        flatten(s).subrange(3 * c, 3 * c + 3) == s[c].components(),
{
    let b = 3 * c;
    assert(b / 3 == c && (b + 1) / 3 == c && (b + 2) / 3 == c);
    assert(b % 3 == 0 && (b + 1) % 3 == 1 && (b + 2) % 3 == 2);
    assert(flatten(s).subrange(b, b + 3) =~= s[c].components());
}

/// The buffers are determined by the mesh: two index buffers of one mesh are
/// equal, and so are two results of each of the other builders.
pub proof fn lemma_exports_deterministic<S>(
    m: MeshModel<S>,
    indices_a: Seq<u32>,
    indices_b: Seq<u32>,
    positions_a: Seq<Vec3<S>>,
    positions_b: Seq<Vec3<S>>,
    normals_a: Seq<Vec3<S>>,
    normals_b: Seq<Vec3<S>>,
    corner_positions_a: Seq<S>,
    corner_positions_b: Seq<S>,
    corner_normals_a: Seq<S>,
    corner_normals_b: Seq<S>,
)
    requires
        m.wf(),
        m.indexes_corners(indices_a),
        m.indexes_corners(indices_b),
        positions_a == m.vertex_positions(),
        positions_b == m.vertex_positions(),
        normals_a == m.vertex_normals(),
        normals_b == m.vertex_normals(),
        corner_positions_a == flatten(m.corner_positions()),
        corner_positions_b == flatten(m.corner_positions()),
        corner_normals_a == flatten(m.corner_normals()),
        corner_normals_b == flatten(m.corner_normals()),
    ensures
        indices_a == indices_b,
        positions_a == positions_b,
        normals_a == normals_b,
        corner_positions_a == corner_positions_b,
        corner_normals_a == corner_normals_b,
{
    assert forall|i: int| 0 <= i < indices_a.len() implies indices_a[i] == indices_b[i] by {
        let (a, b) = (indices_a[i] as int, indices_b[i] as int);
        assert(m.vertices[a] == m.vertices[b]);
    }
    assert(indices_a =~= indices_b);
}

/// A mesh without faces has an empty index buffer and empty non-indexed
/// buffers; without vertices either, its indexed positions and normals are
/// empty too.
pub proof fn lemma_no_faces_empty<S>(m: MeshModel<S>, indices: Seq<u32>)
    requires
        m.wf(),
        m.faces.len() == 0,
        m.indexes_corners(indices),
    ensures
        indices.len() == 0,
        flatten(m.corner_positions()).len() == 0,
        flatten(m.corner_normals()).len() == 0,
        m.vertices.len() == 0 ==> m.vertex_positions().len() == 0 && m.vertex_normals().len() == 0,
{
}

} // verus!
