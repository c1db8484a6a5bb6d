//! A triangle mesh in half-edge form: vertices, faces and the half-edges that
//! connect them, with a position and a vertex normal stored for each vertex.
use vstd::prelude::*;

verus! {

/// Identifier of a vertex: an index into the mesh's per-vertex tables.
#[derive(Clone, Copy, Debug, PartialEq, Eq, Structural, Hash)]
pub struct VertexID(pub u32);

/// Identifier of a face: an index into the mesh's per-face table.
#[derive(Clone, Copy, Debug, PartialEq, Eq, Structural, Hash)]
pub struct FaceID(pub u32);

/// Identifier of a half-edge: an index into the mesh's per-half-edge table.
#[derive(Clone, Copy, Debug, PartialEq, Eq, Structural, Hash)]
pub struct HalfedgeID(pub u32);

/// A vector of three components of scalar type `S`.
#[derive(Clone, Copy, Debug, PartialEq)]
pub struct Vec3<S> {
    pub x: S,
    pub y: S,
    pub z: S,
}

impl<S> Vec3<S> {
    /// The components in order x, y, z.
    pub open spec fn components(self) -> Seq<S> {
        seq![self.x, self.y, self.z]
    }
}

/// The mathematical content of a [`Mesh`].
pub struct MeshModel<S> {
    /// The vertices in their enumeration order.
    pub vertices: Seq<VertexID>,
    /// The faces in their enumeration order.
    pub faces: Seq<FaceID>,
    /// For each face identifier, its three half-edges in winding order.
    pub face_halfedges: Seq<[HalfedgeID; 3]>,
    /// For each half-edge identifier, the vertex it points to.
    pub halfedge_vertices: Seq<VertexID>,
    /// For each vertex identifier, its position.
    pub positions: Seq<Vec3<S>>,
    /// For each vertex identifier, its normal.
    pub normals: Seq<Vec3<S>>,
}

impl<S> MeshModel<S> {
    /// Whether `v` has an entry in the per-vertex tables.
    pub open spec fn valid_vertex(self, v: VertexID) -> bool {
        v.0 < self.positions.len()
    }

    /// Whether `f` has an entry in the per-face table.
    pub open spec fn valid_face(self, f: FaceID) -> bool {
        f.0 < self.face_halfedges.len()
    }

    /// Whether `h` has an entry in the per-half-edge table.
    pub open spec fn valid_halfedge(self, h: HalfedgeID) -> bool {
        h.0 < self.halfedge_vertices.len()
    }

    /// Destination vertex of half-edge `k` (in winding order) of face `f`.
    pub open spec fn face_corner(self, f: FaceID, k: int) -> VertexID {
        self.halfedge_vertices[self.face_halfedges[f.0 as int][k].0 as int]
    }

    /// The tables agree with one another: identifiers are in range, the
    /// enumerations list each element once, and every corner of an enumerated
    /// face is an enumerated vertex.
    pub open spec fn wf(self) -> bool {
        &&& self.positions.len() == self.normals.len()
        &&& self.vertices.len() <= u32::MAX
        &&& self.vertices.no_duplicates()
        &&& forall|i: int| 0 <= i < self.vertices.len() ==> self.valid_vertex(#[trigger] self.vertices[i])
        &&& self.faces.no_duplicates()
        &&& forall|i: int| 0 <= i < self.faces.len() ==> self.valid_face(#[trigger] self.faces[i])
        &&& forall|f: int, k: int| 0 <= f < self.face_halfedges.len() && 0 <= k < 3
            ==> self.valid_halfedge(#[trigger] self.face_halfedges[f][k])
        &&& forall|h: int| 0 <= h < self.halfedge_vertices.len()
            ==> self.valid_vertex(#[trigger] self.halfedge_vertices[h])
        &&& forall|i: int, k: int| 0 <= i < self.faces.len() && 0 <= k < 3
            ==> self.vertices.contains(#[trigger] self.face_corner(self.faces[i], k))
    }
}

/// A triangle mesh in half-edge form.
pub struct Mesh<S> {
    vertices: Vec<VertexID>,
    faces: Vec<FaceID>,
    face_halfedges: Vec<[HalfedgeID; 3]>,
    halfedge_vertices: Vec<VertexID>,
    positions: Vec<Vec3<S>>,
    normals: Vec<Vec3<S>>,
}

impl<S> View for Mesh<S> {
    type V = MeshModel<S>;

    closed spec fn view(&self) -> MeshModel<S> {
        MeshModel {
            vertices: self.vertices@,
            faces: self.faces@,
            face_halfedges: self.face_halfedges@,
            halfedge_vertices: self.halfedge_vertices@,
            positions: self.positions@,
            normals: self.normals@,
        }
    }
}

impl<S> Mesh<S> {
    #[verifier::type_invariant]
    closed spec fn inv(self) -> bool {
        self@.wf()
    }
}

/// Marks the vertex identifiers that `vertices` lists, in a table of `n`
/// entries; `None` when one is out of range or listed twice.
fn mark_vertices(vertices: &Vec<VertexID>, n: usize) -> (r: Option<Vec<bool>>)
    ensures
        r is Some <==> (vertices@.no_duplicates() && forall|i: int|
            0 <= i < vertices@.len() ==> (#[trigger] vertices@[i]).0 < n),
        r matches Some(seen) ==> seen@.len() == n && forall|id: int|
            0 <= id < n ==> (#[trigger] seen@[id] <==> exists|k: int|
                0 <= k < vertices@.len() && (#[trigger] vertices@[k]).0 == id),
{
    let mut seen: Vec<bool> = Vec::new();
    let mut j: usize = 0;
    while j < n
        invariant
            j <= n,
            seen@.len() == j,
            forall|id: int| 0 <= id < j ==> !(#[trigger] seen@[id]),
        decreases n - j,
    {
        seen.push(false);
        j = j + 1;
    }
    let mut i: usize = 0;
    while i < vertices.len()
        invariant
            i <= vertices@.len(),
            seen@.len() == n,
            vertices@.subrange(0, i as int).no_duplicates(),
            forall|k: int| 0 <= k < i ==> (#[trigger] vertices@[k]).0 < n,
            forall|id: int| 0 <= id < n ==> (#[trigger] seen@[id] <==> exists|k: int|
                0 <= k < i && (#[trigger] vertices@[k]).0 == id),
        decreases vertices@.len() - i,
    {
        let v = vertices[i];
        if v.0 as usize >= n {
            return None;
        }
        if seen[v.0 as usize] {
            proof {
                let k = choose|k: int| 0 <= k < i && (#[trigger] vertices@[k]).0 == v.0;
                assert(vertices@[k] == vertices@[i as int]);
            }
            return None;
        }
        proof {
            let s = vertices@.subrange(0, i as int + 1);
            assert forall|a: int, b: int| 0 <= a < s.len() && 0 <= b < s.len() && a != b
                implies s[a] != s[b] by {
                if b == i {
                    assert(vertices@.subrange(0, i as int)[a] == vertices@[a]);
                } else if a == i {
                    assert(vertices@.subrange(0, i as int)[b] == vertices@[b]);
                } else {
                    assert(vertices@.subrange(0, i as int)[a] == s[a]);
                    assert(vertices@.subrange(0, i as int)[b] == s[b]);
                }
            }
        }
        seen.set(v.0 as usize, true);
        i = i + 1;
    }
    assert(vertices@.subrange(0, vertices@.len() as int) =~= vertices@);
    Some(seen)
}

/// Whether `faces` lists each face identifier at most once, each below `n`.
fn faces_distinct(faces: &Vec<FaceID>, n: usize) -> (r: bool)
    ensures
        r <==> (faces@.no_duplicates() && forall|i: int|
            0 <= i < faces@.len() ==> (#[trigger] faces@[i]).0 < n),
{
    let mut seen: Vec<bool> = Vec::new();
    let mut j: usize = 0;
    while j < n
        invariant
            j <= n,
            seen@.len() == j,
            forall|id: int| 0 <= id < j ==> !(#[trigger] seen@[id]),
        decreases n - j,
    {
        seen.push(false);
        j = j + 1;
    }
    let mut i: usize = 0;
    while i < faces.len()
        invariant
            i <= faces@.len(),
            seen@.len() == n,
            faces@.subrange(0, i as int).no_duplicates(),
            forall|k: int| 0 <= k < i ==> (#[trigger] faces@[k]).0 < n,
            forall|id: int| 0 <= id < n ==> (#[trigger] seen@[id] <==> exists|k: int|
                0 <= k < i && (#[trigger] faces@[k]).0 == id),
        decreases faces@.len() - i,
    {
        let f = faces[i];
        if f.0 as usize >= n {
            return false;
        }
        if seen[f.0 as usize] {
            proof {
                let k = choose|k: int| 0 <= k < i && (#[trigger] faces@[k]).0 == f.0;
                assert(faces@[k] == faces@[i as int]);
            }
            return false;
        }
        proof {
            let s = faces@.subrange(0, i as int + 1);
            assert forall|a: int, b: int| 0 <= a < s.len() && 0 <= b < s.len() && a != b
                implies s[a] != s[b] by {
                if b == i {
                    assert(faces@.subrange(0, i as int)[a] == faces@[a]);
                } else if a == i {
                    assert(faces@.subrange(0, i as int)[b] == faces@[b]);
                } else {
                    assert(faces@.subrange(0, i as int)[a] == s[a]);
                    assert(faces@.subrange(0, i as int)[b] == s[b]);
                }
            }
        }
        seen.set(f.0 as usize, true);
        i = i + 1;
    }
    assert(faces@.subrange(0, faces@.len() as int) =~= faces@);
    true
}

/// Whether every half-edge of every face is below `n`.
fn halfedges_in_range(face_halfedges: &Vec<[HalfedgeID; 3]>, n: usize) -> (r: bool)
    ensures
        r <==> forall|f: int, k: int| 0 <= f < face_halfedges@.len() && 0 <= k < 3
            ==> (#[trigger] face_halfedges@[f][k]).0 < n,
{
    let mut f: usize = 0;
    while f < face_halfedges.len()
        invariant
            f <= face_halfedges@.len(),
            forall|g: int, k: int| 0 <= g < f && 0 <= k < 3
                ==> (#[trigger] face_halfedges@[g][k]).0 < n,
        decreases face_halfedges@.len() - f,
    {
        let hs = face_halfedges[f];
        let mut k: usize = 0;
        while k < 3
            invariant
                f < face_halfedges@.len(),
                hs == face_halfedges@[f as int],
                k <= 3,
                forall|g: int, l: int| 0 <= g < f && 0 <= l < 3
                    ==> (#[trigger] face_halfedges@[g][l]).0 < n,
                forall|l: int| 0 <= l < k ==> (#[trigger] face_halfedges@[f as int][l]).0 < n,
            decreases 3 - k,
        {
            if hs[k].0 as usize >= n {
                return false;
            }
            k = k + 1;
        }
        f = f + 1;
    }
    true
}

/// Whether every vertex in `targets` is below `n`.
fn vertices_in_range(targets: &Vec<VertexID>, n: usize) -> (r: bool)
    ensures
        r <==> forall|h: int| 0 <= h < targets@.len() ==> (#[trigger] targets@[h]).0 < n,
{
    let mut h: usize = 0;
    while h < targets.len()
        invariant
            h <= targets@.len(),
            forall|g: int| 0 <= g < h ==> (#[trigger] targets@[g]).0 < n,
        decreases targets@.len() - h,
    {
        if targets[h].0 as usize >= n {
            return false;
        }
        h = h + 1;
    }
    true
}

/// Whether every corner of every listed face is marked in `listed`.
fn corners_listed(
    faces: &Vec<FaceID>,
    face_halfedges: &Vec<[HalfedgeID; 3]>,
    halfedge_vertices: &Vec<VertexID>,
    listed: &Vec<bool>,
) -> (r: bool)
    requires
        forall|i: int| 0 <= i < faces@.len() ==> (#[trigger] faces@[i]).0 < face_halfedges@.len(),
        forall|f: int, k: int| 0 <= f < face_halfedges@.len() && 0 <= k < 3
            ==> (#[trigger] face_halfedges@[f][k]).0 < halfedge_vertices@.len(),
        forall|h: int| 0 <= h < halfedge_vertices@.len()
            ==> (#[trigger] halfedge_vertices@[h]).0 < listed@.len(),
    ensures
        r <==> forall|i: int, k: int| 0 <= i < faces@.len() && 0 <= k < 3
            ==> listed@[#[trigger] halfedge_vertices@[face_halfedges@[faces@[i].0 as int][k].0 as int].0 as int],
{
    let mut i: usize = 0;
    while i < faces.len()
        invariant
            i <= faces@.len(),
            forall|i: int| 0 <= i < faces@.len() ==> (#[trigger] faces@[i]).0 < face_halfedges@.len(),
            forall|f: int, k: int| 0 <= f < face_halfedges@.len() && 0 <= k < 3
                ==> (#[trigger] face_halfedges@[f][k]).0 < halfedge_vertices@.len(),
            forall|h: int| 0 <= h < halfedge_vertices@.len()
                ==> (#[trigger] halfedge_vertices@[h]).0 < listed@.len(),
            forall|j: int, k: int| 0 <= j < i && 0 <= k < 3
                ==> listed@[#[trigger] halfedge_vertices@[face_halfedges@[faces@[j].0 as int][k].0 as int].0 as int],
        decreases faces@.len() - i,
    {
        let hs = face_halfedges[faces[i].0 as usize];
        let mut k: usize = 0;
        while k < 3
            invariant
                i < faces@.len(),
                hs == face_halfedges@[faces@[i as int].0 as int],
                k <= 3,
                forall|i: int| 0 <= i < faces@.len() ==> (#[trigger] faces@[i]).0 < face_halfedges@.len(),
                forall|f: int, k: int| 0 <= f < face_halfedges@.len() && 0 <= k < 3
                    ==> (#[trigger] face_halfedges@[f][k]).0 < halfedge_vertices@.len(),
                forall|h: int| 0 <= h < halfedge_vertices@.len()
                    ==> (#[trigger] halfedge_vertices@[h]).0 < listed@.len(),
                forall|j: int, l: int| 0 <= j < i && 0 <= l < 3
                    ==> listed@[#[trigger] halfedge_vertices@[face_halfedges@[faces@[j].0 as int][l].0 as int].0 as int],
                forall|l: int| 0 <= l < k
                    ==> listed@[#[trigger] halfedge_vertices@[hs[l].0 as int].0 as int],
            decreases 3 - k,
        {
            let v = halfedge_vertices[hs[k].0 as usize];
            if !listed[v.0 as usize] {
                return false;
            }
            k = k + 1;
        }
        i = i + 1;
    }
    true
}

impl<S: Copy> Mesh<S> {
    /// Builds a mesh from its tables, or `None` when they disagree (see
    /// [`MeshModel::wf`]).
    pub fn new(
        vertices: Vec<VertexID>,
        faces: Vec<FaceID>,
        face_halfedges: Vec<[HalfedgeID; 3]>,
        halfedge_vertices: Vec<VertexID>,
        positions: Vec<Vec3<S>>,
        normals: Vec<Vec3<S>>,
    ) -> (r: Option<Self>)
        ensures
            ({
                let m = MeshModel {
                    vertices: vertices@,
                    faces: faces@,
                    face_halfedges: face_halfedges@,
                    halfedge_vertices: halfedge_vertices@,
                    positions: positions@,
                    normals: normals@,
                };
                &&& r is Some <==> m.wf()
                &&& r matches Some(mesh) ==> mesh@ == m
            }),
    {
        let ghost m = MeshModel {
            vertices: vertices@,
            faces: faces@,
            face_halfedges: face_halfedges@,
            halfedge_vertices: halfedge_vertices@,
            positions: positions@,
            normals: normals@,
        };
        if positions.len() != normals.len() || vertices.len() > u32::MAX as usize {
            return None;
        }
        let listed = match mark_vertices(&vertices, positions.len()) {
            Some(listed) => listed,
            None => return None,
        };
        if !faces_distinct(&faces, face_halfedges.len()) {
            return None;
        }
        if !halfedges_in_range(&face_halfedges, halfedge_vertices.len()) {
            proof {
                let (f, k) = choose|f: int, k: int| 0 <= f < m.face_halfedges.len() && 0 <= k < 3
                    && !((#[trigger] m.face_halfedges[f][k]).0 < m.halfedge_vertices.len());
                assert(!m.valid_halfedge(m.face_halfedges[f][k]));
            }
            return None;
        }
        if !vertices_in_range(&halfedge_vertices, positions.len()) {
            proof {
                let h = choose|h: int| 0 <= h < m.halfedge_vertices.len()
                    && !((#[trigger] m.halfedge_vertices[h]).0 < m.positions.len());
                assert(!m.valid_vertex(m.halfedge_vertices[h]));
            }
            return None;
        }
        let ok = corners_listed(&faces, &face_halfedges, &halfedge_vertices, &listed);
        proof {
            assert forall|i: int, k: int| 0 <= i < m.faces.len() && 0 <= k < 3
                implies (m.vertices.contains(#[trigger] m.face_corner(m.faces[i], k))
                    <==> listed@[m.face_corner(m.faces[i], k).0 as int]) by {
                let c = m.face_corner(m.faces[i], k);
                if listed@[c.0 as int] {
                    let j = choose|j: int| 0 <= j < m.vertices.len() && (#[trigger] m.vertices[j]).0 == c.0;
                    assert(m.vertices[j] == c);
                }
                if m.vertices.contains(c) {
                    let j = choose|j: int| 0 <= j < m.vertices.len() && m.vertices[j] == c;
                    assert(m.vertices[j].0 == c.0);
                }
            }
        }
        if !ok {
            proof {
                let (i, k) = choose|i: int, k: int| 0 <= i < m.faces.len() && 0 <= k < 3
                    && !listed@[#[trigger] m.halfedge_vertices[m.face_halfedges[m.faces[i].0 as int][k].0 as int].0 as int];
                assert(!m.vertices.contains(m.face_corner(m.faces[i], k)));
            }
            return None;
        }
        Some(Mesh { vertices, faces, face_halfedges, halfedge_vertices, positions, normals })
    }

    /// Number of enumerated vertices. Every mesh is well formed.
    pub fn no_vertices(&self) -> (r: usize)
        ensures
            r == self@.vertices.len(),
            self@.wf(),
    {
        proof { use_type_invariant(self); }
        self.vertices.len()
    }

    /// Number of enumerated faces. Every mesh is well formed.
    pub fn no_faces(&self) -> (r: usize)
        ensures
            r == self@.faces.len(),
            self@.wf(),
    {
        proof { use_type_invariant(self); }
        self.faces.len()
    }

    /// Number of entries of the per-vertex tables: every vertex identifier is below it.
    pub fn vertex_table_len(&self) -> (r: usize)
        ensures
            r == self@.positions.len(),
    {
        self.positions.len()
    }

    /// The vertices in enumeration order.
    pub fn vertex_ids(&self) -> (r: &Vec<VertexID>)
        ensures
            r@ == self@.vertices,
    {
        &self.vertices
    }

    /// The faces in enumeration order.
    pub fn face_ids(&self) -> (r: &Vec<FaceID>)
        ensures
            r@ == self@.faces,
    {
        &self.faces
    }

    /// The three half-edges of a face, in winding order.
    pub fn face_halfedges(&self, face: FaceID) -> (r: [HalfedgeID; 3])
        requires
            self@.valid_face(face),
        ensures
            r == self@.face_halfedges[face.0 as int],
    {
        self.face_halfedges[face.0 as usize]
    }

    /// The vertex that a half-edge points to.
    pub fn halfedge_vertex(&self, halfedge: HalfedgeID) -> (r: VertexID)
        requires
            self@.valid_halfedge(halfedge),
        ensures
            r == self@.halfedge_vertices[halfedge.0 as int],
    {
        self.halfedge_vertices[halfedge.0 as usize]
    }

    /// The position of a vertex.
    pub fn vertex_position(&self, vertex: VertexID) -> (r: Vec3<S>)
        requires
            self@.valid_vertex(vertex),
        ensures
            r == self@.positions[vertex.0 as int],
    {
        self.positions[vertex.0 as usize]
    }

    /// The normal of a vertex: the average of the normals of its adjacent faces.
    pub fn vertex_normal(&self, vertex: VertexID) -> (r: Vec3<S>)
        requires
            self@.valid_vertex(vertex),
        ensures
            r == self@.normals[vertex.0 as int],
    {
        proof { use_type_invariant(self); }
        self.normals[vertex.0 as usize]
    }

    /// The three corner vertices of a face, in winding order.
    pub fn face_vertices(&self, face: FaceID) -> (r: (VertexID, VertexID, VertexID))
        requires
            self@.valid_face(face),
        ensures
            r == (self@.face_corner(face, 0), self@.face_corner(face, 1), self@.face_corner(face, 2)),
    {
        proof { use_type_invariant(self); }
        let hs = self.face_halfedges[face.0 as usize];
        (
            self.halfedge_vertices[hs[0].0 as usize],
            self.halfedge_vertices[hs[1].0 as usize],
            self.halfedge_vertices[hs[2].0 as usize],
        )
    }

    /// The three corner positions of a face, in winding order.
    pub fn face_positions(&self, face: FaceID) -> (r: (Vec3<S>, Vec3<S>, Vec3<S>))
        requires
            self@.valid_face(face),
        ensures
            r == (
                self@.positions[self@.face_corner(face, 0).0 as int],
                self@.positions[self@.face_corner(face, 1).0 as int],
                self@.positions[self@.face_corner(face, 2).0 as int],
            ),
    {
        proof { use_type_invariant(self); }
        let (v0, v1, v2) = self.face_vertices(face);
        (self.positions[v0.0 as usize], self.positions[v1.0 as usize], self.positions[v2.0 as usize])
    }
}

} // verus!
