//! Meshes: parallel per-vertex arrays, faces, and bones.

use crate::array::{DirectArray, DirectIter, IndirectArray, IndirectIter};
use crate::face::Face;
use crate::import::{PrimitiveTypes, PRIMITIVE_TYPES_MASK};
use crate::raw::{AiStr, Color4D, Matrix4x4, Vector3D};
use vstd::prelude::*;

verus! {

/// How many per-vertex color sets a mesh record carries.
pub const MAX_COLOR_SETS: usize = 8;

/// How many per-vertex texture-coordinate channels a mesh record carries.
pub const MAX_UV_CHANNELS: usize = 8;

/// One vertex of a mesh, gathered from the parallel per-vertex arrays.
/// The optional members are absent exactly when the mesh does not carry
/// the corresponding array.
#[derive(Debug, Clone, Copy, PartialEq, Eq, Structural)]
pub struct Vertex {
    /// The position, local to the mesh.
    pub pos: Vector3D,
    /// The normal, when the mesh carries normals.
    pub normal: Option<Vector3D>,
    /// The tangent, when the mesh carries tangents.
    pub tangent: Option<Vector3D>,
    /// The bitangent, when the mesh carries bitangents.
    pub bitangent: Option<Vector3D>,
}

/// One (vertex index, weight) pair of a bone; the weight is the raw bit
/// pattern of a 32-bit float.
#[derive(Debug, Clone, Copy, PartialEq, Eq, Structural)]
pub struct VertexWeight {
    pub m_vertex_id: u32,
    pub m_weight: u32,
}

/// A bone: a name, an offset transform, and its vertex weights.
#[derive(Debug, Clone, PartialEq)]
pub struct Bone {
    pub m_name: AiStr,
    pub m_offset_matrix: Matrix4x4,
    pub m_num_weights: u32,
    pub m_weights: DirectArray<VertexWeight>,
}

impl Bone {
    /// The bone record is consistent with itself.
    pub open spec fn wf(self) -> bool {
        &&& self.m_name.wf()
        &&& self.m_weights.complete(self.m_num_weights as nat)
    }

    /// The name of the bone.
    pub fn name(&self) -> (r: Vec<u8>)
        requires
            self.wf(),
        ensures
            r@ == self.m_name.chars(),
    {
        self.m_name.decode()
    }

    /// The bone's offset transformation matrix.
    pub fn offset_matrix(&self) -> (r: Matrix4x4)
        ensures
            r == self.m_offset_matrix,
    {
        self.m_offset_matrix
    }

    /// How many vertex weights the bone declares.
    pub fn num_weights(&self) -> (r: u32)
        ensures
            r == self.m_num_weights,
    {
        self.m_num_weights
    }

    /// The bone's vertex weights, as a bounded walk.
    pub fn weights(&self) -> (it: DirectIter<'_, VertexWeight>)
        ensures
            it.remaining() == self.m_weights.items(self.m_num_weights as nat),
            self.wf() ==> it.remaining().len() == self.m_num_weights,
    {
        self.m_weights.iter(self.m_num_weights as usize)
    }

    /// The weight at position `id`, absent from `m_num_weights` on.
    pub fn weight(&self, id: u32) -> (r: Option<&VertexWeight>)
        ensures
            match r {
                Some(w) => self.m_weights.entry(self.m_num_weights as nat, id as nat) == Some(*w),
                None => self.m_weights.entry(self.m_num_weights as nat, id as nat) is None,
            },
            self.wf() ==> (r is Some <==> id < self.m_num_weights),
    {
        self.m_weights.get(self.m_num_weights as usize, id as usize)
    }
}

/// A mesh: parallel per-vertex arrays of one common length, an array of
/// faces, an optional array of bones, and a material index into the
/// scene's material array.
#[derive(Debug, Clone, PartialEq)]
pub struct Mesh {
    pub m_name: AiStr,
    /// The bitset of primitive types in use by the faces.
    pub m_primitive_types: u32,
    pub m_num_vertices: u32,
    pub m_num_faces: u32,
    /// Vertex positions; present in every consistent mesh with vertices.
    pub m_vertices: DirectArray<Vector3D>,
    /// Vertex normals, or null when the format supplied none.
    pub m_normals: DirectArray<Vector3D>,
    /// Vertex tangents, or null.
    pub m_tangents: DirectArray<Vector3D>,
    /// Vertex bitangents, or null.
    pub m_bitangents: DirectArray<Vector3D>,
    /// The per-vertex color sets; each is null or of the common length.
    pub m_colors: Vec<DirectArray<Color4D>>,
    /// The per-vertex texture-coordinate channels; each is null or of the
    /// common length.
    pub m_texture_coords: Vec<DirectArray<Vector3D>>,
    pub m_faces: DirectArray<Face>,
    pub m_num_bones: u32,
    pub m_bones: IndirectArray<Bone>,
    /// The index of this mesh's material in the scene's material array.
    pub m_material_index: u32,
}

impl Mesh {
    /// The arena's consistency conditions for a mesh: every per-vertex
    /// array is null or holds exactly `m_num_vertices` records, the face
    /// array agrees with its count and holds no empty face, and the bone
    /// records agree with themselves.
    pub open spec fn wf(self) -> bool {
        &&& self.m_name.wf()
        &&& self.m_primitive_types & !PRIMITIVE_TYPES_MASK == 0
        &&& self.m_vertices.complete(self.m_num_vertices as nat)
        &&& self.m_normals.matches(self.m_num_vertices as nat)
        &&& self.m_tangents.matches(self.m_num_vertices as nat)
        &&& self.m_bitangents.matches(self.m_num_vertices as nat)
        &&& self.m_colors@.len() == MAX_COLOR_SETS
        &&& forall|i: int|
            0 <= i < self.m_colors@.len() ==> (#[trigger] self.m_colors@[i]).matches(
                self.m_num_vertices as nat,
            )
        &&& self.m_texture_coords@.len() == MAX_UV_CHANNELS
        &&& forall|i: int|
            0 <= i < self.m_texture_coords@.len() ==> (#[trigger] self.m_texture_coords@[i]).matches(
                self.m_num_vertices as nat,
            )
        &&& self.m_faces.complete(self.m_num_faces as nat)
        &&& match self.m_faces.base {
            Option::None => true,
            Option::Some(v) => forall|i: int| 0 <= i < v@.len() ==> (#[trigger] v@[i]).wf(),
        }
        &&& self.m_bones.matches(self.m_num_bones as nat)
        &&& match self.m_bones.base {
            Option::None => true,
            Option::Some(v) => forall|i: int|
                0 <= i < v@.len() ==> ((#[trigger] v@[i]) matches Some(b) ==> b.wf()),
        }
    }

    /// The mesh's name; may be empty.
    pub fn name(&self) -> (r: Vec<u8>)
        requires
            self.wf(),
        ensures
            r@ == self.m_name.chars(),
    {
        self.m_name.decode()
    }

    /// The bitset of all primitive types in use by this mesh's faces.
    pub fn primitive_types(&self) -> (r: PrimitiveTypes)
        requires
            self.wf(),
        ensures
            r.bits == self.m_primitive_types,
    {
        PrimitiveTypes { bits: self.m_primitive_types }
    }

    /// The index of this mesh's material in the scene's material array.
    pub fn material_id(&self) -> (r: u32)
        ensures
            r == self.m_material_index,
    {
        self.m_material_index
    }

    /// The number of unique vertices in this mesh.
    pub fn num_vertices(&self) -> (r: u32)
        ensures
            r == self.m_num_vertices,
    {
        self.m_num_vertices
    }

    /// The number of faces in this mesh.
    pub fn num_faces(&self) -> (r: u32)
        ensures
            r == self.m_num_faces,
    {
        self.m_num_faces
    }

    /// The number of bones in this mesh.
    pub fn num_bones(&self) -> (r: u32)
        ensures
            r == self.m_num_bones,
    {
        self.m_num_bones
    }

    /// The unique vertex positions, as a bounded walk.
    pub fn positions(&self) -> (it: DirectIter<'_, Vector3D>)
        ensures
            it.remaining() == self.m_vertices.items(self.m_num_vertices as nat),
            self.wf() ==> it.remaining().len() == self.m_num_vertices,
    {
        self.m_vertices.iter(self.m_num_vertices as usize)
    }

    /// The position of the `id`-th unique vertex.
    pub fn position(&self, id: u32) -> (r: Option<Vector3D>)
        ensures
            r == self.m_vertices.entry(self.m_num_vertices as nat, id as nat),
            self.wf() ==> (r is Some <==> id < self.m_num_vertices),
    {
        match self.m_vertices.get(self.m_num_vertices as usize, id as usize) {
            Some(v) => Some(*v),
            None => None,
        }
    }

    /// The vertex normals, as a bounded walk; empty when the mesh carries
    /// none.
    pub fn normals(&self) -> (it: DirectIter<'_, Vector3D>)
        ensures
            it.remaining() == self.m_normals.items(self.m_num_vertices as nat),
            self.wf() && !self.m_normals.is_null() ==> it.remaining().len()
                == self.m_num_vertices,
            self.m_normals.is_null() ==> it.remaining().len() == 0,
    {
        self.m_normals.iter(self.m_num_vertices as usize)
    }

    /// The normal of the `id`-th unique vertex.
    pub fn normal(&self, id: u32) -> (r: Option<Vector3D>)
        ensures
            r == self.m_normals.entry(self.m_num_vertices as nat, id as nat),
            self.wf() && !self.m_normals.is_null() ==> (r is Some <==> id
                < self.m_num_vertices),
            self.m_normals.is_null() ==> r is None,
    {
        match self.m_normals.get(self.m_num_vertices as usize, id as usize) {
            Some(v) => Some(*v),
            None => None,
        }
    }

    /// The vertex tangents, as a bounded walk; empty when the mesh
    /// carries none.
    pub fn tangents(&self) -> (it: DirectIter<'_, Vector3D>)
        ensures
            it.remaining() == self.m_tangents.items(self.m_num_vertices as nat),
            self.wf() && !self.m_tangents.is_null() ==> it.remaining().len()
                == self.m_num_vertices,
            self.m_tangents.is_null() ==> it.remaining().len() == 0,
    {
        self.m_tangents.iter(self.m_num_vertices as usize)
    }

    /// The tangent of the `id`-th unique vertex.
    pub fn tangent(&self, id: u32) -> (r: Option<Vector3D>)
        ensures
            r == self.m_tangents.entry(self.m_num_vertices as nat, id as nat),
            self.wf() && !self.m_tangents.is_null() ==> (r is Some <==> id
                < self.m_num_vertices),
            self.m_tangents.is_null() ==> r is None,
    {
        match self.m_tangents.get(self.m_num_vertices as usize, id as usize) {
            Some(v) => Some(*v),
            None => None,
        }
    }

    /// The vertex bitangents, as a bounded walk; empty when the mesh
    /// carries none.
    pub fn bitangents(&self) -> (it: DirectIter<'_, Vector3D>)
        ensures
            it.remaining() == self.m_bitangents.items(self.m_num_vertices as nat),
            self.wf() && !self.m_bitangents.is_null() ==> it.remaining().len()
                == self.m_num_vertices,
            self.m_bitangents.is_null() ==> it.remaining().len() == 0,
    {
        self.m_bitangents.iter(self.m_num_vertices as usize)
    }

    /// The bitangent of the `id`-th unique vertex.
    pub fn bitangent(&self, id: u32) -> (r: Option<Vector3D>)
        ensures
            r == self.m_bitangents.entry(self.m_num_vertices as nat, id as nat),
            self.wf() && !self.m_bitangents.is_null() ==> (r is Some <==> id
                < self.m_num_vertices),
            self.m_bitangents.is_null() ==> r is None,
    {
        match self.m_bitangents.get(self.m_num_vertices as usize, id as usize) {
            Some(v) => Some(*v),
            None => None,
        }
    }

    /// The vertex colors of set `set_id`, as a bounded walk; empty when
    /// the mesh carries no such set.
    pub fn vertex_colors(&self, set_id: u32) -> (it: DirectIter<'_, Color4D>)
        requires
            self.wf(),
            set_id < MAX_COLOR_SETS,
        ensures
            it.remaining() == self.m_colors@[set_id as int].items(self.m_num_vertices as nat),
            !self.m_colors@[set_id as int].is_null() ==> it.remaining().len()
                == self.m_num_vertices,
    {
        self.m_colors[set_id as usize].iter(self.m_num_vertices as usize)
    }

    /// The color of the `id`-th unique vertex in set `set_id`.
    pub fn vertex_color(&self, set_id: u32, id: u32) -> (r: Option<Color4D>)
        requires
            self.wf(),
            set_id < MAX_COLOR_SETS,
        ensures
            r == self.m_colors@[set_id as int].entry(self.m_num_vertices as nat, id as nat),
            !self.m_colors@[set_id as int].is_null() ==> (r is Some <==> id
                < self.m_num_vertices),
    {
        match self.m_colors[set_id as usize].get(self.m_num_vertices as usize, id as usize) {
            Some(c) => Some(*c),
            None => None,
        }
    }

    /// The texture coordinates of channel `channel_id`, as a bounded
    /// walk; empty when the mesh carries no such channel.
    pub fn texture_coords(&self, channel_id: u32) -> (it: DirectIter<'_, Vector3D>)
        requires
            self.wf(),
            channel_id < MAX_UV_CHANNELS,
        ensures
            it.remaining() == self.m_texture_coords@[channel_id as int].items(
                self.m_num_vertices as nat,
            ),
            !self.m_texture_coords@[channel_id as int].is_null() ==> it.remaining().len()
                == self.m_num_vertices,
    {
        self.m_texture_coords[channel_id as usize].iter(self.m_num_vertices as usize)
    }

    /// The texture coordinate of the `id`-th unique vertex in channel
    /// `channel_id`.
    pub fn texture_coord(&self, channel_id: u32, id: u32) -> (r: Option<Vector3D>)
        requires
            self.wf(),
            channel_id < MAX_UV_CHANNELS,
        ensures
            r == self.m_texture_coords@[channel_id as int].entry(
                self.m_num_vertices as nat,
                id as nat,
            ),
            !self.m_texture_coords@[channel_id as int].is_null() ==> (r is Some <==> id
                < self.m_num_vertices),
    {
        match self.m_texture_coords[channel_id as usize].get(
            self.m_num_vertices as usize,
            id as usize,
        ) {
            Some(c) => Some(*c),
            None => None,
        }
    }

    /// The faces, as a bounded walk.
    pub fn faces(&self) -> (it: DirectIter<'_, Face>)
        ensures
            it.remaining() == self.m_faces.items(self.m_num_faces as nat),
            self.wf() ==> it.remaining().len() == self.m_num_faces,
    {
        self.m_faces.iter(self.m_num_faces as usize)
    }

    /// The face at position `id`, absent from `m_num_faces` on. A face
    /// handed out of a consistent mesh is itself consistent, so it never
    /// classifies as anything but its index count says.
    pub fn face(&self, id: u32) -> (r: Option<&Face>)
        ensures
            match r {
                Some(f) => self.m_faces.entry(self.m_num_faces as nat, id as nat) == Some(*f),
                None => self.m_faces.entry(self.m_num_faces as nat, id as nat) is None,
            },
            self.wf() ==> (r is Some <==> id < self.m_num_faces),
            self.wf() ==> (r matches Some(f) ==> f.wf()),
    {
        self.m_faces.get(self.m_num_faces as usize, id as usize)
    }

    /// The bones, as a bounded walk.
    pub fn bones(&self) -> (it: IndirectIter<'_, Bone>)
        ensures
            it.remaining() == self.m_bones.items(self.m_num_bones as nat),
            self.wf() && self.m_bones.all_present(self.m_num_bones as nat)
                && !self.m_bones.is_null() ==> it.remaining().len() == self.m_num_bones,
    {
        self.m_bones.iter(self.m_num_bones as usize)
    }

    /// The bone at position `id`, absent from `m_num_bones` on or behind
    /// a null record pointer.
    pub fn bone(&self, id: u32) -> (r: Option<&Bone>)
        ensures
            match r {
                Some(b) => self.m_bones.entry(self.m_num_bones as nat, id as nat) == Some(*b),
                None => self.m_bones.entry(self.m_num_bones as nat, id as nat) is None,
            },
            self.wf() && self.m_bones.all_present(self.m_num_bones as nat)
                && !self.m_bones.is_null() ==> (r is Some <==> id < self.m_num_bones),
            self.wf() ==> (r matches Some(b) ==> b.wf()),
    {
        self.m_bones.get(self.m_num_bones as usize, id as usize)
    }

    /// The vertices the combined walk of `vertices()` visits: one vertex
    /// per position, with each optional member present while its array
    /// still has records.
    pub open spec fn spec_vertices(self) -> Seq<Vertex> {
        let pos = self.m_vertices.items(self.m_num_vertices as nat);
        let nor = self.m_normals.items(self.m_num_vertices as nat);
        let tan = self.m_tangents.items(self.m_num_vertices as nat);
        let bit = self.m_bitangents.items(self.m_num_vertices as nat);
        Seq::new(
            pos.len(),
            |i: int|
                Vertex {
                    pos: pos[i],
                    normal: if i < nor.len() {
                        Some(nor[i])
                    } else {
                        None
                    },
                    tangent: if i < tan.len() {
                        Some(tan[i])
                    } else {
                        None
                    },
                    bitangent: if i < bit.len() {
                        Some(bit[i])
                    } else {
                        None
                    },
                },
        )
    }

    /// A combined walk over positions, normals, tangents and bitangents.
    pub fn vertices(&self) -> (it: VertexIter<'_>)
        ensures
            it.remaining() == self.spec_vertices(),
            self.wf() ==> it.remaining().len() == self.m_num_vertices,
    {
        let it = VertexIter {
            positions: self.m_vertices.iter(self.m_num_vertices as usize),
            normals: self.m_normals.iter(self.m_num_vertices as usize),
            tangents: self.m_tangents.iter(self.m_num_vertices as usize),
            bitangents: self.m_bitangents.iter(self.m_num_vertices as usize),
        };
        proof {
            assert(it.remaining() =~= self.spec_vertices());
        }
        it
    }
}

/// The combined bounded walk behind `Mesh::vertices`.
pub struct VertexIter<'a> {
    positions: DirectIter<'a, Vector3D>,
    normals: DirectIter<'a, Vector3D>,
    tangents: DirectIter<'a, Vector3D>,
    bitangents: DirectIter<'a, Vector3D>,
}

impl<'a> VertexIter<'a> {
    /// The vertices the walk has not visited yet: one per remaining
    /// position, with optional members while their arrays last.
    pub closed spec fn remaining(self) -> Seq<Vertex> {
        let pos = self.positions.remaining();
        let nor = self.normals.remaining();
        let tan = self.tangents.remaining();
        let bit = self.bitangents.remaining();
        Seq::new(
            pos.len(),
            |i: int|
                Vertex {
                    pos: pos[i],
                    normal: if i < nor.len() {
                        Some(nor[i])
                    } else {
                        None
                    },
                    tangent: if i < tan.len() {
                        Some(tan[i])
                    } else {
                        None
                    },
                    bitangent: if i < bit.len() {
                        Some(bit[i])
                    } else {
                        None
                    },
                },
        )
    }

    /// The next vertex, or nothing once the positions are exhausted.
    pub fn next(&mut self) -> (r: Option<Vertex>)
        ensures
            old(self).remaining().len() == 0 ==> r is None && final(self).remaining() == old(
                self,
            ).remaining(),
            old(self).remaining().len() > 0 ==> r == Some(old(self).remaining()[0])
                && final(self).remaining() == old(self).remaining().skip(1),
    {
        match self.positions.next() {
            None => None,
            Some(p) => {
                let normal = match self.normals.next() {
                    Some(x) => Some(*x),
                    None => None,
                };
                let tangent = match self.tangents.next() {
                    Some(x) => Some(*x),
                    None => None,
                };
                let bitangent = match self.bitangents.next() {
                    Some(x) => Some(*x),
                    None => None,
                };
                proof {
                    assert(self.remaining() =~= old(self).remaining().skip(1));
                }
                Some(Vertex { pos: *p, normal, tangent, bitangent })
            },
        }
    }
}

} // verus!
