//! Scene-graph nodes and their typed metadata records.

use crate::array::{
    indirect_all_present, indirect_entry, indirect_get, indirect_is_null, indirect_items,
    indirect_iter, indirect_matches, DirectArray, DirectIter, IndirectIter,
};
use crate::raw::{
    spec_le32, spec_le64, spec_str_payload, read_le32, read_le64, read_str_payload, AiStr,
    Matrix4x4, Vector3D,
};
use vstd::prelude::*;

verus! {

/// The metadata type tag for a boolean payload.
pub const META_BOOL: u32 = 0;

/// The metadata type tag for a signed 32-bit integer payload.
pub const META_INT32: u32 = 1;

/// The metadata type tag for an unsigned 64-bit integer payload.
pub const META_UINT64: u32 = 2;

/// The metadata type tag for a 32-bit float payload.
pub const META_FLOAT: u32 = 3;

/// The metadata type tag for a 64-bit float payload.
pub const META_DOUBLE: u32 = 4;

/// The metadata type tag for a serialized string payload.
pub const META_AISTRING: u32 = 5;

/// The metadata type tag for a three-component vector payload.
pub const META_AIVECTOR3D: u32 = 6;

/// One metadata record: a type tag set by the producer beside an opaque
/// byte payload.
#[derive(Debug, Clone, PartialEq)]
pub struct MetadataEntry {
    /// The producer's type tag for the payload.
    pub m_type: u32,
    /// The opaque payload bytes.
    pub m_data: Vec<u8>,
}

/// The decoded value of a metadata record. Floating-point values travel
/// as their raw bit patterns.
#[derive(Debug, Clone, PartialEq)]
pub enum MetadataValue {
    Bool(bool),
    I32(i32),
    U64(u64),
    /// The bit pattern of a 32-bit float.
    F32(u32),
    /// The bit pattern of a 64-bit float.
    F64(u64),
    Str(Vec<u8>),
    Vector3D(Vector3D),
}

/// The mathematical shape of a decoded metadata value.
pub enum MetadataValueModel {
    Bool(bool),
    I32(i32),
    U64(u64),
    F32(u32),
    F64(u64),
    Str(Seq<u8>),
    Vector3D(Vector3D),
}

impl View for MetadataValue {
    type V = MetadataValueModel;

    open spec fn view(&self) -> MetadataValueModel {
        match self {
            MetadataValue::Bool(b) => MetadataValueModel::Bool(*b),
            MetadataValue::I32(v) => MetadataValueModel::I32(*v),
            MetadataValue::U64(v) => MetadataValueModel::U64(*v),
            MetadataValue::F32(v) => MetadataValueModel::F32(*v),
            MetadataValue::F64(v) => MetadataValueModel::F64(*v),
            MetadataValue::Str(s) => MetadataValueModel::Str(s@),
            MetadataValue::Vector3D(v) => MetadataValueModel::Vector3D(*v),
        }
    }
}

impl MetadataEntry {
    /// The record is consistent: its tag is one the producer defines and
    /// its payload is long enough for that tag.
    pub open spec fn wf(self) -> bool {
        if self.m_type == META_BOOL {
            self.m_data@.len() >= 1
        } else if self.m_type == META_INT32 || self.m_type == META_FLOAT {
            self.m_data@.len() >= 4
        } else if self.m_type == META_UINT64 || self.m_type == META_DOUBLE {
            self.m_data@.len() >= 8
        } else if self.m_type == META_AISTRING {
            spec_str_payload(self.m_data@) is Some
        } else if self.m_type == META_AIVECTOR3D {
            self.m_data@.len() >= 12
        } else {
            false
        }
    }

    /// The value a consistent record decodes to.
    pub open spec fn spec_value(self) -> MetadataValueModel {
        if self.m_type == META_BOOL {
            MetadataValueModel::Bool(self.m_data@[0] != 0)
        } else if self.m_type == META_INT32 {
            MetadataValueModel::I32(spec_le32(self.m_data@, 0) as i32)
        } else if self.m_type == META_UINT64 {
            MetadataValueModel::U64(spec_le64(self.m_data@, 0))
        } else if self.m_type == META_FLOAT {
            MetadataValueModel::F32(spec_le32(self.m_data@, 0))
        } else if self.m_type == META_DOUBLE {
            MetadataValueModel::F64(spec_le64(self.m_data@, 0))
        } else if self.m_type == META_AISTRING {
            MetadataValueModel::Str(spec_str_payload(self.m_data@)->Some_0)
        } else {
            MetadataValueModel::Vector3D(
                Vector3D {
                    x: spec_le32(self.m_data@, 0),
                    y: spec_le32(self.m_data@, 4),
                    z: spec_le32(self.m_data@, 8),
                },
            )
        }
    }

    /// Decode the payload according to the record's type tag.
    pub fn get(&self) -> (r: MetadataValue)
        requires
            self.wf(),
        ensures
            r@ == self.spec_value(),
    {
        if self.m_type == META_BOOL {
            MetadataValue::Bool(self.m_data[0] != 0)
        } else if self.m_type == META_INT32 {
            MetadataValue::I32(read_le32(&self.m_data, 0) as i32)
        } else if self.m_type == META_UINT64 {
            MetadataValue::U64(read_le64(&self.m_data, 0))
        } else if self.m_type == META_FLOAT {
            MetadataValue::F32(read_le32(&self.m_data, 0))
        } else if self.m_type == META_DOUBLE {
            MetadataValue::F64(read_le64(&self.m_data, 0))
        } else if self.m_type == META_AISTRING {
            match read_str_payload(&self.m_data) {
                Some(s) => MetadataValue::Str(s),
                None => {
                    proof {
                        assert(false);
                    }
                    MetadataValue::Bool(false)
                },
            }
        } else {
            MetadataValue::Vector3D(
                Vector3D {
                    x: read_le32(&self.m_data, 0),
                    y: read_le32(&self.m_data, 4),
                    z: read_le32(&self.m_data, 8),
                },
            )
        }
    }
}

/// A node's metadata block: parallel arrays of keys and records.
#[derive(Debug, Clone, PartialEq)]
pub struct MetadataData {
    pub m_num_properties: u32,
    pub m_keys: DirectArray<AiStr>,
    pub m_values: DirectArray<MetadataEntry>,
}

impl MetadataData {
    /// The block is consistent: both arrays hold exactly the declared
    /// number of records, and every key and record is itself consistent.
    pub open spec fn wf(self) -> bool {
        &&& self.m_keys.complete(self.m_num_properties as nat)
        &&& self.m_values.complete(self.m_num_properties as nat)
        &&& match self.m_keys.base {
            Option::None => true,
            Option::Some(v) => forall|i: int| 0 <= i < v@.len() ==> (#[trigger] v@[i]).wf(),
        }
        &&& match self.m_values.base {
            Option::None => true,
            Option::Some(v) => forall|i: int| 0 <= i < v@.len() ==> (#[trigger] v@[i]).wf(),
        }
    }

    /// The (key, record) pair at position `i`, absent out of range or
    /// when either parallel array fails to hold it.
    pub open spec fn spec_entry(self, i: nat) -> Option<(AiStr, MetadataEntry)> {
        match (
            self.m_keys.entry(self.m_num_properties as nat, i),
            self.m_values.entry(self.m_num_properties as nat, i),
        ) {
            (Option::Some(k), Option::Some(v)) => Option::Some((k, v)),
            _ => Option::None,
        }
    }
}

/// A bounded walk over a metadata block, yielding (key, record) pairs.
pub struct Metadata<'a> {
    meta: &'a MetadataData,
    index: usize,
}

impl<'a> Metadata<'a> {
    #[verifier::type_invariant]
    spec fn inv(self) -> bool {
        self.index <= self.meta.m_num_properties
    }

    /// The block the walk reads.
    pub closed spec fn data(self) -> MetadataData {
        *self.meta
    }

    /// How many pairs the walk has yielded.
    pub closed spec fn position(self) -> nat {
        self.index as nat
    }

    /// Begin a walk over the block.
    pub fn new(meta: &'a MetadataData) -> (it: Metadata<'a>)
        ensures
            it.data() == *meta,
            it.position() == 0,
    {
        Metadata { meta, index: 0 }
    }

    /// How many pairs the walk will still try to yield.
    pub fn len(&self) -> (n: usize)
        ensures
            n == self.data().m_num_properties - self.position(),
    {
        proof {
            use_type_invariant(self);
        }
        self.meta.m_num_properties as usize - self.index
    }

    /// The next (key, record) pair; nothing from the declared count on,
    /// and nothing when either parallel array fails to hold the pair.
    pub fn next(&mut self) -> (r: Option<(&'a AiStr, &'a MetadataEntry)>)
        ensures
            final(self).data() == old(self).data(),
            match r {
                Some(kv) => {
                    &&& old(self).data().spec_entry(old(self).position()) == Some((*kv.0, *kv.1))
                    &&& final(self).position() == old(self).position() + 1
                },
                None => {
                    &&& old(self).data().spec_entry(old(self).position()) is None
                    &&& final(self).position() == old(self).position()
                },
            },
    {
        proof {
            use_type_invariant(&*self);
        }
        let num = self.meta.m_num_properties as usize;
        if self.index < num {
            let key = match self.meta.m_keys.get(num, self.index) {
                Some(k) => k,
                None => {
                    return None;
                },
            };
            let value = match self.meta.m_values.get(num, self.index) {
                Some(v) => v,
                None => {
                    return None;
                },
            };
            self.index = self.index + 1;
            Some((key, value))
        } else {
            None
        }
    }
}

/// A node of the scene graph: a name, a local transform, child nodes,
/// mesh indices into the scene's mesh array, and optional metadata.
pub struct Node {
    pub m_name: AiStr,
    pub m_transformation: Matrix4x4,
    pub m_num_children: u32,
    /// The child-node pointer row: the outer `None` is a null base
    /// pointer, an inner `None` a null child pointer.
    pub m_children: Option<Vec<Option<Node>>>,
    pub m_num_meshes: u32,
    /// Indices into the scene's mesh array, validated at read time.
    pub m_meshes: DirectArray<u32>,
    /// The metadata block, or `None` for a null pointer.
    pub m_metadata: Option<MetadataData>,
}

impl Node {
    /// The arena's consistency conditions for a node and everything below
    /// it.
    pub open spec fn wf(self) -> bool
        decreases self,
    {
        &&& self.m_name.wf()
        &&& self.m_meshes.complete(self.m_num_meshes as nat)
        &&& indirect_matches(self.m_children, self.m_num_children as nat)
        &&& match self.m_children {
            Option::None => true,
            Option::Some(v) => forall|i: int|
                0 <= i < v@.len() ==> ((#[trigger] v@[i]) matches Some(c) ==> c.wf()),
        }
        &&& match self.m_metadata {
            Option::None => true,
            Option::Some(md) => md.wf(),
        }
    }

    /// The name of the node.
    pub fn name(&self) -> (r: Vec<u8>)
        requires
            self.wf(),
        ensures
            r@ == self.m_name.chars(),
    {
        self.m_name.decode()
    }

    /// The node's local transformation matrix.
    pub fn transform(&self) -> (r: Matrix4x4)
        ensures
            r == self.m_transformation,
    {
        self.m_transformation
    }

    /// The number of child nodes.
    pub fn num_children(&self) -> (r: u32)
        ensures
            r == self.m_num_children,
    {
        self.m_num_children
    }

    /// The child nodes, as a bounded walk.
    pub fn children(&self) -> (it: IndirectIter<'_, Node>)
        ensures
            it.remaining() == indirect_items(self.m_children, self.m_num_children as nat),
            self.wf() && indirect_all_present(self.m_children, self.m_num_children as nat)
                && !indirect_is_null(self.m_children) ==> it.remaining().len()
                == self.m_num_children,
    {
        indirect_iter(&self.m_children, self.m_num_children as usize)
    }

    /// The child node at position `id`, absent from `m_num_children` on
    /// or behind a null record pointer. A child of a consistent node is
    /// itself consistent.
    pub fn child(&self, id: u32) -> (r: Option<&Node>)
        ensures
            match r {
                Some(c) => indirect_entry(self.m_children, self.m_num_children as nat, id as nat)
                    == Some(*c),
                None => indirect_entry(self.m_children, self.m_num_children as nat, id as nat)
                    is None,
            },
            self.wf() && indirect_all_present(self.m_children, self.m_num_children as nat)
                && !indirect_is_null(self.m_children) ==> (r is Some <==> id
                < self.m_num_children),
            self.wf() ==> (r matches Some(c) ==> c.wf()),
    {
        indirect_get(&self.m_children, self.m_num_children as usize, id as usize)
    }

    /// The number of mesh indices on this node.
    pub fn num_meshes(&self) -> (r: u32)
        ensures
            r == self.m_num_meshes,
    {
        self.m_num_meshes
    }

    /// The node's mesh indices, as a bounded walk. The indices point into
    /// the scene's mesh array and are range-checked only when resolved.
    pub fn meshes(&self) -> (it: DirectIter<'_, u32>)
        ensures
            it.remaining() == self.m_meshes.items(self.m_num_meshes as nat),
            self.wf() ==> it.remaining().len() == self.m_num_meshes,
    {
        self.m_meshes.iter(self.m_num_meshes as usize)
    }

    /// The mesh index at position `i`, absent from `m_num_meshes` on.
    pub fn mesh_index(&self, i: u32) -> (r: Option<u32>)
        ensures
            match r {
                Some(x) => self.m_meshes.entry(self.m_num_meshes as nat, i as nat) == Some(x),
                None => self.m_meshes.entry(self.m_num_meshes as nat, i as nat) is None,
            },
            self.wf() ==> (r is Some <==> i < self.m_num_meshes),
    {
        match self.m_meshes.get(self.m_num_meshes as usize, i as usize) {
            Some(x) => Some(*x),
            None => None,
        }
    }

    /// A walk over the node's metadata, absent when the node carries
    /// none.
    pub fn metadata(&self) -> (r: Option<Metadata<'_>>)
        ensures
            match r {
                Some(it) => self.m_metadata == Some(it.data()) && it.position() == 0,
                None => self.m_metadata is None,
            },
    {
        match &self.m_metadata {
            Some(md) => Some(Metadata::new(md)),
            None => None,
        }
    }
}

} // verus!
