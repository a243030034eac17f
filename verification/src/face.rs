//! Faces: variable-length lists of indices into a mesh's vertex arrays.

use crate::array::{DirectArray, DirectIter};
use crate::import::PrimitiveType;
use vstd::prelude::*;

verus! {

/// One face of a mesh: a count of vertex indices and the foreign array
/// that holds them.
#[derive(Debug, Clone, PartialEq)]
pub struct Face {
    /// How many vertex indices the face lists; never zero in a consistent
    /// arena.
    pub m_num_indices: u32,
    /// The index storage.
    pub m_indices: DirectArray<u32>,
}

impl Face {
    /// The face is consistent: it lists at least one index and its storage
    /// holds exactly the declared number of indices.
    pub open spec fn wf(self) -> bool {
        &&& self.m_num_indices >= 1
        &&& self.m_indices.complete(self.m_num_indices as nat)
    }

    /// The kind a consistent face of this index count classifies as.
    pub open spec fn spec_kind(self) -> PrimitiveType {
        if self.m_num_indices == 1 {
            PrimitiveType::Point
        } else if self.m_num_indices == 2 {
            PrimitiveType::Line
        } else if self.m_num_indices == 3 {
            PrimitiveType::Triangle
        } else {
            PrimitiveType::Polygon
        }
    }

    /// Classify the face by its index count: one index is a point, two a
    /// line, three a triangle, and any other count a polygon. A face with
    /// no indices never occurs in a consistent arena, so classification
    /// asks for a consistent face.
    pub fn primitive_type(&self) -> (r: PrimitiveType)
        requires
            self.wf(),
        ensures
            r == self.spec_kind(),
            r == PrimitiveType::Point <==> self.m_num_indices == 1,
            r == PrimitiveType::Line <==> self.m_num_indices == 2,
            r == PrimitiveType::Triangle <==> self.m_num_indices == 3,
            r == PrimitiveType::Polygon <==> self.m_num_indices >= 4,
    {
        match self.m_num_indices {
            1u32 => PrimitiveType::Point,
            2u32 => PrimitiveType::Line,
            3u32 => PrimitiveType::Triangle,
            _ => PrimitiveType::Polygon,
        }
    }

    /// The indices the face lists, as a bounded walk.
    pub fn indices(&self) -> (it: DirectIter<'_, u32>)
        ensures
            it.remaining() == self.m_indices.items(self.m_num_indices as nat),
            self.wf() ==> it.remaining().len() == self.m_num_indices,
    {
        self.m_indices.iter(self.m_num_indices as usize)
    }

    /// The index at position `i`, absent from position `m_num_indices` on.
    pub fn index(&self, i: usize) -> (r: Option<u32>)
        ensures
            match r {
                Some(x) => self.m_indices.entry(self.m_num_indices as nat, i as nat) == Some(x),
                None => self.m_indices.entry(self.m_num_indices as nat, i as nat) is None,
            },
            self.wf() ==> (r is Some <==> i < self.m_num_indices),
    {
        match self.m_indices.get(self.m_num_indices as usize, i) {
            Some(x) => Some(*x),
            None => None,
        }
    }
}

} // verus!
