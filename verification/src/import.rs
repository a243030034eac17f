//! The primitive-type vocabulary shared between faces and meshes.

use vstd::prelude::*;

verus! {

/// The kind of a single face, determined by how many vertex indices it
/// lists: one for a point, two for a line, three for a triangle, anything
/// more for a polygon.
#[derive(Debug, Copy, Clone, PartialEq, Eq, Hash, Structural)]
pub enum PrimitiveType {
    Point,
    Line,
    Triangle,
    Polygon,
}

impl PrimitiveType {
    /// The bit the engine uses for this kind in a mesh's primitive-type
    /// bitset.
    pub open spec fn spec_bit(self) -> u32 {
        match self {
            PrimitiveType::Point => 1u32,
            PrimitiveType::Line => 2u32,
            PrimitiveType::Triangle => 4u32,
            PrimitiveType::Polygon => 8u32,
        }
    }

    /// The kind a single foreign primitive-type bit stands for; absent for
    /// an unknown value.
    pub open spec fn spec_try_from(v: u32) -> Option<PrimitiveType> {
        if v == 1 {
            Some(PrimitiveType::Point)
        } else if v == 2 {
            Some(PrimitiveType::Line)
        } else if v == 4 {
            Some(PrimitiveType::Triangle)
        } else if v == 8 {
            Some(PrimitiveType::Polygon)
        } else {
            None
        }
    }

    /// Decode a single foreign primitive-type bit; unknown values are
    /// absent.
    pub fn try_from(v: u32) -> (r: Option<PrimitiveType>)
        ensures
            r == PrimitiveType::spec_try_from(v),
    {
        match v {
            1u32 => Some(PrimitiveType::Point),
            2u32 => Some(PrimitiveType::Line),
            4u32 => Some(PrimitiveType::Triangle),
            8u32 => Some(PrimitiveType::Polygon),
            _ => None,
        }
    }

    /// The bit for this kind, as the engine writes it.
    pub fn bit(&self) -> (r: u32)
        ensures
            r == self.spec_bit(),
    {
        match self {
            PrimitiveType::Point => 1,
            PrimitiveType::Line => 2,
            PrimitiveType::Triangle => 4,
            PrimitiveType::Polygon => 8,
        }
    }
}

/// The bits the engine may set in a mesh's primitive-type bitset.
pub const PRIMITIVE_TYPES_MASK: u32 = 0xF;

/// A bitset of all the primitive types in use by the faces of a mesh.
#[derive(Debug, Copy, Clone, PartialEq, Eq, Hash, Structural)]
pub struct PrimitiveTypes {
    pub bits: u32,
}

impl PrimitiveTypes {
    /// Decode the engine's bitset; a value with a bit outside the known
    /// four is absent.
    pub fn from_bits(v: u32) -> (r: Option<PrimitiveTypes>)
        ensures
            r matches Some(p) ==> p.bits == v,
            r is Some <==> v & !PRIMITIVE_TYPES_MASK == 0,
    {
        if v & !PRIMITIVE_TYPES_MASK == 0 {
            Some(PrimitiveTypes { bits: v })
        } else {
            None
        }
    }

    /// Whether the bitset contains the given kind.
    pub fn contains(&self, kind: PrimitiveType) -> (r: bool)
        ensures
            r <==> self.bits & kind.spec_bit() != 0,
    {
        self.bits & kind.bit() != 0
    }
}

impl Default for PrimitiveTypes {
    /// The empty bitset.
    fn default() -> (r: Self)
        ensures
            r.bits == 0,
    {
        PrimitiveTypes { bits: 0 }
    }
}

} // verus!
