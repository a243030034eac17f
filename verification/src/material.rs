//! Materials: the string-keyed, loosely typed property bag and its typed
//! decoder.
//!
//! A material property record carries a key name, a component semantic, a
//! slot index, a producer type tag, and an opaque byte payload. The
//! decoder maps a key from a closed catalog to the one record whose name,
//! semantic, index and tag all match what a static table declares for
//! that key, then decodes the payload as the table says — never as the
//! record alone claims. Every failure to match or decode is an absent
//! value, never a fabricated one.

use crate::raw::{spec_le32, read_le32, spec_str_payload, read_str_payload, AiStr, Color3D,
    Vector3D, FLOAT_ONE_BITS};
use vstd::prelude::*;
use vstd::string::StrSliceExecFns;
use vstd::string::StringSliceAdditionalSpecFns;

verus! {

/// The producer's type tag for a payload of 32-bit floats.
pub const PTI_FLOAT: u32 = 1;

/// The producer's type tag for a payload of 64-bit floats.
pub const PTI_DOUBLE: u32 = 2;

/// The producer's type tag for a serialized string payload.
pub const PTI_STRING: u32 = 3;

/// The producer's type tag for a payload of 32-bit integers.
pub const PTI_INTEGER: u32 = 4;

/// The producer's type tag for an opaque binary payload.
pub const PTI_BUFFER: u32 = 5;

/// The component of a material that a property or texture belongs to.
/// Each value names the engine's semantic for that component.
#[derive(Debug, Copy, Clone, PartialEq, Eq, Hash, Structural)]
pub enum MaterialComponentType {
    Diffuse,
    Specular,
    Ambient,
    Emissive,
    Opacity,
    Displacement,
    Lightmap,
    Reflection,
    Unknown,
}

impl MaterialComponentType {
    /// The engine's semantic value for this component.
    pub open spec fn spec_semantic(self) -> u32 {
        match self {
            MaterialComponentType::Diffuse => 1u32,
            MaterialComponentType::Specular => 2u32,
            MaterialComponentType::Ambient => 3u32,
            MaterialComponentType::Emissive => 4u32,
            MaterialComponentType::Opacity => 8u32,
            MaterialComponentType::Displacement => 9u32,
            MaterialComponentType::Lightmap => 10u32,
            MaterialComponentType::Reflection => 11u32,
            MaterialComponentType::Unknown => 18u32,
        }
    }

    /// The engine's semantic value for this component.
    pub fn semantic(&self) -> (r: u32)
        ensures
            r == self.spec_semantic(),
    {
        match self {
            MaterialComponentType::Diffuse => 1,
            MaterialComponentType::Specular => 2,
            MaterialComponentType::Ambient => 3,
            MaterialComponentType::Emissive => 4,
            MaterialComponentType::Opacity => 8,
            MaterialComponentType::Displacement => 9,
            MaterialComponentType::Lightmap => 10,
            MaterialComponentType::Reflection => 11,
            MaterialComponentType::Unknown => 18,
        }
    }
}

/// The shading model a material hints at.
#[derive(Debug, Copy, Clone, PartialEq, Eq, Hash, Structural)]
pub enum ShadingModel {
    Flat,
    Gouraud,
    Phong,
    Blinn,
    Toon,
    OrenNayar,
    Minnaert,
    CookTorrance,
    NoShading,
    Fresnel,
}

impl ShadingModel {
    /// The model an engine value stands for; absent for an unknown value.
    pub open spec fn spec_try_from(v: u32) -> Option<ShadingModel> {
        if v == 1 {
            Some(ShadingModel::Flat)
        } else if v == 2 {
            Some(ShadingModel::Gouraud)
        } else if v == 3 {
            Some(ShadingModel::Phong)
        } else if v == 4 {
            Some(ShadingModel::Blinn)
        } else if v == 5 {
            Some(ShadingModel::Toon)
        } else if v == 6 {
            Some(ShadingModel::OrenNayar)
        } else if v == 7 {
            Some(ShadingModel::Minnaert)
        } else if v == 8 {
            Some(ShadingModel::CookTorrance)
        } else if v == 9 {
            Some(ShadingModel::NoShading)
        } else if v == 10 {
            Some(ShadingModel::Fresnel)
        } else {
            None
        }
    }

    /// Decode an engine value; an unrecognized value is absent.
    pub fn try_from(v: u32) -> (r: Option<ShadingModel>)
        ensures
            r == ShadingModel::spec_try_from(v),
    {
        match v {
            1u32 => Some(ShadingModel::Flat),
            2u32 => Some(ShadingModel::Gouraud),
            3u32 => Some(ShadingModel::Phong),
            4u32 => Some(ShadingModel::Blinn),
            5u32 => Some(ShadingModel::Toon),
            6u32 => Some(ShadingModel::OrenNayar),
            7u32 => Some(ShadingModel::Minnaert),
            8u32 => Some(ShadingModel::CookTorrance),
            9u32 => Some(ShadingModel::NoShading),
            10u32 => Some(ShadingModel::Fresnel),
            _ => None,
        }
    }
}

/// How one texture blends with the state of its component's stack.
/// `Replace` is the documented default when the engine reports no
/// explicit blend operation.
#[derive(Debug, Copy, Clone, PartialEq, Eq, Hash, Structural)]
pub enum BlendOp {
    Multiply,
    Add,
    Subtract,
    Divide,
    SmoothAdd,
    SignedAdd,
    Replace,
}

impl BlendOp {
    /// The operation an engine value stands for; absent for an unknown
    /// value. No engine value stands for `Replace`: it is only a default.
    pub open spec fn spec_try_from(v: u32) -> Option<BlendOp> {
        if v == 0 {
            Some(BlendOp::Multiply)
        } else if v == 1 {
            Some(BlendOp::Add)
        } else if v == 2 {
            Some(BlendOp::Subtract)
        } else if v == 3 {
            Some(BlendOp::Divide)
        } else if v == 4 {
            Some(BlendOp::SmoothAdd)
        } else if v == 5 {
            Some(BlendOp::SignedAdd)
        } else {
            None
        }
    }

    /// Decode an engine value; an unrecognized value is absent.
    pub fn try_from(v: u32) -> (r: Option<BlendOp>)
        ensures
            r == BlendOp::spec_try_from(v),
    {
        match v {
            0u32 => Some(BlendOp::Multiply),
            1u32 => Some(BlendOp::Add),
            2u32 => Some(BlendOp::Subtract),
            3u32 => Some(BlendOp::Divide),
            4u32 => Some(BlendOp::SmoothAdd),
            5u32 => Some(BlendOp::SignedAdd),
            _ => None,
        }
    }
}

impl Default for BlendOp {
    /// The blend operation assumed when the engine reports none.
    fn default() -> (r: Self)
        ensures
            r == BlendOp::Replace,
    {
        BlendOp::Replace
    }
}

/// How a whole material blends with what lies behind it.
#[derive(Debug, Copy, Clone, PartialEq, Eq, Hash, Structural)]
pub enum MaterialBlendOp {
    Default,
    Additive,
}

impl MaterialBlendOp {
    /// The operation an engine value stands for; absent for an unknown
    /// value.
    pub open spec fn spec_try_from(v: u32) -> Option<MaterialBlendOp> {
        if v == 0 {
            Some(MaterialBlendOp::Default)
        } else if v == 1 {
            Some(MaterialBlendOp::Additive)
        } else {
            None
        }
    }

    /// Decode an engine value; an unrecognized value is absent.
    pub fn try_from(v: u32) -> (r: Option<MaterialBlendOp>)
        ensures
            r == MaterialBlendOp::spec_try_from(v),
    {
        match v {
            0u32 => Some(MaterialBlendOp::Default),
            1u32 => Some(MaterialBlendOp::Additive),
            _ => None,
        }
    }
}

/// How a texture maps onto a surface. The non-UV modes carry an axis
/// whose exact semantics the engine leaves open; this layer passes the
/// axis through without interpreting it.
#[derive(Debug, Copy, Clone, PartialEq, Eq, Hash, Structural)]
pub enum Mapping {
    UV,
    Sphere,
    Cylinder,
    Box,
    Plane,
}

impl Mapping {
    /// The mapping an engine value stands for; absent for an unknown
    /// value.
    pub open spec fn spec_try_from(v: u32) -> Option<Mapping> {
        if v == 0 {
            Some(Mapping::UV)
        } else if v == 1 {
            Some(Mapping::Sphere)
        } else if v == 2 {
            Some(Mapping::Cylinder)
        } else if v == 3 {
            Some(Mapping::Box)
        } else if v == 4 {
            Some(Mapping::Plane)
        } else {
            None
        }
    }

    /// Decode an engine value; an unrecognized value is absent.
    pub fn try_from(v: u32) -> (r: Option<Mapping>)
        ensures
            r == Mapping::spec_try_from(v),
    {
        match v {
            0u32 => Some(Mapping::UV),
            1u32 => Some(Mapping::Sphere),
            2u32 => Some(Mapping::Cylinder),
            3u32 => Some(Mapping::Box),
            4u32 => Some(Mapping::Plane),
            _ => None,
        }
    }
}

/// What happens to texture coordinates outside the unit square.
#[derive(Debug, Copy, Clone, PartialEq, Eq, Hash, Structural)]
pub enum WrappingMode {
    Repeat,
    Clamp,
    Decal,
    MirrorRepeat,
}

impl WrappingMode {
    /// The mode an engine value stands for; absent for an unknown value.
    pub open spec fn spec_try_from(v: u32) -> Option<WrappingMode> {
        if v == 0 {
            Some(WrappingMode::Repeat)
        } else if v == 1 {
            Some(WrappingMode::Clamp)
        } else if v == 2 {
            Some(WrappingMode::MirrorRepeat)
        } else if v == 3 {
            Some(WrappingMode::Decal)
        } else {
            None
        }
    }

    /// Decode an engine value; an unrecognized value is absent.
    pub fn try_from(v: u32) -> (r: Option<WrappingMode>)
        ensures
            r == WrappingMode::spec_try_from(v),
    {
        match v {
            0u32 => Some(WrappingMode::Repeat),
            1u32 => Some(WrappingMode::Clamp),
            2u32 => Some(WrappingMode::MirrorRepeat),
            3u32 => Some(WrappingMode::Decal),
            _ => None,
        }
    }
}

/// The bits the engine may set in a texture's flag word: invert the
/// colors, force use of the alpha channel, or force ignoring it.
pub const TEXTURE_FLAGS_MASK: u32 = 0x7;

/// The bit for inverting a texture's color values.
pub const TEXTURE_FLAG_INVERT: u32 = 0x1;

/// The bit for forcing use of the texture's alpha channel.
pub const TEXTURE_FLAG_FORCE_ALPHA: u32 = 0x2;

/// The bit for forcing the texture to be treated as having no alpha
/// channel.
pub const TEXTURE_FLAG_IGNORE_ALPHA: u32 = 0x4;

/// Flags for how a texture's data should be interpreted.
#[derive(Debug, Copy, Clone, PartialEq, Eq, Hash, Structural)]
pub struct TextureFlags {
    pub bits: u32,
}

impl TextureFlags {
    /// Decode the engine's flag word; a word with a bit outside the
    /// known three is absent.
    pub fn from_bits(v: u32) -> (r: Option<TextureFlags>)
        ensures
            r matches Some(f) ==> f.bits == v,
            r is Some <==> v & !TEXTURE_FLAGS_MASK == 0,
    {
        if v & !TEXTURE_FLAGS_MASK == 0 {
            Some(TextureFlags { bits: v })
        } else {
            None
        }
    }

    /// Whether every bit of `flag` is set.
    pub fn contains(&self, flag: u32) -> (r: bool)
        ensures
            r <==> self.bits & flag == flag,
    {
        self.bits & flag == flag
    }
}

impl Default for TextureFlags {
    /// The empty flag word.
    fn default() -> (r: Self)
        ensures
            r.bits == 0,
    {
        TextureFlags { bits: 0 }
    }
}

/// The semantic type the static table declares for a key: how the one
/// matching record's payload is decoded.
#[derive(Debug, Copy, Clone, PartialEq, Eq, Hash, Structural)]
pub enum ValueType {
    Color3D,
    String,
    Float,
    Int,
    Vector3D,
    Bool,
    ShadingModel,
    MaterialBlendOp,
    BlendOp,
    Mapping,
    WrappingMode,
    TextureFlags,
}

/// The producer type tag a record must carry to match a key of the
/// given semantic type.
pub open spec fn spec_tag_of(vt: ValueType) -> u32 {
    match vt {
        ValueType::Color3D => PTI_FLOAT,
        ValueType::String => PTI_STRING,
        ValueType::Float => PTI_FLOAT,
        ValueType::Vector3D => PTI_FLOAT,
        _ => PTI_INTEGER,
    }
}

/// The producer type tag a record must carry to match a key of the
/// given semantic type.
pub fn tag_of(vt: ValueType) -> (r: u32)
    ensures
        r == spec_tag_of(vt),
{
    match vt {
        ValueType::Color3D => PTI_FLOAT,
        ValueType::String => PTI_STRING,
        ValueType::Float => PTI_FLOAT,
        ValueType::Vector3D => PTI_FLOAT,
        _ => PTI_INTEGER,
    }
}

/// The closed catalog of material keys. Each key stands for one foreign
/// (name, semantic, index) triple and one declared semantic type.
#[derive(Debug, Copy, Clone, PartialEq, Eq, Hash, Structural)]
pub enum MaterialKey {
    /// The material's name.
    Name,
    /// The base color of a component; only some components carry one.
    Color(MaterialComponentType),
    /// Whether faces should render as wireframe.
    Wireframe,
    /// Whether faces render from both sides.
    TwoSided,
    /// The hinted shading model.
    ShadingModel,
    /// The material-level blend function.
    BlendFunc,
    /// The opacity factor.
    Opacity,
    /// The shininess exponent.
    Shininess,
    /// The strength factor for the specular component.
    ShininessStrength,
    /// The index of refraction.
    RefractionIndex,
    /// The path of a texture in a component's slot.
    Texture(MaterialComponentType, u32),
    /// The blend factor of a texture slot.
    TextureBlend(MaterialComponentType, u32),
    /// The blend operation of a texture slot.
    TextureOp(MaterialComponentType, u32),
    /// The mapping mode of a texture slot.
    Mapping(MaterialComponentType, u32),
    /// The source UV channel of a texture slot.
    UVWSource(MaterialComponentType, u32),
    /// The wrapping mode along U of a texture slot.
    MappingModeU(MaterialComponentType, u32),
    /// The wrapping mode along V of a texture slot.
    MappingModeV(MaterialComponentType, u32),
    /// The mapping axis of a texture slot with a non-UV mapping.
    TextureMapAxis(MaterialComponentType, u32),
    /// The flag word of a texture slot.
    Flags(MaterialComponentType, u32),
}

impl MaterialKey {
    /// The foreign (name, semantic, index) triple this key stands for;
    /// absent for a component that carries no such property.
    pub open spec fn spec_triple(self) -> Option<(Seq<u8>, u32, u32)> {
        match self {
            MaterialKey::Name => Some(("?mat.name".spec_bytes(), 0u32, 0u32)),
            MaterialKey::Color(c) => match c {
                MaterialComponentType::Diffuse => Some(("$clr.diffuse".spec_bytes(), 0u32, 0u32)),
                MaterialComponentType::Ambient => Some(("$clr.ambient".spec_bytes(), 0u32, 0u32)),
                MaterialComponentType::Specular => Some(
                    ("$clr.specular".spec_bytes(), 0u32, 0u32),
                ),
                MaterialComponentType::Emissive => Some(
                    ("$clr.emissive".spec_bytes(), 0u32, 0u32),
                ),
                MaterialComponentType::Opacity => Some(
                    ("$clr.transparent".spec_bytes(), 0u32, 0u32),
                ),
                MaterialComponentType::Reflection => Some(
                    ("$clr.reflective".spec_bytes(), 0u32, 0u32),
                ),
                _ => None,
            },
            MaterialKey::Wireframe => Some(("$mat.wireframe".spec_bytes(), 0u32, 0u32)),
            MaterialKey::TwoSided => Some(("$mat.twosided".spec_bytes(), 0u32, 0u32)),
            MaterialKey::ShadingModel => Some(("$mat.shadingm".spec_bytes(), 0u32, 0u32)),
            MaterialKey::BlendFunc => Some(("$mat.blend".spec_bytes(), 0u32, 0u32)),
            MaterialKey::Opacity => Some(("$mat.opacity".spec_bytes(), 0u32, 0u32)),
            MaterialKey::Shininess => Some(("$mat.shininess".spec_bytes(), 0u32, 0u32)),
            MaterialKey::ShininessStrength => Some(("$mat.shinpercent".spec_bytes(), 0u32, 0u32)),
            MaterialKey::RefractionIndex => Some(("$mat.refracti".spec_bytes(), 0u32, 0u32)),
            MaterialKey::Texture(c, i) => Some(("$tex.file".spec_bytes(), c.spec_semantic(), i)),
            MaterialKey::TextureBlend(c, i) => Some(
                ("$tex.blend".spec_bytes(), c.spec_semantic(), i),
            ),
            MaterialKey::TextureOp(c, i) => Some(("$tex.op".spec_bytes(), c.spec_semantic(), i)),
            MaterialKey::Mapping(c, i) => Some(
                ("$tex.mapping".spec_bytes(), c.spec_semantic(), i),
            ),
            MaterialKey::UVWSource(c, i) => Some(
                ("$tex.uvwsrc".spec_bytes(), c.spec_semantic(), i),
            ),
            MaterialKey::MappingModeU(c, i) => Some(
                ("$tex.mapmodeu".spec_bytes(), c.spec_semantic(), i),
            ),
            MaterialKey::MappingModeV(c, i) => Some(
                ("$tex.mapmodev".spec_bytes(), c.spec_semantic(), i),
            ),
            MaterialKey::TextureMapAxis(c, i) => Some(
                ("$tex.mapaxis".spec_bytes(), c.spec_semantic(), i),
            ),
            MaterialKey::Flags(c, i) => Some(("$tex.flags".spec_bytes(), c.spec_semantic(), i)),
        }
    }

    /// The semantic type the static table declares for this key.
    pub open spec fn spec_value_type(self) -> ValueType {
        match self {
            MaterialKey::Name => ValueType::String,
            MaterialKey::Color(_) => ValueType::Color3D,
            MaterialKey::Wireframe => ValueType::Bool,
            MaterialKey::TwoSided => ValueType::Bool,
            MaterialKey::ShadingModel => ValueType::ShadingModel,
            MaterialKey::BlendFunc => ValueType::MaterialBlendOp,
            MaterialKey::Opacity => ValueType::Float,
            MaterialKey::Shininess => ValueType::Float,
            MaterialKey::ShininessStrength => ValueType::Float,
            MaterialKey::RefractionIndex => ValueType::Float,
            MaterialKey::Texture(..) => ValueType::String,
            MaterialKey::TextureBlend(..) => ValueType::Float,
            MaterialKey::TextureOp(..) => ValueType::BlendOp,
            MaterialKey::Mapping(..) => ValueType::Mapping,
            MaterialKey::UVWSource(..) => ValueType::Int,
            MaterialKey::MappingModeU(..) => ValueType::WrappingMode,
            MaterialKey::MappingModeV(..) => ValueType::WrappingMode,
            MaterialKey::TextureMapAxis(..) => ValueType::Vector3D,
            MaterialKey::Flags(..) => ValueType::TextureFlags,
        }
    }

    /// The bytes of an ascii key-name literal.
    fn name_bytes(s: &str) -> (r: Vec<u8>)
        ensures
            r@ == s.spec_bytes(),
    {
        s.as_bytes_vec()
    }

    /// The foreign (name, semantic, index) triple this key stands for.
    fn triple(&self) -> (r: Option<(Vec<u8>, u32, u32)>)
        ensures
            match r {
                Some(t) => self.spec_triple() == Some((t.0@, t.1, t.2)),
                None => self.spec_triple() is None,
            },
    {
        match self {
            MaterialKey::Name => Some((Self::name_bytes("?mat.name"), 0, 0)),
            MaterialKey::Color(c) => match c {
                MaterialComponentType::Diffuse => Some(
                    (Self::name_bytes("$clr.diffuse"), 0, 0),
                ),
                MaterialComponentType::Ambient => Some(
                    (Self::name_bytes("$clr.ambient"), 0, 0),
                ),
                MaterialComponentType::Specular => Some(
                    (Self::name_bytes("$clr.specular"), 0, 0),
                ),
                MaterialComponentType::Emissive => Some(
                    (Self::name_bytes("$clr.emissive"), 0, 0),
                ),
                MaterialComponentType::Opacity => Some(
                    (Self::name_bytes("$clr.transparent"), 0, 0),
                ),
                MaterialComponentType::Reflection => Some(
                    (Self::name_bytes("$clr.reflective"), 0, 0),
                ),
                _ => None,
            },
            MaterialKey::Wireframe => Some((Self::name_bytes("$mat.wireframe"), 0, 0)),
            MaterialKey::TwoSided => Some((Self::name_bytes("$mat.twosided"), 0, 0)),
            MaterialKey::ShadingModel => Some((Self::name_bytes("$mat.shadingm"), 0, 0)),
            MaterialKey::BlendFunc => Some((Self::name_bytes("$mat.blend"), 0, 0)),
            MaterialKey::Opacity => Some((Self::name_bytes("$mat.opacity"), 0, 0)),
            MaterialKey::Shininess => Some((Self::name_bytes("$mat.shininess"), 0, 0)),
            MaterialKey::ShininessStrength => Some((Self::name_bytes("$mat.shinpercent"), 0, 0)),
            MaterialKey::RefractionIndex => Some((Self::name_bytes("$mat.refracti"), 0, 0)),
            MaterialKey::Texture(c, i) => Some((Self::name_bytes("$tex.file"), c.semantic(), *i)),
            MaterialKey::TextureBlend(c, i) => Some(
                (Self::name_bytes("$tex.blend"), c.semantic(), *i),
            ),
            MaterialKey::TextureOp(c, i) => Some((Self::name_bytes("$tex.op"), c.semantic(), *i)),
            MaterialKey::Mapping(c, i) => Some(
                (Self::name_bytes("$tex.mapping"), c.semantic(), *i),
            ),
            MaterialKey::UVWSource(c, i) => Some(
                (Self::name_bytes("$tex.uvwsrc"), c.semantic(), *i),
            ),
            MaterialKey::MappingModeU(c, i) => Some(
                (Self::name_bytes("$tex.mapmodeu"), c.semantic(), *i),
            ),
            MaterialKey::MappingModeV(c, i) => Some(
                (Self::name_bytes("$tex.mapmodev"), c.semantic(), *i),
            ),
            MaterialKey::TextureMapAxis(c, i) => Some(
                (Self::name_bytes("$tex.mapaxis"), c.semantic(), *i),
            ),
            MaterialKey::Flags(c, i) => Some((Self::name_bytes("$tex.flags"), c.semantic(), *i)),
        }
    }

    /// The semantic type the static table declares for this key.
    fn value_type(&self) -> (r: ValueType)
        ensures
            r == self.spec_value_type(),
    {
        match self {
            MaterialKey::Name => ValueType::String,
            MaterialKey::Color(_) => ValueType::Color3D,
            MaterialKey::Wireframe => ValueType::Bool,
            MaterialKey::TwoSided => ValueType::Bool,
            MaterialKey::ShadingModel => ValueType::ShadingModel,
            MaterialKey::BlendFunc => ValueType::MaterialBlendOp,
            MaterialKey::Opacity => ValueType::Float,
            MaterialKey::Shininess => ValueType::Float,
            MaterialKey::ShininessStrength => ValueType::Float,
            MaterialKey::RefractionIndex => ValueType::Float,
            MaterialKey::Texture(..) => ValueType::String,
            MaterialKey::TextureBlend(..) => ValueType::Float,
            MaterialKey::TextureOp(..) => ValueType::BlendOp,
            MaterialKey::Mapping(..) => ValueType::Mapping,
            MaterialKey::UVWSource(..) => ValueType::Int,
            MaterialKey::MappingModeU(..) => ValueType::WrappingMode,
            MaterialKey::MappingModeV(..) => ValueType::WrappingMode,
            MaterialKey::TextureMapAxis(..) => ValueType::Vector3D,
            MaterialKey::Flags(..) => ValueType::TextureFlags,
        }
    }
}

/// One record of the property bag: a key name, a component semantic, a
/// slot index, the producer's type tag, and an opaque byte payload.
#[derive(Debug, Clone, PartialEq)]
pub struct MaterialProperty {
    pub m_key: AiStr,
    pub m_semantic: u32,
    pub m_index: u32,
    /// The producer's type tag; a record matches a key only when this
    /// agrees with the static table.
    pub m_type: u32,
    pub m_data: Vec<u8>,
}

/// A dynamically typed value decoded out of a material property record.
/// Floating-point values travel as their raw bit patterns.
#[derive(Debug, Clone, PartialEq)]
pub enum MaterialValue {
    Color3D(Color3D),
    String(Vec<u8>),
    /// The bit pattern of a 32-bit float.
    Float(u32),
    Int(u32),
    Vector3D(Vector3D),
    Bool(bool),
    ShadingModel(ShadingModel),
    MaterialBlendOp(MaterialBlendOp),
    BlendOp(BlendOp),
    Mapping(Mapping),
    WrappingMode(WrappingMode),
    TextureFlags(TextureFlags),
}

/// The mathematical shape of a decoded material value.
pub enum MaterialValueModel {
    Color3D(Color3D),
    String(Seq<u8>),
    Float(u32),
    Int(u32),
    Vector3D(Vector3D),
    Bool(bool),
    ShadingModel(ShadingModel),
    MaterialBlendOp(MaterialBlendOp),
    BlendOp(BlendOp),
    Mapping(Mapping),
    WrappingMode(WrappingMode),
    TextureFlags(TextureFlags),
}

impl View for MaterialValue {
    type V = MaterialValueModel;

    open spec fn view(&self) -> MaterialValueModel {
        match self {
            MaterialValue::Color3D(c) => MaterialValueModel::Color3D(*c),
            MaterialValue::String(s) => MaterialValueModel::String(s@),
            MaterialValue::Float(v) => MaterialValueModel::Float(*v),
            MaterialValue::Int(v) => MaterialValueModel::Int(*v),
            MaterialValue::Vector3D(v) => MaterialValueModel::Vector3D(*v),
            MaterialValue::Bool(b) => MaterialValueModel::Bool(*b),
            MaterialValue::ShadingModel(m) => MaterialValueModel::ShadingModel(*m),
            MaterialValue::MaterialBlendOp(m) => MaterialValueModel::MaterialBlendOp(*m),
            MaterialValue::BlendOp(m) => MaterialValueModel::BlendOp(*m),
            MaterialValue::Mapping(m) => MaterialValueModel::Mapping(*m),
            MaterialValue::WrappingMode(m) => MaterialValueModel::WrappingMode(*m),
            MaterialValue::TextureFlags(f) => MaterialValueModel::TextureFlags(*f),
        }
    }
}

/// Whether a record matches a (name, semantic, index, tag) quadruple.
pub open spec fn prop_is(p: MaterialProperty, name: Seq<u8>, sem: u32, idx: u32, tag: u32) -> bool {
    &&& p.m_key.chars() == name
    &&& p.m_semantic == sem
    &&& p.m_index == idx
    &&& p.m_type == tag
}

/// The first record of the bag matching the quadruple, if any.
pub open spec fn spec_find(
    props: Seq<MaterialProperty>,
    name: Seq<u8>,
    sem: u32,
    idx: u32,
    tag: u32,
) -> Option<MaterialProperty>
    decreases props.len(),
{
    if props.len() == 0 {
        None
    } else if prop_is(props[0], name, sem, idx, tag) {
        Some(props[0])
    } else {
        spec_find(props.skip(1), name, sem, idx, tag)
    }
}

/// The value a payload of the given semantic type decodes to; absent
/// when the payload is too short, or when an enumeration value is
/// unrecognized or a flag word holds unknown bits.
pub open spec fn spec_decode(vt: ValueType, d: Seq<u8>) -> Option<MaterialValueModel> {
    match vt {
        ValueType::Color3D => if d.len() >= 12 {
            Some(
                MaterialValueModel::Color3D(
                    Color3D { r: spec_le32(d, 0), g: spec_le32(d, 4), b: spec_le32(d, 8) },
                ),
            )
        } else {
            None
        },
        ValueType::String => match spec_str_payload(d) {
            Some(s) => Some(MaterialValueModel::String(s)),
            None => None,
        },
        ValueType::Float => if d.len() >= 4 {
            Some(MaterialValueModel::Float(spec_le32(d, 0)))
        } else {
            None
        },
        ValueType::Int => if d.len() >= 4 {
            Some(MaterialValueModel::Int(spec_le32(d, 0)))
        } else {
            None
        },
        ValueType::Vector3D => if d.len() >= 12 {
            Some(
                MaterialValueModel::Vector3D(
                    Vector3D { x: spec_le32(d, 0), y: spec_le32(d, 4), z: spec_le32(d, 8) },
                ),
            )
        } else {
            None
        },
        ValueType::Bool => if d.len() >= 4 {
            Some(MaterialValueModel::Bool(spec_le32(d, 0) != 0))
        } else {
            None
        },
        ValueType::ShadingModel => if d.len() >= 4 {
            match ShadingModel::spec_try_from(spec_le32(d, 0)) {
                Some(m) => Some(MaterialValueModel::ShadingModel(m)),
                None => None,
            }
        } else {
            None
        },
        ValueType::MaterialBlendOp => if d.len() >= 4 {
            match MaterialBlendOp::spec_try_from(spec_le32(d, 0)) {
                Some(m) => Some(MaterialValueModel::MaterialBlendOp(m)),
                None => None,
            }
        } else {
            None
        },
        ValueType::BlendOp => if d.len() >= 4 {
            match BlendOp::spec_try_from(spec_le32(d, 0)) {
                Some(m) => Some(MaterialValueModel::BlendOp(m)),
                None => None,
            }
        } else {
            None
        },
        ValueType::Mapping => if d.len() >= 4 {
            match Mapping::spec_try_from(spec_le32(d, 0)) {
                Some(m) => Some(MaterialValueModel::Mapping(m)),
                None => None,
            }
        } else {
            None
        },
        ValueType::WrappingMode => if d.len() >= 4 {
            match WrappingMode::spec_try_from(spec_le32(d, 0)) {
                Some(m) => Some(MaterialValueModel::WrappingMode(m)),
                None => None,
            }
        } else {
            None
        },
        ValueType::TextureFlags => if d.len() >= 4 && spec_le32(d, 0) & !TEXTURE_FLAGS_MASK == 0 {
            Some(MaterialValueModel::TextureFlags(TextureFlags { bits: spec_le32(d, 0) }))
        } else {
            None
        },
    }
}

/// Decode a payload as the given semantic type.
fn decode_value(vt: ValueType, d: &Vec<u8>) -> (r: Option<MaterialValue>)
    ensures
        match r {
            Some(v) => spec_decode(vt, d@) == Some(v@),
            None => spec_decode(vt, d@) is None,
        },
{
    match vt {
        ValueType::Color3D => if d.len() >= 12 {
            Some(
                MaterialValue::Color3D(
                    Color3D { r: read_le32(d, 0), g: read_le32(d, 4), b: read_le32(d, 8) },
                ),
            )
        } else {
            None
        },
        ValueType::String => match read_str_payload(d) {
            Some(s) => Some(MaterialValue::String(s)),
            None => None,
        },
        ValueType::Float => if d.len() >= 4 {
            Some(MaterialValue::Float(read_le32(d, 0)))
        } else {
            None
        },
        ValueType::Int => if d.len() >= 4 {
            Some(MaterialValue::Int(read_le32(d, 0)))
        } else {
            None
        },
        ValueType::Vector3D => if d.len() >= 12 {
            Some(
                MaterialValue::Vector3D(
                    Vector3D { x: read_le32(d, 0), y: read_le32(d, 4), z: read_le32(d, 8) },
                ),
            )
        } else {
            None
        },
        ValueType::Bool => if d.len() >= 4 {
            Some(MaterialValue::Bool(read_le32(d, 0) != 0))
        } else {
            None
        },
        ValueType::ShadingModel => if d.len() >= 4 {
            match ShadingModel::try_from(read_le32(d, 0)) {
                Some(m) => Some(MaterialValue::ShadingModel(m)),
                None => None,
            }
        } else {
            None
        },
        ValueType::MaterialBlendOp => if d.len() >= 4 {
            match MaterialBlendOp::try_from(read_le32(d, 0)) {
                Some(m) => Some(MaterialValue::MaterialBlendOp(m)),
                None => None,
            }
        } else {
            None
        },
        ValueType::BlendOp => if d.len() >= 4 {
            match BlendOp::try_from(read_le32(d, 0)) {
                Some(m) => Some(MaterialValue::BlendOp(m)),
                None => None,
            }
        } else {
            None
        },
        ValueType::Mapping => if d.len() >= 4 {
            match Mapping::try_from(read_le32(d, 0)) {
                Some(m) => Some(MaterialValue::Mapping(m)),
                None => None,
            }
        } else {
            None
        },
        ValueType::WrappingMode => if d.len() >= 4 {
            match WrappingMode::try_from(read_le32(d, 0)) {
                Some(m) => Some(MaterialValue::WrappingMode(m)),
                None => None,
            }
        } else {
            None
        },
        ValueType::TextureFlags => if d.len() >= 4 {
            match TextureFlags::from_bits(read_le32(d, 0)) {
                Some(f) => Some(MaterialValue::TextureFlags(f)),
                None => None,
            }
        } else {
            None
        },
    }
}

/// A material: an unordered, string-keyed, loosely typed property bag,
/// read only through the typed decoder.
#[derive(Debug, Clone, PartialEq)]
pub struct Material {
    pub m_properties: Vec<MaterialProperty>,
}

/// Whether a record is the texture-path record of some slot of the
/// component with the given semantic; the engine's texture count for a
/// component is the number of such records.
pub open spec fn is_tex_prop(p: MaterialProperty, sem: u32) -> bool {
    p.m_key.chars() == "$tex.file".spec_bytes() && p.m_semantic == sem
}

/// How many texture-path records the bag holds for the given semantic.
pub open spec fn spec_tex_count(props: Seq<MaterialProperty>, sem: u32) -> nat
    decreases props.len(),
{
    if props.len() == 0 {
        0
    } else {
        (if is_tex_prop(props[0], sem) {
            1nat
        } else {
            0nat
        }) + spec_tex_count(props.skip(1), sem)
    }
}

impl Material {
    /// The bag is consistent: its size fits the engine's counters and
    /// every record's key is consistent.
    pub open spec fn wf(self) -> bool {
        &&& self.m_properties@.len() <= u32::MAX
        &&& forall|i: int|
            0 <= i < self.m_properties@.len() ==> (#[trigger] self.m_properties@[i]).m_key.wf()
    }

    /// The record the decoder reads for a key: the first one whose name,
    /// semantic, index and declared tag all match.
    pub open spec fn spec_lookup(self, key: MaterialKey) -> Option<MaterialProperty> {
        match key.spec_triple() {
            None => None,
            Some(t) => spec_find(
                self.m_properties@,
                t.0,
                t.1,
                t.2,
                spec_tag_of(key.spec_value_type()),
            ),
        }
    }

    /// The value the decoder yields for a key: the matching record's
    /// payload decoded as the static table declares, absent when no
    /// record matches or the payload does not decode.
    pub open spec fn spec_get_value(self, key: MaterialKey) -> Option<MaterialValueModel> {
        match self.spec_lookup(key) {
            None => None,
            Some(p) => spec_decode(key.spec_value_type(), p.m_data@),
        }
    }

    /// The first record matching the quadruple, if any.
    fn find_prop(&self, name: &Vec<u8>, sem: u32, idx: u32, tag: u32) -> (r: Option<
        &MaterialProperty,
    >)
        requires
            self.wf(),
        ensures
            match r {
                Some(p) => spec_find(self.m_properties@, name@, sem, idx, tag) == Some(*p),
                None => spec_find(self.m_properties@, name@, sem, idx, tag) is None,
            },
    {
        let n = self.m_properties.len();
        let mut i: usize = 0;
        proof {
            assert(self.m_properties@.skip(0) =~= self.m_properties@);
        }
        while i < n
            invariant
                self.wf(),
                i <= n,
                n == self.m_properties@.len(),
                spec_find(self.m_properties@, name@, sem, idx, tag) == spec_find(
                    self.m_properties@.skip(i as int),
                    name@,
                    sem,
                    idx,
                    tag,
                ),
            decreases n - i,
        {
            let p = &self.m_properties[i];
            proof {
                assert(self.m_properties@.skip(i as int)[0] == self.m_properties@[i as int]);
            }
            if p.m_key.eq_bytes(name) && p.m_semantic == sem && p.m_index == idx && p.m_type
                == tag {
                return Some(p);
            }
            proof {
                assert(self.m_properties@.skip(i as int).skip(1) =~= self.m_properties@.skip(
                    i as int + 1,
                ));
            }
            i = i + 1;
        }
        proof {
            assert(self.m_properties@.skip(n as int) =~= Seq::<MaterialProperty>::empty());
        }
        None
    }

    /// Decode the property a key of the closed catalog names: find the
    /// one record whose name, semantic, index and declared tag match,
    /// then decode its payload as the static table declares for the key.
    /// Every failure — no such record, a payload too short, an
    /// unrecognized enumeration value — is an absent value.
    pub fn get_value(&self, key: MaterialKey) -> (r: Option<MaterialValue>)
        requires
            self.wf(),
        ensures
            match r {
                Some(v) => self.spec_get_value(key) == Some(v@),
                None => self.spec_get_value(key) is None,
            },
    {
        let (name, sem, idx) = match key.triple() {
            Some(t) => t,
            None => {
                return None;
            },
        };
        let vt = key.value_type();
        let tag = tag_of(vt);
        match self.find_prop(&name, sem, idx, tag) {
            Some(p) => decode_value(vt, &p.m_data),
            None => None,
        }
    }

    /// How many textures the bag declares for a component: one per
    /// texture-path record with that component's semantic.
    pub fn num_textures(&self, type_: MaterialComponentType) -> (r: u32)
        requires
            self.wf(),
        ensures
            r == spec_tex_count(self.m_properties@, type_.spec_semantic()),
    {
        let sem = type_.semantic();
        let name = MaterialKey::name_bytes("$tex.file");
        let n = self.m_properties.len();
        let mut count: u32 = 0;
        let mut i: usize = 0;
        proof {
            assert(self.m_properties@.skip(0) =~= self.m_properties@);
        }
        while i < n
            invariant
                self.wf(),
                i <= n,
                count <= i,
                n == self.m_properties@.len(),
                name@ == "$tex.file".spec_bytes(),
                sem == type_.spec_semantic(),
                spec_tex_count(self.m_properties@, sem) == count + spec_tex_count(
                    self.m_properties@.skip(i as int),
                    sem,
                ),
            decreases n - i,
        {
            let p = &self.m_properties[i];
            proof {
                assert(self.m_properties@.skip(i as int)[0] == self.m_properties@[i as int]);
                assert(self.m_properties@.skip(i as int).skip(1) =~= self.m_properties@.skip(
                    i as int + 1,
                ));
            }
            if p.m_key.eq_bytes(&name) && p.m_semantic == sem {
                count = count + 1;
            }
            i = i + 1;
        }
        proof {
            assert(self.m_properties@.skip(n as int) =~= Seq::<MaterialProperty>::empty());
        }
        count
    }
}

/// One texture within a material component: a path plus how to blend,
/// map and wrap it.
#[derive(Debug, Clone, PartialEq)]
pub struct TextureDefinition {
    /// The path to the texture.
    pub path: Vec<u8>,
    /// The blend factor, as the raw bit pattern of a 32-bit float. In
    /// replace mode the engine leaves no factor, so this is the bit
    /// pattern of one.
    pub strength: u32,
    /// How this texture combines with the component's state so far.
    pub blend_op: BlendOp,
    /// The mapping mode; absent when the engine reports none or an
    /// unknown one.
    pub mapping: Option<Mapping>,
    /// The mapping axis for non-UV mappings, passed through without
    /// interpretation.
    pub axis: Option<Vector3D>,
    /// The source UV channel; the engine's recommendation applies when
    /// a texture does not set one, so absent decodes to channel zero.
    pub channel: u32,
    /// The wrapping mode along U.
    pub wrap_u: Option<WrappingMode>,
    /// The wrapping mode along V.
    pub wrap_v: Option<WrappingMode>,
    /// The texture's flag word.
    pub flags: TextureFlags,
}

/// The mathematical shape of a texture definition.
pub struct TexDefModel {
    pub path: Seq<u8>,
    pub strength: u32,
    pub blend_op: BlendOp,
    pub mapping: Option<Mapping>,
    pub axis: Option<Vector3D>,
    pub channel: u32,
    pub wrap_u: Option<WrappingMode>,
    pub wrap_v: Option<WrappingMode>,
    pub flags: TextureFlags,
}

impl View for TextureDefinition {
    type V = TexDefModel;

    open spec fn view(&self) -> TexDefModel {
        TexDefModel {
            path: self.path@,
            strength: self.strength,
            blend_op: self.blend_op,
            mapping: self.mapping,
            axis: self.axis,
            channel: self.channel,
            wrap_u: self.wrap_u,
            wrap_v: self.wrap_v,
            flags: self.flags,
        }
    }
}

/// One component of a material: its base color and its texture stack.
#[derive(Debug, Clone, PartialEq)]
pub struct MaterialComponent {
    /// The base color the texture stack builds on.
    pub color: Color3D,
    /// The texture definitions, one per slot the engine reports.
    pub textures: Vec<TextureDefinition>,
}

/// The explicit base color of a component, when the bag holds one.
pub open spec fn spec_color(m: Material, ty: MaterialComponentType) -> Option<Color3D> {
    match m.spec_get_value(MaterialKey::Color(ty)) {
        Some(MaterialValueModel::Color3D(c)) => Some(c),
        _ => None,
    }
}

/// The path of the texture in a component's slot, when the bag holds
/// one that decodes.
pub open spec fn spec_texture_path(m: Material, ty: MaterialComponentType, i: u32) -> Option<
    Seq<u8>,
> {
    match m.spec_get_value(MaterialKey::Texture(ty, i)) {
        Some(MaterialValueModel::String(s)) => Some(s),
        _ => None,
    }
}

/// The blend operation of a slot; replace when the engine reports none
/// or an unrecognized one.
pub open spec fn spec_blend_op(m: Material, ty: MaterialComponentType, i: u32) -> BlendOp {
    match m.spec_get_value(MaterialKey::TextureOp(ty, i)) {
        Some(MaterialValueModel::BlendOp(op)) => op,
        _ => BlendOp::Replace,
    }
}

/// The blend factor of a slot, as float bits. Replace mode ignores the
/// factor, so there it is the bit pattern of one; so is an absent
/// factor.
pub open spec fn spec_strength(m: Material, ty: MaterialComponentType, i: u32) -> u32 {
    if spec_blend_op(m, ty, i) == BlendOp::Replace {
        FLOAT_ONE_BITS
    } else {
        match m.spec_get_value(MaterialKey::TextureBlend(ty, i)) {
            Some(MaterialValueModel::Float(f)) => f,
            _ => FLOAT_ONE_BITS,
        }
    }
}

/// The mapping mode of a slot, when the bag holds a recognized one.
pub open spec fn spec_mapping(m: Material, ty: MaterialComponentType, i: u32) -> Option<Mapping> {
    match m.spec_get_value(MaterialKey::Mapping(ty, i)) {
        Some(MaterialValueModel::Mapping(mp)) => Some(mp),
        _ => None,
    }
}

/// The mapping axis of a slot: only meaningful, and only read, for a
/// known non-UV mapping.
pub open spec fn spec_axis(m: Material, ty: MaterialComponentType, i: u32) -> Option<Vector3D> {
    match spec_mapping(m, ty, i) {
        None => None,
        Some(mp) => if mp == Mapping::UV {
            None
        } else {
            match m.spec_get_value(MaterialKey::TextureMapAxis(ty, i)) {
                Some(MaterialValueModel::Vector3D(v)) => Some(v),
                _ => None,
            }
        },
    }
}

/// The source UV channel of a slot: zero when the bag holds none, and
/// zero for a value that is negative as the engine's signed integer.
pub open spec fn spec_channel(m: Material, ty: MaterialComponentType, i: u32) -> u32 {
    match m.spec_get_value(MaterialKey::UVWSource(ty, i)) {
        Some(MaterialValueModel::Int(v)) => if v < 0x8000_0000 {
            v
        } else {
            0
        },
        _ => 0,
    }
}

/// The wrapping mode along U of a slot, when the bag holds a
/// recognized one.
pub open spec fn spec_wrap_u(m: Material, ty: MaterialComponentType, i: u32) -> Option<
    WrappingMode,
> {
    match m.spec_get_value(MaterialKey::MappingModeU(ty, i)) {
        Some(MaterialValueModel::WrappingMode(w)) => Some(w),
        _ => None,
    }
}

/// The wrapping mode along V of a slot, when the bag holds a
/// recognized one.
pub open spec fn spec_wrap_v(m: Material, ty: MaterialComponentType, i: u32) -> Option<
    WrappingMode,
> {
    match m.spec_get_value(MaterialKey::MappingModeV(ty, i)) {
        Some(MaterialValueModel::WrappingMode(w)) => Some(w),
        _ => None,
    }
}

/// The flag word of a slot; empty when the bag holds none that decodes.
pub open spec fn spec_flags(m: Material, ty: MaterialComponentType, i: u32) -> TextureFlags {
    match m.spec_get_value(MaterialKey::Flags(ty, i)) {
        Some(MaterialValueModel::TextureFlags(f)) => f,
        _ => TextureFlags { bits: 0 },
    }
}

/// The texture definition of a component's slot. Meaningful under
/// `Material::textures_ok`, which guarantees the slot's path record.
pub open spec fn spec_texture_def(m: Material, ty: MaterialComponentType, i: u32) -> TexDefModel {
    TexDefModel {
        path: spec_texture_path(m, ty, i)->Some_0,
        strength: spec_strength(m, ty, i),
        blend_op: spec_blend_op(m, ty, i),
        mapping: spec_mapping(m, ty, i),
        axis: spec_axis(m, ty, i),
        channel: spec_channel(m, ty, i),
        wrap_u: spec_wrap_u(m, ty, i),
        wrap_v: spec_wrap_v(m, ty, i),
        flags: spec_flags(m, ty, i),
    }
}

impl Material {
    /// The arena's consistency condition between a component's texture
    /// count and its slots: every slot below the count has a path record
    /// that decodes. A bag whose count disagrees with its slots is
    /// corrupt foreign data, which this layer refuses by contract rather
    /// than tolerating silently.
    pub open spec fn textures_ok(self, ty: MaterialComponentType) -> bool {
        forall|i: u32|
            i < spec_tex_count(self.m_properties@, ty.spec_semantic())
                ==> #[trigger] spec_texture_path(self, ty, i) is Some
    }

    /// A single component of the material: its base color and one
    /// texture definition per slot the engine reports.
    ///
    /// The component is absent exactly when it has no textures and no
    /// explicit base color. With textures but no explicit color, the
    /// base color falls back to black, never to an absent component.
    #[verifier::rlimit(60)]
    pub fn component(&self, type_: MaterialComponentType) -> (r: Option<MaterialComponent>)
        requires
            self.wf(),
            self.textures_ok(type_),
        ensures
            r is Some <==> (spec_tex_count(self.m_properties@, type_.spec_semantic()) > 0
                || spec_color(*self, type_) is Some),
            r matches Some(c) ==> {
                &&& c.color == (match spec_color(*self, type_) {
                    Some(col) => col,
                    None => Color3D { r: 0, g: 0, b: 0 },
                })
                &&& c.textures@.len() == spec_tex_count(
                    self.m_properties@,
                    type_.spec_semantic(),
                )
                &&& forall|j: int|
                    0 <= j < c.textures@.len() ==> (#[trigger] c.textures@[j])@
                        == spec_texture_def(*self, type_, j as u32)
            },
    {
        let color_opt: Option<Color3D> = match self.get_value(MaterialKey::Color(type_)) {
            Some(MaterialValue::Color3D(c)) => Some(c),
            _ => None,
        };
        let count = self.num_textures(type_);
        if count == 0 && color_opt.is_none() {
            return None;
        }
        let color = match color_opt {
            Some(c) => c,
            None => Color3D { r: 0, g: 0, b: 0 },
        };
        let mut textures: Vec<TextureDefinition> = Vec::new();
        let mut i: u32 = 0;
        while i < count
            invariant
                self.wf(),
                self.textures_ok(type_),
                i <= count,
                count == spec_tex_count(self.m_properties@, type_.spec_semantic()),
                textures@.len() == i,
                forall|j: int|
                    0 <= j < i ==> (#[trigger] textures@[j])@ == spec_texture_def(
                        *self,
                        type_,
                        j as u32,
                    ),
            decreases count - i,
        {
            let path = match self.get_value(MaterialKey::Texture(type_, i)) {
                Some(MaterialValue::String(s)) => s,
                _ => {
                    proof {
                        assert(spec_texture_path(*self, type_, i) is Some);
                        assert(false);
                    }
                    Vec::new()
                },
            };
            let blend_op = match self.get_value(MaterialKey::TextureOp(type_, i)) {
                Some(MaterialValue::BlendOp(op)) => op,
                _ => BlendOp::Replace,
            };
            let strength = if blend_op == BlendOp::Replace {
                FLOAT_ONE_BITS
            } else {
                match self.get_value(MaterialKey::TextureBlend(type_, i)) {
                    Some(MaterialValue::Float(f)) => f,
                    _ => FLOAT_ONE_BITS,
                }
            };
            let mapping = match self.get_value(MaterialKey::Mapping(type_, i)) {
                Some(MaterialValue::Mapping(mp)) => Some(mp),
                _ => None,
            };
            let axis = match mapping {
                Some(mp) => {
                    if mp == Mapping::UV {
                        None
                    } else {
                        match self.get_value(MaterialKey::TextureMapAxis(type_, i)) {
                            Some(MaterialValue::Vector3D(v)) => Some(v),
                            _ => None,
                        }
                    }
                },
                None => None,
            };
            let channel = match self.get_value(MaterialKey::UVWSource(type_, i)) {
                Some(MaterialValue::Int(v)) => if v < 0x8000_0000 {
                    v
                } else {
                    0
                },
                _ => 0,
            };
            let wrap_u = match self.get_value(MaterialKey::MappingModeU(type_, i)) {
                Some(MaterialValue::WrappingMode(w)) => Some(w),
                _ => None,
            };
            let wrap_v = match self.get_value(MaterialKey::MappingModeV(type_, i)) {
                Some(MaterialValue::WrappingMode(w)) => Some(w),
                _ => None,
            };
            let flags = match self.get_value(MaterialKey::Flags(type_, i)) {
                Some(MaterialValue::TextureFlags(f)) => f,
                _ => TextureFlags { bits: 0 },
            };
            let def = TextureDefinition {
                path,
                strength,
                blend_op,
                mapping,
                axis,
                channel,
                wrap_u,
                wrap_v,
                flags,
            };
            proof {
                assert(def@.path == spec_texture_path(*self, type_, i)->Some_0);
                assert(def@.blend_op == spec_blend_op(*self, type_, i));
                assert(def@.strength == spec_strength(*self, type_, i));
                assert(def@.mapping == spec_mapping(*self, type_, i));
                assert(def@.axis == spec_axis(*self, type_, i));
                assert(def@.channel == spec_channel(*self, type_, i));
                assert(def@.wrap_u == spec_wrap_u(*self, type_, i));
                assert(def@.wrap_v == spec_wrap_v(*self, type_, i));
                assert(def@.flags == spec_flags(*self, type_, i));
                assert(def@ == spec_texture_def(*self, type_, i));
            }
            textures.push(def);
            i = i + 1;
        }
        Some(MaterialComponent { color, textures })
    }

    /// The diffuse component of the material.
    pub fn diffuse(&self) -> (r: Option<MaterialComponent>)
        requires
            self.wf(),
            self.textures_ok(MaterialComponentType::Diffuse),
        ensures
            component_contract(*self, MaterialComponentType::Diffuse, r),
    {
        self.component(MaterialComponentType::Diffuse)
    }

    /// The specular component of the material.
    pub fn specular(&self) -> (r: Option<MaterialComponent>)
        requires
            self.wf(),
            self.textures_ok(MaterialComponentType::Specular),
        ensures
            component_contract(*self, MaterialComponentType::Specular, r),
    {
        self.component(MaterialComponentType::Specular)
    }

    /// The ambient component of the material.
    pub fn ambient(&self) -> (r: Option<MaterialComponent>)
        requires
            self.wf(),
            self.textures_ok(MaterialComponentType::Ambient),
        ensures
            component_contract(*self, MaterialComponentType::Ambient, r),
    {
        self.component(MaterialComponentType::Ambient)
    }

    /// The emissive component of the material.
    pub fn emissive(&self) -> (r: Option<MaterialComponent>)
        requires
            self.wf(),
            self.textures_ok(MaterialComponentType::Emissive),
        ensures
            component_contract(*self, MaterialComponentType::Emissive, r),
    {
        self.component(MaterialComponentType::Emissive)
    }

    /// The opacity component of the material.
    pub fn opacity(&self) -> (r: Option<MaterialComponent>)
        requires
            self.wf(),
            self.textures_ok(MaterialComponentType::Opacity),
        ensures
            component_contract(*self, MaterialComponentType::Opacity, r),
    {
        self.component(MaterialComponentType::Opacity)
    }
}

/// What `Material::component` promises of its result; shared by the
/// per-component shortcuts.
pub open spec fn component_contract(
    m: Material,
    ty: MaterialComponentType,
    r: Option<MaterialComponent>,
) -> bool {
    &&& (r is Some <==> (spec_tex_count(m.m_properties@, ty.spec_semantic()) > 0 || spec_color(
        m,
        ty,
    ) is Some))
    &&& (r matches Some(c) ==> {
        &&& c.color == (match spec_color(m, ty) {
            Some(col) => col,
            None => Color3D { r: 0, g: 0, b: 0 },
        })
        &&& c.textures@.len() == spec_tex_count(m.m_properties@, ty.spec_semantic())
        &&& forall|j: int|
            0 <= j < c.textures@.len() ==> (#[trigger] c.textures@[j])@ == spec_texture_def(
                m,
                ty,
                j as u32,
            )
    })
}

} // verus!
