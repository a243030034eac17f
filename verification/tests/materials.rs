//! The material property decoder.

use open_asset_importer::material::{
    BlendOp, Mapping, Material, MaterialComponentType, MaterialKey, MaterialProperty,
    MaterialValue, ShadingModel, TextureFlags, WrappingMode, PTI_FLOAT, PTI_INTEGER, PTI_STRING,
};
use open_asset_importer::raw::{AiStr, Color3D};

fn prop(name: &str, semantic: u32, index: u32, tag: u32, data: Vec<u8>) -> MaterialProperty {
    MaterialProperty {
        m_key: AiStr::new(name.as_bytes().to_vec()),
        m_semantic: semantic,
        m_index: index,
        m_type: tag,
        m_data: data,
    }
}

fn str_payload(s: &str) -> Vec<u8> {
    let mut d = (s.len() as u32).to_le_bytes().to_vec();
    d.extend_from_slice(s.as_bytes());
    d.push(0);
    d
}

fn floats(vals: &[f32]) -> Vec<u8> {
    let mut d = Vec::new();
    for v in vals {
        d.extend_from_slice(&v.to_bits().to_le_bytes());
    }
    d
}

fn word(v: u32) -> Vec<u8> {
    v.to_le_bytes().to_vec()
}

fn material(props: Vec<MaterialProperty>) -> Material {
    Material { m_properties: props }
}

#[test]
fn string_property_decodes_exactly() {
    let m = material(vec![prop("?mat.name", 0, 0, PTI_STRING, str_payload("wood"))]);
    assert_eq!(m.get_value(MaterialKey::Name), Some(MaterialValue::String(b"wood".to_vec())));
}

#[test]
fn absent_property_is_absent() {
    let m = material(vec![]);
    assert_eq!(m.get_value(MaterialKey::Name), None);
    assert_eq!(m.get_value(MaterialKey::Opacity), None);
}

#[test]
fn color_property_round_trips_bit_patterns() {
    let m = material(vec![prop("$clr.diffuse", 0, 0, PTI_FLOAT, floats(&[0.5, 0.25, 1.0]))]);
    assert_eq!(
        m.get_value(MaterialKey::Color(MaterialComponentType::Diffuse)),
        Some(MaterialValue::Color3D(Color3D {
            r: 0.5f32.to_bits(),
            g: 0.25f32.to_bits(),
            b: 1.0f32.to_bits(),
        }))
    );
}

#[test]
fn tag_mismatch_is_absent() {
    // The record's name, semantic and index match, but its producer tag
    // disagrees with the static table's declared type for the key.
    let m = material(vec![prop("$clr.diffuse", 0, 0, PTI_INTEGER, floats(&[0.5, 0.25, 1.0]))]);
    assert_eq!(m.get_value(MaterialKey::Color(MaterialComponentType::Diffuse)), None);
}

#[test]
fn short_payload_is_absent_not_a_crash() {
    let m = material(vec![
        prop("$clr.diffuse", 0, 0, PTI_FLOAT, floats(&[0.5])),
        prop("$mat.opacity", 0, 0, PTI_FLOAT, vec![1, 2]),
    ]);
    assert_eq!(m.get_value(MaterialKey::Color(MaterialComponentType::Diffuse)), None);
    assert_eq!(m.get_value(MaterialKey::Opacity), None);
}

#[test]
fn bool_and_int_and_float_properties_decode() {
    let m = material(vec![
        prop("$mat.twosided", 0, 0, PTI_INTEGER, word(1)),
        prop("$mat.wireframe", 0, 0, PTI_INTEGER, word(0)),
        prop("$mat.shininess", 0, 0, PTI_FLOAT, floats(&[32.0])),
    ]);
    assert_eq!(m.get_value(MaterialKey::TwoSided), Some(MaterialValue::Bool(true)));
    assert_eq!(m.get_value(MaterialKey::Wireframe), Some(MaterialValue::Bool(false)));
    assert_eq!(
        m.get_value(MaterialKey::Shininess),
        Some(MaterialValue::Float(32.0f32.to_bits()))
    );
}

#[test]
fn enumeration_properties_decode_to_variants() {
    let sem = MaterialComponentType::Diffuse;
    let m = material(vec![
        prop("$mat.shadingm", 0, 0, PTI_INTEGER, word(3)),
        prop("$tex.mapping", 1, 0, PTI_INTEGER, word(1)),
        prop("$tex.mapmodeu", 1, 0, PTI_INTEGER, word(2)),
        prop("$tex.mapmodev", 1, 0, PTI_INTEGER, word(3)),
        prop("$tex.flags", 1, 0, PTI_INTEGER, word(5)),
    ]);
    assert_eq!(
        m.get_value(MaterialKey::ShadingModel),
        Some(MaterialValue::ShadingModel(ShadingModel::Phong))
    );
    assert_eq!(
        m.get_value(MaterialKey::Mapping(sem, 0)),
        Some(MaterialValue::Mapping(Mapping::Sphere))
    );
    assert_eq!(
        m.get_value(MaterialKey::MappingModeU(sem, 0)),
        Some(MaterialValue::WrappingMode(WrappingMode::MirrorRepeat))
    );
    assert_eq!(
        m.get_value(MaterialKey::MappingModeV(sem, 0)),
        Some(MaterialValue::WrappingMode(WrappingMode::Decal))
    );
    assert_eq!(
        m.get_value(MaterialKey::Flags(sem, 0)),
        Some(MaterialValue::TextureFlags(TextureFlags { bits: 5 }))
    );
}

#[test]
fn unknown_enumeration_value_is_absent() {
    let m = material(vec![
        prop("$mat.shadingm", 0, 0, PTI_INTEGER, word(999)),
        prop("$tex.op", 1, 0, PTI_INTEGER, word(42)),
    ]);
    assert_eq!(m.get_value(MaterialKey::ShadingModel), None);
    assert_eq!(
        m.get_value(MaterialKey::TextureOp(MaterialComponentType::Diffuse, 0)),
        None
    );
}

#[test]
fn components_without_color_key_have_no_color_property() {
    let m = material(vec![]);
    assert_eq!(m.get_value(MaterialKey::Color(MaterialComponentType::Lightmap)), None);
    assert_eq!(m.get_value(MaterialKey::Color(MaterialComponentType::Displacement)), None);
}

#[test]
fn replace_mode_texture_defaults_strength_to_one() {
    // A diffuse texture in slot zero with no explicit blend operation
    // and no blend-factor payload: the operation defaults to replace,
    // and replace mode pins the strength to one.
    let m = material(vec![prop("$tex.file", 1, 0, PTI_STRING, str_payload("diffuse.png"))]);
    let c = m.component(MaterialComponentType::Diffuse).unwrap();
    assert_eq!(c.textures.len(), 1);
    assert_eq!(c.textures[0].blend_op, BlendOp::Replace);
    assert_eq!(c.textures[0].strength, 1.0f32.to_bits());
    assert_eq!(c.textures[0].path, b"diffuse.png".to_vec());
    assert_eq!(c.textures[0].channel, 0);
    assert_eq!(c.textures[0].mapping, None);
    assert_eq!(c.textures[0].axis, None);
}

#[test]
fn explicit_blend_factor_survives_non_replace_ops() {
    let m = material(vec![
        prop("$tex.file", 1, 0, PTI_STRING, str_payload("a.png")),
        prop("$tex.op", 1, 0, PTI_INTEGER, word(0)),
        prop("$tex.blend", 1, 0, PTI_FLOAT, floats(&[0.75])),
    ]);
    let c = m.component(MaterialComponentType::Diffuse).unwrap();
    assert_eq!(c.textures[0].blend_op, BlendOp::Multiply);
    assert_eq!(c.textures[0].strength, 0.75f32.to_bits());
}

#[test]
fn reflection_component_absent_without_color_or_textures() {
    let m = material(vec![prop("$tex.file", 1, 0, PTI_STRING, str_payload("d.png"))]);
    assert_eq!(m.get_value(MaterialKey::Color(MaterialComponentType::Reflection)), None);
    assert!(m.component(MaterialComponentType::Reflection).is_none());
}

#[test]
fn base_color_fallback_cases() {
    // No textures and no color: the whole component is absent.
    let empty = material(vec![]);
    assert!(empty.component(MaterialComponentType::Diffuse).is_none());

    // No textures but an explicit color: that color comes back.
    let colored = material(vec![prop(
        "$clr.diffuse",
        0,
        0,
        PTI_FLOAT,
        floats(&[0.5, 0.25, 1.0]),
    )]);
    let c = colored.component(MaterialComponentType::Diffuse).unwrap();
    assert_eq!(
        c.color,
        Color3D { r: 0.5f32.to_bits(), g: 0.25f32.to_bits(), b: 1.0f32.to_bits() }
    );
    assert_eq!(c.textures.len(), 0);

    // A texture but no explicit color: a zero color, not an absent
    // component.
    let textured = material(vec![prop("$tex.file", 1, 0, PTI_STRING, str_payload("t.png"))]);
    let c = textured.component(MaterialComponentType::Diffuse).unwrap();
    assert_eq!(c.color, Color3D { r: 0, g: 0, b: 0 });
    assert_eq!(c.textures.len(), 1);
}

#[test]
fn texture_count_is_per_component() {
    let m = material(vec![
        prop("$tex.file", 1, 0, PTI_STRING, str_payload("d0.png")),
        prop("$tex.file", 1, 1, PTI_STRING, str_payload("d1.png")),
        prop("$tex.file", 2, 0, PTI_STRING, str_payload("s0.png")),
    ]);
    assert_eq!(m.num_textures(MaterialComponentType::Diffuse), 2);
    assert_eq!(m.num_textures(MaterialComponentType::Specular), 1);
    assert_eq!(m.num_textures(MaterialComponentType::Ambient), 0);
    let d = m.diffuse().unwrap();
    assert_eq!(d.textures.len(), 2);
    assert_eq!(d.textures[1].path, b"d1.png".to_vec());
    let s = m.specular().unwrap();
    assert_eq!(s.textures.len(), 1);
    assert!(m.ambient().is_none());
    assert!(m.emissive().is_none());
    assert!(m.opacity().is_none());
}

#[test]
fn non_uv_mapping_passes_axis_through() {
    let m = material(vec![
        prop("$tex.file", 1, 0, PTI_STRING, str_payload("sph.png")),
        prop("$tex.mapping", 1, 0, PTI_INTEGER, word(1)),
        prop("$tex.mapaxis", 1, 0, PTI_FLOAT, floats(&[0.0, 1.0, 0.0])),
    ]);
    let c = m.component(MaterialComponentType::Diffuse).unwrap();
    assert_eq!(c.textures[0].mapping, Some(Mapping::Sphere));
    let axis = c.textures[0].axis.unwrap();
    assert_eq!(axis.y, 1.0f32.to_bits());
}

#[test]
fn uv_mapping_reads_no_axis() {
    let m = material(vec![
        prop("$tex.file", 1, 0, PTI_STRING, str_payload("flat.png")),
        prop("$tex.mapping", 1, 0, PTI_INTEGER, word(0)),
        prop("$tex.mapaxis", 1, 0, PTI_FLOAT, floats(&[0.0, 1.0, 0.0])),
        prop("$tex.uvwsrc", 1, 0, PTI_INTEGER, word(3)),
    ]);
    let c = m.component(MaterialComponentType::Diffuse).unwrap();
    assert_eq!(c.textures[0].mapping, Some(Mapping::UV));
    assert_eq!(c.textures[0].axis, None);
    assert_eq!(c.textures[0].channel, 3);
}

#[test]
fn negative_uv_source_falls_back_to_channel_zero() {
    let m = material(vec![
        prop("$tex.file", 1, 0, PTI_STRING, str_payload("t.png")),
        prop("$tex.uvwsrc", 1, 0, PTI_INTEGER, word((-2i32) as u32)),
    ]);
    let c = m.component(MaterialComponentType::Diffuse).unwrap();
    assert_eq!(c.textures[0].channel, 0);
}
