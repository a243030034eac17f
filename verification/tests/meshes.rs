//! Meshes, faces and face-kind classification.

use open_asset_importer::array::{DirectArray, IndirectArray};
use open_asset_importer::face::Face;
use open_asset_importer::import::PrimitiveType;
use open_asset_importer::mesh::{Mesh, Vertex};
use open_asset_importer::raw::{AiStr, Color4D, Vector3D};

fn vec3(x: f32, y: f32, z: f32) -> Vector3D {
    Vector3D { x: x.to_bits(), y: y.to_bits(), z: z.to_bits() }
}

fn face_of(indices: Vec<u32>) -> Face {
    Face { m_num_indices: indices.len() as u32, m_indices: DirectArray { base: Some(indices) } }
}

fn empty_arrays<T>() -> Vec<DirectArray<T>> {
    let mut v: Vec<DirectArray<T>> = Vec::new();
    for _ in 0..8 {
        v.push(DirectArray { base: None });
    }
    v
}

fn mesh_with(positions: Vec<Vector3D>, normals: Option<Vec<Vector3D>>, faces: Vec<Face>) -> Mesh {
    Mesh {
        m_name: AiStr::new(b"fixture".to_vec()),
        m_primitive_types: 0,
        m_num_vertices: positions.len() as u32,
        m_num_faces: faces.len() as u32,
        m_vertices: DirectArray { base: Some(positions) },
        m_normals: DirectArray { base: normals },
        m_tangents: DirectArray { base: None },
        m_bitangents: DirectArray { base: None },
        m_colors: empty_arrays::<Color4D>(),
        m_texture_coords: empty_arrays::<Vector3D>(),
        m_faces: DirectArray { base: Some(faces) },
        m_num_bones: 0,
        m_bones: IndirectArray { base: None },
        m_material_index: 2,
    }
}

#[test]
fn face_kinds_follow_index_count() {
    // A face is classified through the mesh that owns it; faces with
    // one, two, three and seven indices come out as point, line,
    // triangle and polygon.
    let faces = vec![
        face_of(vec![0]),
        face_of(vec![0, 1]),
        face_of(vec![0, 1, 2]),
        face_of(vec![0, 1, 2, 3, 4, 5, 6]),
    ];
    let mesh = mesh_with(vec![vec3(0.0, 0.0, 0.0); 7], None, faces);
    assert_eq!(mesh.face(0).unwrap().primitive_type(), PrimitiveType::Point);
    assert_eq!(mesh.face(1).unwrap().primitive_type(), PrimitiveType::Line);
    assert_eq!(mesh.face(2).unwrap().primitive_type(), PrimitiveType::Triangle);
    assert_eq!(mesh.face(3).unwrap().primitive_type(), PrimitiveType::Polygon);
    assert_eq!(mesh.face(4), None);
}

#[test]
fn face_indices_walk_and_lookup() {
    let f = face_of(vec![5, 6, 7]);
    let mut it = f.indices();
    assert_eq!(it.next(), Some(&5));
    assert_eq!(it.next(), Some(&6));
    assert_eq!(it.next(), Some(&7));
    assert_eq!(it.next(), None);
    assert_eq!(f.index(1), Some(6));
    assert_eq!(f.index(3), None);
}

#[test]
fn positions_present_below_count_absent_from_it() {
    let mesh = mesh_with(
        vec![vec3(1.0, 0.0, 0.0), vec3(0.0, 1.0, 0.0), vec3(0.0, 0.0, 1.0)],
        None,
        vec![],
    );
    assert_eq!(mesh.num_vertices(), 3);
    assert_eq!(mesh.position(0), Some(vec3(1.0, 0.0, 0.0)));
    assert_eq!(mesh.position(2), Some(vec3(0.0, 0.0, 1.0)));
    assert_eq!(mesh.position(3), None);
    assert_eq!(mesh.position(u32::MAX), None);
}

#[test]
fn missing_normals_are_absent_not_defaulted() {
    let mesh = mesh_with(vec![vec3(0.0, 0.0, 0.0)], None, vec![]);
    assert_eq!(mesh.normal(0), None);
    let mut it = mesh.normals();
    assert_eq!(it.len(), 0);
    assert_eq!(it.next(), None);
}

#[test]
fn vertices_combine_the_parallel_arrays() {
    let positions = vec![vec3(1.0, 2.0, 3.0), vec3(4.0, 5.0, 6.0)];
    let normals = vec![vec3(0.0, 0.0, 1.0), vec3(0.0, 1.0, 0.0)];
    let mesh = mesh_with(positions.clone(), Some(normals.clone()), vec![]);
    let mut it = mesh.vertices();
    assert_eq!(
        it.next(),
        Some(Vertex {
            pos: positions[0],
            normal: Some(normals[0]),
            tangent: None,
            bitangent: None,
        })
    );
    assert_eq!(
        it.next(),
        Some(Vertex {
            pos: positions[1],
            normal: Some(normals[1]),
            tangent: None,
            bitangent: None,
        })
    );
    assert_eq!(it.next(), None);
}

#[test]
fn mesh_name_and_material_id_read_back() {
    let mesh = mesh_with(vec![], None, vec![]);
    assert_eq!(mesh.name(), b"fixture".to_vec());
    assert_eq!(mesh.material_id(), 2);
}
