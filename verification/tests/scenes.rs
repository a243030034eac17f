//! Scenes, nodes, metadata and the arena lifecycle.

use open_asset_importer::array::{DirectArray, IndirectArray};
use open_asset_importer::face::Face;
use open_asset_importer::mesh::Mesh;
use open_asset_importer::node::{
    Metadata, MetadataData, MetadataEntry, MetadataValue, Node, META_AISTRING, META_BOOL,
    META_DOUBLE, META_FLOAT, META_INT32, META_UINT64,
};
use open_asset_importer::raw::{AiStr, Color4D, Matrix4x4, Vector3D};
use open_asset_importer::scene::{Arena, Scene};

fn empty_arrays<T>() -> Vec<DirectArray<T>> {
    let mut v: Vec<DirectArray<T>> = Vec::new();
    for _ in 0..8 {
        v.push(DirectArray { base: None });
    }
    v
}

fn simple_mesh(name: &str) -> Mesh {
    Mesh {
        m_name: AiStr::new(name.as_bytes().to_vec()),
        m_primitive_types: 4,
        m_num_vertices: 0,
        m_num_faces: 0,
        m_vertices: DirectArray { base: Some(vec![]) },
        m_normals: DirectArray { base: None },
        m_tangents: DirectArray { base: None },
        m_bitangents: DirectArray { base: None },
        m_colors: empty_arrays::<Color4D>(),
        m_texture_coords: empty_arrays::<Vector3D>(),
        m_faces: DirectArray { base: Some(Vec::<Face>::new()) },
        m_num_bones: 0,
        m_bones: IndirectArray { base: None },
        m_material_index: 0,
    }
}

fn identity() -> Matrix4x4 {
    let one = 1.0f32.to_bits();
    Matrix4x4 {
        entries: [one, 0, 0, 0, 0, one, 0, 0, 0, 0, one, 0, 0, 0, 0, one],
    }
}

fn leaf_node(name: &str, mesh_indices: Vec<u32>) -> Node {
    Node {
        m_name: AiStr::new(name.as_bytes().to_vec()),
        m_transformation: identity(),
        m_num_children: 0,
        m_children: None,
        m_num_meshes: mesh_indices.len() as u32,
        m_meshes: DirectArray { base: Some(mesh_indices) },
        m_metadata: None,
    }
}

fn scene_with(root: Node, meshes: Vec<Mesh>) -> Scene {
    Scene {
        m_flags: 0,
        m_root_node: Some(root),
        m_num_meshes: meshes.len() as u32,
        m_meshes: IndirectArray { base: Some(meshes.into_iter().map(Some).collect()) },
        m_num_materials: 0,
        m_materials: IndirectArray { base: None },
        m_num_animations: 0,
        m_animations: IndirectArray { base: None },
        m_num_textures: 0,
        m_textures: IndirectArray { base: None },
        m_num_lights: 0,
        m_lights: IndirectArray { base: None },
        m_num_cameras: 0,
        m_cameras: IndirectArray { base: None },
    }
}

#[test]
fn out_of_range_mesh_index_resolves_to_absent() {
    // The node's index list carries a value at and past the scene's mesh
    // count; resolving it yields an absent value, never a read past the
    // mesh array.
    let node = leaf_node("n", vec![0, 1, 7]);
    let scene = scene_with(leaf_node("root", vec![]), vec![simple_mesh("only")]);
    assert!(scene.node_mesh(&node, 0).is_some());
    assert!(scene.node_mesh(&node, 1).is_none());
    assert!(scene.node_mesh(&node, 2).is_none());
    // Past the node's own index list is absent too.
    assert!(scene.node_mesh(&node, 3).is_none());
    // Direct lookups check the same bound.
    assert!(scene.mesh(0).is_some());
    assert!(scene.mesh(1).is_none());
    assert!(scene.mesh(u32::MAX).is_none());
}

#[test]
fn node_children_walk_and_lookup() {
    let child_a = leaf_node("a", vec![]);
    let child_b = leaf_node("b", vec![]);
    let parent = Node {
        m_name: AiStr::new(b"p".to_vec()),
        m_transformation: identity(),
        m_num_children: 2,
        m_children: Some(vec![Some(child_a), Some(child_b)]),
        m_num_meshes: 0,
        m_meshes: DirectArray { base: Some(vec![]) },
        m_metadata: None,
    };
    assert_eq!(parent.num_children(), 2);
    let mut it = parent.children();
    assert_eq!(it.next().unwrap().name(), b"a".to_vec());
    assert_eq!(it.next().unwrap().name(), b"b".to_vec());
    assert!(it.next().is_none());
    assert_eq!(parent.child(1).unwrap().name(), b"b".to_vec());
    assert!(parent.child(2).is_none());
}

#[test]
fn node_mesh_indices_walk_in_order() {
    let node = leaf_node("n", vec![3, 1, 4]);
    assert_eq!(node.num_meshes(), 3);
    let mut it = node.meshes();
    assert_eq!(it.next(), Some(&3));
    assert_eq!(it.next(), Some(&1));
    assert_eq!(it.next(), Some(&4));
    assert_eq!(it.next(), None);
    assert_eq!(node.mesh_index(2), Some(4));
    assert_eq!(node.mesh_index(3), None);
}

fn entry(tag: u32, data: Vec<u8>) -> MetadataEntry {
    MetadataEntry { m_type: tag, m_data: data }
}

#[test]
fn metadata_entries_decode_by_tag() {
    assert_eq!(entry(META_BOOL, vec![1]).get(), MetadataValue::Bool(true));
    assert_eq!(entry(META_BOOL, vec![0]).get(), MetadataValue::Bool(false));
    assert_eq!(
        entry(META_INT32, (-5i32).to_le_bytes().to_vec()).get(),
        MetadataValue::I32(-5)
    );
    assert_eq!(
        entry(META_UINT64, 77u64.to_le_bytes().to_vec()).get(),
        MetadataValue::U64(77)
    );
    assert_eq!(
        entry(META_FLOAT, 2.5f32.to_bits().to_le_bytes().to_vec()).get(),
        MetadataValue::F32(2.5f32.to_bits())
    );
    assert_eq!(
        entry(META_DOUBLE, 0.125f64.to_bits().to_le_bytes().to_vec()).get(),
        MetadataValue::F64(0.125f64.to_bits())
    );
    let mut s = (3u32).to_le_bytes().to_vec();
    s.extend_from_slice(b"box");
    s.push(0);
    assert_eq!(entry(META_AISTRING, s).get(), MetadataValue::Str(b"box".to_vec()));
}

#[test]
fn metadata_walk_yields_each_pair_once() {
    let md = MetadataData {
        m_num_properties: 2,
        m_keys: DirectArray {
            base: Some(vec![AiStr::new(b"k0".to_vec()), AiStr::new(b"k1".to_vec())]),
        },
        m_values: DirectArray {
            base: Some(vec![entry(META_BOOL, vec![1]), entry(META_INT32, 9i32.to_le_bytes().to_vec())]),
        },
    };
    let mut it = Metadata::new(&md);
    assert_eq!(it.len(), 2);
    let (k, v) = it.next().unwrap();
    assert_eq!(k.decode(), b"k0".to_vec());
    assert_eq!(v.get(), MetadataValue::Bool(true));
    let (k, v) = it.next().unwrap();
    assert_eq!(k.decode(), b"k1".to_vec());
    assert_eq!(v.get(), MetadataValue::I32(9));
    assert!(it.next().is_none());
    assert_eq!(it.len(), 0);
}

#[test]
fn node_metadata_is_absent_for_null_pointer() {
    let node = leaf_node("bare", vec![]);
    assert!(node.metadata().is_none());
}

#[test]
fn arena_views_live_until_release() {
    // All views borrow from the arena's scene; the borrow checker pins
    // their lifetimes inside the arena's. Releasing consumes the arena,
    // which is only possible once no view is still held.
    let scene = scene_with(leaf_node("root", vec![0]), vec![simple_mesh("m")]);
    let arena = Arena::open(scene);
    {
        let s = arena.scene();
        let root = s.root_node().unwrap();
        let mesh = s.node_mesh(root, 0).unwrap();
        assert_eq!(mesh.name(), b"m".to_vec());
    }
    arena.release();
}
