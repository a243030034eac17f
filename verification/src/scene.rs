//! The scene: the top-level record of the arena, and the arena root
//! that owns it.

use crate::animation::Animation;
use crate::array::{IndirectArray, IndirectIter};
use crate::material::Material;
use crate::mesh::Mesh;
use crate::node::Node;
use crate::raw::AiStr;
use vstd::prelude::*;

verus! {

/// A light source record; its parameters stay with the engine, only the
/// name is read here.
#[derive(Debug, Clone, PartialEq)]
pub struct Light {
    pub m_name: AiStr,
}

impl Light {
    /// The name of the light.
    pub fn name(&self) -> (r: Vec<u8>)
        requires
            self.m_name.wf(),
        ensures
            r@ == self.m_name.chars(),
    {
        self.m_name.decode()
    }
}

/// A camera record; its parameters stay with the engine, only the name
/// is read here.
#[derive(Debug, Clone, PartialEq)]
pub struct Camera {
    pub m_name: AiStr,
}

impl Camera {
    /// The name of the camera.
    pub fn name(&self) -> (r: Vec<u8>)
        requires
            self.m_name.wf(),
        ensures
            r@ == self.m_name.chars(),
    {
        self.m_name.decode()
    }
}

/// The top-level record of the arena: flat arrays of meshes, materials,
/// textures, animations, lights and cameras, and the root node of the
/// scene graph. Every cross-reference between them is a plain integer
/// index, range-checked at read time.
pub struct Scene {
    pub m_flags: u32,
    /// The root node, or `None` for a null pointer.
    pub m_root_node: Option<Node>,
    pub m_num_meshes: u32,
    pub m_meshes: IndirectArray<Mesh>,
    pub m_num_materials: u32,
    pub m_materials: IndirectArray<Material>,
    pub m_num_animations: u32,
    pub m_animations: IndirectArray<Animation>,
    pub m_num_textures: u32,
    pub m_textures: IndirectArray<crate::texture::Texture>,
    pub m_num_lights: u32,
    pub m_lights: IndirectArray<Light>,
    pub m_num_cameras: u32,
    pub m_cameras: IndirectArray<Camera>,
}

impl Scene {
    /// The arena's consistency conditions for the scene: every top-level
    /// array agrees with its count field, and every record reachable
    /// from it is itself consistent.
    pub open spec fn wf(self) -> bool {
        &&& match self.m_root_node {
            Option::None => true,
            Option::Some(n) => n.wf(),
        }
        &&& self.m_meshes.complete(self.m_num_meshes as nat)
        &&& match self.m_meshes.base {
            Option::None => true,
            Option::Some(v) => forall|i: int|
                0 <= i < v@.len() ==> ((#[trigger] v@[i]) matches Some(m) ==> m.wf()),
        }
        &&& self.m_materials.complete(self.m_num_materials as nat)
        &&& match self.m_materials.base {
            Option::None => true,
            Option::Some(v) => forall|i: int|
                0 <= i < v@.len() ==> ((#[trigger] v@[i]) matches Some(m) ==> m.wf()),
        }
        &&& self.m_animations.complete(self.m_num_animations as nat)
        &&& match self.m_animations.base {
            Option::None => true,
            Option::Some(v) => forall|i: int|
                0 <= i < v@.len() ==> ((#[trigger] v@[i]) matches Some(a) ==> a.wf()),
        }
        &&& self.m_textures.complete(self.m_num_textures as nat)
        &&& match self.m_textures.base {
            Option::None => true,
            Option::Some(v) => forall|i: int|
                0 <= i < v@.len() ==> ((#[trigger] v@[i]) matches Some(t) ==> t.wf()),
        }
        &&& self.m_lights.complete(self.m_num_lights as nat)
        &&& self.m_cameras.complete(self.m_num_cameras as nat)
    }

    /// The scene's flag word.
    pub fn flags(&self) -> (r: u32)
        ensures
            r == self.m_flags,
    {
        self.m_flags
    }

    /// The root node of the scene graph, absent for a null pointer.
    pub fn root_node(&self) -> (r: Option<&Node>)
        ensures
            match r {
                Some(n) => self.m_root_node == Some(*n),
                None => self.m_root_node is None,
            },
            self.wf() ==> (r matches Some(n) ==> n.wf()),
    {
        match &self.m_root_node {
            Some(n) => Some(n),
            None => None,
        }
    }

    /// How many meshes the scene declares.
    pub fn num_meshes(&self) -> (r: u32)
        ensures
            r == self.m_num_meshes,
    {
        self.m_num_meshes
    }

    /// The meshes, as a bounded walk.
    pub fn meshes(&self) -> (it: IndirectIter<'_, Mesh>)
        ensures
            it.remaining() == self.m_meshes.items(self.m_num_meshes as nat),
            self.wf() && self.m_meshes.all_present(self.m_num_meshes as nat)
                && !self.m_meshes.is_null() ==> it.remaining().len() == self.m_num_meshes,
    {
        self.m_meshes.iter(self.m_num_meshes as usize)
    }

    /// The mesh at index `id`: present exactly when `id` is below the
    /// declared mesh count and the record is there, so an out-of-range
    /// index from any source resolves to an absent value, never to a
    /// read beyond the array.
    pub fn mesh(&self, id: u32) -> (r: Option<&Mesh>)
        ensures
            match r {
                Some(m) => self.m_meshes.entry(self.m_num_meshes as nat, id as nat) == Some(*m),
                None => self.m_meshes.entry(self.m_num_meshes as nat, id as nat) is None,
            },
            id >= self.m_num_meshes ==> r is None,
            self.wf() && self.m_meshes.all_present(self.m_num_meshes as nat)
                && !self.m_meshes.is_null() ==> (r is Some <==> id < self.m_num_meshes),
            self.wf() ==> (r matches Some(m) ==> m.wf()),
    {
        self.m_meshes.get(self.m_num_meshes as usize, id as usize)
    }

    /// Resolve the `i`-th mesh index of a node against this scene:
    /// absent when the node has no `i`-th index, and absent — never an
    /// out-of-range read — when that index is at or beyond the scene's
    /// declared mesh count.
    pub fn node_mesh(&self, node: &Node, i: u32) -> (r: Option<&Mesh>)
        ensures
            match node.m_meshes.entry(node.m_num_meshes as nat, i as nat) {
                None => r is None,
                Some(id) => {
                    &&& id >= self.m_num_meshes ==> r is None
                    &&& match r {
                        Some(m) => self.m_meshes.entry(self.m_num_meshes as nat, id as nat)
                            == Some(*m),
                        None => self.m_meshes.entry(self.m_num_meshes as nat, id as nat) is None,
                    }
                },
            },
            self.wf() ==> (r matches Some(m) ==> m.wf()),
    {
        match node.mesh_index(i) {
            Some(id) => self.mesh(id),
            None => None,
        }
    }

    /// How many materials the scene declares.
    pub fn num_materials(&self) -> (r: u32)
        ensures
            r == self.m_num_materials,
    {
        self.m_num_materials
    }

    /// The materials, as a bounded walk.
    pub fn materials(&self) -> (it: IndirectIter<'_, Material>)
        ensures
            it.remaining() == self.m_materials.items(self.m_num_materials as nat),
            self.wf() && self.m_materials.all_present(self.m_num_materials as nat)
                && !self.m_materials.is_null() ==> it.remaining().len()
                == self.m_num_materials,
    {
        self.m_materials.iter(self.m_num_materials as usize)
    }

    /// The material at index `id`, absent from the declared count on.
    pub fn material(&self, id: u32) -> (r: Option<&Material>)
        ensures
            match r {
                Some(m) => self.m_materials.entry(self.m_num_materials as nat, id as nat)
                    == Some(*m),
                None => self.m_materials.entry(self.m_num_materials as nat, id as nat) is None,
            },
            id >= self.m_num_materials ==> r is None,
            self.wf() && self.m_materials.all_present(self.m_num_materials as nat)
                && !self.m_materials.is_null() ==> (r is Some <==> id < self.m_num_materials),
            self.wf() ==> (r matches Some(m) ==> m.wf()),
    {
        self.m_materials.get(self.m_num_materials as usize, id as usize)
    }

    /// How many animations the scene declares.
    pub fn num_animations(&self) -> (r: u32)
        ensures
            r == self.m_num_animations,
    {
        self.m_num_animations
    }

    /// The animations, as a bounded walk.
    pub fn animations(&self) -> (it: IndirectIter<'_, Animation>)
        ensures
            it.remaining() == self.m_animations.items(self.m_num_animations as nat),
            self.wf() && self.m_animations.all_present(self.m_num_animations as nat)
                && !self.m_animations.is_null() ==> it.remaining().len()
                == self.m_num_animations,
    {
        self.m_animations.iter(self.m_num_animations as usize)
    }

    /// The animation at index `id`, absent from the declared count on.
    pub fn animation(&self, id: u32) -> (r: Option<&Animation>)
        ensures
            match r {
                Some(a) => self.m_animations.entry(self.m_num_animations as nat, id as nat)
                    == Some(*a),
                None => self.m_animations.entry(self.m_num_animations as nat, id as nat) is None,
            },
            id >= self.m_num_animations ==> r is None,
            self.wf() ==> (r matches Some(a) ==> a.wf()),
    {
        self.m_animations.get(self.m_num_animations as usize, id as usize)
    }

    /// How many embedded textures the scene declares.
    pub fn num_textures(&self) -> (r: u32)
        ensures
            r == self.m_num_textures,
    {
        self.m_num_textures
    }

    /// The embedded textures, as a bounded walk.
    pub fn textures(&self) -> (it: IndirectIter<'_, crate::texture::Texture>)
        ensures
            it.remaining() == self.m_textures.items(self.m_num_textures as nat),
            self.wf() && self.m_textures.all_present(self.m_num_textures as nat)
                && !self.m_textures.is_null() ==> it.remaining().len() == self.m_num_textures,
    {
        self.m_textures.iter(self.m_num_textures as usize)
    }

    /// How many lights the scene declares.
    pub fn num_lights(&self) -> (r: u32)
        ensures
            r == self.m_num_lights,
    {
        self.m_num_lights
    }

    /// The lights, as a bounded walk.
    pub fn lights(&self) -> (it: IndirectIter<'_, Light>)
        ensures
            it.remaining() == self.m_lights.items(self.m_num_lights as nat),
            self.wf() && self.m_lights.all_present(self.m_num_lights as nat)
                && !self.m_lights.is_null() ==> it.remaining().len() == self.m_num_lights,
    {
        self.m_lights.iter(self.m_num_lights as usize)
    }

    /// The light at index `id`, absent from the declared count on.
    pub fn light(&self, id: u32) -> (r: Option<&Light>)
        ensures
            match r {
                Some(l) => self.m_lights.entry(self.m_num_lights as nat, id as nat) == Some(*l),
                None => self.m_lights.entry(self.m_num_lights as nat, id as nat) is None,
            },
            id >= self.m_num_lights ==> r is None,
    {
        self.m_lights.get(self.m_num_lights as usize, id as usize)
    }

    /// How many cameras the scene declares.
    pub fn num_cameras(&self) -> (r: u32)
        ensures
            r == self.m_num_cameras,
    {
        self.m_num_cameras
    }

    /// The cameras, as a bounded walk.
    pub fn cameras(&self) -> (it: IndirectIter<'_, Camera>)
        ensures
            it.remaining() == self.m_cameras.items(self.m_num_cameras as nat),
            self.wf() && self.m_cameras.all_present(self.m_num_cameras as nat)
                && !self.m_cameras.is_null() ==> it.remaining().len() == self.m_num_cameras,
    {
        self.m_cameras.iter(self.m_num_cameras as usize)
    }

    /// The camera at index `id`, absent from the declared count on.
    pub fn camera(&self, id: u32) -> (r: Option<&Camera>)
        ensures
            match r {
                Some(c) => self.m_cameras.entry(self.m_num_cameras as nat, id as nat) == Some(
                    *c,
                ),
                None => self.m_cameras.entry(self.m_num_cameras as nat, id as nat) is None,
            },
            id >= self.m_num_cameras ==> r is None,
    {
        self.m_cameras.get(self.m_num_cameras as usize, id as usize)
    }

    /// The embedded texture at index `id`, absent from the declared
    /// count on.
    pub fn texture(&self, id: u32) -> (r: Option<&crate::texture::Texture>)
        ensures
            match r {
                Some(t) => self.m_textures.entry(self.m_num_textures as nat, id as nat) == Some(
                    *t,
                ),
                None => self.m_textures.entry(self.m_num_textures as nat, id as nat) is None,
            },
            id >= self.m_num_textures ==> r is None,
            self.wf() ==> (r matches Some(t) ==> t.wf()),
    {
        self.m_textures.get(self.m_num_textures as usize, id as usize)
    }
}

/// The arena root: the sole owner of an imported scene and the sole
/// origin of borrows into it.
///
/// The lifecycle is enforced by ownership, not by a runtime check: an
/// arena exists only once the import succeeded and handed over its
/// records (opened), and `release` consumes the arena, so the borrow
/// checker refuses any view that would outlive it. No view can be
/// dereferenced after release, because no view can exist after release.
pub struct Arena {
    scene: Scene,
}

impl Arena {
    /// The scene this arena owns.
    pub closed spec fn spec_scene(self) -> Scene {
        self.scene
    }

    /// Open an arena over the records an import handed over.
    pub fn open(scene: Scene) -> (a: Arena)
        ensures
            a.spec_scene() == scene,
    {
        Arena { scene }
    }

    /// Borrow the scene; every view into the arena descends from this
    /// borrow and cannot outlive the arena.
    pub fn scene(&self) -> (r: &Scene)
        ensures
            *r == self.spec_scene(),
    {
        &self.scene
    }

    /// Release the arena. Consuming the arena ends every outstanding
    /// borrow of its records, so release cannot race with a live view;
    /// the owned records are dropped here, as the engine frees its blob
    /// on the matching call.
    pub fn release(self) {
    }
}

} // verus!
