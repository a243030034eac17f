//! Animations: per-node channels of keyed vectors and rotations.

use crate::array::{DirectArray, DirectIter, IndirectArray, IndirectIter};
use crate::raw::{AiStr, Quaternion, Vector3D};
use vstd::prelude::*;

verus! {

/// A keyframe holding a vector; the time stamp is the raw bit pattern of
/// a 64-bit float.
#[derive(Debug, Clone, Copy, PartialEq, Eq, Structural)]
pub struct VectorKey {
    pub m_time: u64,
    pub m_value: Vector3D,
}

impl VectorKey {
    /// The key's time stamp, as the raw bit pattern of a 64-bit float.
    pub fn time(&self) -> (r: u64)
        ensures
            r == self.m_time,
    {
        self.m_time
    }

    /// The key's vector value.
    pub fn value(&self) -> (r: Vector3D)
        ensures
            r == self.m_value,
    {
        self.m_value
    }
}

/// A keyframe holding a rotation; the time stamp is the raw bit pattern
/// of a 64-bit float.
#[derive(Debug, Clone, Copy, PartialEq, Eq, Structural)]
pub struct QuatKey {
    pub m_time: u64,
    pub m_value: Quaternion,
}

impl QuatKey {
    /// The key's time stamp, as the raw bit pattern of a 64-bit float.
    pub fn time(&self) -> (r: u64)
        ensures
            r == self.m_time,
    {
        self.m_time
    }

    /// The key's rotation value.
    pub fn value(&self) -> (r: Quaternion)
        ensures
            r == self.m_value,
    {
        self.m_value
    }
}

/// One animation channel: the keys that drive a single named node.
#[derive(Debug, Clone, PartialEq)]
pub struct NodeAnim {
    pub m_node_name: AiStr,
    pub m_num_position_keys: u32,
    pub m_position_keys: DirectArray<VectorKey>,
    pub m_num_rotation_keys: u32,
    pub m_rotation_keys: DirectArray<QuatKey>,
    pub m_num_scaling_keys: u32,
    pub m_scaling_keys: DirectArray<VectorKey>,
}

impl NodeAnim {
    /// The channel record is consistent with its own counts.
    pub open spec fn wf(self) -> bool {
        &&& self.m_node_name.wf()
        &&& self.m_position_keys.complete(self.m_num_position_keys as nat)
        &&& self.m_rotation_keys.complete(self.m_num_rotation_keys as nat)
        &&& self.m_scaling_keys.complete(self.m_num_scaling_keys as nat)
    }

    /// The name of the node this channel drives.
    pub fn node_name(&self) -> (r: Vec<u8>)
        requires
            self.wf(),
        ensures
            r@ == self.m_node_name.chars(),
    {
        self.m_node_name.decode()
    }

    /// The position keys, as a bounded walk.
    pub fn position_keys(&self) -> (it: DirectIter<'_, VectorKey>)
        ensures
            it.remaining() == self.m_position_keys.items(self.m_num_position_keys as nat),
            self.wf() ==> it.remaining().len() == self.m_num_position_keys,
    {
        self.m_position_keys.iter(self.m_num_position_keys as usize)
    }

    /// The position key at `id`, absent from `m_num_position_keys` on.
    pub fn get_position_key(&self, id: usize) -> (r: Option<&VectorKey>)
        ensures
            match r {
                Some(k) => self.m_position_keys.entry(self.m_num_position_keys as nat, id as nat)
                    == Some(*k),
                None => self.m_position_keys.entry(
                    self.m_num_position_keys as nat,
                    id as nat,
                ) is None,
            },
            self.wf() ==> (r is Some <==> id < self.m_num_position_keys),
    {
        self.m_position_keys.get(self.m_num_position_keys as usize, id)
    }

    /// The rotation keys, as a bounded walk.
    pub fn rotation_keys(&self) -> (it: DirectIter<'_, QuatKey>)
        ensures
            it.remaining() == self.m_rotation_keys.items(self.m_num_rotation_keys as nat),
            self.wf() ==> it.remaining().len() == self.m_num_rotation_keys,
    {
        self.m_rotation_keys.iter(self.m_num_rotation_keys as usize)
    }

    /// The rotation key at `id`, absent from `m_num_rotation_keys` on.
    pub fn get_rotation_key(&self, id: usize) -> (r: Option<&QuatKey>)
        ensures
            match r {
                Some(k) => self.m_rotation_keys.entry(self.m_num_rotation_keys as nat, id as nat)
                    == Some(*k),
                None => self.m_rotation_keys.entry(
                    self.m_num_rotation_keys as nat,
                    id as nat,
                ) is None,
            },
            self.wf() ==> (r is Some <==> id < self.m_num_rotation_keys),
    {
        self.m_rotation_keys.get(self.m_num_rotation_keys as usize, id)
    }

    /// The scaling keys, as a bounded walk.
    pub fn scaling_keys(&self) -> (it: DirectIter<'_, VectorKey>)
        ensures
            it.remaining() == self.m_scaling_keys.items(self.m_num_scaling_keys as nat),
            self.wf() ==> it.remaining().len() == self.m_num_scaling_keys,
    {
        self.m_scaling_keys.iter(self.m_num_scaling_keys as usize)
    }

    /// The scaling key at `id`, absent from `m_num_scaling_keys` on.
    pub fn get_scaling_key(&self, id: usize) -> (r: Option<&VectorKey>)
        ensures
            match r {
                Some(k) => self.m_scaling_keys.entry(self.m_num_scaling_keys as nat, id as nat)
                    == Some(*k),
                None => self.m_scaling_keys.entry(
                    self.m_num_scaling_keys as nat,
                    id as nat,
                ) is None,
            },
            self.wf() ==> (r is Some <==> id < self.m_num_scaling_keys),
    {
        self.m_scaling_keys.get(self.m_num_scaling_keys as usize, id)
    }
}

/// An animation: a duration, a tick rate, and one channel per driven
/// node.
#[derive(Debug, Clone, PartialEq)]
pub struct Animation {
    pub m_name: AiStr,
    /// The duration in ticks, as the raw bit pattern of a 64-bit float.
    pub m_duration: u64,
    /// Ticks per second, as the raw bit pattern of a 64-bit float; zero
    /// bits when the format does not say.
    pub m_ticks_per_second: u64,
    pub m_num_channels: u32,
    pub m_channels: IndirectArray<NodeAnim>,
}

impl Animation {
    /// The animation record and every channel under it are consistent.
    pub open spec fn wf(self) -> bool {
        &&& self.m_name.wf()
        &&& self.m_channels.matches(self.m_num_channels as nat)
        &&& match self.m_channels.base {
            Option::None => true,
            Option::Some(v) => forall|i: int|
                0 <= i < v@.len() ==> ((#[trigger] v@[i]) matches Some(c) ==> c.wf()),
        }
    }

    /// Ticks per second, as the raw bit pattern of a 64-bit float.
    pub fn fps(&self) -> (r: u64)
        ensures
            r == self.m_ticks_per_second,
    {
        self.m_ticks_per_second
    }

    /// The duration in ticks, as the raw bit pattern of a 64-bit float.
    pub fn duration(&self) -> (r: u64)
        ensures
            r == self.m_duration,
    {
        self.m_duration
    }

    /// The per-node channels, as a bounded walk.
    pub fn node_anims(&self) -> (it: IndirectIter<'_, NodeAnim>)
        ensures
            it.remaining() == self.m_channels.items(self.m_num_channels as nat),
            self.wf() && self.m_channels.all_present(self.m_num_channels as nat)
                && !self.m_channels.is_null() ==> it.remaining().len() == self.m_num_channels,
    {
        self.m_channels.iter(self.m_num_channels as usize)
    }

    /// The channel at `id`, absent from `m_num_channels` on or behind a
    /// null record pointer. A channel of a consistent animation is itself
    /// consistent.
    pub fn get_node_anim(&self, id: usize) -> (r: Option<&NodeAnim>)
        ensures
            match r {
                Some(c) => self.m_channels.entry(self.m_num_channels as nat, id as nat) == Some(
                    *c,
                ),
                None => self.m_channels.entry(self.m_num_channels as nat, id as nat) is None,
            },
            self.wf() && self.m_channels.all_present(self.m_num_channels as nat)
                && !self.m_channels.is_null() ==> (r is Some <==> id < self.m_num_channels),
            self.wf() ==> (r matches Some(c) ==> c.wf()),
    {
        self.m_channels.get(self.m_num_channels as usize, id)
    }
}

} // verus!
