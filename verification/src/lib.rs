//! Safe, borrow-scoped, verified views over an imported asset arena.
//!
//! A foreign import engine produces a large pointer-linked data structure,
//! the arena: a scene graph of nodes, flat arrays of meshes, materials,
//! textures and animations, and loosely typed property bags. This crate
//! models that arena as owned records with explicit counts, nullable arrays
//! (`Option`), and raw IEEE-754 bit patterns for the engine's floating-point
//! scalars, and verifies the view layer on top of it: bounded iteration,
//! range-checked indexed lookups, length-prefixed string decoding, and the
//! typed property decoder for material and metadata records.
//!
//! Every view borrows from the record it reads, so the borrow checker ties
//! the lifetime of each view to the arena that owns the records: once the
//! arena is released (dropped), no view into it can still be used.
//!
//! Record fields keep the engine's own field names, written `m_...`, so
//! that each modeled record stays recognizable next to the foreign layout
//! it stands for.

pub mod animation;
pub mod array;
pub mod face;
pub mod import;
pub mod io;
pub mod log;
pub mod material;
pub mod mesh;
pub mod node;
pub mod raw;
pub mod scene;
pub mod texture;
