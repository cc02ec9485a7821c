//! Runtime core of a real-time 3D engine: an entity world with deferred,
//! message-based mutation, and a descriptor-to-resource realization pipeline
//! with lazy, idempotent preparation.
//!
//! The GPU device, queue and surface are opaque capabilities supplied by the
//! host; this crate models the state they carry (texture contents, buffer
//! contents, surface configuration) as plain data and never creates a device
//! itself.

pub mod camera;
pub mod chain;
pub mod color;
pub mod debug_camera;
pub mod descriptors;
pub mod entity;
pub mod entity_system;
pub mod error;
pub mod gpu;
pub mod input;
pub mod material;
pub mod math;
pub mod mesh;
pub mod model;
pub mod runtime;
pub mod square;
pub mod surface;
pub mod text;
pub mod texture;
pub mod world;
