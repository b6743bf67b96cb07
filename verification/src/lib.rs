//! Planar reflection and refraction for a mirror or water surface.
//!
//! A reflective surface is drawn with two auxiliary cameras, one that sees
//! the scene mirrored in the surface's plane and one that sees through it.
//! This library holds the rules that keep those cameras and their render
//! targets right: what is created when a surface appears, what is written
//! each tick as the viewer moves, and what happens when the output is
//! resized. The host owns the scene graph, the GPU and the arithmetic on
//! single-precision numbers.

pub mod builder;
pub mod geometry;
pub mod lookup;
pub mod plugin;
pub mod resize;
pub mod scene;
pub mod sync;
pub mod targets;

pub use builder::{allocate_targets, build_water, find_pending, find_skybox};
pub use geometry::{CameraRole, Plane, Quat, Scalar, Transform, Vec3, Vec4};
pub use lookup::{find_single, Lookup};
pub use plugin::{Behaviour, RefractiveMaterialPlugin};
pub use resize::{resize_notificator, resize_textures};
pub use scene::{
    AuxiliaryCamera, Extent, Image, MainCamera, MirrorError, RefractiveMaterial, SurfaceState,
    TextureFormat, TextureUsages, WaterSurface,
};
pub use sync::{find_camera, find_viewer, system, write_mirrored, MirrorRequest, SyncReport};
