//! What the library reads and writes of the host's scene.
//!
//! Textures, materials and cameras live in tables of the host. Here a table
//! is a vector and a handle is an index into it, so that a handle keeps its
//! meaning while the entry behind it changes.

use vstd::prelude::*;
use crate::geometry::{CameraRole, Plane, Transform, Vec4};

verus! {

/// The size of the output, or of a render target, in pixels.
#[derive(Clone, Copy, Debug, PartialEq, Eq, Structural)]
pub struct Extent {
    pub width: u32,
    pub height: u32,
}

/// The pixel format of a texture.
#[derive(Clone, Copy, Debug, PartialEq, Eq, Structural)]
pub enum TextureFormat {
    /// Blue, green, red and alpha, eight bits each.
    Bgra8UnormSrgb,
}

/// What a texture may be used for.
#[derive(Clone, Copy, Debug, PartialEq, Eq, Structural)]
pub struct TextureUsages {
    /// A shader may sample it.
    pub texture_binding: bool,
    /// Data may be copied into it.
    pub copy_dst: bool,
    /// A camera may draw into it.
    pub render_attachment: bool,
}

/// A two-dimensional colour texture.
#[derive(Clone, Copy, Debug, PartialEq, Eq, Structural)]
pub struct Image {
    pub size: Extent,
    pub format: TextureFormat,
    pub usage: TextureUsages,
}

impl Image {
    /// A texture of the given size that a camera can draw into and a shader
    /// can sample.
    pub open spec fn render_target_spec(size: Extent) -> Image {
        Image {
            size,
            format: TextureFormat::Bgra8UnormSrgb,
            usage: TextureUsages { texture_binding: true, copy_dst: true, render_attachment: true },
        }
    }

    pub fn render_target(size: Extent) -> (r: Image)
        ensures
            r == Image::render_target_spec(size),
    {
        Image {
            size,
            format: TextureFormat::Bgra8UnormSrgb,
            usage: TextureUsages { texture_binding: true, copy_dst: true, render_attachment: true },
        }
    }

    /// The same texture at another size.
    pub open spec fn resized_to(self, size: Extent) -> Image {
        Image { size, ..self }
    }

    /// Gives the texture another size; its format and usage stay.
    pub fn resize(&mut self, size: Extent)
        ensures
            *final(self) == old(self).resized_to(size),
    {
        self.size = size;
    }
}

/// The material of a reflective surface, as far as this library fills it:
/// the handles of the two textures that the shader samples.
#[derive(Clone, Copy, Debug, PartialEq, Eq, Structural)]
pub struct RefractiveMaterial {
    pub refraction_texture: Option<usize>,
    pub reflection_texture: Option<usize>,
}

impl RefractiveMaterial {
    /// A material as it is when its surface is spawned: no texture yet.
    pub fn new() -> (r: RefractiveMaterial)
        ensures
            r.refraction_texture.is_none(),
            r.reflection_texture.is_none(),
    {
        RefractiveMaterial { refraction_texture: None, reflection_texture: None }
    }

    /// The render layer that the auxiliary cameras draw.
    pub open spec fn render_layer_spec() -> u8 {
        1
    }

    pub fn render_layer() -> (r: u8)
        ensures
            r == Self::render_layer_spec(),
    {
        1
    }

    /// The layers of a mesh that is to show in the main pass and in the
    /// auxiliary passes: the default layer and the auxiliary one.
    pub fn layers() -> (r: Vec<u8>)
        ensures
            r@ == seq![0u8, Self::render_layer_spec()],
    {
        let mut r: Vec<u8> = Vec::new();
        r.push(0);
        r.push(Self::render_layer());
        r
    }

    /// Whether the material samples the texture behind `handle`.
    pub open spec fn samples(self, handle: usize) -> bool {
        self.refraction_texture == Some(handle) || self.reflection_texture == Some(handle)
    }
}

/// An entity marked as the primary viewer: its pose, and its environment
/// setting if it has one.
#[derive(Clone, Copy, Debug, PartialEq, Eq, Structural)]
pub struct MainCamera {
    pub transform: Transform,
    pub skybox: Option<u64>,
}

/// Whether a surface still waits for its cameras and textures.
#[derive(Clone, Copy, Debug, PartialEq, Eq, Structural)]
pub enum SurfaceState {
    Uninitialized,
    Built,
}

/// A reflective surface: the handle of its material, its plane, and whether
/// it was built.
#[derive(Clone, Copy, Debug, PartialEq, Eq, Structural)]
pub struct WaterSurface {
    pub material: usize,
    pub plane: Plane,
    pub state: SurfaceState,
}

impl WaterSurface {
    /// A surface that was just created or whose material was replaced.
    pub fn new(material: usize, plane: Plane) -> (r: WaterSurface)
        ensures
            r == (WaterSurface { material, plane, state: SurfaceState::Uninitialized }),
    {
        WaterSurface { material, plane, state: SurfaceState::Uninitialized }
    }

    /// The surface after it was built.
    pub open spec fn built(self) -> WaterSurface {
        WaterSurface { state: SurfaceState::Built, ..self }
    }
}

/// An off-screen camera that draws one of a surface's two textures.
#[derive(Clone, Copy, Debug, PartialEq, Eq, Structural)]
pub struct AuxiliaryCamera {
    pub role: CameraRole,
    /// Negative: the camera draws before the main pass.
    pub order: i32,
    /// The handle of the texture that it draws into.
    pub target: usize,
    pub clip_plane: Vec4,
    /// The one render layer that it sees.
    pub layer: u8,
    pub skybox: Option<u64>,
    pub transform: Transform,
}

impl AuxiliaryCamera {
    /// The render order of a role: refraction is -1, reflection is -2.
    pub open spec fn order_of(role: CameraRole) -> i32 {
        match role {
            CameraRole::Refraction => -1i32,
            CameraRole::Reflection => -2i32,
        }
    }

    /// The camera of `role` as it is spawned for a surface in `plane`.
    pub open spec fn spawned_spec(
        role: CameraRole,
        target: usize,
        plane: Plane,
        skybox: Option<u64>,
    ) -> AuxiliaryCamera {
        AuxiliaryCamera {
            role,
            order: Self::order_of(role),
            target,
            clip_plane: plane.clip_plane_spec(role),
            layer: RefractiveMaterial::render_layer_spec(),
            skybox,
            transform: Transform::identity_spec(),
        }
    }

    pub fn spawned(role: CameraRole, target: usize, plane: &Plane, skybox: Option<u64>) -> (r:
        AuxiliaryCamera)
        ensures
            r == Self::spawned_spec(role, target, *plane, skybox),
    {
        let order: i32 = match role {
            CameraRole::Refraction => -1,
            CameraRole::Reflection => -2,
        };
        AuxiliaryCamera {
            role,
            order,
            target,
            clip_plane: plane.clip_plane(role),
            layer: RefractiveMaterial::render_layer(),
            skybox,
            transform: Transform::identity(),
        }
    }

    /// The same camera at another pose.
    pub open spec fn moved_to(self, transform: Transform) -> AuxiliaryCamera {
        AuxiliaryCamera { transform, ..self }
    }

    /// Moves the camera: its pose changes, everything else stays.
    pub fn move_to(&mut self, transform: Transform)
        ensures
            *final(self) == old(self).moved_to(transform),
    {
        self.transform = transform;
    }
}

/// What went wrong in a tick. None of these is fatal: the tick's work is
/// skipped and tried again on the next one.
#[derive(Clone, Copy, Debug, PartialEq, Eq, Structural)]
pub enum MirrorError {
    /// No entity, or more than one, is marked as the primary viewer.
    NoPrimaryViewer,
    /// The output has no size yet.
    OutputNotReady,
    /// No camera, or more than one, has the role that was looked for.
    MissingAuxiliaryCamera,
}

} // verus!
