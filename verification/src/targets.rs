//! What holds of the render targets at all times: the textures that the
//! surface materials sample exist and have the size of the output, and each
//! camera draws into a texture of its own.

use vstd::prelude::*;
use crate::builder::{filled, first_pending};
use crate::resize::resized;
use crate::geometry::{CameraRole, Plane, Transform};
use crate::scene::{AuxiliaryCamera, Extent, Image, RefractiveMaterial, WaterSurface};

verus! {

/// Every handle that a material holds points at a texture.
pub open spec fn targets_in_range(
    images: Seq<Image>,
    materials: Seq<RefractiveMaterial>,
) -> bool {
    forall|m: int, handle: usize|
        0 <= m < materials.len() && (#[trigger] materials[m].samples(handle)) ==> handle
            < images.len()
}

/// Every handle that a material holds points at a texture of size `size`.
pub open spec fn targets_sized(
    images: Seq<Image>,
    materials: Seq<RefractiveMaterial>,
    size: Extent,
) -> bool {
    forall|m: int, handle: usize|
        0 <= m < materials.len() && (#[trigger] materials[m].samples(handle)) ==> handle
            < images.len() && images[handle as int].size == size
}

/// Every camera draws into one of the first `images` textures, and no two
/// cameras into the same.
pub open spec fn cameras_well_targeted(cameras: Seq<AuxiliaryCamera>, images: nat) -> bool {
    &&& forall|c: int| 0 <= c < cameras.len() ==> (#[trigger] cameras[c]).target < images
    &&& forall|c: int, d: int|
        0 <= c < d < cameras.len() ==> (#[trigger] cameras[c]).target != (
        #[trigger] cameras[d]).target
}

/// A size change leaves every sampled texture at the new size, whatever
/// sizes they had, and so any two of them at the same size.
pub proof fn lemma_resize_sizes_targets(
    images: Seq<Image>,
    materials: Seq<RefractiveMaterial>,
    size: Extent,
)
    requires
        targets_in_range(images, materials),
    ensures
        targets_sized(resized(images, materials, size), materials, size),
{
}

/// A build at the size that the sampled textures already have keeps them
/// all at that size: the two new textures have it, and the built surface's
/// material samples those two.
pub proof fn lemma_build_sizes_targets(
    images: Seq<Image>,
    materials: Seq<RefractiveMaterial>,
    surfaces: Seq<WaterSurface>,
    i: int,
    size: Extent,
)
    requires
        targets_sized(images, materials, size),
        first_pending(surfaces, materials.len() as int, i),
        images.len() + 1 <= usize::MAX,
    ensures
        targets_sized(
            images.push(Image::render_target_spec(size)).push(Image::render_target_spec(size)),
            filled(materials, surfaces[i].material as int, images.len()),
            size,
        ),
{
}

/// The two cameras that a build spawns draw into the two textures that it
/// adds, one each, and so into textures that no other camera draws into.
pub proof fn lemma_build_targets_cameras(
    cameras: Seq<AuxiliaryCamera>,
    images: nat,
    plane: Plane,
    skybox: Option<u64>,
)
    requires
        cameras_well_targeted(cameras, images),
        images + 1 <= usize::MAX,
    ensures
        cameras_well_targeted(
            cameras.push(
                AuxiliaryCamera::spawned_spec(
                    CameraRole::Refraction,
                    images as usize,
                    plane,
                    skybox,
                ),
            ).push(
                AuxiliaryCamera::spawned_spec(
                    CameraRole::Reflection,
                    (images + 1) as usize,
                    plane,
                    skybox,
                ),
            ),
            images + 2,
        ),
{
}

/// Moving a camera changes its pose and nothing else: its role, its render
/// order, its target, its clip plane, its layer and its environment setting
/// stay, and so does every other camera.
pub proof fn lemma_move_keeps_the_camera(
    cameras: Seq<AuxiliaryCamera>,
    images: nat,
    i: int,
    pose: Transform,
)
    requires
        0 <= i < cameras.len(),
    ensures
        cameras[i].moved_to(pose).transform == pose,
        cameras[i].moved_to(pose).moved_to(cameras[i].transform) == cameras[i],
        cameras_well_targeted(cameras, images) ==> cameras_well_targeted(
            cameras.update(i, cameras[i].moved_to(pose)),
            images,
        ),
{
}

} // verus!
