//! Building a surface: the two render targets and the two cameras that a
//! reflective surface gets once, when it appears.

use vstd::prelude::*;
use crate::geometry::CameraRole;
use crate::lookup::{find_single, is_only, Lookup};
use crate::scene::{
    AuxiliaryCamera, Extent, Image, MainCamera, MirrorError, RefractiveMaterial, SurfaceState,
    WaterSurface,
};

verus! {

/// A surface waits to be built while it is uninitialized and its material
/// is in the table.
pub open spec fn is_pending(surface: WaterSurface, materials: int) -> bool {
    surface.state == SurfaceState::Uninitialized && surface.material < materials
}

/// `i` is the first surface that waits.
pub open spec fn first_pending(surfaces: Seq<WaterSurface>, materials: int, i: int) -> bool {
    &&& 0 <= i < surfaces.len()
    &&& is_pending(surfaces[i], materials)
    &&& forall|j: int| 0 <= j < i ==> !is_pending(#[trigger] surfaces[j], materials)
}

/// No surface waits.
pub open spec fn none_pending(surfaces: Seq<WaterSurface>, materials: int) -> bool {
    forall|j: int| 0 <= j < surfaces.len() ==> !is_pending(#[trigger] surfaces[j], materials)
}

/// The surfaces after the one at `i` was built.
pub open spec fn after_build(surfaces: Seq<WaterSurface>, i: int) -> Seq<WaterSurface> {
    surfaces.update(i, surfaces[i].built())
}

/// The materials after the one behind `material` was given the handles of
/// the two textures that a build adds to a table of `images` textures.
pub open spec fn filled(
    materials: Seq<RefractiveMaterial>,
    material: int,
    images: nat,
) -> Seq<RefractiveMaterial> {
    materials.update(
        material,
        (RefractiveMaterial {
            refraction_texture: Some(images as usize),
            reflection_texture: Some((images + 1) as usize),
        }),
    )
}

/// The output can take a render target: it exists, and it is at least one
/// pixel wide and one pixel high.
pub open spec fn output_ready(output: Option<Extent>) -> bool {
    output.is_some() && output.unwrap().width > 0 && output.unwrap().height > 0
}

/// Which viewers carry an environment setting.
pub open spec fn skybox_marks(viewers: Seq<MainCamera>) -> Seq<bool> {
    Seq::new(viewers.len(), |i: int| viewers[i].skybox.is_some())
}

/// The environment setting that new cameras take over: that of the one
/// primary viewer that has one, if there is exactly one such viewer.
pub open spec fn sole_skybox(viewers: Seq<MainCamera>) -> Option<u64> {
    if exists|i: int| is_only(skybox_marks(viewers), i) {
        viewers[choose|i: int| is_only(skybox_marks(viewers), i)].skybox
    } else {
        None
    }
}

/// Looks up the environment setting that new cameras take over.
pub fn find_skybox(viewers: &Vec<MainCamera>) -> (r: Option<u64>)
    ensures
        r == sole_skybox(viewers@),
{
    let mut marks: Vec<bool> = Vec::new();
    let mut k: usize = 0;
    while k < viewers.len()
        invariant
            k <= viewers.len(),
            marks@.len() == k,
            forall|j: int| 0 <= j < k ==> marks@[j] == viewers@[j].skybox.is_some(),
        decreases viewers.len() - k,
    {
        marks.push(viewers[k].skybox.is_some());
        k = k + 1;
    }
    assert(marks@ =~= skybox_marks(viewers@));
    match find_single(&marks) {
        Lookup::Found(i) => viewers[i].skybox,
        Lookup::NoneFound => None,
        Lookup::MultipleFound => None,
    }
}

/// Adds two render targets of the size `size` to the table, and returns
/// their handles: that of the first and that of the second.
pub fn allocate_targets(images: &mut Vec<Image>, size: Extent) -> (r: (usize, usize))
    ensures
        final(images)@ == old(images)@.push(Image::render_target_spec(size)).push(
            Image::render_target_spec(size),
        ),
        r.0 == old(images)@.len(),
        r.1 == old(images)@.len() + 1,
{
    let first: usize = images.len();
    images.push(Image::render_target(size));
    let second: usize = images.len();
    images.push(Image::render_target(size));
    (first, second)
}

/// Finds the first surface that waits to be built.
pub fn find_pending(surfaces: &Vec<WaterSurface>, materials: usize) -> (r: Option<usize>)
    ensures
        match r {
            Some(i) => first_pending(surfaces@, materials as int, i as int),
            None => none_pending(surfaces@, materials as int),
        },
{
    let mut k: usize = 0;
    while k < surfaces.len()
        invariant
            k <= surfaces.len(),
            forall|j: int| 0 <= j < k ==> !is_pending(#[trigger] surfaces@[j], materials as int),
        decreases surfaces.len() - k,
    {
        let s = surfaces[k];
        let waits = match s.state {
            SurfaceState::Uninitialized => s.material < materials,
            SurfaceState::Built => false,
        };
        if waits {
            return Some(k);
        }
        k = k + 1;
    }
    None
}

/// Building the first surface that waits takes that surface out of the
/// waiting ones and leaves every other surface as it was: one that waited
/// still waits, whatever the tick built.
pub proof fn lemma_build_leaves_the_rest(
    surfaces: Seq<WaterSurface>,
    materials: int,
    i: int,
    j: int,
)
    requires
        first_pending(surfaces, materials, i),
        0 <= j < surfaces.len(),
        j != i,
    ensures
        after_build(surfaces, i).len() == surfaces.len(),
        !is_pending(after_build(surfaces, i)[i], materials),
        after_build(surfaces, i)[j] == surfaces[j],
{
}

/// Two surfaces that wait at the same time are built by two ticks, one in
/// each: the first tick builds the one that comes first and leaves the other
/// waiting, the second tick builds the other, and then nothing waits.
pub proof fn lemma_two_waiting_two_ticks(
    surfaces: Seq<WaterSurface>,
    materials: int,
    a: int,
    b: int,
)
    requires
        0 <= a < b < surfaces.len(),
        is_pending(surfaces[a], materials),
        is_pending(surfaces[b], materials),
        forall|j: int|
            0 <= j < surfaces.len() && j != a && j != b ==> !is_pending(
                #[trigger] surfaces[j],
                materials,
            ),
    ensures
        first_pending(surfaces, materials, a),
        !is_pending(after_build(surfaces, a)[a], materials),
        first_pending(after_build(surfaces, a), materials, b),
        none_pending(after_build(after_build(surfaces, a), b), materials),
{
}

/// Builds the first surface that waits, if the output has a size.
///
/// Nothing waits: `Ok(None)`, and nothing changes. A surface waits and the
/// output is missing, or is no pixel wide or no pixel high:
/// `Err(OutputNotReady)`, nothing changes, and the surface goes on waiting, so
/// that no texture without a size is ever made. Otherwise the first waiting
/// surface, at index `i`, is built and `Ok(Some(i))` returned:
/// - two render targets of the output's size are added, the refraction
///   texture first, the reflection texture after it;
/// - the refraction camera and then the reflection camera are spawned, each
///   drawing into its texture, clipped by the surface's plane as its role
///   asks, and carrying the viewer's environment setting if there is one;
/// - the surface's material gets the two handles in place of what it held;
/// - the surface is marked as built. Every other surface stays as it was.
pub fn build_water(
    cameras: &mut Vec<AuxiliaryCamera>,
    materials: &mut Vec<RefractiveMaterial>,
    images: &mut Vec<Image>,
    surfaces: &mut Vec<WaterSurface>,
    output: Option<Extent>,
    viewers: &Vec<MainCamera>,
) -> (r: Result<Option<usize>, MirrorError>)
    ensures
        match r {
            Ok(None) => {
                &&& none_pending(old(surfaces)@, old(materials)@.len() as int)
                &&& final(cameras)@ == old(cameras)@
                &&& final(materials)@ == old(materials)@
                &&& final(images)@ == old(images)@
                &&& final(surfaces)@ == old(surfaces)@
            },
            Err(e) => {
                &&& e == MirrorError::OutputNotReady
                &&& !output_ready(output)
                &&& !none_pending(old(surfaces)@, old(materials)@.len() as int)
                &&& final(cameras)@ == old(cameras)@
                &&& final(materials)@ == old(materials)@
                &&& final(images)@ == old(images)@
                &&& final(surfaces)@ == old(surfaces)@
            },
            Ok(Some(i)) => {
                let surface = old(surfaces)@[i as int];
                let refraction = old(images)@.len() as usize;
                let reflection = (old(images)@.len() + 1) as usize;
                let skybox = sole_skybox(viewers@);
                &&& first_pending(old(surfaces)@, old(materials)@.len() as int, i as int)
                &&& output_ready(output)
                &&& final(images)@ == old(images)@.push(
                    Image::render_target_spec(output.unwrap()),
                ).push(Image::render_target_spec(output.unwrap()))
                &&& final(cameras)@ == old(cameras)@.push(
                    AuxiliaryCamera::spawned_spec(
                        CameraRole::Refraction,
                        refraction,
                        surface.plane,
                        skybox,
                    ),
                ).push(
                    AuxiliaryCamera::spawned_spec(
                        CameraRole::Reflection,
                        reflection,
                        surface.plane,
                        skybox,
                    ),
                )
                &&& final(materials)@ == filled(
                    old(materials)@,
                    surface.material as int,
                    old(images)@.len(),
                )
                &&& final(surfaces)@ == after_build(old(surfaces)@, i as int)
            },
        },
{
    let i: usize = match find_pending(surfaces, materials.len()) {
        Some(i) => i,
        None => {
            return Ok(None);
        },
    };
    let size: Extent = match output {
        Some(size) => {
            if size.width == 0 || size.height == 0 {
                return Err(MirrorError::OutputNotReady);
            }
            size
        },
        None => {
            return Err(MirrorError::OutputNotReady);
        },
    };
    let surface: WaterSurface = surfaces[i];
    let (refraction, reflection) = allocate_targets(images, size);

    let skybox = find_skybox(viewers);
    cameras.push(AuxiliaryCamera::spawned(CameraRole::Refraction, refraction, &surface.plane, skybox));
    cameras.push(AuxiliaryCamera::spawned(CameraRole::Reflection, reflection, &surface.plane, skybox));

    materials[surface.material] = RefractiveMaterial {
        refraction_texture: Some(refraction),
        reflection_texture: Some(reflection),
    };
    surfaces[i] = WaterSurface {
        material: surface.material,
        plane: surface.plane,
        state: SurfaceState::Built,
    };
    Ok(Some(i))
}

} // verus!
