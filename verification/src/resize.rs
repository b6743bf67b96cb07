//! Reacting to a change of the output's size: every texture that a surface
//! material samples is given the new size, behind the handle it already has.

use vstd::prelude::*;
use crate::scene::{Extent, Image, RefractiveMaterial};

verus! {

/// One of the first `n` materials samples the texture behind `handle`.
pub open spec fn is_target(materials: Seq<RefractiveMaterial>, n: int, handle: usize) -> bool {
    exists|m: int| 0 <= m < n && (#[trigger] materials[m]).samples(handle)
}

/// The textures after a change of the output's size to `size`: as many as
/// before, each at its place, those that a material samples at the new size
/// with their format and usage kept, and the others as they were.
pub open spec fn resized(
    images: Seq<Image>,
    materials: Seq<RefractiveMaterial>,
    size: Extent,
) -> Seq<Image> {
    Seq::new(
        images.len(),
        |k: int|
            if is_target(materials, materials.len() as int, k as usize) {
                images[k].resized_to(size)
            } else {
                images[k]
            },
    )
}

/// Gives every texture that a material samples the size `size`. A handle
/// that points outside the table is passed over.
pub fn resize_textures(
    images: &mut Vec<Image>,
    materials: &Vec<RefractiveMaterial>,
    size: Extent,
)
    ensures
        final(images)@ == resized(old(images)@, materials@, size),
{
    let mut j: usize = 0;
    while j < materials.len()
        invariant
            j <= materials.len(),
            images@.len() == old(images)@.len(),
            forall|k: int|
                0 <= k < images@.len() ==> images@[k] == if is_target(
                    materials@,
                    j as int,
                    k as usize,
                ) {
                    old(images)@[k].resized_to(size)
                } else {
                    old(images)@[k]
                },
        decreases materials.len() - j,
    {
        let material = materials[j];
        if let Some(handle) = material.refraction_texture {
            if handle < images.len() {
                let mut image = images[handle];
                image.resize(size);
                images[handle] = image;
            }
        }
        if let Some(handle) = material.reflection_texture {
            if handle < images.len() {
                let mut image = images[handle];
                image.resize(size);
                images[handle] = image;
            }
        }
        j = j + 1;
    }
}

/// Handles the size changes that arrived, in their order.
///
/// Each change resizes every texture that a material samples, so after the
/// last one those textures have the last size. Without a change nothing
/// happens. No texture is added or removed, and no handle changes.
pub fn resize_notificator(
    events: &Vec<Extent>,
    images: &mut Vec<Image>,
    materials: &Vec<RefractiveMaterial>,
)
    ensures
        final(images)@ == if events@.len() == 0 {
            old(images)@
        } else {
            resized(old(images)@, materials@, events@.last())
        },
{
    let mut e: usize = 0;
    while e < events.len()
        invariant
            e <= events.len(),
            images@ == if e == 0 {
                old(images)@
            } else {
                resized(old(images)@, materials@, events@[e - 1])
            },
        decreases events.len() - e,
    {
        proof {
            if e > 0 {
                lemma_resized_twice(old(images)@, materials@, events@[e - 1], events@[e as int]);
            }
        }
        resize_textures(images, materials, events[e]);
        e = e + 1;
    }
}

/// Only the last of two size changes shows.
pub proof fn lemma_resized_twice(
    images: Seq<Image>,
    materials: Seq<RefractiveMaterial>,
    first: Extent,
    second: Extent,
)
    ensures
        resized(resized(images, materials, first), materials, second) == resized(
            images,
            materials,
            second,
        ),
{
    assert(resized(resized(images, materials, first), materials, second) =~= resized(
        images,
        materials,
        second,
    ));
}

/// After a size change the two textures of every material have the new
/// size, and so the same size.
pub proof fn lemma_resize_reaches_textures(
    images: Seq<Image>,
    materials: Seq<RefractiveMaterial>,
    size: Extent,
    m: int,
    handle: usize,
)
    requires
        0 <= m < materials.len(),
        materials[m].samples(handle),
        handle < images.len(),
    ensures
        resized(images, materials, size).len() == images.len(),
        resized(images, materials, size)[handle as int] == images[handle as int].resized_to(size),
        resized(images, materials, size)[handle as int].size == size,
{
}

} // verus!
