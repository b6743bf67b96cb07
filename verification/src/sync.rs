//! Keeping the auxiliary cameras with the viewer, tick by tick.
//!
//! The refraction camera stands where the viewer stands. The reflection
//! camera stands at the viewer's pose mirrored in the surface's plane; that
//! pose is computed by the host from the operands handed out here, and then
//! written back.

use vstd::prelude::*;
use crate::geometry::{CameraRole, Transform, Vec4};
use crate::lookup::{find_single, is_only, none_marked, two_marked, Lookup};
use crate::scene::{AuxiliaryCamera, MainCamera, MirrorError};

verus! {

/// Which cameras have the role `role`.
pub open spec fn role_marks(cameras: Seq<AuxiliaryCamera>, role: CameraRole) -> Seq<bool> {
    Seq::new(cameras.len(), |i: int| cameras[i].role == role)
}

/// The camera at `i` is the only one with the role `role`.
pub open spec fn sole_camera(cameras: Seq<AuxiliaryCamera>, role: CameraRole, i: int) -> bool {
    is_only(role_marks(cameras, role), i)
}

/// No camera is the only one with the role `role`: none has it, or several.
pub open spec fn no_sole_camera(cameras: Seq<AuxiliaryCamera>, role: CameraRole) -> bool {
    none_marked(role_marks(cameras, role)) || two_marked(role_marks(cameras, role))
}

/// What the host is to mirror: the viewer's pose, the plane to mirror it in,
/// and the camera that takes the result.
#[derive(Clone, Copy, Debug, PartialEq, Eq, Structural)]
pub struct MirrorRequest {
    pub camera: usize,
    pub viewer: Transform,
    pub plane: Vec4,
}

/// What one tick of synchronization did for each of the two roles.
#[derive(Clone, Copy, Debug)]
pub struct SyncReport {
    /// The refraction camera that was moved to the viewer's pose.
    pub refraction: Result<usize, MirrorError>,
    /// The mirroring asked of the host for the reflection camera.
    pub reflection: Result<MirrorRequest, MirrorError>,
}

/// Looks for the one primary viewer.
pub fn find_viewer(viewers: &Vec<MainCamera>) -> (r: Lookup)
    ensures
        r == if viewers@.len() == 0 {
            Lookup::NoneFound
        } else if viewers@.len() == 1 {
            Lookup::Found(0)
        } else {
            Lookup::MultipleFound
        },
{
    if viewers.len() == 0 {
        Lookup::NoneFound
    } else if viewers.len() == 1 {
        Lookup::Found(0)
    } else {
        Lookup::MultipleFound
    }
}

/// Looks for the one camera with the role `role`.
pub fn find_camera(cameras: &Vec<AuxiliaryCamera>, role: CameraRole) -> (r: Lookup)
    ensures
        match r {
            Lookup::Found(i) => sole_camera(cameras@, role, i as int),
            Lookup::NoneFound => none_marked(role_marks(cameras@, role)),
            Lookup::MultipleFound => two_marked(role_marks(cameras@, role)),
        },
{
    let mut marks: Vec<bool> = Vec::new();
    let mut k: usize = 0;
    while k < cameras.len()
        invariant
            k <= cameras.len(),
            marks@.len() == k,
            forall|j: int| 0 <= j < k ==> marks@[j] == (cameras@[j].role == role),
        decreases cameras.len() - k,
    {
        marks.push(cameras[k].role == role);
        k = k + 1;
    }
    assert(marks@ =~= role_marks(cameras@, role));
    find_single(&marks)
}

/// One tick of synchronization.
///
/// Unless exactly one primary viewer exists, the tick fails with
/// `NoPrimaryViewer` and no camera is touched. Otherwise:
/// - the one refraction camera, if there is exactly one, gets the viewer's
///   pose, bit for bit; no other camera changes;
/// - for the one reflection camera, if there is exactly one, the report
///   holds the viewer's pose and that camera's clip plane, to be mirrored and
///   written back with [`write_mirrored`].
/// A role without its one camera is reported as `MissingAuxiliaryCamera`,
/// and the other role is served all the same.
pub fn system(viewers: &Vec<MainCamera>, cameras: &mut Vec<AuxiliaryCamera>) -> (r: Result<
    SyncReport,
    MirrorError,
>)
    ensures
        match r {
            Err(e) => {
                &&& e == MirrorError::NoPrimaryViewer
                &&& viewers@.len() != 1
                &&& final(cameras)@ == old(cameras)@
            },
            Ok(report) => {
                &&& viewers@.len() == 1
                &&& match report.refraction {
                    Ok(i) => {
                        &&& sole_camera(old(cameras)@, CameraRole::Refraction, i as int)
                        &&& final(cameras)@ == old(cameras)@.update(
                            i as int,
                            old(cameras)@[i as int].moved_to(viewers@[0].transform),
                        )
                    },
                    Err(e) => {
                        &&& e == MirrorError::MissingAuxiliaryCamera
                        &&& no_sole_camera(old(cameras)@, CameraRole::Refraction)
                        &&& final(cameras)@ == old(cameras)@
                    },
                }
                &&& match report.reflection {
                    Ok(request) => {
                        &&& sole_camera(old(cameras)@, CameraRole::Reflection, request.camera as int)
                        &&& request.viewer == viewers@[0].transform
                        &&& request.plane == old(cameras)@[request.camera as int].clip_plane
                    },
                    Err(e) => {
                        &&& e == MirrorError::MissingAuxiliaryCamera
                        &&& no_sole_camera(old(cameras)@, CameraRole::Reflection)
                    },
                }
            },
        },
{
    let pose: Transform = match find_viewer(viewers) {
        Lookup::Found(v) => viewers[v].transform,
        Lookup::NoneFound => {
            return Err(MirrorError::NoPrimaryViewer);
        },
        Lookup::MultipleFound => {
            return Err(MirrorError::NoPrimaryViewer);
        },
    };
    let reflection: Result<MirrorRequest, MirrorError> = match find_camera(
        cameras,
        CameraRole::Reflection,
    ) {
        Lookup::Found(i) => Ok(
            MirrorRequest { camera: i, viewer: pose, plane: cameras[i].clip_plane },
        ),
        Lookup::NoneFound => Err(MirrorError::MissingAuxiliaryCamera),
        Lookup::MultipleFound => Err(MirrorError::MissingAuxiliaryCamera),
    };
    let refraction: Result<usize, MirrorError> = match find_camera(
        cameras,
        CameraRole::Refraction,
    ) {
        Lookup::Found(i) => {
            let mut camera = cameras[i];
            camera.move_to(pose);
            cameras[i] = camera;
            Ok(i)
        },
        Lookup::NoneFound => Err(MirrorError::MissingAuxiliaryCamera),
        Lookup::MultipleFound => Err(MirrorError::MissingAuxiliaryCamera),
    };
    Ok(SyncReport { refraction, reflection })
}

/// Writes the mirrored pose that the host computed for `request` onto the
/// reflection camera that the request names.
///
/// The camera gets the pose and `true` is returned if the request still
/// names a reflection camera. Otherwise nothing is written.
pub fn write_mirrored(
    cameras: &mut Vec<AuxiliaryCamera>,
    request: &MirrorRequest,
    mirrored: Transform,
) -> (written: bool)
    ensures
        written == (request.camera < old(cameras)@.len() && old(cameras)@[request.camera as int].role
            == CameraRole::Reflection),
        final(cameras)@ == if written {
            old(cameras)@.update(
                request.camera as int,
                old(cameras)@[request.camera as int].moved_to(mirrored),
            )
        } else {
            old(cameras)@
        },
{
    let i: usize = request.camera;
    if i >= cameras.len() {
        return false;
    }
    let camera = cameras[i];
    match camera.role {
        CameraRole::Refraction => false,
        CameraRole::Reflection => {
            let mut moved = camera;
            moved.move_to(mirrored);
            cameras[i] = moved;
            true
        },
    }
}

} // verus!
