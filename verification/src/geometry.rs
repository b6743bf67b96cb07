//! Values of the scene's geometry.
//!
//! Every number is a single-precision value carried by its IEEE 754 bit
//! pattern. The library moves such values, compares them bit for bit and flips
//! their sign; it never rounds, so arithmetic on them is left to the host.

use vstd::prelude::*;

verus! {

/// The sign bit of a single-precision number.
pub const SIGN_BIT: u32 = 0x8000_0000;

/// The bit pattern of positive zero.
pub const ZERO_BITS: u32 = 0;

/// The bit pattern of one.
pub const ONE_BITS: u32 = 0x3f80_0000;

/// A single-precision number, by its bit pattern.
#[derive(Clone, Copy, Debug, PartialEq, Eq, Structural)]
pub struct Scalar {
    pub bits: u32,
}

impl Scalar {
    /// The number with the opposite sign and the same magnitude.
    pub open spec fn negated_spec(self) -> Scalar {
        Scalar { bits: self.bits ^ SIGN_BIT }
    }

    /// The number is zero, of either sign.
    pub open spec fn is_zero(self) -> bool {
        self.bits == ZERO_BITS || self.bits == SIGN_BIT
    }

    /// Flips the sign, as negating a single-precision number does for every
    /// value, zeros, infinities and NaNs included.
    pub fn negated(self) -> (r: Scalar)
        ensures
            r == self.negated_spec(),
    {
        Scalar { bits: self.bits ^ SIGN_BIT }
    }

    pub fn zero() -> (r: Scalar)
        ensures
            r.bits == ZERO_BITS,
    {
        Scalar { bits: ZERO_BITS }
    }

    pub fn one() -> (r: Scalar)
        ensures
            r.bits == ONE_BITS,
    {
        Scalar { bits: ONE_BITS }
    }
}

/// A point or a direction in space.
#[derive(Clone, Copy, Debug, PartialEq, Eq, Structural)]
pub struct Vec3 {
    pub x: Scalar,
    pub y: Scalar,
    pub z: Scalar,
}

impl Vec3 {
    pub open spec fn negated_spec(self) -> Vec3 {
        Vec3 { x: self.x.negated_spec(), y: self.y.negated_spec(), z: self.z.negated_spec() }
    }

    /// The opposite direction.
    pub fn negated(self) -> (r: Vec3)
        ensures
            r == self.negated_spec(),
    {
        Vec3 { x: self.x.negated(), y: self.y.negated(), z: self.z.negated() }
    }
}

/// A clip plane as a camera holds it: `(nx, ny, nz, d)`.
#[derive(Clone, Copy, Debug, PartialEq, Eq, Structural)]
pub struct Vec4 {
    pub x: Scalar,
    pub y: Scalar,
    pub z: Scalar,
    pub w: Scalar,
}

/// A rotation.
#[derive(Clone, Copy, Debug, PartialEq, Eq, Structural)]
pub struct Quat {
    pub x: Scalar,
    pub y: Scalar,
    pub z: Scalar,
    pub w: Scalar,
}

impl Quat {
    /// The rotation with its `y` and `w` components negated.
    pub open spec fn flipped_spec(self) -> Quat {
        Quat { x: self.x, y: self.y.negated_spec(), z: self.z, w: self.w.negated_spec() }
    }

    /// Mirrors a rotation that is given in a plane's own frame, where the
    /// plane's normal is the up axis: `y` and `w` change sign, `x` and `z`
    /// stay.
    pub fn flipped(self) -> (r: Quat)
        ensures
            r == self.flipped_spec(),
    {
        Quat { x: self.x, y: self.y.negated(), z: self.z, w: self.w.negated() }
    }
}

/// A rigid pose: where an entity is and how it is turned.
#[derive(Clone, Copy, Debug, PartialEq, Eq, Structural)]
pub struct Transform {
    pub translation: Vec3,
    pub rotation: Quat,
}

impl Transform {
    /// The pose at the origin with no rotation.
    pub open spec fn identity_spec() -> Transform {
        Transform {
            translation: Vec3 {
                x: Scalar { bits: ZERO_BITS },
                y: Scalar { bits: ZERO_BITS },
                z: Scalar { bits: ZERO_BITS },
            },
            rotation: Quat {
                x: Scalar { bits: ZERO_BITS },
                y: Scalar { bits: ZERO_BITS },
                z: Scalar { bits: ZERO_BITS },
                w: Scalar { bits: ONE_BITS },
            },
        }
    }

    /// The pose mirrored in the plane through the origin whose normal is the
    /// up axis.
    pub open spec fn mirrored_canonical_spec(self) -> Transform {
        Transform {
            translation: Vec3 {
                x: self.translation.x,
                y: self.translation.y.negated_spec(),
                z: self.translation.z,
            },
            rotation: self.rotation.flipped_spec(),
        }
    }

    /// Mirrors the pose in the plane through the origin whose normal is the
    /// up axis. In that plane no arithmetic is needed: the translation's `y`
    /// changes sign, and so do the rotation's `y` and `w`.
    pub fn mirrored_canonical(self) -> (r: Transform)
        ensures
            r == self.mirrored_canonical_spec(),
    {
        Transform {
            translation: Vec3 {
                x: self.translation.x,
                y: self.translation.y.negated(),
                z: self.translation.z,
            },
            rotation: self.rotation.flipped(),
        }
    }

    /// The pose a camera has when it is spawned.
    pub fn identity() -> (r: Transform)
        ensures
            r == Transform::identity_spec(),
    {
        Transform {
            translation: Vec3 { x: Scalar::zero(), y: Scalar::zero(), z: Scalar::zero() },
            rotation: Quat {
                x: Scalar::zero(),
                y: Scalar::zero(),
                z: Scalar::zero(),
                w: Scalar::one(),
            },
        }
    }
}

/// The role of an auxiliary camera.
#[derive(Clone, Copy, Debug, PartialEq, Eq, Structural)]
pub enum CameraRole {
    Reflection,
    Refraction,
}

/// All points `p` with `dot(normal, p) = distance`; `normal` has unit length.
#[derive(Clone, Copy, Debug, PartialEq, Eq, Structural)]
pub struct Plane {
    pub normal: Vec3,
    pub distance: Scalar,
}

impl Plane {
    /// The clip plane of the camera with the given role: the plane itself for
    /// the reflection camera, the plane with its normal inverted for the
    /// refraction camera. The distance is kept in both.
    pub open spec fn clip_plane_spec(self, role: CameraRole) -> Vec4 {
        match role {
            CameraRole::Reflection => Vec4 {
                x: self.normal.x,
                y: self.normal.y,
                z: self.normal.z,
                w: self.distance,
            },
            CameraRole::Refraction => Vec4 {
                x: self.normal.x.negated_spec(),
                y: self.normal.y.negated_spec(),
                z: self.normal.z.negated_spec(),
                w: self.distance,
            },
        }
    }

    pub fn clip_plane(&self, role: CameraRole) -> (r: Vec4)
        ensures
            r == self.clip_plane_spec(role),
    {
        match role {
            CameraRole::Reflection => Vec4 {
                x: self.normal.x,
                y: self.normal.y,
                z: self.normal.z,
                w: self.distance,
            },
            CameraRole::Refraction => {
                let n = self.normal.negated();
                Vec4 { x: n.x, y: n.y, z: n.z, w: self.distance }
            },
        }
    }
}

/// Flipping a sign twice gives the number back, bit for bit.
pub proof fn lemma_negated_twice(s: Scalar)
    ensures
        s.negated_spec().negated_spec() == s,
        s.negated_spec() != s,
{
    let b = s.bits;
    assert((b ^ 0x8000_0000u32) ^ 0x8000_0000u32 == b) by (bit_vector);
    assert((b ^ 0x8000_0000u32) != b) by (bit_vector);
}

/// Mirroring a rotation twice in a plane's own frame gives it back, bit for
/// bit.
pub proof fn lemma_flipped_twice(q: Quat)
    ensures
        q.flipped_spec().flipped_spec() == q,
{
    lemma_negated_twice(q.y);
    lemma_negated_twice(q.w);
}

/// Mirroring a pose twice in the plane through the origin whose normal is the
/// up axis gives the pose back, bit for bit.
pub proof fn lemma_mirrored_canonical_twice(t: Transform)
    ensures
        t.mirrored_canonical_spec().mirrored_canonical_spec() == t,
{
    lemma_negated_twice(t.translation.y);
    lemma_flipped_twice(t.rotation);
}

/// A pose whose translation lies in the plane through the origin whose
/// normal is the up axis stays in that plane when it is mirrored in it: the
/// translation keeps `x` and `z` bit for bit, and its `y` is zero again. Only
/// the sign of that zero changes.
pub proof fn lemma_mirrored_canonical_keeps_the_plane(t: Transform)
    requires
        t.translation.y.is_zero(),
    ensures
        t.mirrored_canonical_spec().translation.x == t.translation.x,
        t.mirrored_canonical_spec().translation.z == t.translation.z,
        t.mirrored_canonical_spec().translation.y.is_zero(),
{
    assert(0u32 ^ 0x8000_0000u32 == 0x8000_0000u32) by (bit_vector);
    assert(0x8000_0000u32 ^ 0x8000_0000u32 == 0u32) by (bit_vector);
}

/// The two auxiliary cameras of one surface clip along opposite normals at
/// the same distance.
pub proof fn lemma_clip_planes_oppose(p: Plane)
    ensures
        p.clip_plane_spec(CameraRole::Refraction).w == p.clip_plane_spec(CameraRole::Reflection).w,
        p.clip_plane_spec(CameraRole::Refraction).x
            == p.clip_plane_spec(CameraRole::Reflection).x.negated_spec(),
        p.clip_plane_spec(CameraRole::Refraction).y
            == p.clip_plane_spec(CameraRole::Reflection).y.negated_spec(),
        p.clip_plane_spec(CameraRole::Refraction).z
            == p.clip_plane_spec(CameraRole::Reflection).z.negated_spec(),
{
}

} // verus!
