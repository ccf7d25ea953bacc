//! Plain carriers for the numbers a renderer moves around.
//!
//! The library never does arithmetic on a real number: it decides which
//! values go where and in which order. A real is therefore held by the 32-bit
//! pattern of its IEEE-754 single-precision encoding and handed on unchanged.
//! Whoever drives the graphics backend turns patterns into numbers.

use vstd::prelude::*;

verus! {

/// Bit pattern of `0.0`.
pub const ZERO: u32 = 0x0000_0000;

/// Bit pattern of `0.5`.
pub const HALF: u32 = 0x3F00_0000;

/// Bit pattern of `1.0`.
pub const ONE: u32 = 0x3F80_0000;

/// Bit pattern of `-1.0`.
pub const MINUS_ONE: u32 = 0xBF80_0000;

/// Bit pattern of `10.0`.
pub const TEN: u32 = 0x4120_0000;

/// Bit pattern of `32.0`.
pub const THIRTY_TWO: u32 = 0x4200_0000;

/// Bit pattern of `0.1`.
pub const ONE_TENTH: u32 = 0x3DCC_CCCD;

/// Bit pattern of `0.01`.
pub const ONE_HUNDREDTH: u32 = 0x3C23_D70A;

/// Bit pattern of `100.0`.
pub const HUNDRED: u32 = 0x42C8_0000;

/// Bit pattern of `-100.0`.
pub const MINUS_HUNDRED: u32 = 0xC2C8_0000;

/// Bit pattern of `200.0`.
pub const TWO_HUNDRED: u32 = 0x4348_0000;

/// Bit pattern of `-10.0`.
pub const MINUS_TEN: u32 = 0xC120_0000;

/// The sign bit of a pattern.
pub const SIGN_BIT: u32 = 0x8000_0000;

/// Bit pattern of positive infinity. A pattern whose magnitude is larger
/// stands for no number.
pub const INFINITY: u32 = 0x7F80_0000;

/// Bit pattern of a quarter turn, 90 degrees, in radians.
pub const QUARTER_TURN: u32 = 0x3FC9_0FDB;

/// A real number, carried by its bit pattern.
#[derive(Clone, Copy, Debug, PartialEq, Eq)]
pub struct Scalar {
    pub bits: u32,
}

impl Scalar {
    /// The pattern without its sign bit, which is the pattern of the
    /// absolute value. Among patterns that stand for numbers, a larger
    /// magnitude is a larger absolute value.
    pub open spec fn spec_magnitude(self) -> u32 {
        if self.bits >= SIGN_BIT {
            (self.bits - SIGN_BIT) as u32
        } else {
            self.bits
        }
    }

    #[verifier::when_used_as_spec(spec_magnitude)]
    pub fn magnitude(self) -> (m: u32)
        ensures
            m == self.magnitude(),
            m < SIGN_BIT,
    {
        if self.bits >= SIGN_BIT {
            self.bits - SIGN_BIT
        } else {
            self.bits
        }
    }

    /// Whether the pattern stands for no number.
    pub open spec fn is_nan(self) -> bool {
        self.magnitude() > INFINITY
    }

    /// Whether the pattern carries the sign bit.
    pub open spec fn is_negative(self) -> bool {
        self.bits >= SIGN_BIT
    }

    /// Whether the absolute value is at most the non-negative number whose
    /// pattern is `limit`. False for a pattern that stands for no number.
    pub open spec fn within(self, limit: u32) -> bool {
        self.magnitude() <= limit
    }

    /// This value held between `-limit` and `limit`, where `limit` is the
    /// pattern of a non-negative number: a value beyond the limit becomes the
    /// limit with the value's sign, any other value stays, and so does a
    /// pattern that stands for no number.
    pub open spec fn spec_clamp(self, limit: u32) -> Scalar {
        if self.is_nan() || self.within(limit) {
            self
        } else if self.is_negative() {
            Scalar { bits: (limit + SIGN_BIT) as u32 }
        } else {
            Scalar { bits: limit }
        }
    }

    #[verifier::when_used_as_spec(spec_clamp)]
    pub fn clamp(self, limit: u32) -> (held: Scalar)
        requires
            limit <= INFINITY,
        ensures
            held == self.clamp(limit),
            held.is_nan() <==> self.is_nan(),
            !self.is_nan() ==> held.within(limit),
            self.within(limit) ==> held == self,
            held.is_negative() == self.is_negative(),
            held.clamp(limit) == held,
    {
        let magnitude: u32 = self.magnitude();
        if magnitude > INFINITY || magnitude <= limit {
            self
        } else if self.bits >= SIGN_BIT {
            Scalar { bits: limit + SIGN_BIT }
        } else {
            Scalar { bits: limit }
        }
    }

    /// The real with the given bit pattern.
    pub fn from_bits(bits: u32) -> (r: Scalar)
        ensures
            r.bits == bits,
    {
        Scalar { bits }
    }

    /// The bit pattern of the real.
    pub fn to_bits(self) -> (r: u32)
        ensures
            r == self.bits,
    {
        self.bits
    }
}

#[derive(Clone, Copy, Debug, PartialEq, Eq)]
pub struct Vector2 {
    pub x: Scalar,
    pub y: Scalar,
}

impl Vector2 {
    pub fn new(x: Scalar, y: Scalar) -> (r: Vector2)
        ensures
            r == (Vector2 { x, y }),
    {
        Vector2 { x, y }
    }

    /// The vector `(0, 0)`.
    pub open spec fn spec_zero() -> Vector2 {
        Vector2 { x: Scalar { bits: ZERO }, y: Scalar { bits: ZERO } }
    }

    #[verifier::when_used_as_spec(spec_zero)]
    pub fn zero() -> (r: Vector2)
        ensures
            r == Vector2::spec_zero(),
    {
        Vector2 { x: Scalar { bits: ZERO }, y: Scalar { bits: ZERO } }
    }
}

#[derive(Clone, Copy, Debug, PartialEq, Eq)]
pub struct Vector3 {
    pub x: Scalar,
    pub y: Scalar,
    pub z: Scalar,
}

impl Vector3 {
    pub fn new(x: Scalar, y: Scalar, z: Scalar) -> (r: Vector3)
        ensures
            r == (Vector3 { x, y, z }),
    {
        Vector3 { x, y, z }
    }

    /// The vector whose three components all have the pattern `bits`.
    pub open spec fn spec_splat(bits: u32) -> Vector3 {
        Vector3 { x: Scalar { bits }, y: Scalar { bits }, z: Scalar { bits } }
    }

    #[verifier::when_used_as_spec(spec_splat)]
    pub fn splat(bits: u32) -> (r: Vector3)
        ensures
            r == Vector3::spec_splat(bits),
    {
        Vector3 { x: Scalar { bits }, y: Scalar { bits }, z: Scalar { bits } }
    }

    /// The vector `(0, 0, 0)`.
    pub open spec fn spec_zero() -> Vector3 {
        Vector3::spec_splat(ZERO)
    }

    #[verifier::when_used_as_spec(spec_zero)]
    pub fn zero() -> (r: Vector3)
        ensures
            r == Vector3::spec_zero(),
    {
        Vector3::splat(ZERO)
    }

    /// The unit vector along the world's up axis, `(0, 1, 0)`.
    pub open spec fn spec_unit_y() -> Vector3 {
        Vector3 { x: Scalar { bits: ZERO }, y: Scalar { bits: ONE }, z: Scalar { bits: ZERO } }
    }

    #[verifier::when_used_as_spec(spec_unit_y)]
    pub fn unit_y() -> (r: Vector3)
        ensures
            r == Vector3::spec_unit_y(),
    {
        Vector3 { x: Scalar { bits: ZERO }, y: Scalar { bits: ONE }, z: Scalar { bits: ZERO } }
    }
}

/// A rotation as scalar part `s` and vector part `v`.
#[derive(Clone, Copy, Debug, PartialEq, Eq)]
pub struct Quaternion {
    pub s: Scalar,
    pub v: Vector3,
}

impl Quaternion {
    /// The quaternion whose four parts are all zero.
    pub open spec fn spec_zero() -> Quaternion {
        Quaternion { s: Scalar { bits: ZERO }, v: Vector3::spec_zero() }
    }

    #[verifier::when_used_as_spec(spec_zero)]
    pub fn zero() -> (r: Quaternion)
        ensures
            r == Quaternion::spec_zero(),
    {
        Quaternion { s: Scalar { bits: ZERO }, v: Vector3::zero() }
    }
}

/// Three angles in radians, applied about the x, y and z axes.
#[derive(Clone, Copy, Debug, PartialEq, Eq)]
pub struct Euler {
    pub x: Scalar,
    pub y: Scalar,
    pub z: Scalar,
}

/// A rotation in whichever form is authoritative for its owner. Exactly one
/// form is stored; converting between forms needs arithmetic and is left to
/// the caller.
#[derive(Clone, Copy, Debug, PartialEq, Eq)]
pub enum Rotation {
    Quaternion(Quaternion),
    Euler(Euler),
    /// Yaw about the world's up axis, then pitch about the local x axis.
    YawPitch { yaw: Scalar, pitch: Scalar },
    /// The rotation that looks along `direction` with `up` upwards.
    Facing { direction: Vector3, up: Vector3 },
}

impl Rotation {
    /// Whether the three angles are the authoritative form.
    pub fn uses_angles(&self) -> (yes: bool)
        ensures
            yes == (self is Euler),
    {
        match self {
            Rotation::Euler(_) => true,
            _ => false,
        }
    }

    /// The rotation after its three angles were shown for editing.
    /// `using_angles` says whether the angles are to be authoritative from
    /// now on, `angles` are the angles as edited, and `turned` is the
    /// quaternion that these angles stand for.
    ///
    /// While the angles are authoritative, the rotation is the angles as
    /// edited. At the moment they cease to be, the rotation becomes the
    /// quaternion they stand for; this is the only conversion. A rotation
    /// whose angles were not authoritative and are not made so stays as it
    /// is, whatever the angles shown.
    pub fn edited(self, using_angles: bool, angles: Euler, turned: Quaternion) -> (after: Rotation)
        ensures
            using_angles ==> after == Rotation::Euler(angles),
            !using_angles && self is Euler ==> after == Rotation::Quaternion(turned),
            !using_angles && !(self is Euler) ==> after == self,
            (after is Euler) == using_angles,
    {
        if using_angles {
            Rotation::Euler(angles)
        } else if self.uses_angles() {
            Rotation::Quaternion(turned)
        } else {
            self
        }
    }
}

/// Position, rotation and non-uniform scale of an entity. The matrix that a
/// backend derives from it is the product of [`Transform::factors`]:
/// `translate(position) * scale(scale) * rotate(rotation)`, in that order.
#[derive(Clone, Copy, Debug, PartialEq, Eq)]
pub struct Transform {
    pub position: Vector3,
    pub rotation: Rotation,
    pub scale: Vector3,
}

/// One factor of a transform's matrix.
#[derive(Clone, Copy, Debug, PartialEq, Eq)]
pub enum Factor {
    Translation(Vector3),
    Scale(Vector3),
    Rotation(Rotation),
}

impl Transform {
    /// The factors of the transform's matrix, leftmost first: the matrix is
    /// `translation * scale * rotation`, so that a point is first rotated,
    /// then scaled, then moved.
    pub fn factors(&self) -> (factors: [Factor; 3])
        ensures
            factors[0] == Factor::Translation(self.position),
            factors[1] == Factor::Scale(self.scale),
            factors[2] == Factor::Rotation(self.rotation),
    {
        [
            Factor::Translation(self.position),
            Factor::Scale(self.scale),
            Factor::Rotation(self.rotation),
        ]
    }
}

/// A 4x4 matrix in column-major order.
#[derive(Clone, Copy, Debug, PartialEq, Eq)]
pub struct Matrix4 {
    pub cells: [u32; 16],
}

/// An angle in radians, as a number or as the way to get it.
#[derive(Clone, Copy, Debug, PartialEq, Eq)]
pub enum Angle {
    Given(Scalar),
    /// `angle * numerator / denominator`.
    Scaled { angle: Scalar, numerator: u32, denominator: u32 },
    /// The vertical field of view that goes with the horizontal field of
    /// view `horizontal` on a surface of `width` by `height`:
    /// `0.5 * height / (0.5 * width / tan(0.5 * horizontal))`.
    Fitted { horizontal: Scalar, width: u32, height: u32 },
}

/// A ratio, as a number or as the sizes it is the ratio of.
#[derive(Clone, Copy, Debug, PartialEq, Eq)]
pub enum Ratio {
    Given(Scalar),
    /// `width / height`.
    Of { width: u32, height: u32 },
}

/// How space is projected onto a surface.
#[derive(Clone, Copy, Debug, PartialEq, Eq)]
pub enum Projection {
    /// The box between the six planes, without foreshortening.
    Orthographic {
        left: Scalar,
        right: Scalar,
        bottom: Scalar,
        top: Scalar,
        near: Scalar,
        far: Scalar,
    },
    /// The frustum with vertical field of view `fovy` and the given aspect
    /// ratio of width to height.
    Perspective { fovy: Angle, aspect: Ratio, near: Scalar, far: Scalar },
}

/// Where a viewer stands.
#[derive(Clone, Copy, Debug, PartialEq, Eq)]
pub enum Standpoint {
    At(Vector3),
    /// Half the far plane's distance behind `viewer`, against `direction`,
    /// on the nearest point with whole coordinates:
    /// `round(viewer - direction * far_plane / 2)`. Keeping to whole
    /// coordinates makes what is seen from there move in whole steps as the
    /// viewer moves.
    Behind { viewer: Vector3, direction: Vector3, far_plane: Scalar },
}

/// From where and in which direction space is looked at.
#[derive(Clone, Copy, Debug, PartialEq, Eq)]
pub enum Outlook {
    /// The right-handed view from `eye` along `direction`, with `up`
    /// upwards.
    Along { eye: Standpoint, direction: Vector3, up: Vector3 },
    /// The view of an entity with the given transform: the inverse of the
    /// transform's matrix.
    InverseOf(Transform),
}

/// What a matrix uniform is set to. Anything but a given matrix is
/// evaluated by the backend when the command is carried out.
#[derive(Clone, Copy, Debug, PartialEq, Eq)]
pub enum MatrixValue {
    Given(Matrix4),
    /// The matrix of a transform, see [`Transform`].
    OfTransform(Transform),
    Projection(Projection),
    View(Outlook),
    /// `projection * view`.
    LightSpace { projection: Projection, view: Outlook },
}

} // verus!
