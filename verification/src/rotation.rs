//! Pose payloads as the tracking client delivers them, and their canonical
//! form.
//!
//! Every scalar is an IEEE 754 binary64 bit pattern held in a `u64`. This
//! module reads, moves and reorders the words; it never computes with them.
use vstd::prelude::*;
use vstd::std_specs::convert::TryFromSpecImpl;

verus! {

/// The rotation representation that a caller asks for.
#[derive(Debug, Clone, Copy, PartialEq, Eq, Structural)]
pub enum OutputRotation {
    /// Euler angles about the axes X, Y, Z, in radians.
    Euler,
    /// A quaternion.
    Quaternion,
}

/// Answer of the tracking client to a query for a segment's global
/// translation.
#[derive(Debug, Clone, Copy, PartialEq, Eq)]
pub struct SegmentTranslation {
    /// Status code of the query.
    pub result: i32,
    /// Position along X, Y, Z, in millimetres.
    pub translation: [u64; 3],
    /// Nonzero when the server could not compute the position.
    pub occluded: i32,
}

/// Answer of the tracking client to a query for a segment's global rotation
/// as Euler angles.
#[derive(Debug, Clone, Copy, PartialEq, Eq)]
pub struct SegmentRotationEuler {
    /// Status code of the query.
    pub result: i32,
    /// Angles about X, Y, Z, in radians.
    pub rotation: [u64; 3],
    /// Nonzero when the server could not compute the rotation.
    pub occluded: i32,
}

/// Answer of the tracking client to a query for a segment's global rotation
/// as a quaternion.
#[derive(Debug, Clone, Copy, PartialEq, Eq)]
pub struct SegmentRotationQuaternion {
    /// Status code of the query.
    pub result: i32,
    /// Components in the server's order: x, y, z, w.
    pub rotation: [u64; 4],
    /// Nonzero when the server could not compute the rotation.
    pub occluded: i32,
}

/// A rotation answer of either representation, as delivered.
#[derive(Debug, Clone, Copy, PartialEq, Eq)]
pub enum ViconRotationType {
    Euler(SegmentRotationEuler),
    Quaternion(SegmentRotationQuaternion),
}

/// Three scalars along the axes X, Y, Z.
#[derive(Debug, Clone, Copy, PartialEq, Eq, Structural)]
pub struct Vector3Bits {
    pub x: u64,
    pub y: u64,
    pub z: u64,
}

/// The four components of a quaternion in canonical order: the scalar part
/// `w` first, then the vector part `i`, `j`, `k`.
#[derive(Debug, Clone, Copy, PartialEq, Eq, Structural)]
pub struct QuaternionBits {
    pub w: u64,
    pub i: u64,
    pub j: u64,
    pub k: u64,
}

/// A rotation in canonical form.
///
/// The quaternion holds the components that the server sent, reordered and
/// otherwise untouched. Scaling it to unit length is arithmetic on the
/// scalars and is left to the caller.
#[derive(Debug, Clone, Copy, PartialEq, Eq, Structural)]
pub enum RotationType {
    Euler(Vector3Bits),
    Quaternion(QuaternionBits),
}

/// The three words of `raw` as a vector, position by position.
pub open spec fn vector_of(raw: [u64; 3]) -> Vector3Bits {
    Vector3Bits { x: raw[0], y: raw[1], z: raw[2] }
}

/// The four words of `raw`, which come in the order x, y, z, w, as a
/// quaternion in canonical order: w, x, y, z.
pub open spec fn quaternion_of(raw: [u64; 4]) -> QuaternionBits {
    QuaternionBits { w: raw[3], i: raw[0], j: raw[1], k: raw[2] }
}

/// The canonical form of a delivered rotation.
pub open spec fn canonical_rotation(value: ViconRotationType) -> RotationType {
    match value {
        ViconRotationType::Euler(euler) => RotationType::Euler(vector_of(euler.rotation)),
        ViconRotationType::Quaternion(quaternion) => RotationType::Quaternion(
            quaternion_of(quaternion.rotation),
        ),
    }
}

impl ViconRotationType {
    /// The representation of this answer.
    pub open spec fn kind(self) -> OutputRotation {
        match self {
            ViconRotationType::Euler(_) => OutputRotation::Euler,
            ViconRotationType::Quaternion(_) => OutputRotation::Quaternion,
        }
    }

    /// The occlusion marker of this answer.
    pub open spec fn occluded_flag(self) -> i32 {
        match self {
            ViconRotationType::Euler(euler) => euler.occluded,
            ViconRotationType::Quaternion(quaternion) => quaternion.occluded,
        }
    }

    /// The status code of this answer.
    pub open spec fn result_code(self) -> i32 {
        match self {
            ViconRotationType::Euler(euler) => euler.result,
            ViconRotationType::Quaternion(quaternion) => quaternion.result,
        }
    }

    /// Whether the server marked the rotation as occluded.
    pub fn occluded(&self) -> (r: bool)
        ensures
            r == (self.occluded_flag() != 0),
    {
        match self {
            ViconRotationType::Euler(euler) => euler.occluded != 0,
            ViconRotationType::Quaternion(quaternion) => quaternion.occluded != 0,
        }
    }

    /// The status code with which the server answered.
    pub fn result(&self) -> (code: i32)
        ensures
            code == self.result_code(),
    {
        match self {
            ViconRotationType::Euler(euler) => euler.result,
            ViconRotationType::Quaternion(quaternion) => quaternion.result,
        }
    }
}

impl TryFrom<ViconRotationType> for RotationType {
    type Error = String;

    /// Brings a delivered rotation into canonical form. Euler angles pass
    /// through unchanged; a quaternion has its components moved from the
    /// order x, y, z, w to the order w, x, y, z. Every payload converts.
    fn try_from(value: ViconRotationType) -> (converted: Result<Self, Self::Error>)
        ensures
            converted == Ok::<RotationType, String>(canonical_rotation(value)),
    {
        match value {
            ViconRotationType::Euler(euler) => {
                let angles = Vector3Bits {
                    x: euler.rotation[0],
                    y: euler.rotation[1],
                    z: euler.rotation[2],
                };
                Ok(RotationType::Euler(angles))
            },
            ViconRotationType::Quaternion(quaternion) => {
                let components = QuaternionBits {
                    w: quaternion.rotation[3],
                    i: quaternion.rotation[0],
                    j: quaternion.rotation[1],
                    k: quaternion.rotation[2],
                };
                Ok(RotationType::Quaternion(components))
            },
        }
    }
}

impl TryFromSpecImpl<ViconRotationType> for RotationType {
    open spec fn obeys_try_from_spec() -> bool {
        true
    }

    open spec fn try_from_spec(value: ViconRotationType) -> Result<Self, Self::Error> {
        Ok(canonical_rotation(value))
    }
}

impl RotationType {
    /// The representation of this rotation.
    pub open spec fn kind(self) -> OutputRotation {
        match self {
            RotationType::Euler(_) => OutputRotation::Euler,
            RotationType::Quaternion(_) => OutputRotation::Quaternion,
        }
    }
}

/// Conversion keeps the representation: the caller gets the variant that
/// the server was asked for.
pub proof fn lemma_canonical_keeps_kind(value: ViconRotationType)
    ensures
        canonical_rotation(value).kind() == value.kind(),
{
}

/// The canonical quaternion holds the delivered components, each exactly
/// once: the fourth word becomes `w`, the first three become `i`, `j`, `k`.
pub proof fn lemma_quaternion_reordered(x: u64, y: u64, z: u64, w: u64, raw: [u64; 4])
    requires
        raw@ == seq![x, y, z, w],
    ensures
        quaternion_of(raw) == (QuaternionBits { w: w, i: x, j: y, k: z }),
{
}

/// Euler angles pass through unchanged.
pub proof fn lemma_euler_unchanged(x: u64, y: u64, z: u64, raw: [u64; 3])
    requires
        raw@ == seq![x, y, z],
    ensures
        vector_of(raw) == (Vector3Bits { x: x, y: y, z: z }),
{
}

} // verus!
