//! Local joint transforms.

use crate::scalar::{one, zero, Scalar, ONE};
use vstd::prelude::*;

verus! {

/// A TRS transform: the local pose of one joint relative to its parent. We carry an
/// explicit scale so a generated creature can be non-uniformly squashed/stretched (a
/// "squash and stretch" jump, a swelling cast) without leaving the TRS model.
#[derive(Debug, Clone, Copy, PartialEq, Eq)]
pub struct Transform {
    pub translation: [Scalar; 3],
    /// A quaternion, as `x, y, z, w`.
    pub rotation: [Scalar; 4],
    pub scale: [Scalar; 3],
}

/// A 4x4 matrix, column by column.
pub type Matrix = [Scalar; 16];

impl Transform {
    /// No rotation and unit scale.
    pub open spec fn unturned(self) -> bool {
        &&& self.rotation@ == seq![
            Scalar { bits: 0 },
            Scalar { bits: 0 },
            Scalar { bits: 0 },
            Scalar { bits: ONE },
        ]
        &&& self.scale@ == seq![Scalar { bits: ONE }, Scalar { bits: ONE }, Scalar { bits: ONE }]
    }

    /// No translation.
    pub open spec fn unmoved(self) -> bool {
        self.translation@ == seq![Scalar { bits: 0 }, Scalar { bits: 0 }, Scalar { bits: 0 }]
    }

    /// The identity transform (no translation/rotation, unit scale).
    pub fn identity() -> (r: Transform)
        ensures
            r.unmoved(),
            r.unturned(),
    {
        Transform {
            translation: [zero(), zero(), zero()],
            rotation: [zero(), zero(), zero(), one()],
            scale: [one(), one(), one()],
        }
    }

    /// A pure translation.
    pub fn from_translation(t: [Scalar; 3]) -> (r: Transform)
        ensures
            r.translation == t,
            r.unturned(),
    {
        let mut r = Transform::identity();
        r.translation = t;
        r
    }

    /// A pure rotation.
    pub fn from_rotation(q: [Scalar; 4]) -> (r: Transform)
        ensures
            r.unmoved(),
            r.rotation == q,
            r.scale@ == seq![Scalar { bits: ONE }, Scalar { bits: ONE }, Scalar { bits: ONE }],
    {
        let mut r = Transform::identity();
        r.rotation = q;
        r
    }

    /// Build from all three components.
    pub fn new(translation: [Scalar; 3], rotation: [Scalar; 4], scale: [Scalar; 3]) -> (r: Transform)
        ensures
            r == (Transform { translation, rotation, scale }),
    {
        Transform { translation, rotation, scale }
    }
}

impl Default for Transform {
    fn default() -> (r: Transform)
        ensures
            r.unmoved(),
            r.unturned(),
    {
        Transform::identity()
    }
}

/// The identity stays where it is, unturned and unscaled.
pub proof fn identity_is_at_rest(t: Transform)
    requires
        t.unmoved(),
        t.unturned(),
    ensures
        forall|i: int| 0 <= i < 3 ==> (#[trigger] t.translation@[i]).bits == 0,
        forall|i: int| 0 <= i < 3 ==> (#[trigger] t.rotation@[i]).bits == 0,
        t.rotation@[3].bits == ONE,
        forall|i: int| 0 <= i < 3 ==> (#[trigger] t.scale@[i]).bits == ONE,
{
}

} // verus!
