//! The joint hierarchy: a [`Skeleton`] is a flat, topologically-ordered list of
//! [`Joint`]s, each naming its parent and carrying a bind-pose [`Transform`].
//!
//! 1. **Flat + ordered.** Joints are stored in an array with `parent < child` always true,
//!    so computing global transforms is a single forward pass with no recursion.
//! 2. **Role-tagged.** Because creatures are *procedurally* rigged with a variable number
//!    of limbs, animation can't hard-code "joint 4 is the left leg". Instead every joint
//!    carries a [`JointRole`], and the animator drives motion by role.

use crate::anim::transform::{Matrix, Transform};
use crate::scalar::Scalar;
use vstd::prelude::*;

verus! {

/// Which side of the body a limb is on (for counter-swing and gait phase offset).
#[derive(Debug, Clone, Copy, PartialEq, Eq, Structural)]
pub enum LimbSide {
    Left,
    Right,
    Center,
}

/// The functional role of a joint, assigned by the rigger. The procedural animator reads
/// these instead of fixed indices, so it animates any generated body shape without
/// per-creature code.
#[derive(Debug, Clone, Copy, PartialEq, Eq, Structural)]
pub enum JointRole {
    /// The grounded root (pelvis / core); the whole rig hangs off it.
    Root,
    /// A spine segment between root and head (breathing, lean).
    Spine,
    /// The head (look-at, bob).
    Head,
    /// A weight-bearing limb that drives the walk gait. `index` distinguishes multiple
    /// legs; `side` sets its phase offset.
    Leg { side: LimbSide, index: u8 },
    /// A non-weight-bearing limb that counter-swings / gestures while casting.
    Arm { side: LimbSide, index: u8 },
    /// A trailing appendage (tail, tentacle, frond) animated as a spring bone.
    Tail { index: u8 },
    /// Anything unclassified — animated only by inherited parent motion.
    Other,
}

impl JointRole {
    /// True for the limbs the gait generator swings to fake walking.
    pub fn is_leg(self) -> (r: bool)
        ensures
            r == (self is Leg),
    {
        matches!(self, JointRole::Leg { .. })
    }

    /// True for limbs that counter-swing / gesture (arms, and tails lightly).
    pub fn is_arm(self) -> (r: bool)
        ensures
            r == (self is Arm || self is Tail),
    {
        matches!(self, JointRole::Arm { .. } | JointRole::Tail { .. })
    }
}

/// One joint: a name, its parent index (`-1` for a root), its bind-pose local transform,
/// and its [`JointRole`].
#[derive(Debug, Clone, PartialEq, Eq)]
pub struct Joint {
    /// Human / debug name (e.g. `"leg.l.0"`). Not used for lookup on the hot path.
    pub name: String,
    /// Index of the parent joint in the skeleton's array, or negative if this is a root.
    /// In an ordered skeleton it is less than the joint's own index.
    pub parent: i32,
    /// Rest-pose transform relative to the parent.
    pub bind_local: Transform,
    pub role: JointRole,
}

/// A complete skeleton: an ordered joint array.
#[derive(Debug, Clone, PartialEq, Eq)]
pub struct Skeleton {
    pub joints: Vec<Joint>,
}

/// `globals` folds `locals` down the hierarchy: a root keeps its local transform, and any
/// other joint's is what `chain` makes of its parent's global and its own local transform.
pub open spec fn folds<F: Fn(Transform, Transform) -> Transform>(
    joints: Seq<Joint>,
    locals: Seq<Transform>,
    chain: F,
    globals: Seq<Transform>,
) -> bool {
    &&& globals.len() == locals.len()
    &&& forall|i: int|
        0 <= i < locals.len() ==> if joints[i].parent < 0 {
            #[trigger] globals[i] == locals[i]
        } else {
            call_ensures(chain, (globals[joints[i].parent as int], locals[i]), globals[i])
        }
}

/// Every joint's parent, where it has one, comes before it.
pub open spec fn ordered(joints: Seq<Joint>) -> bool {
    forall|i: int| 0 <= i < joints.len() ==> (#[trigger] joints[i]).parent < i
}

impl Skeleton {
    /// The bind-pose local transforms, joint by joint.
    pub open spec fn bind_locals(self) -> Seq<Transform> {
        Seq::new(self.joints@.len(), |i: int| self.joints@[i].bind_local)
    }

    /// Number of joints.
    pub fn len(&self) -> (r: usize)
        ensures
            r == self.joints@.len(),
    {
        self.joints.len()
    }

    /// True if the skeleton has no joints.
    pub fn is_empty(&self) -> (r: bool)
        ensures
            r == (self.joints@.len() == 0),
    {
        self.joints.len() == 0
    }

    /// The parent index of joint `i`, or `None` for a root.
    pub fn parent(&self, i: usize) -> (r: Option<usize>)
        requires
            i < self.joints@.len(),
        ensures
            match r {
                Some(p) => p == self.joints@[i as int].parent,
                None => self.joints@[i as int].parent < 0,
            },
    {
        let p: i32 = self.joints[i].parent;
        if p < 0 {
            None
        } else {
            Some(p as usize)
        }
    }

    /// Global (model-space) **bind** transforms: fold each joint's `bind_local` down the
    /// hierarchy with `chain`. One forward pass thanks to topological ordering.
    pub fn global_bind<F: Fn(Transform, Transform) -> Transform>(&self, chain: &F) -> (r: Vec<
        Transform,
    >)
        requires
            ordered(self.joints@),
            forall|a: Transform, b: Transform| call_requires(*chain, (a, b)),
        ensures
            folds(self.joints@, self.bind_locals(), *chain, r@),
    {
        let mut out: Vec<Transform> = Vec::new();
        let mut i: usize = 0;
        while i < self.joints.len()
            invariant
                i <= self.joints.len(),
                ordered(self.joints@),
                forall|a: Transform, b: Transform| call_requires(*chain, (a, b)),
                folds(self.joints@, self.bind_locals().take(i as int), *chain, out@),
            decreases self.joints.len() - i,
        {
            let ghost was = out@;
            let local = self.joints[i].bind_local;
            assert(self.joints@[i as int].parent < i);
            let global = match self.parent(i) {
                None => local,
                Some(p) => chain(out[p], local),
            };
            out.push(global);
            assert forall|k: int| 0 <= k < i + 1 implies if self.joints@[k].parent < 0 {
                #[trigger] out@[k] == self.bind_locals().take(i + 1)[k]
            } else {
                call_ensures(
                    *chain,
                    (out@[self.joints@[k].parent as int], self.bind_locals().take(i + 1)[k]),
                    out@[k],
                )
            } by {
                assert(self.joints@[k].parent < k);
                if k < i {
                    assert(out@[k] == was[k]);
                    assert(self.bind_locals().take(i as int)[k] == self.bind_locals().take(i + 1)[k]);
                }
            }
            i = i + 1;
        }
        assert(self.bind_locals().take(self.joints@.len() as int) =~= self.bind_locals());
        out
    }

    /// Inverse of each joint's global bind matrix — the matrix that takes a vertex from
    /// model space into a joint's local bind space, the first half of linear-blend
    /// skinning. `invert` turns one global transform into its inverse matrix.
    pub fn inverse_bind_matrices<F: Fn(Transform, Transform) -> Transform, G: Fn(Transform) -> Matrix>(
        &self,
        chain: &F,
        invert: &G,
    ) -> (r: Vec<Matrix>)
        requires
            ordered(self.joints@),
            forall|a: Transform, b: Transform| call_requires(*chain, (a, b)),
            forall|t: Transform| call_requires(*invert, (t,)),
        ensures
            r@.len() == self.joints@.len(),
            exists|globals: Seq<Transform>|
                {
                    &&& #[trigger] folds(self.joints@, self.bind_locals(), *chain, globals)
                    &&& forall|i: int|
                        0 <= i < r@.len() ==> call_ensures(
                            *invert,
                            (globals[i],),
                            #[trigger] r@[i],
                        )
                },
    {
        let globals = self.global_bind(chain);
        let mut out: Vec<Matrix> = Vec::new();
        let mut i: usize = 0;
        while i < globals.len()
            invariant
                i <= globals.len(),
                out@.len() == i,
                forall|t: Transform| call_requires(*invert, (t,)),
                forall|k: int| 0 <= k < i ==> call_ensures(*invert, (globals@[k],), #[trigger] out@[k]),
            decreases globals.len() - i,
        {
            out.push(invert(globals[i]));
            i = i + 1;
        }
        assert(folds(self.joints@, self.bind_locals(), *chain, globals@));
        out
    }

    /// Model-space bind **position** of every joint (the translation of its global bind
    /// transform). Used by the skinner to weight vertices to nearby bones.
    pub fn bind_positions<F: Fn(Transform, Transform) -> Transform>(&self, chain: &F) -> (r: Vec<
        [Scalar; 3],
    >)
        requires
            ordered(self.joints@),
            forall|a: Transform, b: Transform| call_requires(*chain, (a, b)),
        ensures
            r@.len() == self.joints@.len(),
            exists|globals: Seq<Transform>|
                {
                    &&& #[trigger] folds(self.joints@, self.bind_locals(), *chain, globals)
                    &&& forall|i: int|
                        0 <= i < r@.len() ==> #[trigger] r@[i] == globals[i].translation
                },
    {
        let globals = self.global_bind(chain);
        let mut out: Vec<[Scalar; 3]> = Vec::new();
        let mut i: usize = 0;
        while i < globals.len()
            invariant
                i <= globals.len(),
                out@.len() == i,
                forall|k: int| 0 <= k < i ==> #[trigger] out@[k] == globals@[k].translation,
            decreases globals.len() - i,
        {
            out.push(globals[i].translation);
            i = i + 1;
        }
        assert(folds(self.joints@, self.bind_locals(), *chain, globals@));
        out
    }

    /// Indices of joints matching a role predicate, in skeleton order. Convenience for the
    /// procedural animator ("all legs", "all tails").
    pub fn joints_where<P: Fn(JointRole) -> bool>(&self, pred: &P) -> (r: Vec<usize>)
        requires
            forall|role: JointRole| call_requires(*pred, (role,)),
        ensures
            forall|i: int, j: int| 0 <= i < j < r@.len() ==> r@[i] < r@[j],
            forall|k: int|
                0 <= k < r@.len() ==> (#[trigger] r@[k]) < self.joints@.len() && call_ensures(
                    *pred,
                    (self.joints@[r@[k] as int].role,),
                    true,
                ),
            forall|i: usize|
                i < self.joints@.len() && !r@.contains(i) ==> call_ensures(
                    *pred,
                    ((#[trigger] self.joints@[i as int]).role,),
                    false,
                ),
    {
        let mut out: Vec<usize> = Vec::new();
        let mut i: usize = 0;
        while i < self.joints.len()
            invariant
                i <= self.joints.len(),
                forall|role: JointRole| call_requires(*pred, (role,)),
                forall|a: int, b: int| 0 <= a < b < out@.len() ==> out@[a] < out@[b],
                forall|k: int|
                    0 <= k < out@.len() ==> (#[trigger] out@[k]) < i && call_ensures(
                        *pred,
                        (self.joints@[out@[k] as int].role,),
                        true,
                    ),
                forall|j: usize|
                    j < i && !out@.contains(j) ==> call_ensures(
                        *pred,
                        ((#[trigger] self.joints@[j as int]).role,),
                        false,
                    ),
            decreases self.joints.len() - i,
        {
            let ghost was = out@;
            if pred(self.joints[i].role) {
                out.push(i);
                assert(out@[was.len() as int] == i);
                assert forall|j: usize| was.contains(j) implies out@.contains(j) by {
                    let k = choose|k: int| 0 <= k < was.len() && was[k] == j;
                    assert(out@[k] == j);
                }
            }
            i = i + 1;
        }
        out
    }

    /// The first joint with the given role match, if any (e.g. the head).
    pub fn find<P: Fn(JointRole) -> bool>(&self, pred: &P) -> (r: Option<usize>)
        requires
            forall|role: JointRole| call_requires(*pred, (role,)),
        ensures
            match r {
                Some(i) => {
                    &&& i < self.joints@.len()
                    &&& call_ensures(*pred, (self.joints@[i as int].role,), true)
                    &&& forall|j: int|
                        0 <= j < i ==> call_ensures(
                            *pred,
                            ((#[trigger] self.joints@[j]).role,),
                            false,
                        )
                },
                None => forall|j: int|
                    0 <= j < self.joints@.len() ==> call_ensures(
                        *pred,
                        ((#[trigger] self.joints@[j]).role,),
                        false,
                    ),
            },
    {
        let mut i: usize = 0;
        while i < self.joints.len()
            invariant
                i <= self.joints.len(),
                forall|role: JointRole| call_requires(*pred, (role,)),
                forall|j: int|
                    0 <= j < i ==> call_ensures(*pred, ((#[trigger] self.joints@[j]).role,), false),
            decreases self.joints.len() - i,
        {
            if pred(self.joints[i].role) {
                return Some(i);
            }
            i = i + 1;
        }
        None
    }

    /// Debug/authoring guard: every parent index is a real, earlier joint. Returns the
    /// first offending index on failure.
    pub fn validate(&self) -> (r: Result<(), usize>)
        ensures
            match r {
                Ok(()) => ordered(self.joints@),
                Err(i) => {
                    &&& i < self.joints@.len()
                    &&& self.joints@[i as int].parent >= i
                    &&& forall|j: int| 0 <= j < i ==> (#[trigger] self.joints@[j]).parent < j
                },
            },
    {
        let mut i: usize = 0;
        while i < self.joints.len()
            invariant
                i <= self.joints.len(),
                forall|j: int| 0 <= j < i ==> (#[trigger] self.joints@[j]).parent < j,
            decreases self.joints.len() - i,
        {
            let p: i32 = self.joints[i].parent;
            if p >= 0 && p as usize >= i {
                return Err(i);
            }
            i = i + 1;
        }
        Ok(())
    }
}

impl Skeleton {
    /// A copy of the skeleton, joint by joint.
    pub fn duplicate(&self) -> (r: Skeleton)
        ensures
            r.joints@ == self.joints@,
    {
        let mut joints: Vec<Joint> = Vec::new();
        let mut i: usize = 0;
        while i < self.joints.len()
            invariant
                i <= self.joints.len(),
                joints@ == self.joints@.take(i as int),
            decreases self.joints.len() - i,
        {
            let j = &self.joints[i];
            joints.push(
                Joint { name: j.name.clone(), parent: j.parent, bind_local: j.bind_local, role: j.role },
            );
            assert(joints@ =~= self.joints@.take(i + 1));
            i = i + 1;
        }
        assert(joints@ =~= self.joints@);
        Skeleton { joints }
    }
}

impl Default for Skeleton {
    fn default() -> (r: Skeleton)
        ensures
            r.joints@.len() == 0,
    {
        Skeleton { joints: Vec::new() }
    }
}

/// A joint moves with its parent: its place is its own transform set onto its parent's place, and a
/// root's is its own.
pub proof fn joints_hang_on_their_parents<F: Fn(Transform, Transform) -> Transform>(
    joints: Seq<Joint>,
    locals: Seq<Transform>,
    chain: F,
    globals: Seq<Transform>,
    i: int,
)
    requires
        folds(joints, locals, chain, globals),
        0 <= i < locals.len(),
    ensures
        globals.len() == locals.len(),
        joints[i].parent < 0 ==> globals[i] == locals[i],
        forall|p: int|
            0 <= p && p == joints[i].parent ==> call_ensures(
                chain,
                (#[trigger] globals[p], locals[i]),
                globals[i],
            ),
{
    assert(globals[i] == globals[i]);
}

/// A joint's place depends on what is above it only: with the same transforms up to a joint, the
/// places up to it are the same, whatever comes later.
pub proof fn places_depend_on_what_is_above<F: Fn(Transform, Transform) -> Transform>(
    joints: Seq<Joint>,
    a: Seq<Transform>,
    b: Seq<Transform>,
    chain: F,
    x: Seq<Transform>,
    y: Seq<Transform>,
    n: int,
)
    requires
        ordered(joints),
        folds(joints, a, chain, x),
        folds(joints, b, chain, y),
        0 <= n <= a.len(),
        n <= b.len(),
        n <= joints.len(),
        forall|i: int| 0 <= i < n ==> a[i] == b[i],
        forall|p: Transform, l: Transform, s: Transform, t: Transform| #[trigger]
            call_ensures(chain, (p, l), s) && #[trigger] call_ensures(chain, (p, l), t) ==> s == t,
    ensures
        forall|i: int| 0 <= i < n ==> #[trigger] x[i] == y[i],
    decreases n,
{
    if n > 0 {
        places_depend_on_what_is_above(joints, a, b, chain, x, y, n - 1);
        let i = n - 1;
        joints_hang_on_their_parents(joints, a, chain, x, i);
        joints_hang_on_their_parents(joints, b, chain, y, i);
        assert(a[i] == b[i]);
        if joints[i].parent >= 0 {
            let p = joints[i].parent as int;
            assert(p < i);
            assert(x[p] == y[p]);
            assert(call_ensures(chain, (x[p], a[i]), x[i]));
            assert(call_ensures(chain, (y[p], b[i]), y[i]));
        }
    }
}

/// The rest pose is the skeleton's own.
pub proof fn rest_is_the_bind_pose(skeleton: Skeleton, i: int)
    requires
        0 <= i < skeleton.joints@.len(),
    ensures
        skeleton.bind_locals().len() == skeleton.joints@.len(),
        skeleton.bind_locals()[i] == skeleton.joints@[i].bind_local,
{
}

} // verus!
