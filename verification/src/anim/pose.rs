//! A [`Pose`]: the per-joint *local* transforms that override a skeleton's bind pose for
//! one instant. Everything that produces motion (clip sampling, the procedural gait, IK)
//! writes into a `Pose`; the renderer turns one into skinning matrices.
//!
//! A pose is parallel to its skeleton: `locals[i]` is the local transform of joint `i`.

use crate::anim::skeleton::{folds, ordered, Skeleton};
use crate::anim::transform::{Matrix, Transform};
use vstd::prelude::*;

verus! {

/// A full set of local joint transforms for one frame.
#[derive(Debug, Clone, PartialEq, Eq)]
pub struct Pose {
    /// Local transform per joint, parallel to [`Skeleton::joints`].
    pub locals: Vec<Transform>,
}

/// The smaller of the two.
pub open spec fn least(a: nat, b: nat) -> nat {
    if a < b {
        a
    } else {
        b
    }
}

impl Pose {
    /// The rest pose: every joint at its bind-pose local transform. Generators start here
    /// and edit the joints they own.
    pub fn rest(skeleton: &Skeleton) -> (r: Pose)
        ensures
            r.locals@ == skeleton.bind_locals(),
    {
        let mut locals: Vec<Transform> = Vec::new();
        let mut i: usize = 0;
        while i < skeleton.joints.len()
            invariant
                i <= skeleton.joints.len(),
                locals@ == skeleton.bind_locals().take(i as int),
            decreases skeleton.joints.len() - i,
        {
            locals.push(skeleton.joints[i].bind_local);
            assert(locals@ =~= skeleton.bind_locals().take(i + 1));
            i = i + 1;
        }
        assert(locals@ =~= skeleton.bind_locals());
        Pose { locals }
    }

    /// An all-identity pose of `joint_count` joints (rarely what you want directly; `rest`
    /// is the usual base, but handy for additive layers).
    pub fn identity(joint_count: usize) -> (r: Pose)
        ensures
            r.locals@.len() == joint_count,
            forall|i: int|
                0 <= i < joint_count ==> (#[trigger] r.locals@[i]).unmoved() && r.locals@[i].unturned(),
    {
        let mut locals: Vec<Transform> = Vec::new();
        let mut i: usize = 0;
        while i < joint_count
            invariant
                i <= joint_count,
                locals@.len() == i,
                forall|k: int|
                    0 <= k < i ==> (#[trigger] locals@[k]).unmoved() && locals@[k].unturned(),
            decreases joint_count - i,
        {
            locals.push(Transform::identity());
            i = i + 1;
        }
        Pose { locals }
    }

    /// Number of joints this pose covers.
    pub fn len(&self) -> (r: usize)
        ensures
            r == self.locals@.len(),
    {
        self.locals.len()
    }

    /// True if the pose has no joints.
    pub fn is_empty(&self) -> (r: bool)
        ensures
            r == (self.locals@.len() == 0),
    {
        self.locals.len() == 0
    }

    /// Blend two poses joint-by-joint with `mix`. The basis of every crossfade.
    /// Length-mismatched poses blend over the shared prefix (defensive; both should match
    /// the same skeleton).
    pub fn blend<F: Fn(Transform, Transform) -> Transform>(&self, other: &Pose, mix: &F) -> (r: Pose)
        requires
            forall|a: Transform, b: Transform| call_requires(*mix, (a, b)),
        ensures
            r.locals@.len() == least(self.locals@.len(), other.locals@.len()),
            forall|i: int|
                0 <= i < r.locals@.len() ==> call_ensures(
                    *mix,
                    (self.locals@[i], other.locals@[i]),
                    #[trigger] r.locals@[i],
                ),
    {
        let mut locals: Vec<Transform> = Vec::new();
        let mut i: usize = 0;
        while i < self.locals.len() && i < other.locals.len()
            invariant
                i <= self.locals.len(),
                i <= other.locals.len(),
                locals@.len() == i,
                forall|a: Transform, b: Transform| call_requires(*mix, (a, b)),
                forall|k: int|
                    0 <= k < i ==> call_ensures(
                        *mix,
                        (self.locals@[k], other.locals@[k]),
                        #[trigger] locals@[k],
                    ),
            decreases self.locals.len() - i,
        {
            locals.push(mix(self.locals[i], other.locals[i]));
            i = i + 1;
        }
        Pose { locals }
    }

    /// Blend `other` into `self` in place with `mix` (cheaper than [`Pose::blend`] when you
    /// already own the buffer). Joints beyond `other` stay as they are.
    pub fn blend_into<F: Fn(Transform, Transform) -> Transform>(&mut self, other: &Pose, mix: &F)
        requires
            forall|a: Transform, b: Transform| call_requires(*mix, (a, b)),
        ensures
            final(self).locals@.len() == old(self).locals@.len(),
            forall|i: int|
                0 <= i < old(self).locals@.len() ==> if i < other.locals@.len() {
                    call_ensures(
                        *mix,
                        (old(self).locals@[i], other.locals@[i]),
                        #[trigger] final(self).locals@[i],
                    )
                } else {
                    final(self).locals@[i] == old(self).locals@[i]
                },
    {
        let ghost was = self.locals@;
        let mut i: usize = 0;
        while i < self.locals.len() && i < other.locals.len()
            invariant
                i <= self.locals.len(),
                i <= other.locals.len(),
                self.locals@.len() == was.len(),
                forall|a: Transform, b: Transform| call_requires(*mix, (a, b)),
                forall|k: int|
                    0 <= k < i ==> call_ensures(
                        *mix,
                        (was[k], other.locals@[k]),
                        #[trigger] self.locals@[k],
                    ),
                forall|k: int| i <= k < was.len() ==> #[trigger] self.locals@[k] == was[k],
            decreases self.locals.len() - i,
        {
            let mixed = mix(self.locals[i], other.locals[i]);
            self.locals.set(i, mixed);
            i = i + 1;
        }
    }

    /// Apply an *additive* layer: on every joint that this pose, `layer` and `rest` share,
    /// put what `apply` makes of the three. Used to stack a recoil / breathing twitch on
    /// top of a locomotion base without the layers fighting over absolute values.
    pub fn add_layer<F: Fn(Transform, Transform, Transform) -> Transform>(
        &mut self,
        layer: &Pose,
        rest: &Pose,
        apply: &F,
    )
        requires
            forall|a: Transform, b: Transform, c: Transform| call_requires(*apply, (a, b, c)),
        ensures
            final(self).locals@.len() == old(self).locals@.len(),
            forall|i: int|
                0 <= i < old(self).locals@.len() ==> if i < layer.locals@.len() && i
                    < rest.locals@.len() {
                    call_ensures(
                        *apply,
                        (old(self).locals@[i], layer.locals@[i], rest.locals@[i]),
                        #[trigger] final(self).locals@[i],
                    )
                } else {
                    final(self).locals@[i] == old(self).locals@[i]
                },
    {
        let ghost was = self.locals@;
        let mut i: usize = 0;
        while i < self.locals.len() && i < layer.locals.len() && i < rest.locals.len()
            invariant
                i <= self.locals.len(),
                i <= layer.locals.len(),
                i <= rest.locals.len(),
                self.locals@.len() == was.len(),
                forall|a: Transform, b: Transform, c: Transform| call_requires(*apply, (a, b, c)),
                forall|k: int|
                    0 <= k < i ==> call_ensures(
                        *apply,
                        (was[k], layer.locals@[k], rest.locals@[k]),
                        #[trigger] self.locals@[k],
                    ),
                forall|k: int| i <= k < was.len() ==> #[trigger] self.locals@[k] == was[k],
            decreases self.locals.len() - i,
        {
            let stacked = apply(self.locals[i], layer.locals[i], rest.locals[i]);
            self.locals.set(i, stacked);
            i = i + 1;
        }
    }

    /// Fold this pose down `skeleton`'s hierarchy into model-space **global** transforms
    /// with `chain` (one forward pass; requires topological ordering).
    pub fn global_transforms<F: Fn(Transform, Transform) -> Transform>(
        &self,
        skeleton: &Skeleton,
        chain: &F,
    ) -> (r: Vec<Transform>)
        requires
            ordered(skeleton.joints@),
            self.locals@.len() <= skeleton.joints@.len(),
            forall|a: Transform, b: Transform| call_requires(*chain, (a, b)),
        ensures
            folds(skeleton.joints@, self.locals@, *chain, r@),
    {
        let mut out: Vec<Transform> = Vec::new();
        let mut i: usize = 0;
        while i < self.locals.len()
            invariant
                i <= self.locals.len(),
                self.locals@.len() <= skeleton.joints@.len(),
                ordered(skeleton.joints@),
                forall|a: Transform, b: Transform| call_requires(*chain, (a, b)),
                folds(skeleton.joints@, self.locals@.take(i as int), *chain, out@),
            decreases self.locals.len() - i,
        {
            let ghost was = out@;
            let local = self.locals[i];
            assert(skeleton.joints@[i as int].parent < i);
            let global = match skeleton.parent(i) {
                None => local,
                Some(p) => chain(out[p], local),
            };
            out.push(global);
            assert forall|k: int| 0 <= k < i + 1 implies if skeleton.joints@[k].parent < 0 {
                #[trigger] out@[k] == self.locals@.take(i + 1)[k]
            } else {
                call_ensures(
                    *chain,
                    (out@[skeleton.joints@[k].parent as int], self.locals@.take(i + 1)[k]),
                    out@[k],
                )
            } by {
                assert(skeleton.joints@[k].parent < k);
                if k < i {
                    assert(out@[k] == was[k]);
                    assert(self.locals@.take(i as int)[k] == self.locals@.take(i + 1)[k]);
                }
            }
            i = i + 1;
        }
        assert(self.locals@.take(self.locals@.len() as int) =~= self.locals@);
        out
    }

    /// The skinning matrices for this pose: what `skin` makes of `global(i)` and
    /// `inverse_bind(i)` per joint. This is exactly what a vertex shader multiplies its
    /// bone-weighted positions by; the renderer uploads these straight into a bone buffer.
    pub fn skinning_matrices<
        F: Fn(Transform, Transform) -> Transform,
        G: Fn(Transform, Matrix) -> Matrix,
    >(&self, skeleton: &Skeleton, inverse_bind: &Vec<Matrix>, chain: &F, skin: &G) -> (r: Vec<Matrix>)
        requires
            ordered(skeleton.joints@),
            self.locals@.len() <= skeleton.joints@.len(),
            forall|a: Transform, b: Transform| call_requires(*chain, (a, b)),
            forall|a: Transform, b: Matrix| call_requires(*skin, (a, b)),
        ensures
            r@.len() == least(self.locals@.len(), inverse_bind@.len()),
            exists|globals: Seq<Transform>|
                {
                    &&& #[trigger] folds(skeleton.joints@, self.locals@, *chain, globals)
                    &&& forall|i: int|
                        0 <= i < r@.len() ==> call_ensures(
                            *skin,
                            (globals[i], inverse_bind@[i]),
                            #[trigger] r@[i],
                        )
                },
    {
        let globals = self.global_transforms(skeleton, chain);
        let mut out: Vec<Matrix> = Vec::new();
        let mut i: usize = 0;
        while i < globals.len() && i < inverse_bind.len()
            invariant
                i <= globals.len(),
                i <= inverse_bind.len(),
                out@.len() == i,
                forall|a: Transform, b: Matrix| call_requires(*skin, (a, b)),
                forall|k: int|
                    0 <= k < i ==> call_ensures(
                        *skin,
                        (globals@[k], inverse_bind@[k]),
                        #[trigger] out@[k],
                    ),
            decreases globals.len() - i,
        {
            out.push(skin(globals[i], inverse_bind[i]));
            i = i + 1;
        }
        assert(folds(skeleton.joints@, self.locals@, *chain, globals@));
        out
    }
}

impl Default for Pose {
    fn default() -> (r: Pose)
        ensures
            r.locals@.len() == 0,
    {
        Pose { locals: Vec::new() }
    }
}

/// A blend covers the joints that both poses have, each blended with its own counterpart.
pub proof fn blends_cover_what_is_shared<F: Fn(Transform, Transform) -> Transform>(
    a: &Pose,
    b: &Pose,
    mix: &F,
    r: Pose,
    i: int,
)
    requires
        call_ensures(Pose::blend::<F>, (a, b, mix), r),
    ensures
        0 <= i < a.locals@.len() && i < b.locals@.len() ==> {
            &&& i < r.locals@.len()
            &&& call_ensures(*mix, (a.locals@[i], b.locals@[i]), r.locals@[i])
        },
        0 <= i < r.locals@.len() ==> i < a.locals@.len() && i < b.locals@.len(),
{
    if 0 <= i < r.locals@.len() {
        assert(call_ensures(*mix, (a.locals@[i], b.locals@[i]), r.locals@[i]));
    }
}

/// Blending in place touches the joints that the other pose has and no more.
pub proof fn blending_in_touches_what_is_shared<F: Fn(Transform, Transform) -> Transform>(
    a: &mut Pose,
    b: &Pose,
    mix: &F,
    i: int,
)
    requires
        call_ensures(Pose::blend_into::<F>, (a, b, mix), ()),
        0 <= i < old(a).locals@.len(),
    ensures
        final(a).locals@.len() == old(a).locals@.len(),
        i < b.locals@.len() ==> call_ensures(
            *mix,
            (old(a).locals@[i], b.locals@[i]),
            final(a).locals@[i],
        ),
        i >= b.locals@.len() ==> final(a).locals@[i] == old(a).locals@[i],
{
    let touched = final(a).locals@[i];
}

/// At rest every joint is where the skeleton binds it.
pub proof fn rest_follows_the_skeleton(skeleton: &Skeleton, r: Pose, i: int)
    requires
        call_ensures(Pose::rest, (skeleton,), r),
        0 <= i < skeleton.joints@.len(),
    ensures
        r.locals@.len() == skeleton.joints@.len(),
        r.locals@[i] == skeleton.joints@[i].bind_local,
{
}

/// A pose without a parent joint is in model space as it is; below a parent it follows it.
pub proof fn poses_fold_down_the_hierarchy<F: Fn(Transform, Transform) -> Transform>(
    pose: &Pose,
    skeleton: &Skeleton,
    chain: &F,
    r: Vec<Transform>,
    i: int,
)
    requires
        call_ensures(Pose::global_transforms::<F>, (pose, skeleton, chain), r),
        0 <= i < pose.locals@.len(),
    ensures
        r@.len() == pose.locals@.len(),
        skeleton.joints@[i].parent < 0 ==> r@[i] == pose.locals@[i],
        skeleton.joints@[i].parent >= 0 ==> call_ensures(
            *chain,
            (r@[skeleton.joints@[i].parent as int], pose.locals@[i]),
            r@[i],
        ),
{
    let there = r@[i];
}

} // verus!
