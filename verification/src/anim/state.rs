//! The [`Animator`]: the deterministic animation state of one creature. Feed it an
//! entity's motion each tick and it says which motions to blend, in which order and how
//! strongly; no authored clips required.
//!
//! A base locomotion layer (idle to walk/run, by speed) crossfades into an airborne pose
//! when off the ground, and one-shot overlays (cast, hit, death) are layered on top with
//! their own timers. All of it is role-driven, so any generated body shape just works.

use crate::anim::pose::{least, Pose};
use crate::anim::procedural;
use crate::anim::procedural::{is_first, moved, poses, Motion, Move};
use crate::anim::skeleton::{folds, ordered, Joint, Skeleton};
use crate::anim::transform::{Matrix, Transform};
use crate::scalar::{
    dec, decimal, one, sizes_grow, subtraction_takes_away, units_tell_sign, zero, Scalar, ONE,
};
use vstd::prelude::*;

verus! {

/// Tunables for the synthesised gaits. All have sensible defaults; a rigger can scale them
/// per creature (a heavy golem strides slow and wide, a wisp bobs).
#[derive(Debug, Clone, Copy, PartialEq, Eq)]
pub struct GaitParams {
    /// Peak leg swing angle (radians) at full speed.
    pub stride: Scalar,
    /// Peak arm counter-swing (radians).
    pub arm_swing: Scalar,
    /// Vertical body bob amplitude (metres) per step.
    pub bob: Scalar,
    /// Breathing depth (fractional spine scale, e.g. 0.03 = +/-3%).
    pub breath: Scalar,
}

impl Default for GaitParams {
    fn default() -> (r: Self)
        ensures
            r.stride == decimal(7, 1),
            r.arm_swing == decimal(5, 1),
            r.bob == decimal(6, 2),
            r.breath == decimal(3, 2),
    {
        GaitParams { stride: dec(7, 1), arm_swing: dec(5, 1), bob: dec(6, 2), breath: dec(3, 2) }
    }
}

/// The per-tick motion summary the host feeds the animator. Everything the animator needs
/// to choose and shape its motion, derived from the entity's sim state.
#[derive(Debug, Clone, Copy, PartialEq, Eq)]
pub struct LocomotionInput {
    /// Horizontal speed (m/s); selects idle, walk or run and sets gait intensity.
    pub planar_speed: Scalar,
    /// Vertical speed (m/s); sign chooses the rising vs falling airborne pose.
    pub vertical_speed: Scalar,
    /// On the ground (locomotion) vs airborne (jump/fall pose).
    pub grounded: bool,
    /// Dead: drive the death overlay to completion and hold.
    pub dead: bool,
}

impl Default for LocomotionInput {
    fn default() -> (r: Self)
        ensures
            r.planar_speed.bits == 0,
            r.vertical_speed.bits == 0,
            r.grounded,
            !r.dead,
    {
        LocomotionInput { planar_speed: zero(), vertical_speed: zero(), grounded: true, dead: false }
    }
}

/// A discrete, one-shot motion the host triggers (edge-triggered, not held).
#[derive(Debug, Clone, Copy, PartialEq, Eq)]
pub enum MotionEvent {
    /// Begin a cast flourish lasting `duration` seconds.
    Cast { duration: Scalar },
    /// A hit from local-space direction `dir`, whose squared length is `length_squared`,
    /// recoiling over a short fixed window.
    Hit { dir: [Scalar; 3], length_squared: Scalar },
}

/// Tuning for how motion maps to animation (speed thresholds, cadence). Defaults suit a
/// roughly human-scaled biped; a rigger can scale per creature.
#[derive(Debug, Clone, Copy, PartialEq, Eq)]
pub struct AnimatorConfig {
    /// Speed (m/s) at which the gait reaches full intensity (a run).
    pub run_speed: Scalar,
    /// Step cadence: radians of gait cycle per metre travelled. Higher = quicker steps.
    pub cadence: Scalar,
    /// Idle breathing/sway rate (radians/sec of idle phase).
    pub idle_rate: Scalar,
    /// Crossfade half-life (seconds) between locomotion states.
    pub blend_half_life: Scalar,
    /// Hit-recoil duration (seconds).
    pub hit_duration: Scalar,
    /// Death-collapse duration (seconds).
    pub death_duration: Scalar,
    pub gait: GaitParams,
}

impl Default for AnimatorConfig {
    fn default() -> (r: Self)
        ensures
            r.run_speed == decimal(7, 0),
            r.cadence == decimal(24, 1),
            r.idle_rate == decimal(1, 0),
            r.blend_half_life == decimal(12, 2),
            r.hit_duration == decimal(35, 2),
            r.death_duration == decimal(12, 1),
            call_ensures(GaitParams::default, (), r.gait),
    {
        AnimatorConfig {
            run_speed: dec(7, 0),
            cadence: dec(24, 1),
            idle_rate: dec(1, 0),
            blend_half_life: dec(12, 2),
            hit_duration: dec(35, 2),
            death_duration: dec(12, 1),
            gait: GaitParams::default(),
        }
    }
}

/// The arithmetic of one tick of `dt` seconds on an animator's state: what each quantity
/// would come to if it moved. [`Animator::update`] decides which of them do.
#[derive(Debug, Clone, Copy, PartialEq, Eq)]
pub struct Step {
    /// Idle phase after `dt` at the idle rate.
    pub idle_phase: Scalar,
    /// Gait phase after the distance covered.
    pub gait_phase: Scalar,
    /// Intensity eased toward the speed's share of the run speed.
    pub intensity: Scalar,
    /// Cast time left after `dt`; may be negative.
    pub cast_left: Scalar,
    /// Hit recoil left after `dt`; may be negative.
    pub hit_left: Scalar,
    /// Death progress after `dt` of collapsing; may exceed one.
    pub death_up: Scalar,
    /// Death progress after `dt` of rising; may be negative.
    pub death_down: Scalar,
}

/// One motion to blend onto the pose so far.
#[derive(Debug, Clone, Copy, PartialEq, Eq)]
pub enum Layer {
    /// Breathing and sway, at this idle phase. Always the first layer.
    Idle { phase: Scalar },
    /// Walk or run at this gait phase, blended by its intensity.
    Walk { phase: Scalar, intensity: Scalar },
    /// Off the ground, blended at 0.85.
    Airborne { rising: bool },
    /// A cast flourish with this much time left of its total, blended at 0.7.
    Cast { remaining: Scalar, total: Scalar },
    /// A recoil from this direction with this much time left, blended at 0.6.
    Hit { dir: [Scalar; 3], remaining: Scalar },
    /// Collapse to this degree, blended by it.
    Death { progress: Scalar },
}

impl Layer {
    /// The motion of this layer.
    pub open spec fn motion(self) -> Motion {
        match self {
            Layer::Idle { .. } => Motion::Idle,
            Layer::Walk { .. } => Motion::Walk,
            Layer::Airborne { .. } => Motion::Airborne,
            Layer::Cast { .. } => Motion::Cast,
            Layer::Hit { .. } => Motion::HitRecoil,
            Layer::Death { .. } => Motion::Death,
        }
    }

    /// How strongly this layer is blended onto what is below it.
    pub open spec fn strength(self) -> Scalar {
        match self {
            Layer::Idle { .. } => Scalar { bits: ONE },
            Layer::Walk { intensity, .. } => intensity,
            Layer::Airborne { .. } => decimal(85, 2),
            Layer::Cast { .. } => decimal(7, 1),
            Layer::Hit { .. } => decimal(6, 1),
            Layer::Death { progress } => progress,
        }
    }

    /// How strongly this layer is blended onto what is below it: locomotion and death by
    /// their own degree, the overlays at a fixed weight.
    pub fn weight(self) -> (r: Scalar)
        ensures
            r == self.strength(),
    {
        match self {
            Layer::Idle { .. } => one(),
            Layer::Walk { intensity, .. } => intensity,
            Layer::Airborne { .. } => dec(85, 2),
            Layer::Cast { .. } => dec(7, 1),
            Layer::Hit { .. } => dec(6, 1),
            Layer::Death { progress } => progress,
        }
    }

    /// `locals` is the pose of this layer: the rest pose, with each joint that its motion
    /// owns turned by `edit`.
    pub open spec fn shapes<E: Fn(Transform, Move, Layer) -> Transform>(
        self,
        joints: Seq<Joint>,
        edit: E,
        locals: Seq<Transform>,
    ) -> bool {
        &&& locals.len() == joints.len()
        &&& forall|i: int|
            0 <= i < joints.len() ==> match moved(
                self.motion(),
                joints[i].role,
                is_first(joints, i),
            ) {
                Some(step) => call_ensures(
                    edit,
                    (joints[i].bind_local, step, self),
                    #[trigger] locals[i],
                ),
                None => locals[i] == joints[i].bind_local,
            }
    }

    /// The pose of this layer on a skeleton.
    pub fn pose<E: Fn(Transform, Move, Layer) -> Transform>(self, skeleton: &Skeleton, edit: &E) -> (r:
        Pose)
        requires
            forall|t: Transform, step: Move, layer: Layer| call_requires(*edit, (t, step, layer)),
        ensures
            self.shapes(skeleton.joints@, *edit, r.locals@),
    {
        let turn = |t: Transform, step: Move| -> (turned: Transform)
            ensures
                call_ensures(*edit, (t, step, self), turned),
            { edit(t, step, self) };
        let pose = match self {
            Layer::Idle { .. } => procedural::idle(skeleton, &turn),
            Layer::Walk { .. } => procedural::walk(skeleton, &turn),
            Layer::Airborne { .. } => procedural::airborne(skeleton, &turn),
            Layer::Cast { .. } => procedural::cast(skeleton, &turn),
            Layer::Hit { .. } => procedural::hit_recoil(skeleton, &turn),
            Layer::Death { .. } => procedural::death(skeleton, &turn),
        };
        assert(poses(self.motion(), skeleton.joints@, turn, pose.locals@));
        pose
    }
}

/// `after` is `before` with the layer blended onto it by its weight.
pub open spec fn blends<
    E: Fn(Transform, Move, Layer) -> Transform,
    M: Fn(Transform, Transform, Scalar) -> Transform,
>(
    layer: Layer,
    joints: Seq<Joint>,
    edit: E,
    mix: M,
    before: Seq<Transform>,
    after: Seq<Transform>,
) -> bool {
    exists|pose: Seq<Transform>|
        {
            &&& #[trigger] layer.shapes(joints, edit, pose)
            &&& after.len() == before.len()
            &&& forall|i: int|
                0 <= i < after.len() ==> call_ensures(
                    mix,
                    (before[i], pose[i], layer.strength()),
                    #[trigger] after[i],
                )
        }
}

/// `stages` are the poses that come of blending the layers from the bottom up: the pose of
/// the first, then one more layer at each stage.
pub open spec fn builds<
    E: Fn(Transform, Move, Layer) -> Transform,
    M: Fn(Transform, Transform, Scalar) -> Transform,
>(
    layers: Seq<Layer>,
    joints: Seq<Joint>,
    edit: E,
    mix: M,
    stages: Seq<Seq<Transform>>,
) -> bool {
    &&& stages.len() == layers.len()
    &&& layers[0].shapes(joints, edit, stages[0])
    &&& forall|k: int|
        0 < k < stages.len() ==> blends(
            layers[k],
            joints,
            edit,
            mix,
            stages[k - 1],
            #[trigger] stages[k],
        )
}

/// The animation state of one creature.
#[derive(Debug, Clone)]
pub struct Animator {
    pub skeleton: Skeleton,
    pub inverse_bind: Vec<Matrix>,
    pub config: AnimatorConfig,
    /// Accumulated gait cycle (radians), advanced by distance travelled.
    pub gait_phase: Scalar,
    /// Accumulated idle phase (radians), advanced by time.
    pub idle_phase: Scalar,
    /// Smoothed locomotion intensity 0..1 (idle..run), eased so it never pops.
    pub intensity: Scalar,
    /// Remaining cast time (s); >0 while a cast flourish plays.
    pub cast_remaining: Scalar,
    pub cast_total: Scalar,
    /// Remaining hit recoil (s) and its local direction.
    pub hit_remaining: Scalar,
    pub hit_dir: [Scalar; 3],
    /// Death progress 0..1.
    pub death_t: Scalar,
    /// The pose produced last.
    pub current: Pose,
}

/// Straight ahead: the local `+Z` axis.
pub open spec fn ahead() -> Seq<Scalar> {
    seq![Scalar { bits: 0 }, Scalar { bits: 0 }, Scalar { bits: ONE }]
}

impl Animator {
    /// No motion has been fed and none triggered.
    pub open spec fn at_rest(self) -> bool {
        &&& self.gait_phase.bits == 0
        &&& self.idle_phase.bits == 0
        &&& self.intensity.bits == 0
        &&& self.cast_remaining.bits == 0
        &&& self.cast_total.bits == 0
        &&& self.hit_remaining.bits == 0
        &&& self.hit_dir@ == ahead()
        &&& self.death_t.bits == 0
    }

    /// Build an animator from a baked rig: at rest, in the rest pose.
    pub fn new(skeleton: Skeleton, inverse_bind: Vec<Matrix>, config: AnimatorConfig) -> (r: Self)
        ensures
            r.skeleton == skeleton,
            r.inverse_bind == inverse_bind,
            r.config == config,
            r.at_rest(),
            r.current.locals@ == skeleton.bind_locals(),
    {
        let rest = Pose::rest(&skeleton);
        Animator {
            skeleton,
            inverse_bind,
            config,
            gait_phase: zero(),
            idle_phase: zero(),
            intensity: zero(),
            cast_remaining: zero(),
            cast_total: zero(),
            hit_remaining: zero(),
            hit_dir: [zero(), zero(), one()],
            death_t: zero(),
            current: rest,
        }
    }

    /// Convenience constructor that computes the inverse-bind matrices for you.
    pub fn from_skeleton<F: Fn(Transform, Transform) -> Transform, G: Fn(Transform) -> Matrix>(
        skeleton: Skeleton,
        config: AnimatorConfig,
        chain: &F,
        invert: &G,
    ) -> (r: Self)
        requires
            ordered(skeleton.joints@),
            forall|a: Transform, b: Transform| call_requires(*chain, (a, b)),
            forall|t: Transform| call_requires(*invert, (t,)),
        ensures
            r.skeleton == skeleton,
            r.config == config,
            r.at_rest(),
            r.current.locals@ == skeleton.bind_locals(),
            r.inverse_bind@.len() == skeleton.joints@.len(),
            exists|globals: Seq<Transform>|
                {
                    &&& #[trigger] folds(skeleton.joints@, skeleton.bind_locals(), *chain, globals)
                    &&& forall|i: int|
                        0 <= i < r.inverse_bind@.len() ==> call_ensures(
                            *invert,
                            (globals[i],),
                            #[trigger] r.inverse_bind@[i],
                        )
                },
    {
        let inverse_bind = skeleton.inverse_bind_matrices(chain, invert);
        Animator::new(skeleton, inverse_bind, config)
    }

    /// The skeleton this animator drives.
    pub fn skeleton(&self) -> (r: &Skeleton)
        ensures
            *r == self.skeleton,
    {
        &self.skeleton
    }

    /// `after` is this animator with the one-shot begun.
    pub open spec fn triggered(self, event: MotionEvent, after: Animator) -> bool {
        match event {
            MotionEvent::Cast { duration } => {
                let total = duration.floored(decimal(5, 2));
                after == (Animator { cast_total: total, cast_remaining: total, ..self })
            },
            MotionEvent::Hit { dir, length_squared } => {
                &&& after == (Animator {
                    hit_remaining: self.config.hit_duration,
                    hit_dir: after.hit_dir,
                    ..self
                })
                &&& after.hit_dir@ == if decimal(1, 6).below(length_squared) {
                    dir@
                } else {
                    ahead()
                }
            },
        }
    }

    /// Trigger a one-shot motion (cast / hit). The host fires it on the sim event edge. A
    /// cast lasts at least 0.05 s; a hit without a direction comes from straight ahead.
    pub fn trigger(&mut self, event: MotionEvent)
        ensures
            old(self).triggered(event, *final(self)),
    {
        match event {
            MotionEvent::Cast { duration } => {
                let total = duration.max(dec(5, 2));
                self.cast_total = total;
                self.cast_remaining = total;
            },
            MotionEvent::Hit { dir, length_squared } => {
                self.hit_remaining = self.config.hit_duration;
                self.hit_dir = if dec(1, 6).lt(length_squared) {
                    dir
                } else {
                    [zero(), zero(), one()]
                };
            },
        }
    }

    /// A one-shot timer after a tick: it runs down to zero and stays there.
    pub open spec fn timer(remaining: Scalar, left: Scalar) -> Scalar {
        if (Scalar { bits: 0 }).below(remaining) {
            left.floored(Scalar { bits: 0 })
        } else {
            remaining
        }
    }

    /// Death progress after a tick: up to one while dead, back to zero while alive.
    pub open spec fn death_after(self, dead: bool, step: Step) -> Scalar {
        if dead {
            step.death_up.capped(Scalar { bits: ONE })
        } else if (Scalar { bits: 0 }).below(self.death_t) {
            step.death_down.floored(Scalar { bits: 0 })
        } else {
            self.death_t
        }
    }

    /// This animator one tick later.
    pub open spec fn ticked(self, input: LocomotionInput, step: Step) -> Animator {
        Animator {
            idle_phase: step.idle_phase,
            gait_phase: step.gait_phase,
            intensity: step.intensity,
            cast_remaining: Animator::timer(self.cast_remaining, step.cast_left),
            hit_remaining: Animator::timer(self.hit_remaining, step.hit_left),
            death_t: self.death_after(input.dead, step),
            ..self
        }
    }

    /// Advance phases and timers by one tick under `input`, whose arithmetic is `step`.
    pub fn update(&mut self, input: LocomotionInput, step: Step)
        ensures
            *final(self) == old(self).ticked(input, step),
    {
        self.idle_phase = step.idle_phase;
        self.gait_phase = step.gait_phase;
        self.intensity = step.intensity;
        if zero().lt(self.cast_remaining) {
            self.cast_remaining = step.cast_left.max(zero());
        }
        if zero().lt(self.hit_remaining) {
            self.hit_remaining = step.hit_left.max(zero());
        }
        if input.dead {
            self.death_t = step.death_up.min(one());
        } else if zero().lt(self.death_t) {
            self.death_t = step.death_down.max(zero());
        }
    }

    /// The motions to blend for the current state, from the bottom up.
    pub open spec fn stack(self, input: LocomotionInput) -> Seq<Layer> {
        let nothing = Scalar { bits: 0 };
        seq![Layer::Idle { phase: self.idle_phase }] + (if decimal(1, 3).below(self.intensity) {
            seq![Layer::Walk { phase: self.gait_phase, intensity: self.intensity }]
        } else {
            seq![]
        }) + (if !input.grounded {
            seq![Layer::Airborne { rising: nothing.below(input.vertical_speed) }]
        } else {
            seq![]
        }) + (if nothing.below(self.cast_remaining) && nothing.below(self.cast_total) {
            seq![Layer::Cast { remaining: self.cast_remaining, total: self.cast_total }]
        } else {
            seq![]
        }) + (if nothing.below(self.hit_remaining) {
            seq![Layer::Hit { dir: self.hit_dir, remaining: self.hit_remaining }]
        } else {
            seq![]
        }) + (if nothing.below(self.death_t) {
            seq![Layer::Death { progress: self.death_t }]
        } else {
            seq![]
        })
    }

    /// The motions to blend for the current state, from the bottom up: locomotion, then the
    /// airborne overlay, then the one-shots, then death, which takes over fully.
    pub fn layers(&self, input: LocomotionInput) -> (r: Vec<Layer>)
        ensures
            r@ == self.stack(input),
    {
        let mut out: Vec<Layer> = Vec::new();
        out.push(Layer::Idle { phase: self.idle_phase });
        if dec(1, 3).lt(self.intensity) {
            out.push(Layer::Walk { phase: self.gait_phase, intensity: self.intensity });
        }
        if !input.grounded {
            out.push(Layer::Airborne { rising: zero().lt(input.vertical_speed) });
        }
        if zero().lt(self.cast_remaining) && zero().lt(self.cast_total) {
            out.push(Layer::Cast { remaining: self.cast_remaining, total: self.cast_total });
        }
        if zero().lt(self.hit_remaining) {
            out.push(Layer::Hit { dir: self.hit_dir, remaining: self.hit_remaining });
        }
        if zero().lt(self.death_t) {
            out.push(Layer::Death { progress: self.death_t });
        }
        assert(out@ =~= self.stack(input));
        out
    }

    /// Produce the pose for the current state: every layer's pose, blended onto those below
    /// it.
    pub fn compose<
        E: Fn(Transform, Move, Layer) -> Transform,
        M: Fn(Transform, Transform, Scalar) -> Transform,
    >(&mut self, input: LocomotionInput, edit: &E, mix: &M)
        requires
            forall|t: Transform, step: Move, layer: Layer| call_requires(*edit, (t, step, layer)),
            forall|a: Transform, b: Transform, w: Scalar| call_requires(*mix, (a, b, w)),
        ensures
            *final(self) == (Animator { current: final(self).current, ..*old(self) }),
            final(self).current.locals@.len() == old(self).skeleton.joints@.len(),
            exists|stages: Seq<Seq<Transform>>|
                {
                    &&& #[trigger] builds(
                        old(self).stack(input),
                        old(self).skeleton.joints@,
                        *edit,
                        *mix,
                        stages,
                    )
                    &&& final(self).current.locals@ == stages.last()
                },
    {
        let layers = self.layers(input);
        let ghost joints = self.skeleton.joints@;
        let mut base = layers[0].pose(&self.skeleton, edit);
        let ghost mut stages: Seq<Seq<Transform>> = seq![base.locals@];
        let mut k: usize = 1;
        while k < layers.len()
            invariant
                1 <= k <= layers.len(),
                joints == self.skeleton.joints@,
                base.locals@.len() == joints.len(),
                forall|t: Transform, step: Move, layer: Layer|
                    call_requires(*edit, (t, step, layer)),
                forall|a: Transform, b: Transform, w: Scalar| call_requires(*mix, (a, b, w)),
                builds(layers@.take(k as int), joints, *edit, *mix, stages),
                base.locals@ == stages.last(),
            decreases layers.len() - k,
        {
            let layer = layers[k];
            let pose = layer.pose(&self.skeleton, edit);
            let weight = layer.weight();
            let blend = |a: Transform, b: Transform| -> (mixed: Transform)
                ensures
                    call_ensures(*mix, (a, b, weight), mixed),
                { mix(a, b, weight) };
            let ghost before = base.locals@;
            base = base.blend(&pose, &blend);
            proof {
                let was = stages;
                stages = stages.push(base.locals@);
                assert(layer.shapes(joints, *edit, pose.locals@));
                assert forall|i: int| 0 <= i < base.locals@.len() implies call_ensures(
                    *mix,
                    (before[i], pose.locals@[i], layer.strength()),
                    #[trigger] base.locals@[i],
                ) by {
                    assert(call_ensures(blend, (before[i], pose.locals@[i]), base.locals@[i]));
                }
                assert(blends(layer, joints, *edit, *mix, before, base.locals@));
                assert forall|m: int| 0 < m < stages.len() implies blends(
                    layers@.take(k + 1)[m],
                    joints,
                    *edit,
                    *mix,
                    stages[m - 1],
                    #[trigger] stages[m],
                ) by {
                    if m < k {
                        assert(stages[m] == was[m]);
                        assert(layers@.take(k as int)[m] == layers@.take(k + 1)[m]);
                    }
                }
                assert(layers@.take(k as int)[0] == layers@.take(k + 1)[0]);
            }
            k = k + 1;
        }
        assert(layers@.take(layers@.len() as int) =~= layers@);
        self.current = base;
    }

    /// The pose produced last.
    pub fn pose(&self) -> (r: &Pose)
        ensures
            *r == self.current,
    {
        &self.current
    }

    /// Skinning matrices (`skin` of a joint's global transform and its inverse bind matrix)
    /// for the current pose — upload straight into the renderer's bone buffer.
    pub fn skinning_matrices<
        F: Fn(Transform, Transform) -> Transform,
        G: Fn(Transform, Matrix) -> Matrix,
    >(&self, chain: &F, skin: &G) -> (r: Vec<Matrix>)
        requires
            ordered(self.skeleton.joints@),
            self.current.locals@.len() <= self.skeleton.joints@.len(),
            forall|a: Transform, b: Transform| call_requires(*chain, (a, b)),
            forall|a: Transform, b: Matrix| call_requires(*skin, (a, b)),
        ensures
            r@.len() == least(self.current.locals@.len(), self.inverse_bind@.len()),
            exists|globals: Seq<Transform>|
                {
                    &&& #[trigger] folds(
                        self.skeleton.joints@,
                        self.current.locals@,
                        *chain,
                        globals,
                    )
                    &&& forall|i: int|
                        0 <= i < r@.len() ==> call_ensures(
                            *skin,
                            (globals[i], self.inverse_bind@[i]),
                            #[trigger] r@[i],
                        )
                },
    {
        self.current.skinning_matrices(&self.skeleton, &self.inverse_bind, chain, skin)
    }

    /// Model-space global joint transforms (for attaching effects/weapons to bones, or
    /// pose-accurate hitboxes).
    pub fn global_joint_transforms<F: Fn(Transform, Transform) -> Transform>(&self, chain: &F) -> (r:
        Vec<Transform>)
        requires
            ordered(self.skeleton.joints@),
            self.current.locals@.len() <= self.skeleton.joints@.len(),
            forall|a: Transform, b: Transform| call_requires(*chain, (a, b)),
        ensures
            folds(self.skeleton.joints@, self.current.locals@, *chain, r@),
    {
        self.current.global_transforms(&self.skeleton, chain)
    }
}

/// A one-shot runs out: once no more time is left than a tick takes, its timer is zero,
/// its layer is gone, and both stay so until it is triggered again.
pub proof fn one_shots_run_out(a: Animator, input: LocomotionInput, step: Step, later: Step)
    ensures
        ({
            let after = Animator::timer(a.cast_remaining, step.cast_left);
            (Scalar { bits: 0 }).below(a.cast_remaining) && step.cast_left.at_most(Scalar { bits: 0 })
                ==> {
                &&& after.rank() == 0
                &&& Animator::timer(after, later.cast_left) == after
                &&& forall|b: Animator, i: int|
                    b.cast_remaining == after && 0 <= i < b.stack(input).len() ==> !(
                    #[trigger] b.stack(input)[i] is Cast)
            }
        }),
        ({
            let after = Animator::timer(a.hit_remaining, step.hit_left);
            (Scalar { bits: 0 }).below(a.hit_remaining) && step.hit_left.at_most(Scalar { bits: 0 })
                ==> {
                &&& after.rank() == 0
                &&& Animator::timer(after, later.hit_left) == after
                &&& forall|b: Animator, i: int|
                    b.hit_remaining == after && 0 <= i < b.stack(input).len() ==> !(
                    #[trigger] b.stack(input)[i] is Hit)
            }
        }),
{
}

/// The animator after a run of ticks.
pub open spec fn played(a: Animator, ticks: Seq<(LocomotionInput, Step)>) -> Animator
    decreases ticks.len(),
{
    if ticks.len() == 0 {
        a
    } else {
        played(a, ticks.drop_last()).ticked(ticks.last().0, ticks.last().1)
    }
}

/// The two are the same creature in the same gait, whatever overlays either plays.
pub open spec fn walk_alike(a: Animator, b: Animator) -> bool {
    &&& a.skeleton == b.skeleton
    &&& a.config == b.config
    &&& a.idle_phase == b.idle_phase
    &&& a.gait_phase == b.gait_phase
    &&& a.intensity == b.intensity
    &&& a.death_t == b.death_t
}

/// The two are the same creature in the same gait, playing the same overlays.
pub open spec fn play_alike(a: Animator, b: Animator) -> bool {
    &&& walk_alike(a, b)
    &&& a.cast_remaining == b.cast_remaining
    &&& a.cast_total == b.cast_total
    &&& a.hit_remaining == b.hit_remaining
    &&& a.hit_dir@ == b.hit_dir@
}

/// No one-shot plays any more.
pub open spec fn spent(a: Animator) -> bool {
    !(Scalar { bits: 0 }).below(a.cast_remaining) && !(Scalar { bits: 0 }).below(a.hit_remaining)
}

/// The two runs feed the same motion; the arithmetic of the one-shot timers may differ.
pub open spec fn same_motion(
    s: Seq<(LocomotionInput, Step)>,
    t: Seq<(LocomotionInput, Step)>,
) -> bool {
    &&& s.len() == t.len()
    &&& forall|i: int|
        0 <= i < s.len() ==> {
            &&& (#[trigger] s[i]).0 == t[i].0
            &&& s[i].1 == (Step {
                cast_left: s[i].1.cast_left,
                hit_left: s[i].1.hit_left,
                ..t[i].1
            })
        }
}

/// The calls of a closure on joints agree: it turns one joint in one way only.
pub open spec fn turns_one_way<E: Fn(Transform, Move, Layer) -> Transform>(edit: E) -> bool {
    forall|t: Transform, step: Move, layer: Layer, x: Transform, y: Transform|
        #[trigger] call_ensures(edit, (t, step, layer), x) && #[trigger] call_ensures(
            edit,
            (t, step, layer),
            y,
        ) ==> x == y
}

/// The calls of a blending closure agree.
pub open spec fn mixes_one_way<M: Fn(Transform, Transform, Scalar) -> Transform>(mix: M) -> bool {
    forall|a: Transform, b: Transform, w: Scalar, x: Transform, y: Transform|
        #[trigger] call_ensures(mix, (a, b, w), x) && #[trigger] call_ensures(mix, (a, b, w), y)
            ==> x == y
}

/// A one-shot does not disturb the gait when it begins.
pub proof fn one_shots_spare_the_gait(a: Animator, event: MotionEvent, b: Animator)
    requires
        a.triggered(event, b),
    ensures
        walk_alike(a, b),
{
}

/// Nor does it while it plays: creatures that walk alike, fed the same motion, still walk alike,
/// whatever overlays either plays.
pub proof fn gaits_stay_alike(
    a: Animator,
    b: Animator,
    s: Seq<(LocomotionInput, Step)>,
    t: Seq<(LocomotionInput, Step)>,
)
    requires
        walk_alike(a, b),
        same_motion(s, t),
    ensures
        walk_alike(played(a, s), played(b, t)),
    decreases s.len(),
{
    if s.len() > 0 {
        let (si, ti) = (s.drop_last(), t.drop_last());
        assert forall|i: int| 0 <= i < si.len() implies {
            &&& (#[trigger] si[i]).0 == ti[i].0
            &&& si[i].1 == (Step { cast_left: si[i].1.cast_left, hit_left: si[i].1.hit_left, ..ti[i].1 })
        } by {
            assert(si[i] == s[i]);
        }
        gaits_stay_alike(a, b, si, ti);
        assert(s[s.len() - 1].0 == t[t.len() - 1].0);
    }
}

/// Once the one-shots have run out they leave nothing behind: two creatures that walk alike
/// and play no one-shot blend the same motions.
pub proof fn spent_one_shots_leave_nothing(a: Animator, b: Animator, input: LocomotionInput)
    requires
        walk_alike(a, b),
        spent(a),
        spent(b),
    ensures
        a.stack(input) == b.stack(input),
{
    assert(a.stack(input) =~= b.stack(input));
}

/// The animation is deterministic: creatures built alike play alike, still do after the same
/// one-shot or the same run of ticks, and blend the same motions.
pub proof fn same_feed_plays_alike(
    a: Animator,
    b: Animator,
    event: MotionEvent,
    a_hit: Animator,
    b_hit: Animator,
    ticks: Seq<(LocomotionInput, Step)>,
    input: LocomotionInput,
)
    requires
        a.triggered(event, a_hit),
        b.triggered(event, b_hit),
    ensures
        a.at_rest() && b.at_rest() && a.skeleton == b.skeleton && a.config == b.config ==> play_alike(
            a,
            b,
        ),
        play_alike(a, b) ==> {
            &&& play_alike(a_hit, b_hit)
            &&& play_alike(played(a, ticks), played(b, ticks))
            &&& a.stack(input) == b.stack(input)
        },
    decreases ticks.len(),
{
    if play_alike(a, b) {
        assert(a.hit_dir =~= b.hit_dir);
        assert(a.stack(input) =~= b.stack(input));
        if ticks.len() > 0 {
            same_feed_plays_alike(a, b, event, a_hit, b_hit, ticks.drop_last(), input);
        }
    }
}

/// The same motions, blended on the same skeleton, come to the same pose at every stage.
pub proof fn same_layers_pose_alike<
    E: Fn(Transform, Move, Layer) -> Transform,
    M: Fn(Transform, Transform, Scalar) -> Transform,
>(
    layers: Seq<Layer>,
    joints: Seq<Joint>,
    edit: E,
    mix: M,
    x: Seq<Seq<Transform>>,
    y: Seq<Seq<Transform>>,
)
    requires
        layers.len() > 0,
        turns_one_way(edit),
        mixes_one_way(mix),
        builds(layers, joints, edit, mix, x),
        builds(layers, joints, edit, mix, y),
    ensures
        x == y,
{
    stages_agree(layers, joints, edit, mix, x, y, layers.len() - 1);
    assert(x =~= y);
}

proof fn shapes_agree<E: Fn(Transform, Move, Layer) -> Transform>(
    layer: Layer,
    joints: Seq<Joint>,
    edit: E,
    x: Seq<Transform>,
    y: Seq<Transform>,
)
    requires
        turns_one_way(edit),
        layer.shapes(joints, edit, x),
        layer.shapes(joints, edit, y),
    ensures
        x == y,
{
    assert forall|i: int| 0 <= i < x.len() implies x[i] == y[i] by {
        match moved(layer.motion(), joints[i].role, is_first(joints, i)) {
            Some(step) => {
                assert(call_ensures(edit, (joints[i].bind_local, step, layer), x[i]));
                assert(call_ensures(edit, (joints[i].bind_local, step, layer), y[i]));
            },
            None => {},
        }
    }
    assert(x =~= y);
}

proof fn stages_agree<
    E: Fn(Transform, Move, Layer) -> Transform,
    M: Fn(Transform, Transform, Scalar) -> Transform,
>(
    layers: Seq<Layer>,
    joints: Seq<Joint>,
    edit: E,
    mix: M,
    x: Seq<Seq<Transform>>,
    y: Seq<Seq<Transform>>,
    k: int,
)
    requires
        turns_one_way(edit),
        mixes_one_way(mix),
        builds(layers, joints, edit, mix, x),
        builds(layers, joints, edit, mix, y),
        0 <= k < layers.len(),
    ensures
        forall|i: int| 0 <= i <= k ==> #[trigger] x[i] == y[i],
    decreases k,
{
    if k == 0 {
        shapes_agree(layers[0], joints, edit, x[0], y[0]);
    } else {
        stages_agree(layers, joints, edit, mix, x, y, k - 1);
        let layer = layers[k];
        let before = x[k - 1];
        assert(y[k - 1] == before);
        assert(blends(layer, joints, edit, mix, before, x[k]));
        assert(blends(layer, joints, edit, mix, before, y[k]));
        let p = choose|pose: Seq<Transform>|
            {
                &&& #[trigger] layer.shapes(joints, edit, pose)
                &&& x[k].len() == before.len()
                &&& forall|i: int|
                    0 <= i < x[k].len() ==> call_ensures(
                        mix,
                        (before[i], pose[i], layer.strength()),
                        #[trigger] x[k][i],
                    )
            };
        let q = choose|pose: Seq<Transform>|
            {
                &&& #[trigger] layer.shapes(joints, edit, pose)
                &&& y[k].len() == before.len()
                &&& forall|i: int|
                    0 <= i < y[k].len() ==> call_ensures(
                        mix,
                        (before[i], pose[i], layer.strength()),
                        #[trigger] y[k][i],
                    )
            };
        shapes_agree(layer, joints, edit, p, q);
        assert forall|i: int| 0 <= i < x[k].len() implies x[k][i] == y[k][i] by {
            assert(call_ensures(mix, (before[i], p[i], layer.strength()), x[k][i]));
            assert(call_ensures(mix, (before[i], p[i], layer.strength()), y[k][i]));
        }
        assert(x[k] =~= y[k]);
    }
}

/// One-shots leave no trace: creatures that walk alike, however often either was triggered,
/// fed the same motion, strike the same pose again once every one-shot has run out.
pub proof fn one_shots_leave_no_trace<
    E: Fn(Transform, Move, Layer) -> Transform,
    M: Fn(Transform, Transform, Scalar) -> Transform,
>(
    a: Animator,
    b: Animator,
    s: Seq<(LocomotionInput, Step)>,
    t: Seq<(LocomotionInput, Step)>,
    input: LocomotionInput,
    edit: E,
    mix: M,
    x: Seq<Seq<Transform>>,
    y: Seq<Seq<Transform>>,
)
    requires
        walk_alike(a, b),
        same_motion(s, t),
        spent(played(a, s)),
        spent(played(b, t)),
        turns_one_way(edit),
        mixes_one_way(mix),
        builds(played(a, s).stack(input), a.skeleton.joints@, edit, mix, x),
        builds(played(b, t).stack(input), b.skeleton.joints@, edit, mix, y),
    ensures
        x.last() == y.last(),
{
    gaits_stay_alike(a, b, s, t);
    spent_one_shots_leave_nothing(played(a, s), played(b, t), input);
    same_layers_pose_alike(
        played(a, s).stack(input),
        a.skeleton.joints@,
        edit,
        mix,
        x,
        y,
    );
}

/// Each tick of the run takes at least `amount`, in units, off a one-shot timer that still runs.
spec fn runs_down(a: Animator, ticks: Seq<(LocomotionInput, Step)>, amount: nat) -> bool
    decreases ticks.len(),
{
    ticks.len() > 0 ==> {
        let before = played(a, ticks.drop_last());
        let step = ticks.last().1;
        &&& runs_down(a, ticks.drop_last(), amount)
        &&& takes_off(before.cast_remaining, step.cast_left, amount)
        &&& takes_off(before.hit_remaining, step.hit_left, amount)
    }
}

/// If the timer still runs, what is left of it is less by at least `amount`, in units, or
/// nothing.
spec fn takes_off(remaining: Scalar, left: Scalar, amount: nat) -> bool {
    (Scalar { bits: 0 }).below(remaining) ==> !left.nan() && (left.units() <= 0 || left.units()
        + amount <= remaining.units())
}

proof fn timer_runs_down(remaining: Scalar, left: Scalar, amount: nat, bound: int)
    requires
        takes_off(remaining, left, amount),
        (Scalar { bits: 0 }).below(remaining) ==> remaining.units() <= bound,
    ensures
        ({
            let after = Animator::timer(remaining, left);
            (Scalar { bits: 0 }).below(after) ==> after.units() <= bound - amount
        }),
{
    if (Scalar { bits: 0 }).below(remaining) {
        units_tell_sign(left);
    }
}

proof fn timers_run_down(
    a: Animator,
    ticks: Seq<(LocomotionInput, Step)>,
    amount: nat,
    cast: int,
    hit: int,
)
    requires
        runs_down(a, ticks, amount),
        (Scalar { bits: 0 }).below(a.cast_remaining) ==> a.cast_remaining.units() <= cast,
        (Scalar { bits: 0 }).below(a.hit_remaining) ==> a.hit_remaining.units() <= hit,
    ensures
        ({
            let b = played(a, ticks);
            let gone = ticks.len() * amount;
            &&& (Scalar { bits: 0 }).below(b.cast_remaining) ==> b.cast_remaining.units() <= cast
                - gone
            &&& (Scalar { bits: 0 }).below(b.hit_remaining) ==> b.hit_remaining.units() <= hit - gone
        }),
    decreases ticks.len(),
{
    let n = ticks.len() as int;
    let d = amount as int;
    if ticks.len() > 0 {
        let init = ticks.drop_last();
        let before = played(a, init);
        let step = ticks.last().1;
        timers_run_down(a, init, amount, cast, hit);
        timer_runs_down(before.cast_remaining, step.cast_left, amount, cast - init.len() * amount);
        timer_runs_down(before.hit_remaining, step.hit_left, amount, hit - init.len() * amount);
        assert(n * d == (n - 1) * d + d) by (nonlinear_arith);
        assert(init.len() * amount == (n - 1) * d);
        assert(ticks.len() * amount == n * d);
    } else {
        assert(n * d == 0) by (nonlinear_arith)
            requires
                n == 0,
        ;
        assert(ticks.len() * amount == n * d);
    }
}

/// Each tick of the run takes `dt` off a one-shot timer that still runs, in single precision.
pub open spec fn counts_down(a: Animator, ticks: Seq<(LocomotionInput, Step)>, dt: Scalar) -> bool
    decreases ticks.len(),
{
    ticks.len() > 0 ==> {
        let before = played(a, ticks.drop_last());
        let step = ticks.last().1;
        let nothing = Scalar { bits: 0 };
        &&& counts_down(a, ticks.drop_last(), dt)
        &&& nothing.below(before.cast_remaining) ==> before.cast_remaining.less(dt, step.cast_left)
        &&& nothing.below(before.hit_remaining) ==> before.hit_remaining.less(dt, step.hit_left)
    }
}

/// A tick of `dt` is long enough to be felt by the timer: it is not lost to rounding.
pub open spec fn feels(timer: Scalar, dt: Scalar) -> bool {
    (Scalar { bits: 0 }).below(timer) ==> timer.finite() && timer.spacing() <= dt.units()
}

proof fn timer_counts_down(remaining: Scalar, left: Scalar, dt: Scalar)
    requires
        feels(remaining, dt),
        (Scalar { bits: 0 }).below(remaining) ==> remaining.less(dt, left),
    ensures
        takes_off(remaining, left, (dt.units() / 2) as nat),
        feels(Animator::timer(remaining, left), dt),
{
    let after = Animator::timer(remaining, left);
    if (Scalar { bits: 0 }).below(remaining) {
        subtraction_takes_away(remaining, dt, left);
        if (Scalar { bits: 0 }).below(after) {
            units_tell_sign(after);
            if after.bits > remaining.bits {
                sizes_grow(remaining.bits, after.bits);
            } else {
                sizes_grow(after.bits, remaining.bits);
            }
        }
    }
}

proof fn timers_count_down(a: Animator, ticks: Seq<(LocomotionInput, Step)>, dt: Scalar)
    requires
        counts_down(a, ticks, dt),
        feels(a.cast_remaining, dt),
        feels(a.hit_remaining, dt),
    ensures
        runs_down(a, ticks, (dt.units() / 2) as nat),
        feels(played(a, ticks).cast_remaining, dt),
        feels(played(a, ticks).hit_remaining, dt),
    decreases ticks.len(),
{
    if ticks.len() > 0 {
        let before = played(a, ticks.drop_last());
        let step = ticks.last().1;
        timers_count_down(a, ticks.drop_last(), dt);
        timer_counts_down(before.cast_remaining, step.cast_left, dt);
        timer_counts_down(before.hit_remaining, step.hit_left, dt);
    }
}

/// The run of ticks of `dt` is long enough for the timer: half of its time, which no rounding
/// can eat up, covers what is left.
pub open spec fn covers(ticks: nat, dt: Scalar, timer: Scalar) -> bool {
    (Scalar { bits: 0 }).below(timer) ==> timer.units() <= ticks * (dt.units() / 2)
}

/// One-shots are one-shots: a cast and a recoil have both run out after a run of ticks that
/// covers them, and no overlay lingers.
pub proof fn one_shots_decay(
    a: Animator,
    ticks: Seq<(LocomotionInput, Step)>,
    dt: Scalar,
    input: LocomotionInput,
)
    requires
        counts_down(a, ticks, dt),
        feels(a.cast_remaining, dt),
        feels(a.hit_remaining, dt),
        covers(ticks.len(), dt, a.cast_remaining),
        covers(ticks.len(), dt, a.hit_remaining),
    ensures
        spent(played(a, ticks)),
        forall|i: int|
            0 <= i < played(a, ticks).stack(input).len() ==> !(#[trigger] played(a, ticks).stack(
                input,
            )[i] is Cast) && !(played(a, ticks).stack(input)[i] is Hit),
{
    let b = played(a, ticks);
    let nothing = Scalar { bits: 0 };
    if nothing.below(a.cast_remaining) || nothing.below(a.hit_remaining) {
        let amount = (dt.units() / 2) as nat;
        let most = (ticks.len() * amount) as int;
        assert(dt.units() >= 0);
        timers_count_down(a, ticks, dt);
        timers_run_down(a, ticks, amount, most, most);
        if nothing.below(b.cast_remaining) {
            units_tell_sign(b.cast_remaining);
        }
        if nothing.below(b.hit_remaining) {
            units_tell_sign(b.hit_remaining);
        }
    } else {
        nothing_runs(a, ticks);
    }
}

proof fn nothing_runs(a: Animator, ticks: Seq<(LocomotionInput, Step)>)
    requires
        spent(a),
    ensures
        spent(played(a, ticks)),
    decreases ticks.len(),
{
    if ticks.len() > 0 {
        nothing_runs(a, ticks.drop_last());
    }
}

/// One-shots pass: creatures that walk alike, whichever one-shots either was triggered with,
/// fed the same motion in ticks of `dt` until every one-shot is covered, strike the same pose
/// again, and it is one of the whole skeleton.
pub proof fn one_shots_pass<
    E: Fn(Transform, Move, Layer) -> Transform,
    M: Fn(Transform, Transform, Scalar) -> Transform,
>(
    a: Animator,
    b: Animator,
    s: Seq<(LocomotionInput, Step)>,
    t: Seq<(LocomotionInput, Step)>,
    dt: Scalar,
    input: LocomotionInput,
    edit: E,
    mix: M,
    x: Seq<Seq<Transform>>,
    y: Seq<Seq<Transform>>,
)
    requires
        walk_alike(a, b),
        same_motion(s, t),
        counts_down(a, s, dt),
        counts_down(b, t, dt),
        feels(a.cast_remaining, dt) && covers(s.len(), dt, a.cast_remaining),
        feels(a.hit_remaining, dt) && covers(s.len(), dt, a.hit_remaining),
        feels(b.cast_remaining, dt) && covers(s.len(), dt, b.cast_remaining),
        feels(b.hit_remaining, dt) && covers(s.len(), dt, b.hit_remaining),
        turns_one_way(edit),
        mixes_one_way(mix),
        builds(played(a, s).stack(input), a.skeleton.joints@, edit, mix, x),
        builds(played(b, t).stack(input), b.skeleton.joints@, edit, mix, y),
    ensures
        x.last() == y.last(),
        x.last().len() == a.skeleton.joints@.len(),
{
    one_shots_decay(a, s, dt, input);
    one_shots_decay(b, t, dt, input);
    one_shots_leave_no_trace(a, b, s, t, input, edit, mix, x, y);
    stages_are_whole(played(a, s).stack(input), a.skeleton.joints@, edit, mix, x, x.len() - 1);
}

proof fn stages_are_whole<
    E: Fn(Transform, Move, Layer) -> Transform,
    M: Fn(Transform, Transform, Scalar) -> Transform,
>(
    layers: Seq<Layer>,
    joints: Seq<Joint>,
    edit: E,
    mix: M,
    stages: Seq<Seq<Transform>>,
    k: int,
)
    requires
        builds(layers, joints, edit, mix, stages),
        0 <= k < stages.len(),
    ensures
        stages[k].len() == joints.len(),
    decreases k,
{
    if k > 0 {
        stages_are_whole(layers, joints, edit, mix, stages, k - 1);
        assert(blends(layers[k], joints, edit, mix, stages[k - 1], stages[k]));
    }
}

/// A tick takes the phases and the gait to where its arithmetic leads, wherever they stood, and
/// leaves the creature itself, its cast's length and its recoil's direction alone.
pub proof fn a_tick_moves_the_gait(a: Animator, input: LocomotionInput, step: Step)
    ensures
        a.ticked(input, step).idle_phase == step.idle_phase,
        a.ticked(input, step).gait_phase == step.gait_phase,
        a.ticked(input, step).intensity == step.intensity,
        a.ticked(input, step).skeleton == a.skeleton,
        a.ticked(input, step).inverse_bind == a.inverse_bind,
        a.ticked(input, step).config == a.config,
        a.ticked(input, step).cast_total == a.cast_total,
        a.ticked(input, step).hit_dir == a.hit_dir,
        a.ticked(input, step).current == a.current,
{
}

/// A one-shot lasts: while time is left of it after a tick, just that time is left, and it still
/// plays. One that does not run is not begun by a tick.
pub proof fn one_shots_last(a: Animator, input: LocomotionInput, step: Step)
    ensures
        ({
            let nothing = Scalar { bits: 0 };
            let b = a.ticked(input, step);
            &&& nothing.below(a.cast_remaining) && nothing.below(step.cast_left)
                ==> b.cast_remaining == step.cast_left
            &&& nothing.below(a.cast_remaining) && step.cast_left.at_most(nothing)
                ==> b.cast_remaining.rank() == 0
            &&& !nothing.below(a.cast_remaining) ==> b.cast_remaining == a.cast_remaining
            &&& nothing.below(a.hit_remaining) && nothing.below(step.hit_left) ==> b.hit_remaining
                == step.hit_left
            &&& nothing.below(a.hit_remaining) && step.hit_left.at_most(nothing)
                ==> b.hit_remaining.rank() == 0
            &&& !nothing.below(a.hit_remaining) ==> b.hit_remaining == a.hit_remaining
        }),
{
}

/// Triggering starts a one-shot: a cast plays at once for the time that was asked, a recoil for
/// the time that the creature is set to, from where the hit came. Neither stops the other.
pub proof fn triggering_starts_a_one_shot(a: Animator, event: MotionEvent, b: Animator, input: LocomotionInput)
    requires
        a.triggered(event, b),
    ensures
        match event {
            MotionEvent::Cast { duration } => {
                &&& decimal(5, 2).at_most(duration) ==> b.cast_total == duration
                    && b.cast_remaining == duration
                &&& duration.below(decimal(5, 2)) ==> b.cast_total == decimal(5, 2)
                    && b.cast_remaining == decimal(5, 2)
                &&& b.hit_remaining == a.hit_remaining && b.hit_dir == a.hit_dir
                &&& (Scalar { bits: 0 }).below(b.cast_remaining) ==> b.stack(input).contains(
                    Layer::Cast { remaining: b.cast_remaining, total: b.cast_remaining },
                )
            },
            MotionEvent::Hit { dir, length_squared } => {
                &&& b.hit_remaining == a.config.hit_duration
                &&& decimal(1, 6).below(length_squared) ==> b.hit_dir@ == dir@
                &&& length_squared.at_most(decimal(1, 6)) ==> b.hit_dir@[0].bits == 0
                    && b.hit_dir@[1].bits == 0 && b.hit_dir@[2].bits == ONE
                &&& b.cast_remaining == a.cast_remaining && b.cast_total == a.cast_total
                &&& (Scalar { bits: 0 }).below(a.config.hit_duration) ==> b.stack(input).contains(
                    Layer::Hit { dir: b.hit_dir, remaining: a.config.hit_duration },
                )
            },
        },
        b.death_t == a.death_t,
        walk_alike(a, b),
{
    the_stack_is_what_plays(b, input);
}

/// What plays is blended, and nothing else: the layers are breathing, then walking if the creature
/// moves, the air if it is off the ground, the cast and the recoil while they run, and the
/// collapse while there is any, each at most once and in this order.
pub proof fn the_stack_is_what_plays(a: Animator, input: LocomotionInput)
    ensures
        ({
            let nothing = Scalar { bits: 0 };
            let s = a.stack(input);
            &&& s.len() > 0 && s[0] == (Layer::Idle { phase: a.idle_phase })
            &&& s.contains(Layer::Walk { phase: a.gait_phase, intensity: a.intensity })
                <==> decimal(1, 3).below(a.intensity)
            &&& s.contains(Layer::Airborne { rising: true }) <==> !input.grounded && nothing.below(
                input.vertical_speed,
            )
            &&& s.contains(Layer::Airborne { rising: false }) <==> !input.grounded && !nothing.below(
                input.vertical_speed,
            )
            &&& s.contains(Layer::Cast { remaining: a.cast_remaining, total: a.cast_total })
                <==> nothing.below(a.cast_remaining) && nothing.below(a.cast_total)
            &&& s.contains(Layer::Hit { dir: a.hit_dir, remaining: a.hit_remaining })
                <==> nothing.below(a.hit_remaining)
            &&& s.contains(Layer::Death { progress: a.death_t }) <==> nothing.below(a.death_t)
            &&& forall|i: int|
                0 <= i < s.len() ==> match #[trigger] s[i] {
                    Layer::Idle { phase } => phase == a.idle_phase,
                    Layer::Walk { phase, intensity } => phase == a.gait_phase && intensity
                        == a.intensity,
                    Layer::Airborne { .. } => !input.grounded,
                    Layer::Cast { remaining, total } => remaining == a.cast_remaining && total
                        == a.cast_total,
                    Layer::Hit { dir, remaining } => dir == a.hit_dir && remaining == a.hit_remaining,
                    Layer::Death { progress } => progress == a.death_t,
                }
            &&& forall|i: int, j: int|
                0 <= i < j < s.len() ==> match #[trigger] s[i] {
                    Layer::Idle { .. } => !(#[trigger] s[j] is Idle),
                    Layer::Walk { .. } => s[j] is Airborne || s[j] is Cast || s[j] is Hit
                        || s[j] is Death,
                    Layer::Airborne { .. } => s[j] is Cast || s[j] is Hit || s[j] is Death,
                    Layer::Cast { .. } => s[j] is Hit || s[j] is Death,
                    Layer::Hit { .. } => s[j] is Death,
                    Layer::Death { .. } => false,
                }
        }),
{
    let nothing = Scalar { bits: 0 };
    let s = a.stack(input);
    let (walk, air, cast, hit) = stack_places(a, input);
    let layer = Layer::Walk { phase: a.gait_phase, intensity: a.intensity };
    assert(walk == 2 ==> s[1] == layer);
    assert(s.contains(layer) <==> walk == 2);
    let layer = Layer::Airborne { rising: nothing.below(input.vertical_speed) };
    assert(air > walk ==> s[walk] == layer);
    assert(s.contains(layer) <==> air > walk);
    let layer = Layer::Cast { remaining: a.cast_remaining, total: a.cast_total };
    assert(cast > air ==> s[air] == layer);
    assert(s.contains(layer) <==> cast > air);
    let layer = Layer::Hit { dir: a.hit_dir, remaining: a.hit_remaining };
    assert(hit > cast ==> s[cast] == layer);
    assert(s.contains(layer) <==> hit > cast);
    let layer = Layer::Death { progress: a.death_t };
    assert(nothing.below(a.death_t) ==> s[hit] == layer);
    assert(s.contains(layer) <==> nothing.below(a.death_t));
}

/// Where the layers of each kind end.
proof fn stack_places(a: Animator, input: LocomotionInput) -> (r: (int, int, int, int))
    ensures
        ({
            let nothing = Scalar { bits: 0 };
            let s = a.stack(input);
            let (walk, air, cast, hit) = r;
            &&& 1 <= walk <= air <= cast <= hit <= s.len() <= hit + 1
            &&& walk == if decimal(1, 3).below(a.intensity) {
                2int
            } else {
                1
            }
            &&& air <= walk + 1 && (air > walk <==> !input.grounded)
            &&& cast <= air + 1 && (cast > air <==> nothing.below(a.cast_remaining)
                && nothing.below(a.cast_total))
            &&& hit <= cast + 1 && (hit > cast <==> nothing.below(a.hit_remaining))
            &&& s.len() > hit <==> nothing.below(a.death_t)
            &&& forall|i: int|
                0 <= i < s.len() ==> #[trigger] s[i] == if i < 1 {
                    Layer::Idle { phase: a.idle_phase }
                } else if i < walk {
                    Layer::Walk { phase: a.gait_phase, intensity: a.intensity }
                } else if i < air {
                    Layer::Airborne { rising: nothing.below(input.vertical_speed) }
                } else if i < cast {
                    Layer::Cast { remaining: a.cast_remaining, total: a.cast_total }
                } else if i < hit {
                    Layer::Hit { dir: a.hit_dir, remaining: a.hit_remaining }
                } else {
                    Layer::Death { progress: a.death_t }
                }
        }),
{
    let nothing = Scalar { bits: 0 };
    let walk: int = if decimal(1, 3).below(a.intensity) {
        2
    } else {
        1
    };
    let air: int = walk + if !input.grounded {
        1int
    } else {
        0
    };
    let cast: int = air + if nothing.below(a.cast_remaining) && nothing.below(a.cast_total) {
        1int
    } else {
        0
    };
    let hit: int = cast + if nothing.below(a.hit_remaining) {
        1int
    } else {
        0
    };
    (walk, air, cast, hit)
}

/// Collapse and revival run tick by tick: a dead creature collapses to where the tick takes it,
/// but no further than fully; a live one rises to where the tick takes it, but no further than
/// standing, and one that stands stays so.
pub proof fn death_and_revival_run_by_ticks(a: Animator, input: LocomotionInput, step: Step)
    ensures
        ({
            let (nothing, all) = (Scalar { bits: 0 }, Scalar { bits: ONE });
            let b = a.ticked(input, step);
            &&& input.dead && step.death_up.at_most(all) ==> b.death_t == step.death_up
            &&& input.dead && all.below(step.death_up) ==> b.death_t == all
            &&& !input.dead && nothing.below(a.death_t) && nothing.at_most(step.death_down)
                ==> b.death_t == step.death_down
            &&& !input.dead && nothing.below(a.death_t) && step.death_down.below(nothing)
                ==> b.death_t == nothing
            &&& !input.dead && !nothing.below(a.death_t) ==> b.death_t == a.death_t
        }),
{
}

/// Each tick of the run finds the creature alive and takes `part` off a collapse that is left, in
/// single precision.
pub open spec fn rises(a: Animator, ticks: Seq<(LocomotionInput, Step)>, part: Scalar) -> bool
    decreases ticks.len(),
{
    ticks.len() > 0 ==> {
        let before = played(a, ticks.drop_last());
        &&& rises(a, ticks.drop_last(), part)
        &&& !ticks.last().0.dead
        &&& (Scalar { bits: 0 }).below(before.death_t) ==> before.death_t.less(
            part,
            ticks.last().1.death_down,
        )
    }
}

/// Each tick of the run finds the creature dead and takes its collapse at least `part` numbers
/// further.
pub open spec fn sinks(a: Animator, ticks: Seq<(LocomotionInput, Step)>, part: nat) -> bool
    decreases ticks.len(),
{
    ticks.len() > 0 ==> {
        let before = played(a, ticks.drop_last());
        &&& sinks(a, ticks.drop_last(), part)
        &&& ticks.last().0.dead
        &&& !ticks.last().1.death_up.nan()
        &&& ticks.last().1.death_up.rank() >= before.death_t.rank() + part
    }
}

proof fn collapse_wears_off(a: Animator, ticks: Seq<(LocomotionInput, Step)>, part: Scalar)
    requires
        rises(a, ticks, part),
        feels(a.death_t, part),
        (Scalar { bits: 0 }).below(a.death_t),
    ensures
        ({
            let t = played(a, ticks).death_t;
            &&& feels(t, part)
            &&& !t.nan() && t.rank() >= 0
            &&& (Scalar { bits: 0 }).below(t) ==> t.units() <= a.death_t.units() - ticks.len() * (
            part.units() / 2)
        }),
    decreases ticks.len(),
{
    let n = ticks.len() as int;
    let half = part.units() / 2;
    if ticks.len() > 0 {
        let before = played(a, ticks.drop_last());
        let step = ticks.last().1;
        collapse_wears_off(a, ticks.drop_last(), part);
        timer_counts_down(before.death_t, step.death_down, part);
        if (Scalar { bits: 0 }).below(before.death_t) {
            units_tell_sign(step.death_down);
        }
        assert(n * half == (n - 1) * half + half) by (nonlinear_arith);
        assert(ticks.drop_last().len() * half == (n - 1) * half);
    } else {
        assert(n * half == 0) by (nonlinear_arith)
            requires
                n == 0,
        ;
    }
}

/// Revival runs its course: a creature that has respawned stands again after a run of ticks that
/// covers its collapse, and no collapse is blended any more.
pub proof fn revival_runs_its_course(
    a: Animator,
    ticks: Seq<(LocomotionInput, Step)>,
    part: Scalar,
    input: LocomotionInput,
)
    requires
        (Scalar { bits: 0 }).below(a.death_t),
        rises(a, ticks, part),
        feels(a.death_t, part),
        covers(ticks.len(), part, a.death_t),
    ensures
        played(a, ticks).death_t.rank() == 0,
        forall|i: int|
            0 <= i < played(a, ticks).stack(input).len() ==> !(#[trigger] played(a, ticks).stack(
                input,
            )[i] is Death),
{
    let b = played(a, ticks);
    collapse_wears_off(a, ticks, part);
    the_stack_is_what_plays(b, input);
    if (Scalar { bits: 0 }).below(b.death_t) {
        units_tell_sign(b.death_t);
    }
}

/// So does collapse: a dead creature lies flat after enough ticks, and stays so while it is dead.
pub proof fn collapse_runs_its_course(
    a: Animator,
    ticks: Seq<(LocomotionInput, Step)>,
    part: nat,
    input: LocomotionInput,
)
    requires
        ticks.len() > 0,
        !a.death_t.nan(),
        sinks(a, ticks, part),
        a.death_t.rank() + ticks.len() * part >= ONE,
    ensures
        played(a, ticks).death_t == (Scalar { bits: ONE }),
        played(a, ticks).stack(input).last() == (Layer::Death { progress: Scalar { bits: ONE } }),
{
    collapse_deepens(a, ticks, part);
    let t = played(a, ticks).death_t;
    death_is_on_top(played(a, ticks), input);
}

proof fn collapse_deepens(a: Animator, ticks: Seq<(LocomotionInput, Step)>, part: nat)
    requires
        !a.death_t.nan(),
        sinks(a, ticks, part),
    ensures
        ({
            let t = played(a, ticks).death_t;
            &&& !t.nan()
            &&& t == (Scalar { bits: ONE }) || t.rank() >= a.death_t.rank() + ticks.len() * part
            &&& ticks.len() > 0 ==> t.rank() <= ONE
        }),
    decreases ticks.len(),
{
    let n = ticks.len() as int;
    let d = part as int;
    if ticks.len() > 0 {
        collapse_deepens(a, ticks.drop_last(), part);
        assert(n * d == (n - 1) * d + d) by (nonlinear_arith);
        assert(ticks.len() * part == n * d);
        assert(ticks.drop_last().len() * part == (n - 1) * d);
    } else {
        assert(n * d == 0) by (nonlinear_arith)
            requires
                n == 0,
        ;
        assert(ticks.len() * part == n * d);
    }
}

/// Each stage of a pose adds one layer: without the top layer, the stages are those of the layers
/// below it.
pub proof fn stages_add_one_layer<
    E: Fn(Transform, Move, Layer) -> Transform,
    M: Fn(Transform, Transform, Scalar) -> Transform,
>(
    layers: Seq<Layer>,
    joints: Seq<Joint>,
    edit: E,
    mix: M,
    stages: Seq<Seq<Transform>>,
)
    requires
        layers.len() > 1,
        builds(layers, joints, edit, mix, stages),
    ensures
        stages.len() == layers.len(),
        builds(layers.drop_last(), joints, edit, mix, stages.drop_last()),
{
    let (l, s) = (layers.drop_last(), stages.drop_last());
    assert forall|k: int| 0 < k < s.len() implies blends(
        l[k],
        joints,
        edit,
        mix,
        s[k - 1],
        #[trigger] s[k],
    ) by {
        assert(stages[k] == s[k]);
    }
}

/// A layer blended on fully takes the pose over: where the mix at the top layer's weight is its
/// second argument, the pose is that layer's own.
pub proof fn a_full_layer_takes_over<
    E: Fn(Transform, Move, Layer) -> Transform,
    M: Fn(Transform, Transform, Scalar) -> Transform,
>(
    layers: Seq<Layer>,
    joints: Seq<Joint>,
    edit: E,
    mix: M,
    stages: Seq<Seq<Transform>>,
)
    requires
        layers.len() > 1,
        builds(layers, joints, edit, mix, stages),
        forall|x: Transform, y: Transform, z: Transform| #[trigger]
            call_ensures(mix, (x, y, layers.last().strength()), z) ==> z == y,
    ensures
        layers.last().shapes(joints, edit, stages.last()),
{
    let k = stages.len() - 1;
    let layer = layers[k];
    stages_are_whole(layers, joints, edit, mix, stages, k);
    stages_are_whole(layers, joints, edit, mix, stages, k - 1);
    assert(layer == layers.last());
    assert(blends(layer, joints, edit, mix, stages[k - 1], stages[k]));
    let pose = choose|pose: Seq<Transform>|
        {
            &&& #[trigger] layer.shapes(joints, edit, pose)
            &&& stages[k].len() == stages[k - 1].len()
            &&& forall|i: int|
                0 <= i < stages[k].len() ==> call_ensures(
                    mix,
                    (stages[k - 1][i], pose[i], layer.strength()),
                    #[trigger] stages[k][i],
                )
        };
    assert forall|i: int| 0 <= i < stages[k].len() implies stages[k][i] == pose[i] by {
        assert(call_ensures(
            mix,
            (stages[k - 1][i], pose[i], layers.last().strength()),
            stages[k][i],
        ));
    }
    assert(stages[k] =~= pose);
}

/// A layer blended on not at all leaves the pose alone: where the mix at the top layer's weight is
/// its first argument, the pose is the one of the layers below.
pub proof fn an_empty_layer_changes_nothing<
    E: Fn(Transform, Move, Layer) -> Transform,
    M: Fn(Transform, Transform, Scalar) -> Transform,
>(
    layers: Seq<Layer>,
    joints: Seq<Joint>,
    edit: E,
    mix: M,
    stages: Seq<Seq<Transform>>,
)
    requires
        layers.len() > 1,
        builds(layers, joints, edit, mix, stages),
        forall|x: Transform, y: Transform, z: Transform| #[trigger]
            call_ensures(mix, (x, y, layers.last().strength()), z) ==> z == x,
    ensures
        stages.last() == stages[stages.len() - 2],
{
    let k = stages.len() - 1;
    let layer = layers[k];
    stages_are_whole(layers, joints, edit, mix, stages, k);
    stages_are_whole(layers, joints, edit, mix, stages, k - 1);
    assert(layer == layers.last());
    assert(blends(layer, joints, edit, mix, stages[k - 1], stages[k]));
    let pose = choose|pose: Seq<Transform>|
        {
            &&& #[trigger] layer.shapes(joints, edit, pose)
            &&& stages[k].len() == stages[k - 1].len()
            &&& forall|i: int|
                0 <= i < stages[k].len() ==> call_ensures(
                    mix,
                    (stages[k - 1][i], pose[i], layer.strength()),
                    #[trigger] stages[k][i],
                )
        };
    assert forall|i: int| 0 <= i < stages[k].len() implies stages[k][i] == stages[k - 1][i] by {
        assert(call_ensures(
            mix,
            (stages[k - 1][i], pose[i], layers.last().strength()),
            stages[k][i],
        ));
    }
    assert(stages[k] =~= stages[k - 1]);
}

/// Locomotion and collapse are blended by their own degree, the overlays at weights that are each
/// the same for all: the air strongest, then the cast, then the recoil, none of them fully.
pub proof fn layers_weigh_by_their_degree(layer: Layer)
    ensures
        match layer {
            Layer::Idle { .. } => layer.strength().bits == ONE,
            Layer::Walk { intensity, .. } => layer.strength() == intensity,
            Layer::Airborne { .. } => layer.strength() == decimal(85, 2),
            Layer::Cast { .. } => layer.strength() == decimal(7, 1),
            Layer::Hit { .. } => layer.strength() == decimal(6, 1),
            Layer::Death { progress } => layer.strength() == progress,
        },
{
}

/// Death takes over last: whenever a creature is collapsing, that layer is on top.
pub proof fn death_is_on_top(a: Animator, input: LocomotionInput)
    requires
        (Scalar { bits: 0 }).below(a.death_t),
    ensures
        a.stack(input).last() == (Layer::Death { progress: a.death_t }),
{
}

} // verus!
