use cerena::anim::clip::{AnimationClip, JointTrack, Keyframe};
use cerena::anim::pose::Pose;
use cerena::anim::procedural::{airborne, cast, death, hit_recoil, idle, limb_phase_offset, walk, Move};
use cerena::anim::skeleton::{Joint, JointRole, LimbSide, Skeleton};
use cerena::anim::state::{Animator, AnimatorConfig, GaitParams, Layer, LocomotionInput, MotionEvent, Step};
use cerena::anim::transform::{Matrix, Transform};
use cerena::scalar::{one, zero, Scalar};
use glam::{Mat4, Quat, Vec3};

fn num(x: f32) -> Scalar {
    Scalar { bits: x.to_bits() }
}

fn val(x: Scalar) -> f32 {
    f32::from_bits(x.bits)
}

fn vec3(v: [Scalar; 3]) -> Vec3 {
    Vec3::new(val(v[0]), val(v[1]), val(v[2]))
}

fn quat(q: [Scalar; 4]) -> Quat {
    Quat::from_xyzw(val(q[0]), val(q[1]), val(q[2]), val(q[3]))
}

fn scalars3(v: Vec3) -> [Scalar; 3] {
    [num(v.x), num(v.y), num(v.z)]
}

fn scalars4(q: Quat) -> [Scalar; 4] {
    [num(q.x), num(q.y), num(q.z), num(q.w)]
}

fn moved(v: Vec3) -> Transform {
    Transform::from_translation(scalars3(v))
}

fn matrix(t: Transform) -> Mat4 {
    Mat4::from_scale_rotation_translation(vec3(t.scale), quat(t.rotation), vec3(t.translation))
}

fn scalars16(m: Mat4) -> Matrix {
    m.to_cols_array().map(num)
}

fn mat4(m: Matrix) -> Mat4 {
    Mat4::from_cols_array(&m.map(val))
}

fn chained(a: Transform, b: Transform) -> Transform {
    Transform::new(
        scalars3(vec3(a.translation) + quat(a.rotation) * (vec3(a.scale) * vec3(b.translation))),
        scalars4((quat(a.rotation) * quat(b.rotation)).normalize()),
        scalars3(vec3(a.scale) * vec3(b.scale)),
    )
}

fn inverted(t: Transform) -> Matrix {
    scalars16(matrix(t).inverse())
}

fn skinned(t: Transform, inverse_bind: Matrix) -> Matrix {
    scalars16(matrix(t) * mat4(inverse_bind))
}

fn nlerp(a: Quat, b: Quat, t: f32) -> Quat {
    let b = if a.dot(b) < 0.0 { -b } else { b };
    Quat::from_xyzw(
        a.x + (b.x - a.x) * t,
        a.y + (b.y - a.y) * t,
        a.z + (b.z - a.z) * t,
        a.w + (b.w - a.w) * t,
    )
    .normalize()
}

fn mixed(a: Transform, b: Transform, w: Scalar) -> Transform {
    let t = val(w).clamp(0.0, 1.0);
    Transform::new(
        scalars3(vec3(a.translation).lerp(vec3(b.translation), t)),
        scalars4(nlerp(quat(a.rotation), quat(b.rotation), t)),
        scalars3(vec3(a.scale).lerp(vec3(b.scale), t)),
    )
}

fn between(a: Keyframe, b: Keyframe, time: Scalar) -> Transform {
    let span = (val(b.time) - val(a.time)).max(f32::EPSILON);
    mixed(a.transform, b.transform, num((val(time) - val(a.time)) / span))
}

fn wrapped(t: Scalar, duration: Scalar) -> Scalar {
    num(val(t).rem_euclid(val(duration)))
}

fn turned(t: Transform, q: Quat) -> Transform {
    let mut r = t;
    r.rotation = scalars4((quat(t.rotation) * q).normalize());
    r
}

fn raised(t: Transform, y: f32) -> Transform {
    let mut r = t;
    r.translation = scalars3(vec3(t.translation) + Vec3::Y * y);
    r
}

fn swing_at(t: Transform, cycle: f32, lead: u8, stagger: u8, amount: f32) -> Transform {
    let quarter = std::f32::consts::FRAC_PI_2;
    let ahead = lead as f32 * quarter + stagger as f32 * quarter;
    turned(t, Quat::from_rotation_x((cycle + ahead).sin() * amount))
}

fn shaped(t: Transform, step: Move, layer: Layer) -> Transform {
    let gait = GaitParams::default();
    match (layer, step) {
        (Layer::Idle { phase }, Move::Breathe) => {
            let wave = (val(phase) * 1.2).sin();
            let breath = wave * val(gait.breath);
            let swell = Vec3::new(1.0 + breath * 0.5, 1.0 + breath, 1.0 + breath * 0.5);
            let mut r = turned(t, Quat::from_rotation_x(wave * 0.02));
            r.scale = scalars3(vec3(t.scale) * swell);
            r
        },
        (Layer::Idle { phase }, Move::Nod) => raised(t, (val(phase) * 1.2).cos() * 0.01),
        (Layer::Walk { phase, intensity }, Move::Swing { lead, stagger }) => {
            swing_at(t, val(phase), lead, stagger, val(gait.stride) * val(intensity).clamp(0.0, 1.0))
        },
        (Layer::Walk { phase, intensity }, Move::CounterSwing { lead, stagger }) => swing_at(
            t,
            val(phase) + std::f32::consts::PI,
            lead,
            stagger,
            val(gait.arm_swing) * val(intensity).clamp(0.0, 1.0),
        ),
        (Layer::Walk { phase, intensity }, Move::Bob) => {
            raised(t, (val(phase) * 2.0).sin().abs() * val(gait.bob) * val(intensity).clamp(0.0, 1.0))
        },
        (Layer::Airborne { rising }, Move::Tuck) => {
            turned(t, Quat::from_rotation_x(if rising { 0.5 } else { 0.3 }))
        },
        (Layer::Airborne { .. }, Move::Spread) => turned(t, Quat::from_rotation_z(0.35)),
        (Layer::Cast { remaining, total }, _) => {
            let t01 = 1.0 - val(remaining) / val(total);
            let amount = (t01.clamp(0.0, 1.0) * std::f32::consts::PI).sin();
            turned(t, Quat::from_rotation_x(if step == Move::Raise { -1.1 } else { -0.2 } * amount))
        },
        (Layer::Hit { dir, remaining }, _) => {
            let t01 = 1.0 - val(remaining) / 0.35;
            let amount = (1.0 - t01.clamp(0.0, 1.0)).powi(2);
            turned(t, Quat::from_rotation_x(val(dir[2]) * 0.5 * amount))
        },
        (Layer::Death { progress }, Move::Collapse) => {
            let e = 1.0 - (1.0 - val(progress)) * (1.0 - val(progress));
            turned(raised(t, -0.6 * e), Quat::from_rotation_x(1.4 * e))
        },
        (Layer::Death { progress }, _) => turned(t, Quat::from_rotation_x(0.6 * val(progress))),
        _ => t,
    }
}

fn stepped(anim: &Animator, input: LocomotionInput, dt: f32) -> Step {
    let cfg = anim.config;
    let speed = val(input.planar_speed);
    let target = (speed / val(cfg.run_speed).max(1e-3)).clamp(0.0, 1.0);
    let ease = 1.0 - (-dt * std::f32::consts::LN_2 / val(cfg.blend_half_life).max(1e-3)).exp();
    let fall = dt / val(cfg.death_duration).max(1e-3);
    Step {
        idle_phase: num(val(anim.idle_phase) + dt * val(cfg.idle_rate)),
        gait_phase: num(val(anim.gait_phase) + speed * val(cfg.cadence) * dt),
        intensity: num(val(anim.intensity) + (target - val(anim.intensity)) * ease),
        cast_left: num(val(anim.cast_remaining) - dt),
        hit_left: num(val(anim.hit_remaining) - dt),
        death_up: num(val(anim.death_t) + fall),
        death_down: num(val(anim.death_t) - fall),
    }
}

fn advance(anim: &mut Animator, input: LocomotionInput, dt: f32) {
    let step = stepped(anim, input, dt);
    anim.update(input, step);
    anim.compose(input, &shaped, &mixed);
}

fn joint(name: &str, parent: i32, at: Vec3, role: JointRole) -> Joint {
    Joint { name: name.to_string(), parent, bind_local: moved(at), role }
}

fn biped() -> Skeleton {
    Skeleton {
        joints: vec![
            joint("root", -1, Vec3::ZERO, JointRole::Root),
            joint("spine", 0, Vec3::Y, JointRole::Spine),
            joint("head", 1, Vec3::Y, JointRole::Head),
            joint("leg.l", 0, Vec3::new(-0.2, -0.5, 0.0), JointRole::Leg { side: LimbSide::Left, index: 0 }),
            joint("leg.r", 0, Vec3::new(0.2, -0.5, 0.0), JointRole::Leg { side: LimbSide::Right, index: 0 }),
        ],
    }
}

fn stacked() -> Skeleton {
    Skeleton {
        joints: vec![
            joint("root", -1, Vec3::ZERO, JointRole::Root),
            joint("spine", 0, Vec3::Y, JointRole::Spine),
            joint("head", 1, Vec3::Y, JointRole::Head),
        ],
    }
}

fn two_joint() -> Skeleton {
    Skeleton {
        joints: vec![
            joint("r", -1, Vec3::ZERO, JointRole::Root),
            joint("h", 0, Vec3::Y, JointRole::Head),
        ],
    }
}

fn animator() -> Animator {
    Animator::from_skeleton(biped(), AnimatorConfig::default(), &chained, &inverted)
}

#[test]
fn track_interpolates_between_keys() {
    let track = JointTrack {
        joint: 0,
        keys: vec![
            Keyframe { time: num(0.0), transform: moved(Vec3::ZERO) },
            Keyframe { time: num(1.0), transform: moved(Vec3::new(0.0, 10.0, 0.0)) },
        ],
    };
    let y = |time: f32| val(track.sample(num(time), &between).translation[1]);
    assert!((y(0.5) - 5.0).abs() < 1e-5);
    assert!((y(-1.0)).abs() < 1e-5);
    assert!((y(2.0) - 10.0).abs() < 1e-5);
}

#[test]
fn looping_wraps_time() {
    let clip = AnimationClip {
        name: "c".to_string(),
        duration: num(2.0),
        looping: true,
        tracks: vec![],
    };
    assert!((val(clip.local_time(num(2.5), &wrapped)) - 0.5).abs() < 1e-5);
    let sk = Skeleton { joints: vec![joint("r", -1, Vec3::ZERO, JointRole::Root)] };
    assert_eq!(clip.sample(&sk, num(9.0), &wrapped, &between).locals.len(), 1);
}

#[test]
fn one_shot_clips_hold_and_finish() {
    let clip = AnimationClip {
        name: "slam".to_string(),
        duration: num(2.0),
        looping: false,
        tracks: vec![JointTrack {
            joint: 1,
            keys: vec![Keyframe { time: num(0.0), transform: moved(Vec3::X) }],
        }],
    };
    assert_eq!(clip.local_time(num(9.0), &wrapped), num(2.0));
    assert_eq!(clip.local_time(num(-9.0), &wrapped), num(0.0));
    assert!(!clip.finished(num(1.9)) && clip.finished(num(2.0)));
    let pose = clip.sample(&stacked(), num(1.0), &wrapped, &between);
    assert_eq!(pose.locals[1], moved(Vec3::X));
    assert_eq!(pose.locals[2], moved(Vec3::Y));
}

#[test]
fn rest_pose_skins_to_identity() {
    let s = two_joint();
    let ib = s.inverse_bind_matrices(&chained, &inverted);
    let pose = Pose::rest(&s);
    for m in pose.skinning_matrices(&s, &ib, &chained, &skinned) {
        assert!(mat4(m).abs_diff_eq(Mat4::IDENTITY, 1e-4), "rest pose should skin to identity");
    }
}

#[test]
fn blend_midpoint_is_halfway() {
    let s = two_joint();
    let a = Pose::rest(&s);
    let mut b = Pose::rest(&s);
    b.locals[1].translation = scalars3(Vec3::new(0.0, 3.0, 0.0));
    let mid = a.blend(&b, &|x: Transform, y: Transform| mixed(x, y, num(0.5)));
    assert!((val(mid.locals[1].translation[1]) - 2.0).abs() < 1e-5);
}

#[test]
fn blending_covers_the_shared_joints() {
    let long = Pose::rest(&stacked());
    let short = Pose::identity(1);
    let take = |_: Transform, y: Transform| y;
    assert_eq!(long.blend(&short, &take).len(), 1);
    let mut kept = Pose::rest(&stacked());
    kept.blend_into(&short, &take);
    assert_eq!(kept.len(), 3);
    assert_eq!(kept.locals[2], moved(Vec3::Y));
    let mut layered = Pose::rest(&stacked());
    layered.add_layer(&Pose::identity(2), &Pose::rest(&stacked()), &|base, layer, rest| {
        Transform::new(
            scalars3(vec3(base.translation) + vec3(layer.translation) - vec3(rest.translation)),
            base.rotation,
            base.scale,
        )
    });
    assert_eq!(layered.locals[1], moved(Vec3::ZERO));
    assert_eq!(layered.locals[2], moved(Vec3::Y));
    assert!(Pose::default().is_empty());
}

#[test]
fn legs_swing_in_opposite_phase() {
    let s = biped();
    let at = |cycle: f32| {
        let layer = Layer::Walk { phase: num(cycle), intensity: one() };
        walk(&s, &|t: Transform, step: Move| shaped(t, step, layer))
    };
    let p = at(0.0);
    let p2 = at(std::f32::consts::FRAC_PI_2);
    let lrot = quat(p2.locals[3].rotation);
    let rrot = quat(p2.locals[4].rotation);
    assert!(lrot.angle_between(rrot) > 0.1, "left/right legs should be out of phase");
    assert_eq!(p.locals[2].translation, s.joints[2].bind_local.translation);
}

#[test]
fn generators_produce_full_length_poses() {
    let s = biped();
    let as_is = |layer: Layer| move |t: Transform, step: Move| shaped(t, step, layer);
    let ahead = [num(0.0), num(0.0), num(1.0)];
    for p in [
        idle(&s, &as_is(Layer::Idle { phase: num(1.0) })),
        airborne(&s, &as_is(Layer::Airborne { rising: true })),
        cast(&s, &as_is(Layer::Cast { remaining: num(0.5), total: num(1.0) })),
        hit_recoil(&s, &as_is(Layer::Hit { dir: ahead, remaining: num(0.35) })),
        death(&s, &as_is(Layer::Death { progress: num(1.0) })),
    ] {
        assert_eq!(p.locals.len(), s.len());
    }
}

#[test]
fn generators_move_only_what_they_own() {
    let mut s = biped();
    s.joints.push(joint("root.2", 0, Vec3::X, JointRole::Root));
    s.joints.push(joint("tail", 0, Vec3::Z, JointRole::Tail { index: 0 }));
    s.joints.push(joint("arm", 1, Vec3::X, JointRole::Arm { side: LimbSide::Left, index: 1 }));
    let mark = |_: Transform, step: Move| match step {
        Move::Bob => moved(Vec3::splat(1.0)),
        Move::Swing { lead, .. } => moved(Vec3::splat(2.0 + lead as f32)),
        Move::CounterSwing { stagger, .. } => moved(Vec3::splat(10.0 + stagger as f32)),
        _ => moved(Vec3::splat(99.0)),
    };
    let p = walk(&s, &mark);
    assert_eq!(p.locals[0], moved(Vec3::splat(1.0)));
    assert_eq!(p.locals[3], moved(Vec3::splat(2.0)));
    assert_eq!(p.locals[4], moved(Vec3::splat(4.0)));
    assert_eq!(p.locals[7], moved(Vec3::splat(11.0)));
    for i in [1, 2, 5, 6] {
        assert_eq!(p.locals[i], s.joints[i].bind_local);
    }
    assert_eq!(limb_phase_offset(LimbSide::Center, 3), (0, 3));
}

#[test]
fn global_bind_accumulates_down_the_chain() {
    let s = stacked();
    let g = s.global_bind(&chained);
    assert!((vec3(g[2].translation) - Vec3::new(0.0, 2.0, 0.0)).length() < 1e-5);
    s.validate().expect("ordered skeleton validates");
}

#[test]
fn inverse_bind_undoes_bind() {
    let s = stacked();
    let g = s.global_bind(&chained);
    let inv = s.inverse_bind_matrices(&chained, &inverted);
    let m = matrix(g[2]) * mat4(inv[2]);
    assert!(m.abs_diff_eq(Mat4::IDENTITY, 1e-4), "global*inverse_bind should be identity, got {:?}", m);
}

#[test]
fn skeletons_are_searched_by_role() {
    let s = biped();
    assert_eq!(s.joints_where(&|r: JointRole| r.is_leg()), vec![3, 4]);
    assert_eq!(s.find(&|r: JointRole| matches!(r, JointRole::Head)), Some(2));
    assert_eq!(s.find(&|r: JointRole| r.is_arm()), None);
    assert!(JointRole::Arm { side: LimbSide::Left, index: 0 }.is_arm());
    assert!(JointRole::Tail { index: 0 }.is_arm());
    assert!(!JointRole::Leg { side: LimbSide::Left, index: 0 }.is_arm() && !JointRole::Other.is_arm());
    assert_eq!(s.parent(0), None);
    assert_eq!(s.parent(2), Some(1));
    let at = s.bind_positions(&chained);
    assert_eq!(at[2], scalars3(Vec3::new(0.0, 2.0, 0.0)));
    let mut bad = biped();
    bad.joints[1].parent = 4;
    assert_eq!(bad.validate(), Err(1));
    assert!(Skeleton::default().is_empty());
}

#[test]
fn idle_then_run_changes_intensity_and_pose() {
    let mut anim = animator();
    for _ in 0..16 {
        advance(&mut anim, LocomotionInput::default(), 1.0 / 64.0);
    }
    let idle_legs = quat(anim.pose().locals[3].rotation);
    let run = LocomotionInput { planar_speed: num(7.0), grounded: true, ..Default::default() };
    for _ in 0..64 {
        advance(&mut anim, run, 1.0 / 64.0);
    }
    assert!(val(anim.intensity) > 0.8, "running should drive intensity high");
    let run_legs = quat(anim.pose().locals[3].rotation);
    assert!(idle_legs.angle_between(run_legs) > 0.05);
}

#[test]
fn skinning_matrices_match_joint_count() {
    let mut anim = animator();
    advance(&mut anim, LocomotionInput::default(), 1.0 / 64.0);
    assert_eq!(anim.skinning_matrices(&chained, &skinned).len(), 5);
    assert_eq!(anim.global_joint_transforms(&chained).len(), 5);
}

#[test]
fn cast_and_hit_are_one_shots() {
    let mut anim = animator();
    anim.trigger(MotionEvent::Cast { duration: num(0.2) });
    anim.trigger(MotionEvent::Hit { dir: scalars3(Vec3::Z), length_squared: one() });
    for _ in 0..64 {
        advance(&mut anim, LocomotionInput::default(), 1.0 / 64.0);
    }
    assert_eq!(val(anim.cast_remaining), 0.0);
    assert_eq!(val(anim.hit_remaining), 0.0);
}

#[test]
fn determinism_same_inputs_same_pose() {
    let mut a = animator();
    let mut b = animator();
    let input = LocomotionInput { planar_speed: num(3.0), grounded: true, ..Default::default() };
    for _ in 0..40 {
        advance(&mut a, input, 1.0 / 64.0);
        advance(&mut b, input, 1.0 / 64.0);
    }
    assert_eq!(a.pose().locals[3].rotation, b.pose().locals[3].rotation);
}

#[test]
fn one_shots_leave_nothing_behind() {
    let mut a = animator();
    let mut b = animator();
    a.trigger(MotionEvent::Cast { duration: num(0.2) });
    a.trigger(MotionEvent::Hit { dir: scalars3(Vec3::Z), length_squared: one() });
    let input = LocomotionInput { planar_speed: num(3.0), grounded: true, ..Default::default() };
    advance(&mut a, input, 1.0 / 64.0);
    advance(&mut b, input, 1.0 / 64.0);
    assert_ne!(a.layers(input), b.layers(input));
    for _ in 1..64 {
        advance(&mut a, input, 1.0 / 64.0);
        advance(&mut b, input, 1.0 / 64.0);
    }
    assert_eq!(a.layers(input), b.layers(input));
    assert_eq!(a.pose(), b.pose());
    assert_eq!(a.pose().len(), a.skeleton().len());
}

#[test]
fn overlays_stack_with_death_on_top() {
    let mut anim = animator();
    anim.trigger(MotionEvent::Cast { duration: zero() });
    assert_eq!(anim.cast_remaining, num(0.05));
    anim.trigger(MotionEvent::Hit { dir: [zero(); 3], length_squared: zero() });
    assert_eq!(anim.hit_dir, [zero(), zero(), one()]);
    assert_eq!(anim.hit_remaining, num(0.35));
    let input = LocomotionInput {
        planar_speed: num(7.0),
        vertical_speed: num(1.0),
        grounded: false,
        dead: true,
    };
    let step = stepped(&anim, input, 0.01);
    anim.update(input, step);
    let layers = anim.layers(input);
    assert_eq!(layers.len(), 6);
    assert!(matches!(layers[0], Layer::Idle { .. }));
    assert_eq!(layers[2], Layer::Airborne { rising: true });
    assert_eq!(layers[2].weight(), num(0.85));
    assert_eq!(layers[3].weight(), num(0.7));
    assert_eq!(layers[4].weight(), num(0.6));
    assert_eq!(layers[5], Layer::Death { progress: anim.death_t });
    for _ in 0..1000 {
        advance(&mut anim, input, 0.01);
    }
    assert_eq!(anim.death_t, one());
}
