//! Procedural animation generators — motion synthesised from [`JointRole`] alone, so a
//! creature with *any* generated body (two legs or five) animates with no authored clips.
//! Each generator returns a fresh [`Pose`] over the skeleton's rest pose, editing only the
//! joints it owns; the [`crate::anim::state::Animator`] blends them.
//!
//! Legs "step" by swinging fore/aft; arms counter-swing; the spine breathes; tails are left
//! to the spring-bone layer. Which joint moves how is decided here; `edit` turns one joint's
//! rest transform.

use crate::anim::pose::Pose;
use crate::anim::skeleton::{Joint, JointRole, LimbSide, Skeleton};
use crate::anim::transform::Transform;
use vstd::prelude::*;

verus! {

/// A synthesised motion of the whole body.
#[derive(Debug, Clone, Copy, PartialEq, Eq, Structural)]
pub enum Motion {
    Idle,
    Walk,
    Airborne,
    Cast,
    HitRecoil,
    Death,
}

/// What a motion does to one joint.
#[derive(Debug, Clone, Copy, PartialEq, Eq, Structural)]
pub enum Move {
    /// Chest swell and lean.
    Breathe,
    /// A slow head bob.
    Nod,
    /// Fore/aft swing of a leg, ahead of the cycle by quarter turns: its side's lead and its
    /// stagger among the limbs of that side.
    Swing { lead: u8, stagger: u8 },
    /// Swing of an arm, half a turn ahead of a leg of the same side and index.
    CounterSwing { lead: u8, stagger: u8 },
    /// Whole-body vertical bob.
    Bob,
    /// A leg pulled up.
    Tuck,
    /// An arm spread.
    Spread,
    /// An arm raised.
    Raise,
    /// The spine tilted back.
    TiltBack,
    /// The spine leaning along a hit.
    Lean,
    /// The head snapping along a hit.
    Snap,
    /// The body sinking forward.
    Collapse,
    /// A limb gone limp.
    GoLimp,
}

/// How far ahead of the cycle a limb's side is, in quarter turns.
pub open spec fn side_lead(side: LimbSide) -> u8 {
    match side {
        LimbSide::Left => 0,
        LimbSide::Right => 2,
        LimbSide::Center => 0,
    }
}

/// Phase offset for a limb so left/right and successive limbs alternate rather than moving
/// in lockstep: the lead of its side, and a quarter turn for each limb before it. Center
/// limbs share the root phase.
pub fn limb_phase_offset(side: LimbSide, index: u8) -> (r: (u8, u8))
    ensures
        r == (side_lead(side), index),
{
    let lead: u8 = match side {
        LimbSide::Left => 0,
        LimbSide::Right => 2,
        LimbSide::Center => 0,
    };
    (lead, index)
}

/// What a motion does to a joint of this role; `first` tells whether the joint is the first
/// of its role in the skeleton.
pub open spec fn moved(motion: Motion, role: JointRole, first: bool) -> Option<Move> {
    match (motion, role) {
        (Motion::Idle, JointRole::Spine) => Some(Move::Breathe),
        (Motion::Idle, JointRole::Head) if first => Some(Move::Nod),
        (Motion::Walk, JointRole::Leg { side, index }) => Some(
            Move::Swing { lead: side_lead(side), stagger: index },
        ),
        (Motion::Walk, JointRole::Arm { side, index }) => Some(
            Move::CounterSwing { lead: side_lead(side), stagger: index },
        ),
        (Motion::Walk, JointRole::Root) if first => Some(Move::Bob),
        (Motion::Airborne, JointRole::Leg { .. }) => Some(Move::Tuck),
        (Motion::Airborne, JointRole::Arm { .. }) => Some(Move::Spread),
        (Motion::Cast, JointRole::Arm { .. }) => Some(Move::Raise),
        (Motion::Cast, JointRole::Spine) if first => Some(Move::TiltBack),
        (Motion::HitRecoil, JointRole::Spine) if first => Some(Move::Lean),
        (Motion::HitRecoil, JointRole::Head) if first => Some(Move::Snap),
        (Motion::Death, JointRole::Root) if first => Some(Move::Collapse),
        (Motion::Death, JointRole::Leg { .. }) => Some(Move::GoLimp),
        (Motion::Death, JointRole::Arm { .. }) => Some(Move::GoLimp),
        _ => None,
    }
}

/// No joint before the `i`-th has its role.
pub open spec fn is_first(joints: Seq<Joint>, i: int) -> bool {
    forall|j: int| 0 <= j < i ==> (#[trigger] joints[j]).role != joints[i].role
}

/// `locals` is the rest pose with each joint that the motion owns edited, and no other.
pub open spec fn poses<F: Fn(Transform, Move) -> Transform>(
    motion: Motion,
    joints: Seq<Joint>,
    edit: F,
    locals: Seq<Transform>,
) -> bool {
    &&& locals.len() == joints.len()
    &&& forall|i: int|
        0 <= i < joints.len() ==> match moved(motion, joints[i].role, is_first(joints, i)) {
            Some(step) => call_ensures(edit, (joints[i].bind_local, step), #[trigger] locals[i]),
            None => locals[i] == joints[i].bind_local,
        }
}

fn step_of(motion: Motion, role: JointRole, first: bool) -> (r: Option<Move>)
    ensures
        r == moved(motion, role, first),
{
    match motion {
        Motion::Idle => match role {
            JointRole::Spine => Some(Move::Breathe),
            JointRole::Head if first => Some(Move::Nod),
            _ => None,
        },
        Motion::Walk => match role {
            JointRole::Leg { side, index } => {
                let (lead, stagger) = limb_phase_offset(side, index);
                Some(Move::Swing { lead, stagger })
            },
            JointRole::Arm { side, index } => {
                let (lead, stagger) = limb_phase_offset(side, index);
                Some(Move::CounterSwing { lead, stagger })
            },
            JointRole::Root if first => Some(Move::Bob),
            _ => None,
        },
        Motion::Airborne => match role {
            JointRole::Leg { .. } => Some(Move::Tuck),
            JointRole::Arm { .. } => Some(Move::Spread),
            _ => None,
        },
        Motion::Cast => match role {
            JointRole::Arm { .. } => Some(Move::Raise),
            JointRole::Spine if first => Some(Move::TiltBack),
            _ => None,
        },
        Motion::HitRecoil => match role {
            JointRole::Spine if first => Some(Move::Lean),
            JointRole::Head if first => Some(Move::Snap),
            _ => None,
        },
        Motion::Death => match role {
            JointRole::Root if first => Some(Move::Collapse),
            JointRole::Leg { .. } => Some(Move::GoLimp),
            JointRole::Arm { .. } => Some(Move::GoLimp),
            _ => None,
        },
    }
}

fn generate<F: Fn(Transform, Move) -> Transform>(motion: Motion, skeleton: &Skeleton, edit: &F) -> (r:
    Pose)
    requires
        forall|t: Transform, step: Move| call_requires(*edit, (t, step)),
    ensures
        poses(motion, skeleton.joints@, *edit, r.locals@),
{
    let mut pose = Pose::rest(skeleton);
    let ghost joints = skeleton.joints@;
    let mut rooted: bool = false;
    let mut spined: bool = false;
    let mut headed: bool = false;
    let mut i: usize = 0;
    while i < skeleton.joints.len()
        invariant
            i <= skeleton.joints.len(),
            joints == skeleton.joints@,
            pose.locals@.len() == joints.len(),
            forall|t: Transform, step: Move| call_requires(*edit, (t, step)),
            rooted == exists|j: int| 0 <= j < i && (#[trigger] joints[j]).role is Root,
            spined == exists|j: int| 0 <= j < i && (#[trigger] joints[j]).role is Spine,
            headed == exists|j: int| 0 <= j < i && (#[trigger] joints[j]).role is Head,
            forall|k: int|
                0 <= k < i ==> match moved(motion, joints[k].role, is_first(joints, k)) {
                    Some(step) => call_ensures(
                        *edit,
                        (joints[k].bind_local, step),
                        #[trigger] pose.locals@[k],
                    ),
                    None => pose.locals@[k] == joints[k].bind_local,
                },
            forall|k: int|
                i <= k < joints.len() ==> #[trigger] pose.locals@[k] == joints[k].bind_local,
        decreases skeleton.joints.len() - i,
    {
        let role = skeleton.joints[i].role;
        let first = match role {
            JointRole::Root => !rooted,
            JointRole::Spine => !spined,
            JointRole::Head => !headed,
            _ => true,
        };
        assert(moved(motion, role, first) == moved(motion, role, is_first(joints, i as int)));
        let ghost was = pose.locals@;
        match step_of(motion, role, first) {
            Some(step) => {
                let turned = edit(skeleton.joints[i].bind_local, step);
                pose.locals.set(i, turned);
            },
            None => {},
        }
        assert forall|k: int| 0 <= k < joints.len() && k != i implies #[trigger] pose.locals@[k]
            == was[k] by {}
        assert(joints[i as int].role == role);
        match role {
            JointRole::Root => {
                rooted = true;
            },
            JointRole::Spine => {
                spined = true;
            },
            JointRole::Head => {
                headed = true;
            },
            _ => {},
        }
        i = i + 1;
    }
    pose
}

/// An idle pose: gentle breathing on the spine, a slow head bob. Used when the creature is
/// still.
pub fn idle<F: Fn(Transform, Move) -> Transform>(skeleton: &Skeleton, edit: &F) -> (r: Pose)
    requires
        forall|t: Transform, step: Move| call_requires(*edit, (t, step)),
    ensures
        poses(Motion::Idle, skeleton.joints@, *edit, r.locals@),
{
    generate(Motion::Idle, skeleton, edit)
}

/// A walk/run pose: legs swing fore/aft and arms in counter-phase, and the body bobs.
pub fn walk<F: Fn(Transform, Move) -> Transform>(skeleton: &Skeleton, edit: &F) -> (r: Pose)
    requires
        forall|t: Transform, step: Move| call_requires(*edit, (t, step)),
    ensures
        poses(Motion::Walk, skeleton.joints@, *edit, r.locals@),
{
    generate(Motion::Walk, skeleton, edit)
}

/// An airborne pose: legs tucked up and arms spread slightly (a falling/leaping shape).
pub fn airborne<F: Fn(Transform, Move) -> Transform>(skeleton: &Skeleton, edit: &F) -> (r: Pose)
    requires
        forall|t: Transform, step: Move| call_requires(*edit, (t, step)),
    ensures
        poses(Motion::Airborne, skeleton.joints@, *edit, r.locals@),
{
    generate(Motion::Airborne, skeleton, edit)
}

/// A casting flourish: the arms raised and the spine tilted back as a spell winds up.
pub fn cast<F: Fn(Transform, Move) -> Transform>(skeleton: &Skeleton, edit: &F) -> (r: Pose)
    requires
        forall|t: Transform, step: Move| call_requires(*edit, (t, step)),
    ensures
        poses(Motion::Cast, skeleton.joints@, *edit, r.locals@),
{
    generate(Motion::Cast, skeleton, edit)
}

/// A hit recoil: a sharp jerk of spine and head away from the hit.
pub fn hit_recoil<F: Fn(Transform, Move) -> Transform>(skeleton: &Skeleton, edit: &F) -> (r: Pose)
    requires
        forall|t: Transform, step: Move| call_requires(*edit, (t, step)),
    ensures
        poses(Motion::HitRecoil, skeleton.joints@, *edit, r.locals@),
{
    generate(Motion::HitRecoil, skeleton, edit)
}

/// A death slump: the body collapses forward and sinks, the limbs limp.
pub fn death<F: Fn(Transform, Move) -> Transform>(skeleton: &Skeleton, edit: &F) -> (r: Pose)
    requires
        forall|t: Transform, step: Move| call_requires(*edit, (t, step)),
    ensures
        poses(Motion::Death, skeleton.joints@, *edit, r.locals@),
{
    generate(Motion::Death, skeleton, edit)
}

/// How far ahead of the gait cycle a limb moves, in quarter turns.
pub open spec fn ahead(step: Option<Move>) -> int {
    match step {
        Some(Move::Swing { lead, stagger }) => lead + stagger,
        Some(Move::CounterSwing { lead, stagger }) => lead + stagger + 2,
        _ => 0,
    }
}

/// The limbs do not move in lockstep: right and left legs of one index are half a cycle
/// apart, an arm is half a cycle from the leg of its own side, and each further leg of a
/// side is a quarter cycle from the one before it.
pub proof fn limbs_alternate(side: LimbSide, index: u8, next: u8)
    requires
        next == index + 1,
    ensures
        ({
            let leg = |s: LimbSide, i: u8|
                ahead(moved(Motion::Walk, JointRole::Leg { side: s, index: i }, false));
            let arm = |s: LimbSide, i: u8|
                ahead(moved(Motion::Walk, JointRole::Arm { side: s, index: i }, false));
            &&& leg(LimbSide::Right, index) == leg(LimbSide::Left, index) + 2
            &&& arm(side, index) == leg(side, index) + 2
            &&& leg(side, next) == leg(side, index) + 1
        }),
{
}

/// Tails, and joints of no known role, are moved by no generator.
pub proof fn tails_are_left_alone(motion: Motion, role: JointRole, first: bool)
    requires
        role is Tail || role is Other,
    ensures
        moved(motion, role, first) is None,
{
}

/// Each joint does its own part. Legs swing, tuck and go limp; arms counter-swing, spread, rise and
/// go limp; every spine breathes, and the first tilts and leans; the first head nods and snaps; the
/// first root bobs and collapses. No motion does more.
pub proof fn joints_do_their_part(role: JointRole, first: bool)
    ensures
        match role {
            JointRole::Leg { side, index } => {
                &&& moved(Motion::Walk, role, first) == Some(
                    Move::Swing { lead: if side is Right { 2 } else { 0 }, stagger: index },
                )
                &&& moved(Motion::Airborne, role, first) == Some(Move::Tuck)
                &&& moved(Motion::Death, role, first) == Some(Move::GoLimp)
                &&& moved(Motion::Idle, role, first) is None
                &&& moved(Motion::Cast, role, first) is None
                &&& moved(Motion::HitRecoil, role, first) is None
            },
            JointRole::Arm { side, index } => {
                &&& moved(Motion::Walk, role, first) == Some(
                    Move::CounterSwing { lead: if side is Right { 2 } else { 0 }, stagger: index },
                )
                &&& moved(Motion::Airborne, role, first) == Some(Move::Spread)
                &&& moved(Motion::Cast, role, first) == Some(Move::Raise)
                &&& moved(Motion::Death, role, first) == Some(Move::GoLimp)
                &&& moved(Motion::Idle, role, first) is None
                &&& moved(Motion::HitRecoil, role, first) is None
            },
            JointRole::Spine => {
                &&& moved(Motion::Idle, role, first) == Some(Move::Breathe)
                &&& moved(Motion::Cast, role, first) == if first { Some(Move::TiltBack) } else { None }
                &&& moved(Motion::HitRecoil, role, first) == if first { Some(Move::Lean) } else { None }
                &&& moved(Motion::Walk, role, first) is None
                &&& moved(Motion::Airborne, role, first) is None
                &&& moved(Motion::Death, role, first) is None
            },
            JointRole::Head => {
                &&& moved(Motion::Idle, role, first) == if first { Some(Move::Nod) } else { None }
                &&& moved(Motion::HitRecoil, role, first) == if first { Some(Move::Snap) } else { None }
                &&& moved(Motion::Walk, role, first) is None
                &&& moved(Motion::Airborne, role, first) is None
                &&& moved(Motion::Cast, role, first) is None
                &&& moved(Motion::Death, role, first) is None
            },
            JointRole::Root => {
                &&& moved(Motion::Walk, role, first) == if first { Some(Move::Bob) } else { None }
                &&& moved(Motion::Death, role, first) == if first { Some(Move::Collapse) } else { None }
                &&& moved(Motion::Idle, role, first) is None
                &&& moved(Motion::Airborne, role, first) is None
                &&& moved(Motion::Cast, role, first) is None
                &&& moved(Motion::HitRecoil, role, first) is None
            },
            _ => forall|m: Motion| #[trigger] moved(m, role, first) is None,
        },
{
}

/// A generator edits the joints it owns and no others: whoever turns nothing gets the rest pose,
/// and a joint that the motion does not move is at rest whatever the edit.
pub proof fn only_owned_joints_are_edited<F: Fn(Transform, Move) -> Transform>(
    motion: Motion,
    joints: Seq<Joint>,
    edit: F,
    locals: Seq<Transform>,
    i: int,
)
    requires
        poses(motion, joints, edit, locals),
        0 <= i < joints.len(),
    ensures
        locals.len() == joints.len(),
        ({
            let first = forall|j: int| 0 <= j < i ==> (#[trigger] joints[j]).role != joints[i].role;
            &&& moved(motion, joints[i].role, first) is None ==> locals[i] == joints[i].bind_local
            &&& moved(motion, joints[i].role, first) matches Some(step) ==> call_ensures(
                edit,
                (joints[i].bind_local, step),
                locals[i],
            )
        }),
        (forall|t: Transform, step: Move, r: Transform| #[trigger]
            call_ensures(edit, (t, step), r) ==> r == t) ==> locals[i] == joints[i].bind_local,
{
    let first = forall|j: int| 0 <= j < i ==> (#[trigger] joints[j]).role != joints[i].role;
    assert(first == is_first(joints, i));
    assert(locals[i] == locals[i]);
}

/// Limbs alternate: the two sides are half a turn apart, limbs in the middle go with the left, and
/// each limb is a quarter turn behind the one before it on its side.
pub proof fn sides_are_half_a_turn_apart(side: LimbSide, index: u8, r: (u8, u8), other: (u8, u8))
    requires
        call_ensures(limb_phase_offset, (side, index), r),
        call_ensures(limb_phase_offset, (LimbSide::Left, index), other),
    ensures
        (r.0 + r.1) % 4 == (other.0 + other.1 + if side is Right {
            2int
        } else {
            0
        }) % 4,
        other.0 == 0,
        r.1 == index,
{
}

} // verus!
