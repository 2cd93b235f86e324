//! Auto-rigging: derive a skeleton (and a tuned animator config) for a procedurally
//! generated creature, aligned to the body that grows from the same seed.
//!
//! The result is role-tagged ([`JointRole`]) so the procedural animator drives it without
//! caring how many limbs a given creature happens to have.

use crate::anim::skeleton::{ordered, Joint, JointRole, LimbSide, Skeleton};
use crate::anim::state::{AnimatorConfig, GaitParams};
use crate::anim::transform::Transform;
use crate::content::mob::MobDef;
use crate::scalar::{dec, decimal, one, zero, Scalar, ONE};
use crate::text;
use vstd::prelude::*;

verus! {

/// One limb of a generated body: where its bone sits (mid-limb), and the sideways and
/// upward components of the direction it grows in.
#[derive(Debug, Clone, Copy)]
pub struct Limb {
    pub bone: [Scalar; 3],
    pub dir_x: Scalar,
    pub dir_y: Scalar,
}

/// The size that a creature is built at: its own, or one if it states none.
pub open spec fn size(scale: Scalar) -> Scalar {
    if (Scalar { bits: 0 }).below(scale) {
        scale
    } else {
        Scalar { bits: ONE }
    }
}

/// The size that a creature is built at.
pub fn body_scale(mob: &MobDef) -> (r: Scalar)
    ensures
        r == size(mob.scale),
{
    if zero().lt(mob.scale) {
        mob.scale
    } else {
        one()
    }
}

/// How many limbs a body grows, from one draw of its generator: two to five.
pub fn limb_count(draw: u64) -> (r: usize)
    ensures
        r == 2 + draw % 4,
        2 <= r <= 5,
{
    2 + (draw % 4) as usize
}

impl Limb {
    /// The side that the limb grows to.
    pub open spec fn side(self) -> LimbSide {
        if self.dir_x.below(decimal(-5, 2)) {
            LimbSide::Left
        } else if decimal(5, 2).below(self.dir_x) {
            LimbSide::Right
        } else {
            LimbSide::Center
        }
    }

    /// Downward-pointing limbs bear weight.
    pub open spec fn bears_weight(self) -> bool {
        self.dir_y.below(decimal(-1, 1))
    }

    fn limb_side(&self) -> (r: LimbSide)
        ensures
            r == self.side(),
    {
        if self.dir_x.lt(dec(-5, 2)) {
            LimbSide::Left
        } else if dec(5, 2).lt(self.dir_x) {
            LimbSide::Right
        } else {
            LimbSide::Center
        }
    }
}

/// How many of the first `n` limbs are legs.
pub open spec fn legs(limbs: Seq<Limb>, n: int) -> int
    decreases n,
{
    if n <= 0 {
        0
    } else {
        legs(limbs, n - 1) + if limbs[n - 1].bears_weight() {
            1int
        } else {
            0
        }
    }
}

/// The role of the limb at `i`: legs and arms are counted apart.
pub open spec fn limb_role(limbs: Seq<Limb>, i: int) -> JointRole {
    if limbs[i].bears_weight() {
        JointRole::Leg { side: limbs[i].side(), index: legs(limbs, i) as u8 }
    } else {
        JointRole::Arm { side: limbs[i].side(), index: (i - legs(limbs, i)) as u8 }
    }
}

proof fn legs_bound(limbs: Seq<Limb>, n: int)
    requires
        0 <= n,
    ensures
        0 <= legs(limbs, n) <= n,
    decreases n,
{
    if n > 0 {
        legs_bound(limbs, n - 1);
    }
}

/// The joint's name, parent, place and role.
pub open spec fn is_joint(
    j: Joint,
    name: Seq<char>,
    parent: int,
    place: [Scalar; 3],
    role: JointRole,
) -> bool {
    &&& j.name@ == name
    &&& j.parent == parent
    &&& j.bind_local.translation == place
    &&& j.bind_local.unturned()
    &&& j.role == role
}

fn joint(name: String, parent: i32, place: [Scalar; 3], role: JointRole) -> (r: Joint)
    ensures
        is_joint(r, name@, parent as int, place, role),
{
    Joint { name, parent, bind_local: Transform::from_translation(place), role }
}

/// The joints are a root at the model origin, a spine and a head at their places, and one
/// joint per limb, hung off the root.
pub open spec fn is_rig(joints: Seq<Joint>, spine: [Scalar; 3], head: [Scalar; 3], limbs: Seq<Limb>) -> bool {
    &&& joints.len() == 3 + limbs.len()
    &&& joints[0].name@ == "root"@
    &&& joints[0].parent == -1
    &&& joints[0].bind_local.unmoved() && joints[0].bind_local.unturned()
    &&& joints[0].role == JointRole::Root
    &&& is_joint(joints[1], "spine"@, 0, spine, JointRole::Spine)
    &&& is_joint(joints[2], "head"@, 1, head, JointRole::Head)
    &&& forall|i: int|
        0 <= i < limbs.len() ==> is_joint(
            #[trigger] joints[3 + i],
            "limb."@ + text::decimal((3 + i) as nat),
            0,
            limbs[i].bone,
            limb_role(limbs, i),
        )
}

/// Build a skeleton: a root at the model origin, a spine halfway up the torso, a head above
/// it, and one joint per limb, hung off the root.
pub fn assemble_skeleton(spine: [Scalar; 3], head: [Scalar; 3], limbs: &Vec<Limb>) -> (r: Skeleton)
    requires
        limbs@.len() <= 255,
    ensures
        ordered(r.joints@),
        is_rig(r.joints@, spine, head, limbs@),
{
    let mut joints: Vec<Joint> = Vec::new();
    joints.push(
        Joint {
            name: "root".to_owned(),
            parent: -1,
            bind_local: Transform::identity(),
            role: JointRole::Root,
        },
    );
    joints.push(joint("spine".to_owned(), 0, spine, JointRole::Spine));
    joints.push(joint("head".to_owned(), 1, head, JointRole::Head));
    let ghost trunk = joints@;
    let mut leg_index: u8 = 0;
    let mut arm_index: u8 = 0;
    let mut i: usize = 0;
    while i < limbs.len()
        invariant
            i <= limbs.len() <= 255,
            joints@.len() == 3 + i,
            trunk.len() == 3,
            joints@[0] == trunk[0],
            joints@[1] == trunk[1],
            joints@[2] == trunk[2],
            leg_index == legs(limbs@, i as int),
            arm_index == i - legs(limbs@, i as int),
            forall|k: int|
                0 <= k < i ==> is_joint(
                    #[trigger] joints@[3 + k],
                    "limb."@ + text::decimal((3 + k) as nat),
                    0,
                    limbs@[k].bone,
                    limb_role(limbs@, k),
                ),
        decreases limbs.len() - i,
    {
        proof {
            legs_bound(limbs@, i as int);
            legs_bound(limbs@, i + 1);
        }
        let limb = limbs[i];
        let side = limb.limb_side();
        let role = if limb.dir_y.lt(dec(-1, 1)) {
            let role = JointRole::Leg { side, index: leg_index };
            leg_index = leg_index + 1;
            role
        } else {
            let role = JointRole::Arm { side, index: arm_index };
            arm_index = arm_index + 1;
            role
        };
        let mut name = "limb.".to_owned();
        text::push_decimal(&mut name, joints.len() as u64);
        joints.push(joint(name, 0, limb.bone, role));
        i = i + 1;
    }
    proof {
        assert forall|k: int| 0 <= k < joints@.len() implies (#[trigger] joints@[k]).parent < k by {
            if k >= 3 {
                assert(is_joint(
                    joints@[3 + (k - 3)],
                    "limb."@ + text::decimal((3 + (k - 3)) as nat),
                    0,
                    limbs@[k - 3].bone,
                    limb_role(limbs@, k - 3),
                ));
            }
        }
    }
    Skeleton { joints }
}

/// A part of a body that a bone sits in.
#[derive(Debug, Clone, Copy, PartialEq, Eq, Structural)]
pub enum Part {
    Spine,
    Head,
    /// The limb with this index.
    Limb(usize),
}

/// The seed of the stream of draws that a creature's body grows from.
pub open spec fn body_seed(mesh_seed: u32) -> u64 {
    mesh_seed as u64 ^ 0xC0FF_EE17_BEEF_0001
}

/// The limbs of a body: as many as the count draw says, each leaning as its own draw says, with
/// its bone at its place.
pub open spec fn grows<
    C: Fn(u64) -> u64,
    L: Fn(u64, usize) -> (Scalar, Scalar),
    P: Fn(u64, Scalar, Part) -> [Scalar; 3],
>(seed: u64, scale: Scalar, count: C, lean: L, place: P, limbs: Seq<Limb>) -> bool {
    &&& exists|draw: u64| #[trigger]
        call_ensures(count, (seed,), draw) && limbs.len() == 2 + draw % 4
    &&& forall|i: int|
        0 <= i < limbs.len() ==> {
            &&& call_ensures(
                lean,
                (seed, i as usize),
                ((#[trigger] limbs[i]).dir_x, limbs[i].dir_y),
            )
            &&& call_ensures(place, (seed, scale, Part::Limb(i as usize)), limbs[i].bone)
        }
}

/// The joints are the rig of a creature: bones at the places that its own seed and size give,
/// and limbs as its seed grows them.
pub open spec fn is_rig_of<
    C: Fn(u64) -> u64,
    L: Fn(u64, usize) -> (Scalar, Scalar),
    P: Fn(u64, Scalar, Part) -> [Scalar; 3],
>(mob: MobDef, count: C, lean: L, place: P, joints: Seq<Joint>) -> bool {
    let seed = body_seed(mob.mesh_seed);
    let scale = size(mob.scale);
    exists|spine: [Scalar; 3], head: [Scalar; 3], limbs: Seq<Limb>|
        {
            &&& #[trigger] is_rig(joints, spine, head, limbs)
            &&& call_ensures(place, (seed, scale, Part::Spine), spine)
            &&& call_ensures(place, (seed, scale, Part::Head), head)
            &&& grows(seed, scale, count, lean, place, limbs)
        }
}

/// Build a skeleton for a creature, scaled to its visual size so it shares the mesh's space.
/// The draws are those of the body that grows from the same seed: `count` is the one that
/// says how many limbs there are, `lean` gives the sideways and upward components of a
/// limb's direction, and `place` puts the bone of a part of a body of this size.
pub fn build_skeleton<
    C: Fn(u64) -> u64,
    L: Fn(u64, usize) -> (Scalar, Scalar),
    P: Fn(u64, Scalar, Part) -> [Scalar; 3],
>(mob: &MobDef, count: &C, lean: &L, place: &P) -> (r: Skeleton)
    requires
        forall|seed: u64| call_requires(*count, (seed,)),
        forall|seed: u64, i: usize| call_requires(*lean, (seed, i)),
        forall|seed: u64, scale: Scalar, part: Part| call_requires(*place, (seed, scale, part)),
    ensures
        ordered(r.joints@),
        5 <= r.joints@.len() <= 8,
        is_rig_of(*mob, *count, *lean, *place, r.joints@),
{
    let seed: u64 = mob.mesh_seed as u64 ^ 0xC0FF_EE17_BEEF_0001;
    let scale = body_scale(mob);
    let spine = place(seed, scale, Part::Spine);
    let head = place(seed, scale, Part::Head);
    let draw: u64 = count(seed);
    let n: usize = limb_count(draw);
    let mut limbs: Vec<Limb> = Vec::new();
    let mut i: usize = 0;
    while i < n
        invariant
            i <= n,
            limbs@.len() == i,
            forall|seed: u64, i: usize| call_requires(*lean, (seed, i)),
            forall|seed: u64, scale: Scalar, part: Part|
                call_requires(*place, (seed, scale, part)),
            forall|k: int|
                0 <= k < i ==> {
                    &&& call_ensures(
                        *lean,
                        (seed, k as usize),
                        ((#[trigger] limbs@[k]).dir_x, limbs@[k].dir_y),
                    )
                    &&& call_ensures(*place, (seed, scale, Part::Limb(k as usize)), limbs@[k].bone)
                },
        decreases n - i,
    {
        let (dir_x, dir_y) = lean(seed, i);
        let bone = place(seed, scale, Part::Limb(i));
        limbs.push(Limb { bone, dir_x, dir_y });
        i = i + 1;
    }
    let r = assemble_skeleton(spine, head, &limbs);
    proof {
        assert(call_ensures(*count, (seed,), draw));
        assert(grows(seed, scale, *count, *lean, *place, limbs@));
        assert(is_rig(r.joints@, spine, head, limbs@));
    }
    r
}

/// The joint is a limb's: a leg that is the `i`-th of the legs, or an arm that is the `i`-th of
/// the arms, among the limbs before it.
pub open spec fn numbered(joints: Seq<Joint>, at: int) -> bool {
    match joints[at].role {
        JointRole::Leg { index, .. } => index == counted(joints, at, true),
        JointRole::Arm { index, .. } => index == counted(joints, at, false),
        _ => false,
    }
}

/// How many of the joints before `n` are legs, or arms.
pub open spec fn counted(joints: Seq<Joint>, n: int, legs: bool) -> int
    decreases n,
{
    if n <= 0 {
        0
    } else {
        counted(joints, n - 1, legs) + if (legs && joints[n - 1].role is Leg) || (!legs
            && joints[n - 1].role is Arm) {
            1int
        } else {
            0
        }
    }
}

proof fn counts_agree(joints: Seq<Joint>, spine: [Scalar; 3], head: [Scalar; 3], limbs: Seq<Limb>, n: int)
    requires
        is_rig(joints, spine, head, limbs),
        0 <= n <= limbs.len(),
    ensures
        counted(joints, 3 + n, true) == legs(limbs, n),
        counted(joints, 3 + n, false) == n - legs(limbs, n),
    decreases n,
{
    reveal_with_fuel(counted, 5);
    if n > 0 {
        counts_agree(joints, spine, head, limbs, n - 1);
        assert(is_joint(
            joints[3 + (n - 1)],
            "limb."@ + text::decimal((3 + (n - 1)) as nat),
            0,
            limbs[n - 1].bone,
            limb_role(limbs, n - 1),
        ));
    }
}

/// Every rig has one shape: a root, a spine on it and a head on that, then two to five limbs on
/// the root, the legs numbered in their order and the arms in theirs.
pub proof fn rigs_have_one_shape<
    C: Fn(u64) -> u64,
    L: Fn(u64, usize) -> (Scalar, Scalar),
    P: Fn(u64, Scalar, Part) -> [Scalar; 3],
>(mob: MobDef, count: C, lean: L, place: P, joints: Seq<Joint>)
    requires
        is_rig_of(mob, count, lean, place, joints),
    ensures
        5 <= joints.len() <= 8,
        ordered(joints),
        joints[0].role == JointRole::Root && joints[0].parent == -1,
        joints[1].role == JointRole::Spine && joints[1].parent == 0,
        joints[2].role == JointRole::Head && joints[2].parent == 1,
        forall|at: int|
            3 <= at < joints.len() ==> (#[trigger] joints[at]).parent == 0 && numbered(joints, at),
{
    let (spine, head, limbs) = choose|spine: [Scalar; 3], head: [Scalar; 3], limbs: Seq<Limb>|
        {
            &&& #[trigger] is_rig(joints, spine, head, limbs)
            &&& call_ensures(place, (body_seed(mob.mesh_seed), size(mob.scale), Part::Spine), spine)
            &&& call_ensures(place, (body_seed(mob.mesh_seed), size(mob.scale), Part::Head), head)
            &&& grows(body_seed(mob.mesh_seed), size(mob.scale), count, lean, place, limbs)
        };
    assert forall|at: int| 3 <= at < joints.len() implies (#[trigger] joints[at]).parent == 0
        && numbered(joints, at) by {
        let i = at - 3;
        assert(is_joint(
            joints[3 + i],
            "limb."@ + text::decimal((3 + i) as nat),
            0,
            limbs[i].bone,
            limb_role(limbs, i),
        ));
        counts_agree(joints, spine, head, limbs, i);
        legs_bound(limbs, i);
    }
    assert forall|at: int| 0 <= at < joints.len() implies (#[trigger] joints[at]).parent < at by {}
}

/// The draws of a seed agree: asked again, they say the same.
pub open spec fn draws_agree<
    C: Fn(u64) -> u64,
    L: Fn(u64, usize) -> (Scalar, Scalar),
    P: Fn(u64, Scalar, Part) -> [Scalar; 3],
>(count: C, lean: L, place: P) -> bool {
    &&& forall|s: u64, x: u64, y: u64| #[trigger]
        call_ensures(count, (s,), x) && #[trigger] call_ensures(count, (s,), y) ==> x == y
    &&& forall|s: u64, i: usize, x: (Scalar, Scalar), y: (Scalar, Scalar)| #[trigger]
        call_ensures(lean, (s, i), x) && #[trigger] call_ensures(lean, (s, i), y) ==> x == y
    &&& forall|s: u64, z: Scalar, p: Part, x: [Scalar; 3], y: [Scalar; 3]| #[trigger]
        call_ensures(place, (s, z, p), x) && #[trigger] call_ensures(place, (s, z, p), y) ==> x == y
}

/// A rig is decided by its creature's seed and size: creatures of one seed have joints of the
/// same names, parents and roles, however large each is, and at the same places if they are of
/// one size.
pub proof fn rigs_are_deterministic<
    C: Fn(u64) -> u64,
    L: Fn(u64, usize) -> (Scalar, Scalar),
    P: Fn(u64, Scalar, Part) -> [Scalar; 3],
>(a: MobDef, b: MobDef, count: C, lean: L, place: P, x: Seq<Joint>, y: Seq<Joint>)
    requires
        a.mesh_seed == b.mesh_seed,
        draws_agree(count, lean, place),
        is_rig_of(a, count, lean, place, x),
        is_rig_of(b, count, lean, place, y),
    ensures
        x.len() == y.len(),
        forall|i: int|
            0 <= i < x.len() ==> {
                &&& (#[trigger] x[i]).name@ == y[i].name@
                &&& x[i].parent == y[i].parent
                &&& x[i].role == y[i].role
                &&& x[i].bind_local.unturned() && y[i].bind_local.unturned()
                &&& a.scale == b.scale ==> x[i].bind_local.translation@
                    == y[i].bind_local.translation@
            },
{
    let seed = body_seed(a.mesh_seed);
    let (sx, hx, lx) = choose|spine: [Scalar; 3], head: [Scalar; 3], limbs: Seq<Limb>|
        {
            &&& #[trigger] is_rig(x, spine, head, limbs)
            &&& call_ensures(place, (seed, size(a.scale), Part::Spine), spine)
            &&& call_ensures(place, (seed, size(a.scale), Part::Head), head)
            &&& grows(seed, size(a.scale), count, lean, place, limbs)
        };
    let (sy, hy, ly) = choose|spine: [Scalar; 3], head: [Scalar; 3], limbs: Seq<Limb>|
        {
            &&& #[trigger] is_rig(y, spine, head, limbs)
            &&& call_ensures(place, (seed, size(b.scale), Part::Spine), spine)
            &&& call_ensures(place, (seed, size(b.scale), Part::Head), head)
            &&& grows(seed, size(b.scale), count, lean, place, limbs)
        };
    let dx = choose|draw: u64| #[trigger]
        call_ensures(count, (seed,), draw) && lx.len() == 2 + draw % 4;
    let dy = choose|draw: u64| #[trigger]
        call_ensures(count, (seed,), draw) && ly.len() == 2 + draw % 4;
    assert(dx == dy);
    assert forall|i: int| 0 <= i < lx.len() implies (#[trigger] lx[i]).dir_x == ly[i].dir_x
        && lx[i].dir_y == ly[i].dir_y by {
        assert(call_ensures(lean, (seed, i as usize), (lx[i].dir_x, lx[i].dir_y)));
        assert(call_ensures(lean, (seed, i as usize), (ly[i].dir_x, ly[i].dir_y)));
    }
    assert forall|i: int| 0 <= i < x.len() implies {
        &&& (#[trigger] x[i]).name@ == y[i].name@
        &&& x[i].parent == y[i].parent
        &&& x[i].role == y[i].role
        &&& x[i].bind_local.unturned() && y[i].bind_local.unturned()
        &&& a.scale == b.scale ==> x[i].bind_local.translation@ == y[i].bind_local.translation@
    } by {
        if i >= 3 {
            let k = i - 3;
            assert(is_joint(
                x[3 + k],
                "limb."@ + text::decimal((3 + k) as nat),
                0,
                lx[k].bone,
                limb_role(lx, k),
            ));
            assert(is_joint(
                y[3 + k],
                "limb."@ + text::decimal((3 + k) as nat),
                0,
                ly[k].bone,
                limb_role(ly, k),
            ));
            same_leans_same_legs(lx, ly, k);
            assert(lx[k].dir_x == ly[k].dir_x);
            if a.scale == b.scale {
                assert(call_ensures(
                    place,
                    (seed, size(a.scale), Part::Limb(k as usize)),
                    lx[k].bone,
                ));
                assert(call_ensures(
                    place,
                    (seed, size(a.scale), Part::Limb(k as usize)),
                    ly[k].bone,
                ));
            }
        }
    }
}

proof fn same_leans_same_legs(x: Seq<Limb>, y: Seq<Limb>, n: int)
    requires
        x.len() == y.len(),
        0 <= n <= x.len(),
        forall|i: int| 0 <= i < x.len() ==> (#[trigger] x[i]).dir_y == y[i].dir_y,
    ensures
        legs(x, n) == legs(y, n),
    decreases n,
{
    if n > 0 {
        same_leans_same_legs(x, y, n - 1);
        assert(x[n - 1].dir_y == y[n - 1].dir_y);
    }
}

/// A config tuned to a creature: full gait at its own top speed, slower and longer strides
/// the larger it is.
pub open spec fn is_tuned<
    D: Fn(Scalar, Scalar) -> Scalar,
    A: Fn(Scalar, Scalar) -> Scalar,
    M: Fn(Scalar, Scalar) -> Scalar,
>(mob: MobDef, over: D, plus: A, times: M, r: AnimatorConfig) -> bool {
    let scale = size(mob.scale);
    &&& exists|d: AnimatorConfig, cadence: Scalar, stride: Scalar|
        {
            &&& #[trigger] call_ensures(AnimatorConfig::default, (), d)
            &&& #[trigger] call_ensures(
                over,
                (decimal(24, 1), scale.clamped(decimal(4, 1), decimal(4, 0))),
                cadence,
            )
            &&& #[trigger] call_ensures(
                times,
                (decimal(1, 1), scale.clamped(decimal(0, 0), decimal(3, 0))),
                stride,
            )
            &&& call_ensures(plus, (decimal(6, 1), stride), r.gait.stride)
            &&& r == (AnimatorConfig {
                run_speed: mob.move_speed.floored(decimal(1, 0)),
                cadence: cadence.floored(decimal(6, 1)),
                gait: GaitParams { stride: r.gait.stride, bob: r.gait.bob, ..d.gait },
                ..d
            })
        }
    &&& call_ensures(
        times,
        (decimal(5, 2), scale.clamped(decimal(5, 1), decimal(3, 0))),
        r.gait.bob,
    )
}

/// Tune an [`AnimatorConfig`] to a creature's size and speed, so a lumbering golem strides
/// slowly and a darting wisp bobs quickly — all from its [`MobDef`].
pub fn build_config<
    D: Fn(Scalar, Scalar) -> Scalar,
    A: Fn(Scalar, Scalar) -> Scalar,
    M: Fn(Scalar, Scalar) -> Scalar,
>(mob: &MobDef, over: &D, plus: &A, times: &M) -> (r: AnimatorConfig)
    requires
        forall|x: Scalar, y: Scalar| call_requires(*over, (x, y)),
        forall|x: Scalar, y: Scalar| call_requires(*plus, (x, y)),
        forall|x: Scalar, y: Scalar| call_requires(*times, (x, y)),
    ensures
        is_tuned(*mob, *over, *plus, *times, r),
{
    let scale = body_scale(mob);
    let d = AnimatorConfig::default();
    let mut config = d;
    config.run_speed = mob.move_speed.max(dec(1, 0));
    let cadence = over(dec(24, 1), scale.clamp(dec(4, 1), dec(4, 0)));
    config.cadence = cadence.max(dec(6, 1));
    let stride = times(dec(1, 1), scale.clamp(dec(0, 0), dec(3, 0)));
    config.gait.stride = plus(dec(6, 1), stride);
    config.gait.bob = times(dec(5, 2), scale.clamp(dec(5, 1), dec(3, 0)));
    proof {
        assert(call_ensures(AnimatorConfig::default, (), d));
        assert(call_ensures(
            *over,
            (decimal(24, 1), size(mob.scale).clamped(decimal(4, 1), decimal(4, 0))),
            cadence,
        ));
        assert(call_ensures(
            *times,
            (decimal(1, 1), size(mob.scale).clamped(decimal(0, 0), decimal(3, 0))),
            stride,
        ));
    }
    config
}

/// A skeleton has its spine, its head and every limb where they were put, each limb on the root, on
/// the side that it leans to and a leg exactly if it points down.
pub proof fn limbs_are_joined_where_they_grow(
    spine: [Scalar; 3],
    head: [Scalar; 3],
    limbs: &Vec<Limb>,
    r: Skeleton,
    i: int,
)
    requires
        call_ensures(assemble_skeleton, (spine, head, limbs), r),
        0 <= i < limbs@.len() <= 255,
    ensures
        r.joints@.len() == limbs@.len() + 3,
        r.joints@[0].parent == -1 && r.joints@[0].name@ == "root"@,
        r.joints@[1].bind_local.translation == spine && r.joints@[1].parent == 0,
        r.joints@[1].name@ == "spine"@,
        r.joints@[2].bind_local.translation == head && r.joints@[2].parent == 1,
        r.joints@[2].name@ == "head"@,
        r.joints@[3 + i].bind_local.translation == limbs@[i].bone,
        r.joints@[3 + i].parent == 0,
        r.joints@[3 + i].name@ == "limb."@ + text::decimal((3 + i) as nat),
        limbs@[i].dir_y.below(decimal(-1, 1)) <==> r.joints@[3 + i].role is Leg,
        !limbs@[i].dir_y.below(decimal(-1, 1)) <==> r.joints@[3 + i].role is Arm,
        match r.joints@[3 + i].role {
            JointRole::Leg { side, .. } | JointRole::Arm { side, .. } => match side {
                LimbSide::Left => limbs@[i].dir_x.below(decimal(-5, 2)),
                LimbSide::Right => decimal(5, 2).below(limbs@[i].dir_x),
                LimbSide::Center => !limbs@[i].dir_x.below(decimal(-5, 2)) && !decimal(5, 2).below(
                    limbs@[i].dir_x,
                ),
            },
            _ => false,
        },
{
    assert(is_joint(
        r.joints@[3 + i],
        "limb."@ + text::decimal((3 + i) as nat),
        0,
        limbs@[i].bone,
        limb_role(limbs@, i),
    ));
}

/// A creature is built at its own size if that is above zero, and at size one otherwise.
pub proof fn bodies_have_a_size(mob: &MobDef, r: Scalar)
    requires
        call_ensures(body_scale, (mob,), r),
    ensures
        (Scalar { bits: 0 }).below(r),
        (Scalar { bits: 0 }).below(mob.scale) ==> r == mob.scale,
        !(Scalar { bits: 0 }).below(mob.scale) ==> r == (Scalar { bits: 0x3f80_0000 }),
{
}

/// A creature runs at its own top speed, at least at one, and steps no slower than the least cadence;
/// nothing of the gait but the stride and the bob depends on it.
pub proof fn gaits_fit_their_creatures<
    D: Fn(Scalar, Scalar) -> Scalar,
    A: Fn(Scalar, Scalar) -> Scalar,
    M: Fn(Scalar, Scalar) -> Scalar,
>(mob: &MobDef, over: &D, plus: &A, times: &M, r: AnimatorConfig)
    requires
        call_ensures(build_config::<D, A, M>, (mob, over, plus, times), r),
        (Scalar { bits: 0 }).below(mob.scale),
    ensures
        decimal(1, 0).at_most(mob.move_speed) ==> r.run_speed == mob.move_speed,
        mob.move_speed.below(decimal(1, 0)) ==> r.run_speed == decimal(1, 0),
        decimal(4, 1).at_most(mob.scale) && mob.scale.at_most(decimal(4, 0)) ==> exists|c: Scalar|
            #[trigger] call_ensures(*over, (decimal(24, 1), mob.scale), c) && (r.cadence == c
                && !c.below(decimal(6, 1)) || r.cadence == decimal(6, 1) && !decimal(6, 1).below(c)),
        decimal(0, 0).at_most(mob.scale) && mob.scale.at_most(decimal(3, 0)) ==> exists|s: Scalar|
            #[trigger] call_ensures(*times, (decimal(1, 1), mob.scale), s) && call_ensures(
                *plus,
                (decimal(6, 1), s),
                r.gait.stride,
            ),
        decimal(5, 1).at_most(mob.scale) && mob.scale.at_most(decimal(3, 0)) ==> call_ensures(
            *times,
            (decimal(5, 2), mob.scale),
            r.gait.bob,
        ),
        exists|d: AnimatorConfig|
            {
                &&& #[trigger] call_ensures(AnimatorConfig::default, (), d)
                &&& r == (AnimatorConfig {
                    run_speed: r.run_speed,
                    cadence: r.cadence,
                    gait: GaitParams { stride: r.gait.stride, bob: r.gait.bob, ..d.gait },
                    ..d
                })
            },
{
    let scale = mob.scale;
    let (d, cadence, stride) = choose|d: AnimatorConfig, cadence: Scalar, stride: Scalar|
        {
            &&& #[trigger] call_ensures(AnimatorConfig::default, (), d)
            &&& #[trigger] call_ensures(
                *over,
                (decimal(24, 1), scale.clamped(decimal(4, 1), decimal(4, 0))),
                cadence,
            )
            &&& #[trigger] call_ensures(
                *times,
                (decimal(1, 1), scale.clamped(decimal(0, 0), decimal(3, 0))),
                stride,
            )
            &&& call_ensures(*plus, (decimal(6, 1), stride), r.gait.stride)
            &&& r == (AnimatorConfig {
                run_speed: mob.move_speed.floored(decimal(1, 0)),
                cadence: cadence.floored(decimal(6, 1)),
                gait: GaitParams { stride: r.gait.stride, bob: r.gait.bob, ..d.gait },
                ..d
            })
        };
    if decimal(4, 1).at_most(scale) && scale.at_most(decimal(4, 0)) {
        assert(call_ensures(*over, (decimal(24, 1), scale), cadence));
    }
    if decimal(0, 0).at_most(scale) && scale.at_most(decimal(3, 0)) {
        assert(call_ensures(*times, (decimal(1, 1), scale), stride));
    }
    assert(call_ensures(AnimatorConfig::default, (), d));
}

} // verus!
