//! Keyframed animation clips.
//!
//! Default creatures animate procedurally, but a clip is the right tool for anything with
//! *authored* motion: a boss's scripted slam, a spell-effect mesh that pulses on a fixed
//! cadence, an emote. An [`AnimationClip`] is a set of sparse per-joint [`JointTrack`]s;
//! sampling at a time produces a [`Pose`] by interpolating each track and leaving
//! untouched joints at rest.

use crate::anim::pose::Pose;
use crate::anim::skeleton::Skeleton;
use crate::anim::transform::Transform;
use crate::scalar::{zero, Scalar};
use vstd::prelude::*;

verus! {

/// One keyframe on a joint track: a local [`Transform`] at a time (seconds).
#[derive(Debug, Clone, Copy, PartialEq, Eq)]
pub struct Keyframe {
    pub time: Scalar,
    pub transform: Transform,
}

/// A track of keyframes for a single joint. Keys must be sorted ascending by `time` (the
/// sampler assumes this and binary-searches them).
#[derive(Debug, Clone, PartialEq, Eq)]
pub struct JointTrack {
    /// Index of the joint this track drives, in the target skeleton's array.
    pub joint: u16,
    pub keys: Vec<Keyframe>,
}

/// The keys are in ascending order of time.
pub open spec fn sorted(keys: Seq<Keyframe>) -> bool {
    forall|i: int, j: int|
        0 <= i < j < keys.len() ==> (#[trigger] keys[i]).time.at_most((#[trigger] keys[j]).time)
}

/// Whether `i` is the first key strictly after `time`, all later ones being after it too.
pub open spec fn first_after(keys: Seq<Keyframe>, time: Scalar, i: int) -> bool {
    &&& 0 <= i <= keys.len()
    &&& forall|k: int| 0 <= k < i ==> (#[trigger] keys[k]).time.at_most(time)
    &&& forall|k: int| i <= k < keys.len() ==> !(#[trigger] keys[k]).time.at_most(time)
}

/// What a track comes to at `time`: rest for an empty track, the only key of a track of
/// one, the first key up to its time, the last key from its time on, and what `mix` makes
/// of the bracketing keys in between.
pub open spec fn sampled<F: Fn(Keyframe, Keyframe, Scalar) -> Transform>(
    keys: Seq<Keyframe>,
    time: Scalar,
    mix: F,
    r: Transform,
) -> bool {
    if keys.len() == 0 {
        r.unmoved() && r.unturned()
    } else if keys.len() == 1 || time.at_most(keys[0].time) {
        r == keys[0].transform
    } else if keys.last().time.at_most(time) {
        r == keys.last().transform
    } else {
        exists|i: int|
            {
                let hi = if i < 1 {
                    1
                } else {
                    i
                };
                &&& #[trigger] first_after(keys, time, i)
                &&& call_ensures(mix, (keys[hi - 1], keys[hi], time), r)
            }
    }
}

impl JointTrack {
    /// Sample this track at `time`, clamping to the first/last key outside the range and
    /// interpolating with `mix` between the bracketing keys inside it.
    pub fn sample<F: Fn(Keyframe, Keyframe, Scalar) -> Transform>(&self, time: Scalar, mix: &F) -> (r:
        Transform)
        requires
            sorted(self.keys@),
            forall|a: Keyframe, b: Keyframe, t: Scalar| call_requires(*mix, (a, b, t)),
        ensures
            sampled(self.keys@, time, *mix, r),
    {
        let n: usize = self.keys.len();
        if n == 0 {
            return Transform::identity();
        }
        if n == 1 || time.le(self.keys[0].time) {
            return self.keys[0].transform;
        }
        if time.ge(self.keys[n - 1].time) {
            return self.keys[n - 1].transform;
        }
        let i: usize = self.seek(time);
        let hi: usize = if i < 1 {
            1
        } else {
            i
        };
        proof {
            if i == n {
                assert(self.keys@[n - 1].time.at_most(time));
            }
        }
        mix(self.keys[hi - 1], self.keys[hi], time)
    }

    /// Binary search for the first key strictly after `time`.
    fn seek(&self, time: Scalar) -> (r: usize)
        requires
            sorted(self.keys@),
        ensures
            first_after(self.keys@, time, r as int),
    {
        let mut lo: usize = 0;
        let mut hi: usize = self.keys.len();
        while lo < hi
            invariant
                lo <= hi <= self.keys.len(),
                sorted(self.keys@),
                forall|k: int| 0 <= k < lo ==> (#[trigger] self.keys@[k]).time.at_most(time),
                forall|k: int|
                    hi <= k < self.keys@.len() ==> !(#[trigger] self.keys@[k]).time.at_most(time),
            decreases hi - lo,
        {
            let mid: usize = lo + (hi - lo) / 2;
            if self.keys[mid].time.le(time) {
                assert forall|k: int| 0 <= k < mid + 1 implies (#[trigger] self.keys@[k]).time.at_most(
                    time,
                ) by {
                    if k < mid {
                        assert(self.keys@[k].time.at_most(self.keys@[mid as int].time));
                    }
                }
                lo = mid + 1;
            } else {
                assert forall|k: int| mid <= k < self.keys@.len() implies !(
                #[trigger] self.keys@[k]).time.at_most(time) by {
                    if mid < k {
                        assert(self.keys@[mid as int].time.at_most(self.keys@[k].time));
                    }
                }
                hi = mid;
            }
        }
        lo
    }
}

/// A complete clip: a duration, a loop flag, and the joint tracks it animates.
#[derive(Debug, Clone, PartialEq, Eq)]
pub struct AnimationClip {
    /// Human / debug name (e.g. `"slam"`).
    pub name: String,
    /// Total length in seconds.
    pub duration: Scalar,
    /// Whether time wraps (cyclic gaits) or holds on the last frame (one-shots).
    pub looping: bool,
    /// Sparse per-joint tracks. Joints with no track stay at their rest pose.
    pub tracks: Vec<JointTrack>,
}

/// The last of the first `n` tracks that drives the joint.
pub open spec fn driver(tracks: Seq<JointTrack>, joint: int, n: int) -> Option<int>
    decreases n,
{
    if n <= 0 || n > tracks.len() {
        None
    } else if tracks[n - 1].joint == joint {
        Some(n - 1)
    } else {
        driver(tracks, joint, n - 1)
    }
}

impl AnimationClip {
    /// The clip's local time for a raw playback time.
    pub open spec fn is_local_time<W: Fn(Scalar, Scalar) -> Scalar>(
        self,
        t: Scalar,
        wrap: W,
        r: Scalar,
    ) -> bool {
        if self.duration.at_most(Scalar { bits: 0 }) {
            r.bits == 0
        } else if self.looping {
            call_ensures(wrap, (t, self.duration), r)
        } else {
            r == t.clamped(Scalar { bits: 0 }, self.duration)
        }
    }

    /// Map a raw playback time onto the clip's local time, honouring `looping`: a looping
    /// clip wraps with `wrap`, any other holds at its ends.
    pub fn local_time<W: Fn(Scalar, Scalar) -> Scalar>(&self, t: Scalar, wrap: &W) -> (r: Scalar)
        requires
            self.looping || !self.duration.nan(),
            forall|a: Scalar, b: Scalar| call_requires(*wrap, (a, b)),
        ensures
            self.is_local_time(t, *wrap, r),
    {
        if self.duration.le(zero()) {
            return zero();
        }
        if self.looping {
            wrap(t, self.duration)
        } else {
            t.clamp(zero(), self.duration)
        }
    }

    /// Sample the clip into a fresh pose over `skeleton`'s rest pose: every tracked joint
    /// is interpolated (by the last track that names it); every other joint keeps its bind
    /// transform.
    pub fn sample<
        W: Fn(Scalar, Scalar) -> Scalar,
        F: Fn(Keyframe, Keyframe, Scalar) -> Transform,
    >(&self, skeleton: &Skeleton, time: Scalar, wrap: &W, mix: &F) -> (r: Pose)
        requires
            self.looping || !self.duration.nan(),
            forall|i: int| 0 <= i < self.tracks@.len() ==> sorted((#[trigger] self.tracks@[i]).keys@),
            forall|a: Scalar, b: Scalar| call_requires(*wrap, (a, b)),
            forall|a: Keyframe, b: Keyframe, t: Scalar| call_requires(*mix, (a, b, t)),
        ensures
            r.locals@.len() == skeleton.joints@.len(),
            exists|at: Scalar|
                {
                    &&& #[trigger] self.is_local_time(time, *wrap, at)
                    &&& forall|j: int|
                        0 <= j < skeleton.joints@.len() ==> match driver(
                            self.tracks@,
                            j,
                            self.tracks@.len() as int,
                        ) {
                            Some(k) => sampled(self.tracks@[k].keys@, at, *mix, #[trigger] r.locals@[j]),
                            None => r.locals@[j] == skeleton.joints@[j].bind_local,
                        }
                },
    {
        let mut pose = Pose::rest(skeleton);
        let at = self.local_time(time, wrap);
        let mut i: usize = 0;
        while i < self.tracks.len()
            invariant
                i <= self.tracks.len(),
                pose.locals@.len() == skeleton.joints@.len(),
                forall|i: int|
                    0 <= i < self.tracks@.len() ==> sorted((#[trigger] self.tracks@[i]).keys@),
                forall|a: Keyframe, b: Keyframe, t: Scalar| call_requires(*mix, (a, b, t)),
                forall|j: int|
                    0 <= j < skeleton.joints@.len() ==> match driver(self.tracks@, j, i as int) {
                        Some(k) => sampled(self.tracks@[k].keys@, at, *mix, #[trigger] pose.locals@[j]),
                        None => pose.locals@[j] == skeleton.joints@[j].bind_local,
                    },
            decreases self.tracks.len() - i,
        {
            let track = &self.tracks[i];
            let j: usize = track.joint as usize;
            if j < pose.locals.len() {
                let posed = track.sample(at, mix);
                pose.locals.set(j, posed);
            }
            i = i + 1;
        }
        assert(self.is_local_time(time, *wrap, at));
        pose
    }

    /// True once a non-looping clip has played past its end (for one-shot teardown).
    pub fn finished(&self, t: Scalar) -> (r: bool)
        ensures
            r == (!self.looping && self.duration.at_most(t)),
    {
        !self.looping && t.ge(self.duration)
    }
}

/// A track passes through its keys: where the mix of two keys at the first one's time is the first
/// one, a sample at the time of a key that the next comes after is that key.
pub proof fn tracks_pass_through_their_keys<F: Fn(Keyframe, Keyframe, Scalar) -> Transform>(
    keys: Seq<Keyframe>,
    k: int,
    mix: F,
    r: Transform,
)
    requires
        sorted(keys),
        0 <= k < keys.len(),
        !keys[k].time.nan(),
        k + 1 < keys.len() ==> keys[k].time.below(keys[k + 1].time),
        0 < k ==> keys[0].time.below(keys[k].time),
        sampled(keys, keys[k].time, mix, r),
        forall|a: Keyframe, b: Keyframe, t: Transform| #[trigger]
            call_ensures(mix, (a, b, a.time), t) ==> t == a.transform,
    ensures
        r == keys[k].transform,
{
    let time = keys[k].time;
    if keys.len() > 1 && k > 0 && k + 1 < keys.len() {
        assert(keys[k + 1].time.at_most(keys.last().time)) by {
            if k + 1 < keys.len() - 1 {
                assert(keys[k + 1].time.at_most(keys[keys.len() - 1].time));
            }
        }
        let i = choose|i: int|
            {
                let hi = if i < 1 {
                    1
                } else {
                    i
                };
                &&& #[trigger] first_after(keys, time, i)
                &&& call_ensures(mix, (keys[hi - 1], keys[hi], time), r)
            };
        if i <= k {
            assert(!keys[k].time.at_most(time));
        }
        if i > k + 1 {
            assert(keys[k + 1].time.at_most(time));
        }
        assert(call_ensures(mix, (keys[k], keys[k + 1], keys[k].time), r));
    }
}

/// A sample between the ends mixes the two keys on either side of the time.
pub proof fn samples_mix_the_surrounding_keys<F: Fn(Keyframe, Keyframe, Scalar) -> Transform>(
    keys: Seq<Keyframe>,
    time: Scalar,
    mix: F,
    r: Transform,
)
    requires
        sorted(keys),
        keys.len() > 1,
        forall|i: int| 0 <= i < keys.len() ==> !(#[trigger] keys[i]).time.nan(),
        keys[0].time.below(time),
        time.below(keys.last().time),
        sampled(keys, time, mix, r),
    ensures
        exists|k: int|
            {
                &&& 0 <= k < keys.len() - 1
                &&& keys[k].time.at_most(time)
                &&& time.below(keys[k + 1].time)
                &&& #[trigger] call_ensures(mix, (keys[k], keys[k + 1], time), r)
            },
{
    let i = choose|i: int|
        {
            let hi = if i < 1 {
                1
            } else {
                i
            };
            &&& #[trigger] first_after(keys, time, i)
            &&& call_ensures(mix, (keys[hi - 1], keys[hi], time), r)
        };
    if i < 1 {
        assert(!keys[0].time.at_most(time));
    }
    if i == keys.len() {
        assert(keys[keys.len() - 1].time.at_most(time));
    }
    assert(keys[i - 1].time.at_most(time));
    assert(!keys[i].time.at_most(time));
    let k = i - 1;
    assert(call_ensures(mix, (keys[k], keys[k + 1], time), r));
}

/// Outside its keys a track holds still: at its first key up to that key's time, at its last from
/// that key's time on.
pub proof fn tracks_hold_at_their_ends<F: Fn(Keyframe, Keyframe, Scalar) -> Transform>(
    keys: Seq<Keyframe>,
    time: Scalar,
    mix: F,
    r: Transform,
)
    requires
        sorted(keys),
        keys.len() > 0,
        sampled(keys, time, mix, r),
    ensures
        time.at_most(keys[0].time) ==> r == keys[0].transform,
        keys[0].time.below(time) && keys[keys.len() - 1].time.at_most(time) ==> r == keys[keys.len()
            - 1].transform,
{
}

/// A joint is driven by the last track that names it, and by none if none does.
pub proof fn the_last_track_drives(tracks: Seq<JointTrack>, joint: int, n: int)
    requires
        0 <= n <= tracks.len(),
    ensures
        match driver(tracks, joint, n) {
            Some(k) => {
                &&& 0 <= k < n
                &&& tracks[k].joint == joint
                &&& forall|j: int| k < j < n ==> (#[trigger] tracks[j]).joint != joint
            },
            None => forall|j: int| 0 <= j < n ==> (#[trigger] tracks[j]).joint != joint,
        },
    decreases n,
{
    if n > 0 {
        the_last_track_drives(tracks, joint, n - 1);
    }
}

/// A clip that does not loop plays at the time asked for within its length, holds its first frame
/// before and its last behind; one that loops wraps; one without a length stands at its start.
pub proof fn clips_hold_or_wrap<W: Fn(Scalar, Scalar) -> Scalar>(
    clip: AnimationClip,
    t: Scalar,
    wrap: W,
    r: Scalar,
)
    requires
        clip.is_local_time(t, wrap, r),
        !clip.duration.nan(),
    ensures
        ({
            let start = Scalar { bits: 0 };
            if start.below(clip.duration) {
                if clip.looping {
                    call_ensures(wrap, (t, clip.duration), r)
                } else {
                    &&& start.at_most(t) && t.at_most(clip.duration) ==> r == t
                    &&& t.below(start) ==> r == start
                    &&& clip.duration.below(t) ==> r == clip.duration
                }
            } else {
                r == start
            }
        }),
{
}

} // verus!
