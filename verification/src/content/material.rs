//! Procedural materials and shaders — the look of an organic, hand-grown world.
//!
//! Cerena avoids hard-edged authored textures: surfaces are synthesised from layered
//! noise and coloured by ramps, so everything reads as natural and "grown". A
//! [`MaterialDef`] is the recipe the generator evaluates to bake textures (and that
//! the client feeds to its GPU material), and a [`ShaderDef`] carries hot-
//! recompilable WGSL. All of it is data, so the art direction is tunable live.

use crate::content::ids::{MaterialId, ShaderId};
use crate::scalar::{dec, decimal, Scalar, ONE};
use vstd::prelude::*;

verus! {

/// The family of a noise layer. Each maps to a generator in the generator.
#[derive(Debug, Clone, Copy, PartialEq, Eq, Structural)]
pub enum NoiseKind {
    /// Fractal Brownian motion — soft cloudy detail (default workhorse).
    Fbm,
    /// Worley / cellular — organic cells, scales, cracks.
    Worley,
    /// Ridged multifractal — sharp veins, mountain ridges, lightning.
    Ridged,
    /// Flow noise — directional, smeared streaks (lava, water, wind).
    Flow,
    /// Domain-warp — distorts sample coordinates of the layers above it for a
    /// melted, marbled, hand-grown look.
    DomainWarp,
}

/// One octave-stack of noise. Layers are composited (in order) by the procedural
/// material evaluator into a single scalar field that drives the colour ramp,
/// roughness, and displacement.
#[derive(Debug, Clone)]
pub struct NoiseLayer {
    pub kind: NoiseKind,
    /// Base spatial frequency (features per world unit).
    pub frequency: Scalar,
    /// Output amplitude (contribution weight).
    pub amplitude: Scalar,
    /// Number of fractal octaves summed.
    pub octaves: u8,
    /// Per-octave frequency multiplier (>1; typically ~2.0).
    pub lacunarity: Scalar,
    /// Per-octave amplitude multiplier (<1; typically ~0.5).
    pub gain: Scalar,
    /// Domain-warp strength applied before sampling (0 = none).
    pub warp: Scalar,
    /// Seed so two layers of the same kind differ.
    pub seed: u32,
}

/// A colour gradient sampled by the composited noise value. Stops are `(t, rgba)`
/// with `t` in 0..1; [`ColorRamp::sample`] linearly interpolates between them.
#[derive(Debug, Clone)]
pub struct ColorRamp {
    /// Sorted-by-`t` colour stops. Each colour is linear RGBA in 0..1.
    pub stops: Vec<(Scalar, [Scalar; 4])>,
}

/// A procedural material: layered noise + a colour ramp + PBR surface parameters.
/// the generator bakes this into texture maps; the client binds them.
#[derive(Debug, Clone)]
pub struct MaterialDef {
    pub id: MaterialId,
    pub name: String,
    /// Noise layers composited (in order) to form the driving scalar field.
    pub layers: Vec<NoiseLayer>,
    /// Maps the composited field to base colour.
    pub ramp: ColorRamp,
    /// PBR roughness (0 = mirror, 1 = matte).
    pub roughness: Scalar,
    /// PBR metallic (0 = dielectric, 1 = metal).
    pub metallic: Scalar,
    /// Emissive strength (0 = none); multiplies `emissive_color`.
    pub emissive: Scalar,
    /// Emissive tint (linear RGB).
    pub emissive_color: [Scalar; 3],
    /// World-space scale for triplanar projection (avoids UV seams on organic mesh).
    pub triplanar_scale: Scalar,
    /// Vertex / parallax displacement amount driven by the noise field.
    pub displacement: Scalar,
    /// Optional custom surface shader; falls back to the standard shader if `None`.
    pub shader: Option<ShaderId>,
}

/// Where in the render pipeline a shader runs. Lets the client bind the right inputs.
#[derive(Debug, Clone, Copy, PartialEq, Eq, Structural)]
pub enum ShaderStage {
    /// Per-surface fragment shading of world geometry.
    Surface,
    /// Full-screen post-process pass.
    Fullscreen,
    /// Sky / atmosphere dome.
    Sky,
    /// GPU particle shading.
    Particle,
    /// Animated water surface.
    Water,
}

/// A WGSL shader program. `source` is raw WGSL the client compiles; because it is
/// data in a [`crate::content::pack::ContentPack`], shaders are hot-recompiled on a swap.
#[derive(Debug, Clone)]
pub struct ShaderDef {
    pub id: ShaderId,
    pub name: String,
    pub stage: ShaderStage,
    /// The WGSL source. Hot-recompiled by the client on a content swap.
    pub source: String,
    /// Named scalar uniforms exposed to the designer as `(name, default)`.
    pub params: Vec<(String, Scalar)>,
}

impl Default for NoiseLayer {
    /// A neutral fbm layer — sensible base for hand-tuning.
    fn default() -> (r: Self)
        ensures
            r == (NoiseLayer {
                kind: NoiseKind::Fbm,
                frequency: decimal(1, 0),
                amplitude: decimal(1, 0),
                octaves: 4,
                lacunarity: decimal(2, 0),
                gain: decimal(5, 1),
                warp: decimal(0, 0),
                seed: 0,
            }),
    {
        NoiseLayer {
            kind: NoiseKind::Fbm,
            frequency: dec(1, 0),
            amplitude: dec(1, 0),
            octaves: 4,
            lacunarity: dec(2, 0),
            gain: dec(5, 1),
            warp: dec(0, 0),
            seed: 0,
        }
    }
}

impl Default for ColorRamp {
    fn default() -> (r: Self)
        ensures
            r.stops@.len() == 0,
    {
        ColorRamp { stops: Vec::new() }
    }
}

/// The first pair of neighbouring stops that `t` lies between, from `from` on.
pub open spec fn segment(stops: Seq<(Scalar, [Scalar; 4])>, t: Scalar, from: int) -> Option<int>
    decreases stops.len() - from,
{
    if from < 0 || from + 1 >= stops.len() {
        None
    } else if stops[from].0.at_most(t) && t.at_most(stops[from + 1].0) {
        Some(from)
    } else {
        segment(stops, t, from + 1)
    }
}

impl ColorRamp {
    /// Sample the ramp at `t` (clamped to 0..1), lerping between the surrounding stops with
    /// `mix`. Returns transparent black if the ramp is empty, and the nearest stop past the
    /// ends.
    pub fn sample<F: Fn((Scalar, [Scalar; 4]), (Scalar, [Scalar; 4]), Scalar) -> [Scalar; 4]>(
        &self,
        t: Scalar,
        mix: &F,
    ) -> (r: [Scalar; 4])
        requires
            forall|a: (Scalar, [Scalar; 4]), b: (Scalar, [Scalar; 4]), t: Scalar|
                call_requires(*mix, (a, b, t)),
        ensures
            ({
                let stops = self.stops@;
                let t = t.clamped(Scalar { bits: 0 }, Scalar { bits: ONE });
                if stops.len() == 0 {
                    forall|i: int| 0 <= i < 4 ==> #[trigger] r@[i].bits == 0
                } else if t.at_most(stops[0].0) {
                    r == stops[0].1
                } else {
                    match segment(stops, t, 0) {
                        Some(i) => call_ensures(*mix, (stops[i], stops[i + 1], t), r),
                        None => r == stops.last().1,
                    }
                }
            }),
    {
        if self.stops.len() == 0 {
            let zero = Scalar { bits: 0 };
            return [zero, zero, zero, zero];
        }
        let at = t.clamp(Scalar { bits: 0 }, Scalar { bits: ONE });
        if at.le(self.stops[0].0) {
            return self.stops[0].1;
        }
        let mut i: usize = 0;
        while i < self.stops.len() - 1
            invariant
                i < self.stops.len(),
                at == t.clamped(Scalar { bits: 0 }, Scalar { bits: ONE }),
                segment(self.stops@, at, 0) == segment(self.stops@, at, i as int),
                !at.at_most(self.stops@[0].0),
                forall|a: (Scalar, [Scalar; 4]), b: (Scalar, [Scalar; 4]), t: Scalar|
                    call_requires(*mix, (a, b, t)),
            decreases self.stops.len() - i,
        {
            if at.ge(self.stops[i].0) && at.le(self.stops[i + 1].0) {
                return mix(self.stops[i], self.stops[i + 1], at);
            }
            i = i + 1;
        }
        self.stops[self.stops.len() - 1].1
    }
}

/// A sample between the ends lies between neighbouring stops: the first pair that the place is
/// within, and none only if there is no such pair.
pub proof fn samples_lie_between_neighbours(stops: Seq<(Scalar, [Scalar; 4])>, t: Scalar, from: int)
    requires
        0 <= from,
    ensures
        match segment(stops, t, from) {
            Some(i) => {
                &&& from <= i < stops.len() - 1
                &&& stops[i].0.at_most(t)
                &&& t.at_most(stops[i + 1].0)
                &&& forall|j: int|
                    from <= j < i ==> !((#[trigger] stops[j]).0.at_most(t) && t.at_most(
                        stops[j + 1].0,
                    ))
            },
            None => forall|j: int|
                from <= j < stops.len() - 1 ==> !((#[trigger] stops[j]).0.at_most(t) && t.at_most(
                    stops[j + 1].0,
                )),
        },
    decreases stops.len() - from,
{
    if from + 1 < stops.len() {
        samples_lie_between_neighbours(stops, t, from + 1);
    }
}

/// A ramp shows its stops: past its ends the nearest one, and, where mixing two stops at the place
/// of the second gives the second, at the place of each stop that stop's colour, as long as the
/// stops ascend and lie within 0..1.
pub proof fn ramps_show_their_stops<
    F: Fn((Scalar, [Scalar; 4]), (Scalar, [Scalar; 4]), Scalar) -> [Scalar; 4],
>(ramp: ColorRamp, mix: F, k: int, r: [Scalar; 4])
    requires
        0 <= k < ramp.stops@.len(),
        forall|i: int, j: int|
            0 <= i < j < ramp.stops@.len() ==> (#[trigger] ramp.stops@[i]).0.below(
                (#[trigger] ramp.stops@[j]).0,
            ),
        forall|i: int|
            0 <= i < ramp.stops@.len() ==> (Scalar { bits: 0 }).at_most((#[trigger] ramp.stops@[i]).0)
                && ramp.stops@[i].0.at_most(Scalar { bits: ONE }),
        forall|a: (Scalar, [Scalar; 4]), b: (Scalar, [Scalar; 4]), c: [Scalar; 4]| #[trigger]
            call_ensures(mix, (a, b, b.0), c) ==> c == b.1,
        call_ensures(
            ColorRamp::sample::<F>,
            (&ramp, ramp.stops@[k].0, &mix),
            r,
        ),
    ensures
        r == ramp.stops@[k].1,
{
    let stops = ramp.stops@;
    let t = stops[k].0;
    assert(t.clamped(Scalar { bits: 0 }, Scalar { bits: ONE }) == t);
    samples_lie_between_neighbours(stops, t, 0);
    if k > 0 {
        assert(stops[0].0.below(t));
        assert(stops[k - 1].0.below(t));
        if let Some(i) = segment(stops, t, 0) {
            if i < k - 1 {
                assert(stops[i + 1].0.below(stops[k].0));
            }
            if i > k - 1 {
                assert(!(stops[k - 1].0.at_most(t) && t.at_most(stops[k].0)));
            }
            assert(call_ensures(mix, (stops[k - 1], stops[k], stops[k].0), r));
        } else {
            assert(!(stops[k - 1].0.at_most(t) && t.at_most(stops[k].0)));
        }
    }
}

} // verus!
