//! What is drawn, and with which pipeline.
//!
//! A pipeline is compiled from a content shader at run time and swapped in between frames;
//! until content loads, or when a designer's shader cannot be used, a fallback pipeline
//! draws the world, so it is never a black screen. Pipelines are whatever the graphics
//! layer makes of a shader; this module decides which one draws.

use crate::content::material::{ShaderDef, ShaderStage};
use crate::scalar::{dec, decimal, Scalar};
use crate::table::NameMap;
use vstd::prelude::*;

verus! {

/// What an entity is, as far as drawing goes.
#[derive(Debug, Clone, Copy, PartialEq, Eq, Structural)]
pub enum EntityKind {
    Player,
    Projectile,
    Pickup,
    ZoneMirror,
}

/// A player's side.
#[derive(Debug, Clone, Copy, PartialEq, Eq, Structural)]
pub enum Team {
    Red,
    Blue,
    /// Every mage for themselves.
    Unaligned,
}

/// The tint of a team.
pub open spec fn tinted(team: Team) -> Seq<Scalar> {
    match team {
        Team::Red => seq![decimal(85, 2), decimal(25, 2), decimal(25, 2), decimal(1, 0)],
        Team::Blue => seq![decimal(25, 2), decimal(45, 2), decimal(9, 1), decimal(1, 0)],
        Team::Unaligned => seq![decimal(8, 1), decimal(78, 2), decimal(7, 1), decimal(1, 0)],
    }
}

/// Team colour tint for players, linear RGBA. The unaligned get a neutral parchment.
pub fn team_tint(team: Team) -> (r: [Scalar; 4])
    ensures
        r@ == tinted(team),
{
    let tint = match team {
        Team::Red => [dec(85, 2), dec(25, 2), dec(25, 2), dec(1, 0)],
        Team::Blue => [dec(25, 2), dec(45, 2), dec(9, 1), dec(1, 0)],
        Team::Unaligned => [dec(8, 1), dec(78, 2), dec(7, 1), dec(1, 0)],
    };
    assert(tint@ =~= tinted(team));
    tint
}

/// How large an entity is drawn, relative to the shared body mesh.
pub open spec fn drawn_scale(kind: EntityKind) -> Scalar {
    match kind {
        EntityKind::Player => decimal(1, 0),
        EntityKind::Projectile => decimal(25, 2),
        EntityKind::Pickup => decimal(5, 1),
        EntityKind::ZoneMirror => decimal(1, 0),
    }
}

/// The tint that an entity is drawn with.
pub open spec fn drawn_tint(kind: EntityKind, team: Team) -> Seq<Scalar> {
    match kind {
        EntityKind::Player => tinted(team),
        EntityKind::Projectile => seq![decimal(1, 0), decimal(7, 1), decimal(2, 1), decimal(1, 0)],
        EntityKind::Pickup => seq![decimal(4, 1), decimal(1, 0), decimal(6, 1), decimal(1, 0)],
        EntityKind::ZoneMirror => seq![decimal(7, 1), decimal(7, 1), decimal(8, 1), decimal(6, 1)],
    }
}

/// Map an entity to its look: a scale along every axis plus a kind/team tint. Players render
/// as upright capsules in their team's colour; projectiles are small and bright.
pub fn entity_look(kind: EntityKind, team: Team) -> (r: (Scalar, [Scalar; 4]))
    ensures
        r.0 == drawn_scale(kind),
        r.1@ == drawn_tint(kind, team),
{
    let (scale, tint) = match kind {
        EntityKind::Player => (dec(1, 0), team_tint(team)),
        EntityKind::Projectile => (dec(25, 2), [dec(1, 0), dec(7, 1), dec(2, 1), dec(1, 0)]),
        EntityKind::Pickup => (dec(5, 1), [dec(4, 1), dec(1, 0), dec(6, 1), dec(1, 0)]),
        EntityKind::ZoneMirror => (dec(1, 0), [dec(7, 1), dec(7, 1), dec(8, 1), dec(6, 1)]),
    };
    assert(tint@ =~= drawn_tint(kind, team));
    (scale, tint)
}

/// The extent to allocate for a requested one: never empty.
pub fn extent(width: u32, height: u32) -> (r: (u32, u32))
    ensures
        r.0 == if width == 0 { 1 } else { width },
        r.1 == if height == 0 { 1 } else { height },
{
    (
        if width == 0 {
            1
        } else {
            width
        },
        if height == 0 {
            1
        } else {
            height
        },
    )
}

/// The drawable size after a resize. A zero dimension (minimised window) is ignored.
pub fn resized(size: (u32, u32), width: u32, height: u32) -> (r: (u32, u32))
    ensures
        r == if width == 0 || height == 0 {
            size
        } else {
            (width, height)
        },
{
    if width == 0 || height == 0 {
        size
    } else {
        (width, height)
    }
}

/// What one draw call draws.
#[derive(Debug, Clone, Copy, PartialEq, Eq, Structural)]
pub enum Drawn {
    /// The terrain mesh at this place of the list; it bakes its own world position.
    Terrain(usize),
    /// The mesh that stands for every entity.
    Entities,
}

/// One indexed, instanced draw call of the opaque pass.
#[derive(Debug, Clone, Copy, PartialEq, Eq, Structural)]
pub struct Draw {
    pub what: Drawn,
    pub indices: u32,
    pub instances: u32,
}

/// The draw calls of a frame: one instance of each terrain mesh, then an instance of the
/// entity mesh for each entity, where there is such a mesh and an entity.
pub open spec fn drawn(terrain: Seq<u32>, entity_mesh: Option<u32>, entities: u32) -> Seq<Draw> {
    let ground = Seq::new(
        terrain.len(),
        |i: int| Draw { what: Drawn::Terrain(i as usize), indices: terrain[i], instances: 1 },
    );
    match entity_mesh {
        Some(indices) if entities > 0 => ground.push(
            Draw { what: Drawn::Entities, indices, instances: entities },
        ),
        _ => ground,
    }
}

/// The draw calls of a frame, in order: the terrain meshes, by how many indices each has,
/// then the entities.
pub fn draws(terrain: &Vec<u32>, entity_mesh: Option<u32>, entities: u32) -> (r: Vec<Draw>)
    ensures
        r@ == drawn(terrain@, entity_mesh, entities),
{
    let mut out: Vec<Draw> = Vec::new();
    let mut i: usize = 0;
    while i < terrain.len()
        invariant
            i <= terrain.len(),
            out@ == drawn(terrain@.take(i as int), None, entities),
        decreases terrain.len() - i,
    {
        out.push(Draw { what: Drawn::Terrain(i), indices: terrain[i], instances: 1 });
        i = i + 1;
        assert(out@ =~= drawn(terrain@.take(i as int), None, entities));
    }
    assert(terrain@.take(terrain@.len() as int) =~= terrain@);
    if let Some(indices) = entity_mesh {
        if entities > 0 {
            out.push(Draw { what: Drawn::Entities, indices, instances: entities });
        }
    }
    out
}

/// Which of the surface formats on offer to use: the first sRGB one, so that colours are
/// gamma correct, else the first. `srgb` says of each format whether it is one.
pub fn preferred_format(srgb: &Vec<bool>) -> (r: Option<usize>)
    ensures
        match r {
            Some(i) => {
                &&& i < srgb@.len()
                &&& forall|j: int| 0 <= j < i ==> !srgb@[j]
                &&& srgb@[i as int] || (i == 0 && forall|j: int|
                    0 <= j < srgb@.len() ==> !srgb@[j])
            },
            None => srgb@.len() == 0,
        },
{
    let mut i: usize = 0;
    while i < srgb.len()
        invariant
            i <= srgb.len(),
            forall|j: int| 0 <= j < i ==> !srgb@[j],
        decreases srgb.len() - i,
    {
        if srgb[i] {
            return Some(i);
        }
        i = i + 1;
    }
    if srgb.len() == 0 {
        None
    } else {
        Some(0)
    }
}

/// The compiled pipelines, by the id of the shader they come from.
pub struct Pipelines<P> {
    pub pipelines: NameMap<P>,
    /// The always-present fallback.
    pub default_pipeline: P,
    /// Which content surface shader to prefer for opaque geometry, if loaded.
    pub active_surface_shader: Option<String>,
}

impl<P> Pipelines<P> {
    pub open spec fn well_formed(self) -> bool {
        self.pipelines.well_formed()
    }

    /// The pipeline that draws opaque geometry.
    pub open spec fn opaque(self) -> P {
        match self.active_surface_shader {
            Some(id) if self.pipelines@.contains_key(id@) => self.pipelines@[id@],
            _ => self.default_pipeline,
        }
    }

    /// Nothing loaded: the fallback draws.
    pub fn new(default_pipeline: P) -> (r: Self)
        ensures
            r.well_formed(),
            r.default_pipeline == default_pipeline,
            r.opaque() == default_pipeline,
            r.active_surface_shader is None,
            r.pipelines@ == Map::<Seq<char>, P>::empty(),
    {
        Pipelines { pipelines: NameMap::new(), default_pipeline, active_surface_shader: None }
    }

    /// Insert/replace a compiled pipeline under `shader_id` and make it the active surface
    /// pipeline.
    pub fn install_surface_pipeline(&mut self, shader_id: String, pipeline: P)
        requires
            old(self).well_formed(),
        ensures
            final(self).well_formed(),
            final(self).pipelines@ == old(self).pipelines@.insert(shader_id@, pipeline),
            final(self).default_pipeline == old(self).default_pipeline,
            final(self).active_surface_shader matches Some(id) && id@ == shader_id@,
            final(self).opaque() == pipeline,
    {
        let active = shader_id.clone();
        self.pipelines.insert(shader_id, pipeline);
        self.active_surface_shader = Some(active);
    }

    /// The currently-selected opaque pipeline: a hot-reloaded content surface shader if one
    /// is installed, else the fallback.
    pub fn opaque_pipeline(&self) -> (r: &P)
        requires
            self.well_formed(),
        ensures
            *r == self.opaque(),
    {
        match &self.active_surface_shader {
            Some(id) => match self.pipelines.get(id.as_str()) {
                Some(p) => p,
                None => &self.default_pipeline,
            },
            None => &self.default_pipeline,
        }
    }
}

/// Only surface shaders become pipelines of the opaque pass.
pub open spec fn is_surface(shader: ShaderDef) -> bool {
    shader.stage == ShaderStage::Surface
}

/// The pipelines by shader id, the id of the preferred one, and the one to fall back on.
pub ghost struct Look<P> {
    pub pipelines: Map<Seq<char>, P>,
    pub active: Option<Seq<char>>,
    pub fallback: P,
}

/// One shader's turn in a rebuild: a surface shader is compiled by `build` and, if it
/// compiles, installed; a shader that does not compile leaves everything as it was.
pub open spec fn installs<P, B: Fn(&ShaderDef) -> Option<P>>(
    build: B,
    shader: ShaderDef,
    before: Look<P>,
    after: Look<P>,
) -> bool {
    if is_surface(shader) {
        exists|built: Option<P>| #[trigger]
            call_ensures(build, (&shader,), built) && match built {
                Some(pipeline) => {
                    &&& after.active == Some(shader.id@)
                    &&& after.pipelines == before.pipelines.insert(shader.id@, pipeline)
                    &&& after.fallback == before.fallback
                },
                None => after == before,
            }
    } else {
        after == before
    }
}

/// The shader cannot become a pipeline: it is no surface shader, or it does not compile.
pub open spec fn inert<P, B: Fn(&ShaderDef) -> Option<P>>(build: B, shader: ShaderDef) -> bool {
    is_surface(shader) ==> forall|built: Option<P>| #[trigger]
        call_ensures(build, (&shader,), built) ==> built is None
}

/// The looks between two shaders of a rebuild.
pub open spec fn passes<P, B: Fn(&ShaderDef) -> Option<P>>(
    build: B,
    shaders: Seq<ShaderDef>,
    looks: Seq<Look<P>>,
) -> bool {
    &&& looks.len() == shaders.len() + 1
    &&& forall|i: int|
        0 <= i < shaders.len() ==> installs(build, #[trigger] shaders[i], looks[i], looks[i + 1])
}

/// Every shader of the list, in order, has had its turn.
pub open spec fn rebuilt<P, B: Fn(&ShaderDef) -> Option<P>>(
    build: B,
    shaders: Seq<ShaderDef>,
    before: Look<P>,
    after: Look<P>,
) -> bool {
    exists|looks: Seq<Look<P>>| #[trigger]
        passes(build, shaders, looks) && looks.first() == before && looks.last() == after
}

impl<P> Pipelines<P> {
    /// What the world is drawn with.
    pub open spec fn look(self) -> Look<P> {
        Look {
            pipelines: self.pipelines@,
            active: match self.active_surface_shader {
                Some(id) => Some(id@),
                None => None,
            },
            fallback: self.default_pipeline,
        }
    }

    /// Compiles every surface shader of the list and installs it, in order. One that does not
    /// compile keeps the previous or default pipeline, so a bad edit cannot black out play.
    pub fn rebuild<B: Fn(&ShaderDef) -> Option<P>>(&mut self, shaders: &Vec<ShaderDef>, build: &B)
        requires
            old(self).well_formed(),
            forall|i: int|
                0 <= i < shaders@.len() && is_surface(#[trigger] shaders@[i]) ==> call_requires(
                    *build,
                    (&shaders@[i],),
                ),
        ensures
            final(self).well_formed(),
            final(self).default_pipeline == old(self).default_pipeline,
            rebuilt(*build, shaders@, old(self).look(), final(self).look()),
    {
        let ghost mut looks: Seq<Look<P>> = seq![self.look()];
        let mut i: usize = 0;
        while i < shaders.len()
            invariant
                i <= shaders.len(),
                self.well_formed(),
                self.default_pipeline == old(self).default_pipeline,
                forall|j: int|
                    0 <= j < shaders@.len() && is_surface(#[trigger] shaders@[j]) ==> call_requires(
                        *build,
                        (&shaders@[j],),
                    ),
                passes(*build, shaders@.take(i as int), looks),
                looks.first() == old(self).look(),
                looks.last() == self.look(),
            decreases shaders.len() - i,
        {
            let ghost before = looks;
            let shader = &shaders[i];
            if shader.stage == ShaderStage::Surface {
                match build(shader) {
                    Some(pipeline) => {
                        self.install_surface_pipeline(shader.id.as_str().to_owned(), pipeline);
                        assert(call_ensures(*build, (&shaders@[i as int],), Some(pipeline)));
                    },
                    None => {
                        assert(call_ensures(*build, (&shaders@[i as int],), None::<P>));
                    },
                }
            }
            proof {
                looks = looks.push(self.look());
                let done = shaders@.take(i + 1);
                assert forall|j: int| 0 <= j < done.len() implies installs(
                    *build,
                    #[trigger] done[j],
                    looks[j],
                    looks[j + 1],
                ) by {
                    if j < i {
                        assert(installs(
                            *build,
                            shaders@.take(i as int)[j],
                            before[j],
                            before[j + 1],
                        ));
                    }
                }
            }
            i = i + 1;
        }
        assert(shaders@.take(shaders@.len() as int) =~= shaders@);
    }
}

/// A pack without a surface shader that compiles leaves the pipelines as they were: a swap
/// cannot take the world's look away.
pub proof fn nothing_to_compile_changes_nothing<P, B: Fn(&ShaderDef) -> Option<P>>(
    build: B,
    shaders: Seq<ShaderDef>,
    before: Look<P>,
    after: Look<P>,
)
    requires
        rebuilt(build, shaders, before, after),
        forall|i: int| 0 <= i < shaders.len() ==> inert(build, #[trigger] shaders[i]),
    ensures
        after == before,
{
    let looks = choose|looks: Seq<Look<P>>| #[trigger]
        passes(build, shaders, looks) && looks.first() == before && looks.last() == after;
    settled_since(build, shaders, looks, -1, shaders.len() as int);
}

/// The last surface shader of a pack that compiles draws the world after a swap, whatever bad
/// edits come behind it.
pub proof fn last_surface_shader_draws<P, B: Fn(&ShaderDef) -> Option<P>>(
    build: B,
    shaders: Seq<ShaderDef>,
    before: Look<P>,
    after: Look<P>,
    k: int,
)
    requires
        rebuilt(build, shaders, before, after),
        0 <= k < shaders.len(),
        is_surface(shaders[k]),
        !call_ensures(build, (&shaders[k],), None::<P>),
        forall|i: int| k < i < shaders.len() ==> inert(build, #[trigger] shaders[i]),
    ensures
        after.active == Some(shaders[k].id@),
        after.pipelines.contains_key(shaders[k].id@),
        call_ensures(build, (&shaders[k],), Some(after.pipelines[shaders[k].id@])),
{
    let looks = choose|looks: Seq<Look<P>>| #[trigger]
        passes(build, shaders, looks) && looks.first() == before && looks.last() == after;
    assert(installs(build, shaders[k], looks[k], looks[k + 1]));
    settled_since(build, shaders, looks, k, shaders.len() as int);
}

proof fn settled_since<P, B: Fn(&ShaderDef) -> Option<P>>(
    build: B,
    shaders: Seq<ShaderDef>,
    looks: Seq<Look<P>>,
    k: int,
    n: int,
)
    requires
        passes(build, shaders, looks),
        -1 <= k < n <= shaders.len(),
        forall|i: int| k < i < shaders.len() ==> inert(build, #[trigger] shaders[i]),
    ensures
        looks[n] == looks[k + 1],
    decreases n,
{
    if n > k + 1 {
        settled_since(build, shaders, looks, k, n - 1);
        assert(installs(build, shaders[n - 1], looks[n - 1], looks[n]));
        assert(inert(build, shaders[n - 1]));
    }
}

/// Everything is drawn once: each terrain mesh by itself, in order, then all entities together, if
/// there are any and they have a mesh.
pub proof fn everything_is_drawn_once(terrain: Seq<u32>, entity_mesh: Option<u32>, entities: u32)
    ensures
        ({
            let d = drawn(terrain, entity_mesh, entities);
            &&& d.len() == terrain.len() + if entity_mesh is Some && entities > 0 {
                1int
            } else {
                0
            }
            &&& forall|i: int|
                0 <= i < terrain.len() ==> (#[trigger] d[i]).what == Drawn::Terrain(i as usize)
                    && d[i].indices == terrain[i] && d[i].instances == 1
            &&& d.len() > terrain.len() ==> d.last().what == Drawn::Entities && Some(d.last().indices)
                == entity_mesh && d.last().instances == entities
        }),
{
}

/// The world is always drawn: by the preferred shader's pipeline if there is one, else by the
/// fallback.
pub proof fn the_world_is_always_drawn<P>(p: Pipelines<P>)
    ensures
        p.active_surface_shader matches Some(id) ==> p.pipelines@.contains_key(id@) ==> p.opaque()
            == p.pipelines@[id@],
        p.active_surface_shader matches Some(id) ==> !p.pipelines@.contains_key(id@) ==> p.opaque()
            == p.default_pipeline,
        p.active_surface_shader is None ==> p.opaque() == p.default_pipeline,
{
}

/// Teams are told apart: players of different teams have different colours, a player's colour is
/// that of the team, and everything but a zone's mirror is solid.
pub proof fn teams_are_told_apart(kind: EntityKind, team: Team)
    ensures
        drawn_tint(EntityKind::Player, team).len() == 4,
        drawn_tint(EntityKind::Player, Team::Red)[0] == decimal(85, 2),
        drawn_tint(EntityKind::Player, Team::Red)[2] == decimal(25, 2),
        drawn_tint(EntityKind::Player, Team::Blue)[0] == decimal(25, 2),
        drawn_tint(EntityKind::Player, Team::Blue)[2] == decimal(9, 1),
        drawn_tint(EntityKind::Player, Team::Unaligned)[0] == decimal(8, 1),
        drawn_tint(EntityKind::Player, team) == tinted(team),
        !(kind is ZoneMirror) ==> drawn_tint(kind, team)[3] == decimal(1, 0),
        kind is ZoneMirror ==> drawn_tint(kind, team)[3] == decimal(6, 1),
        drawn_scale(EntityKind::Player) == drawn_scale(EntityKind::ZoneMirror),
        drawn_scale(EntityKind::Player) == decimal(1, 0),
        drawn_scale(EntityKind::Projectile) == decimal(25, 2),
        drawn_scale(EntityKind::Pickup) == decimal(5, 1),
{
}

/// Only a surface shader is compiled for the world; installing one makes it the preferred one and
/// leaves every other pipeline in place.
pub proof fn installing_keeps_the_others<P, B: Fn(&ShaderDef) -> Option<P>>(
    build: B,
    shader: ShaderDef,
    before: Look<P>,
    after: Look<P>,
    id: Seq<char>,
)
    requires
        installs(build, shader, before, after),
    ensures
        !(shader.stage is Surface) ==> after == before,
        after.fallback == before.fallback,
        id != shader.id@ && before.pipelines.contains_key(id) ==> after.pipelines.contains_key(id)
            && after.pipelines[id] == before.pipelines[id],
        shader.stage is Surface && !call_ensures(build, (&shader,), None::<P>) ==> {
            &&& after.active == Some(shader.id@)
            &&& after.pipelines.contains_key(shader.id@)
            &&& call_ensures(build, (&shader,), Some(after.pipelines[shader.id@]))
        },
{
}

/// What is installed draws at once, and whatever was installed before under another id stays.
pub proof fn what_is_installed_draws<P>(
    p: &mut Pipelines<P>,
    id: String,
    pipeline: P,
    drawing: &P,
)
    requires
        call_ensures(Pipelines::<P>::install_surface_pipeline, (p, id, pipeline), ()),
        call_ensures(Pipelines::<P>::opaque_pipeline, (final(p),), drawing),
    ensures
        *drawing == pipeline,
        final(p).default_pipeline == old(p).default_pipeline,
        forall|other: Seq<char>|
            other != id@ && #[trigger] old(p).pipelines@.contains_key(other) ==> final(p).pipelines@.contains_key(other) && final(p).pipelines@[other] == old(p).pipelines@[other],
{
    assert forall|other: Seq<char>|
        other != id@ && #[trigger] old(p).pipelines@.contains_key(other) implies final(p).pipelines@.contains_key(other) && final(p).pipelines@[other] == old(p).pipelines@[other] by {}
}

/// Before anything is installed the fallback draws.
pub proof fn the_fallback_draws_first<P>(fallback: P, p: Pipelines<P>, drawing: &P)
    requires
        call_ensures(Pipelines::<P>::new, (fallback,), p),
        call_ensures(Pipelines::<P>::opaque_pipeline, (&p,), drawing),
    ensures
        *drawing == fallback,
{
}

/// After a rebuild the last surface shader that compiles draws; where none does, what drew before still
/// draws.
pub proof fn a_rebuild_shows<P, B: Fn(&ShaderDef) -> Option<P>>(
    p: &mut Pipelines<P>,
    shaders: &Vec<ShaderDef>,
    build: &B,
    before: &P,
    after: &P,
    k: int,
)
    requires
        call_ensures(Pipelines::<P>::opaque_pipeline, (old(p),), before),
        call_ensures(Pipelines::<P>::rebuild::<B>, (p, shaders, build), ()),
        call_ensures(Pipelines::<P>::opaque_pipeline, (final(p),), after),
        -1 <= k < shaders@.len(),
        k >= 0 ==> shaders@[k].stage is Surface && !call_ensures(*build, (&shaders@[k],), None::<P>),
        forall|i: int|
            k < i < shaders@.len() && (#[trigger] shaders@[i]).stage is Surface ==> forall|built:
                Option<P>| #[trigger]
                call_ensures(*build, (&shaders@[i],), built) ==> built is None,
    ensures
        k >= 0 ==> call_ensures(*build, (&shaders@[k],), Some(*after)),
        k < 0 ==> *after == *before,
{
    assert forall|i: int| k < i < shaders@.len() implies inert::<P, B>(*build, #[trigger] shaders@[i]) by {}
    if k >= 0 {
        last_surface_shader_draws(*build, shaders@, old(p).look(), final(p).look(), k);
    } else {
        nothing_to_compile_changes_nothing(*build, shaders@, old(p).look(), final(p).look());
    }
}

/// Each kind of thing has its own look, and only a player's depends on the team.
pub proof fn everything_looks_its_part(kind: EntityKind, team: Team, r: (Scalar, [Scalar; 4]))
    requires
        call_ensures(entity_look, (kind, team), r),
    ensures
        match kind {
            EntityKind::Player => r.0 == decimal(1, 0) && r.1@ == match team {
                Team::Red => seq![decimal(85, 2), decimal(25, 2), decimal(25, 2), decimal(1, 0)],
                Team::Blue => seq![decimal(25, 2), decimal(45, 2), decimal(9, 1), decimal(1, 0)],
                Team::Unaligned => seq![decimal(8, 1), decimal(78, 2), decimal(7, 1), decimal(1, 0)],
            },
            EntityKind::Projectile => r.0 == decimal(25, 2) && r.1@ == seq![
                decimal(1, 0),
                decimal(7, 1),
                decimal(2, 1),
                decimal(1, 0),
            ],
            EntityKind::Pickup => r.0 == decimal(5, 1) && r.1@ == seq![
                decimal(4, 1),
                decimal(1, 0),
                decimal(6, 1),
                decimal(1, 0),
            ],
            EntityKind::ZoneMirror => r.0 == decimal(1, 0) && r.1@ == seq![
                decimal(7, 1),
                decimal(7, 1),
                decimal(8, 1),
                decimal(6, 1),
            ],
        },
{
}

/// A surface is never allocated empty, and a minimised window keeps the size it had.
pub proof fn surfaces_keep_a_size(width: u32, height: u32, e: (u32, u32), size: (u32, u32), r: (u32, u32))
    requires
        call_ensures(extent, (width, height), e),
        call_ensures(resized, (size, width, height), r),
    ensures
        e.0 > 0 && e.1 > 0,
        width > 0 ==> e.0 == width,
        height > 0 ==> e.1 == height,
        width > 0 && height > 0 ==> r == (width, height),
        width == 0 || height == 0 ==> r == size,
{
}

/// A gamma-correct format is preferred to any other, and of several the first; without one, the first on
/// offer is used.
pub proof fn gamma_correct_formats_are_preferred(srgb: &Vec<bool>, r: Option<usize>, k: int)
    requires
        call_ensures(preferred_format, (srgb,), r),
    ensures
        r is None <==> srgb@.len() == 0,
        0 <= k < srgb@.len() && srgb@[k] ==> (r matches Some(i) && i <= k && srgb@[i as int]),
        r matches Some(i) ==> srgb@[i as int] || i == 0,
{
}

} // verus!
