use cerena::client::event::{GameEvent, MeleeKind};
use cerena::client::feedback::{
    mending_strength, proximity, react, severity, shove_trauma, Decay, Feedback, Reaction, Sensed,
};
use cerena::client::hotreload::HotReload;
use cerena::client::hud::{AbilitySlot, Bar, HudState, LocalPlayer, KILL_FEED_MAX};
use cerena::client::input::{Buttons, Input, Key, MouseButton, MAX_PITCH};
use cerena::client::particles::{burst_for, jitter_bits, Burst, Particle, ParticleSystem, Spread, MAX_PARTICLES};
use cerena::client::render::{
    draws, entity_look, extent, preferred_format, resized, team_tint, Draw, Drawn, EntityKind, Pipelines, Team,
};
use cerena::client::session::{
    first_person, next_upload, Response, ServerMessage, Session, MAX_CATCHUP_TICKS,
};
use cerena::client::host::ZoneId;
use cerena::content::error::ContentError;
use cerena::content::ids::ShaderId;
use cerena::content::material::{ShaderDef, ShaderStage};
use cerena::content::pack::ContentPack;
use cerena::content::registry::ContentRegistry;
use cerena::scalar::{one, zero, Scalar};
use glam::{Vec2, Vec3};

fn num(x: f32) -> Scalar {
    Scalar { bits: x.to_bits() }
}

fn val(x: Scalar) -> f32 {
    f32::from_bits(x.bits)
}

fn plus(a: Scalar, b: Scalar) -> Scalar {
    num(val(a) + val(b))
}

fn minus(a: Scalar, b: Scalar) -> Scalar {
    num(val(a) - val(b))
}

fn vec3(v: [Scalar; 3]) -> Vec3 {
    Vec3::new(val(v[0]), val(v[1]), val(v[2]))
}

fn point(x: f32, y: f32, z: f32) -> [Scalar; 3] {
    [num(x), num(y), num(z)]
}

fn at_origin(reaction: Reaction) -> Sensed {
    let mut s = Sensed {
        proximity: zero(),
        trauma: zero(),
        strength: zero(),
        kick: [zero(), zero()],
        lurch: [zero(); 3],
        dir: [zero(), zero()],
        distance_squared: zero(),
    };
    match reaction {
        Reaction::Blast { center, radius } => {
            let range = val(radius) * 6.0;
            s.proximity = proximity(num(range), num(1.0 - vec3(center).length() / range));
            s.trauma = num((0.12 + 0.06 * val(radius)) * val(s.proximity));
            s.strength = num(0.25 * val(s.proximity));
        },
        Reaction::Rumble { center, trauma } => {
            let near = proximity(num(45.0), num(1.0 - vec3(center).length() / 45.0));
            s.trauma = num(val(trauma) * val(near));
        },
        Reaction::Hurt { damage, point } => {
            let sev = val(severity(num(val(damage) / 60.0)));
            s.trauma = num(0.2 + 0.4 * sev);
            s.strength = num(0.3 + 0.4 * sev);
            s.kick = [zero(), num(-0.05 * sev)];
            let d = Vec2::new(val(point[0]), val(point[2]));
            s.distance_squared = num(d.length_squared());
            let unit = d.normalize_or_zero();
            s.dir = [num(unit.x), num(unit.y)];
        },
        Reaction::Shove { impulse } => {
            let v = vec3(impulse);
            s.trauma = shove_trauma(num(v.length() / 30.0));
            s.kick = [num(v.x * 0.01), num(-(v.y.abs() * 0.004))];
            s.lurch = [num(v.x * 0.06), num(v.y * 0.06), num(v.z * 0.06)];
        },
        Reaction::Healed { amount } => {
            s.strength = mending_strength(num(val(amount) / 60.0));
        },
        _ => {},
    }
    s
}

fn frame(fb: &mut Feedback, dt: f32) {
    let spring = |x: Scalar, v: Scalar| {
        let acc = -180.0 * val(x) - 22.0 * val(v);
        let vel = val(v) + acc * dt;
        (num(val(x) + vel * dt), num(vel))
    };
    let kick = [spring(fb.kick[0], fb.kick_vel[0]), spring(fb.kick[1], fb.kick_vel[1])];
    let lurch = [
        spring(fb.lurch[0], fb.lurch_vel[0]),
        spring(fb.lurch[1], fb.lurch_vel[1]),
        spring(fb.lurch[2], fb.lurch_vel[2]),
    ];
    let ttl = match fb.damage_dir {
        Some((_, t)) => val(t) - dt,
        None => 0.0,
    };
    fb.update(Decay {
        time: num(val(fb.time) + dt),
        trauma: num(val(fb.trauma) - 1.5 * dt),
        flash: num(val(fb.flash) - 3.5 * dt),
        kick: [kick[0].0, kick[1].0],
        kick_vel: [kick[0].1, kick[1].1],
        lurch: [lurch[0].0, lurch[1].0, lurch[2].0],
        lurch_vel: [lurch[0].1, lurch[1].1, lurch[2].1],
        damage_ttl: num(ttl),
    });
}

#[test]
fn trauma_decays_to_zero() {
    let mut fb = Feedback::new();
    fb.add_trauma(num(1.0), &plus);
    assert!(val(fb.trauma()) > 0.9);
    for _ in 0..120 {
        frame(&mut fb, 1.0 / 60.0);
    }
    assert_eq!(val(fb.trauma()), 0.0, "trauma must bleed off completely");
}

#[test]
fn taking_a_hit_shakes_flashes_and_points() {
    let mut fb = Feedback::new();
    let ev = GameEvent::Hit {
        attacker: 2,
        victim: 1,
        damage: num(60.0),
        headshot: false,
        point: point(0.0, 0.0, -5.0),
    };
    fb.ingest(&ev, 1, &at_origin, &plus);
    assert!(val(fb.trauma()) > 0.0, "a hit on us must add trauma");
    let (flash, color) = fb.flash();
    assert!(val(flash) > 0.0 && val(color[0]) > val(color[1]), "hurt flash is reddish");
    assert!(fb.damage_from().is_some(), "incoming damage records a direction");
    assert_eq!(fb.trauma(), num(0.2 + 0.4 * 1.0));
    assert_eq!(color, [num(0.8), num(0.05), num(0.05)]);
    assert_eq!(fb.kick_vel, [zero(), num(-0.05)]);
}

#[test]
fn knockback_kicks_the_view_and_settles() {
    let mut fb = Feedback::new();
    let ev = GameEvent::Knockback { entity: 1, impulse: point(10.0, 2.0, 0.0) };
    fb.ingest(&ev, 1, &at_origin, &plus);
    frame(&mut fb, 1.0 / 60.0);
    assert!(
        vec3(fb.lurch).length() > 0.0 || val(fb.kick[0]).abs() > 0.0,
        "a knockback must visibly move the camera"
    );
    for _ in 0..120 {
        frame(&mut fb, 1.0 / 60.0);
    }
    assert!(vec3(fb.lurch).length() < 0.02, "the lurch must settle");
}

#[test]
fn respawn_resets_everything() {
    let mut fb = Feedback::new();
    fb.add_trauma(num(1.0), &plus);
    fb.add_flash([num(1.0), num(0.0), num(0.0)], num(1.0));
    fb.ingest(&GameEvent::Spawn { entity: 1, pos: point(0.0, 0.0, 0.0) }, 1, &at_origin, &plus);
    assert_eq!(val(fb.trauma()), 0.0);
    assert_eq!(val(fb.flash().0), 0.0);
}

#[test]
fn a_faint_flash_does_not_wash_out_a_big_one() {
    let mut fb = Feedback::new();
    let red = [num(1.0), num(0.0), num(0.0)];
    fb.add_flash(red, num(0.8));
    fb.ingest(&GameEvent::Buff { entity: 1, beneficial: true }, 1, &at_origin, &plus);
    assert_eq!(fb.flash(), (num(0.8), red));
    fb.add_flash([num(0.0); 3], num(7.0));
    assert_eq!(fb.flash(), (one(), [num(0.0); 3]));
}

#[test]
fn blasts_rattle_by_distance() {
    let boom = |z: f32| GameEvent::Explosion { center: point(0.0, 0.0, z), radius: num(5.0) };
    let mut near = Feedback::new();
    near.ingest(&boom(0.0), 1, &at_origin, &plus);
    let mut far = Feedback::new();
    far.ingest(&boom(29.0), 1, &at_origin, &plus);
    let mut beyond = Feedback::new();
    beyond.ingest(&boom(40.0), 1, &at_origin, &plus);
    assert_eq!(near.trauma(), num(0.12 + 0.06 * 5.0));
    assert_eq!(near.flash().1, [num(1.0), num(0.5), num(0.2)]);
    assert!(val(far.trauma()) > 0.0 && val(far.flash().0) == 0.0);
    assert_eq!(val(beyond.trauma()), 0.0);
    assert_eq!(proximity(zero(), one()), zero());
}

#[test]
fn what_happens_to_others_only_shakes() {
    let events = vec![
        GameEvent::Hit { attacker: 2, victim: 3, damage: num(9.0), headshot: true, point: [zero(); 3] },
        GameEvent::Knockback { entity: 2, impulse: [one(); 3] },
        GameEvent::Melee { attacker: 2, victim: Some(1), origin: [zero(); 3], dir: [zero(); 3], kind: MeleeKind::Spin },
        GameEvent::Shot { shooter: 2, origin: [zero(); 3], dir: [zero(); 3] },
        GameEvent::Heal { target: 2, amount: one() },
        GameEvent::Buff { entity: 2, beneficial: false },
        GameEvent::Spawn { entity: 2, pos: [zero(); 3] },
        GameEvent::Unhandled,
    ];
    for e in &events {
        assert!(react(e, 1).is_empty(), "{:?}", e);
    }
    let swing = GameEvent::Melee {
        attacker: 1,
        victim: Some(2),
        origin: [zero(); 3],
        dir: [zero(); 3],
        kind: MeleeKind::Spin,
    };
    assert_eq!(
        react(&swing, 1),
        vec![
            Reaction::Kick { yaw: num(0.09), pitch: num(0.01) },
            Reaction::Jolt { trauma: num(0.22) },
        ]
    );
}

#[test]
fn severity_and_mending_have_their_bounds() {
    assert_eq!(severity(num(0.0)), num(0.1));
    assert_eq!(severity(num(9.0)), num(1.0));
    assert_eq!(shove_trauma(num(9.0)), num(0.5));
    assert_eq!(mending_strength(num(0.0)), num(0.05));
    assert_eq!(mending_strength(num(9.0)), num(0.3));
    assert_eq!(mending_strength(num(0.2)), num(0.2));
}

#[test]
fn damage_direction_goes_stale() {
    let mut fb = Feedback::new();
    fb.remember_damage_dir([one(), zero()], num(0.00001));
    assert_eq!(fb.damage_from(), None);
    fb.remember_damage_dir([one(), zero()], one());
    assert_eq!(fb.damage_from(), Some([one(), zero()]));
    for _ in 0..61 {
        frame(&mut fb, 1.0 / 60.0);
    }
    assert_eq!(fb.damage_from(), None);
}

#[test]
fn keys_hold_intents_and_digits_select() {
    let mut input = Input::new();
    input.on_key(Key::W, true);
    input.on_key(Key::ShiftLeft, true);
    input.on_key(Key::Digit4, true);
    input.on_key(Key::Digit2, false);
    input.on_mouse_button(MouseButton::Left, true);
    assert_eq!(input.slot(), 3);
    assert!(input.buttons.forward && input.buttons.sprint && input.buttons.fire);
    input.on_key(Key::W, false);
    input.on_key(Key::ShiftLeft, false);
    input.on_mouse_button(MouseButton::Left, false);
    assert_eq!(input.buttons, Buttons::default());
    input.on_mouse_motion(one(), one(), &plus);
    assert_eq!(input.mouse_dx, zero());
    input.pointer_locked = true;
    input.on_mouse_motion(num(3.0), num(-2.0), &plus);
    assert_eq!((input.mouse_dx, input.mouse_dy), (num(3.0), num(-2.0)));
}

#[test]
fn a_tick_consumes_the_motion_and_clamps_the_pitch() {
    let mut input = Input::new();
    input.pointer_locked = true;
    input.on_mouse_motion(num(3.0), num(-2.0), &plus);
    let frame = input.end_tick(77, num(0.5), num(9.0));
    assert_eq!((frame.seq, frame.client_tick, frame.weapon_slot), (1, 77, 0));
    assert_eq!(frame.pitch.bits, MAX_PITCH);
    assert_eq!(input.look(), (num(0.5), frame.pitch));
    assert_eq!((input.mouse_dx, input.mouse_dy), (zero(), zero()));
    assert_eq!(input.end_tick(78, zero(), zero()).seq, 2);
    assert_eq!(input.last_seq(), 2);
    assert!((val(frame.pitch) - (std::f32::consts::FRAC_PI_2 - 0.001)).abs() < 1e-3);
}

#[test]
fn the_hud_shows_what_happened() {
    let mut hud = HudState::new();
    hud.apply_local(&LocalPlayer {
        health: -5,
        armor: 40,
        ammo_in_mag: 3,
        ammo_reserve: 9,
        alive: true,
        respawn_at_tick: 12,
    });
    assert_eq!(hud.health, Bar::new(zero(), num(100.0)));
    assert_eq!(hud.armor.current, num(40.0));
    assert!(hud.dead);
    assert_eq!(hud.charges, (3, 9));
    let death = |n: u8| GameEvent::Death {
        victim: 1,
        weapon: n,
        victim_node: "v".to_string(),
        killer_node: format!("k{}", n),
    };
    let mut events: Vec<GameEvent> = (0..9).map(death).collect();
    events.push(GameEvent::Hit { attacker: 1, victim: 2, damage: one(), headshot: false, point: [zero(); 3] });
    hud.ingest_events(&events, 2);
    assert_eq!(val(hud.hitmarker), 0.0);
    hud.ingest_events(&events, 1);
    assert_eq!(hud.kill_feed.len(), KILL_FEED_MAX);
    assert_eq!(hud.kill_feed[0].killer, "k3");
    assert_eq!(hud.hitmarker, num(0.15));
    hud.tick(num(1.0), &minus);
    assert_eq!(val(hud.hitmarker), 0.0);
    assert_eq!(hud.kill_feed[0].ttl, num(5.0));
    hud.tick(num(5.0), &minus);
    assert!(hud.kill_feed.is_empty());
    hud.set_selected_slot(2);
    let lit: Vec<bool> = hud.abilities.iter().map(|a| a.selected).collect();
    assert_eq!(lit, vec![false, false, true, false, false, false]);
    hud.set_rtt(num(42.0));
    assert_eq!(hud.rtt_ms, num(42.0));
}

#[test]
fn bars_fill_between_nothing_and_all() {
    let over = |a: Scalar, b: Scalar| num(val(a) / val(b));
    assert_eq!(Bar::default(), Bar::new(zero(), zero()));
    assert_eq!(Bar::new(num(50.0), num(200.0)).fraction(&over), num(0.25));
    assert_eq!(Bar::new(num(500.0), num(200.0)).fraction(&over), one());
    assert_eq!(Bar::new(num(50.0), zero()).fraction(&over), zero());
}

#[test]
fn events_show_as_bursts() {
    let shot = GameEvent::Shot { shooter: 1, origin: point(1.0, 2.0, 3.0), dir: point(0.0, 0.0, 1.0) };
    let b = burst_for(&shot, (0, zero())).unwrap();
    assert_eq!((b.count, b.speed), (16, num(6.0)));
    assert_eq!(b.spread, Spread::Cone { dir: point(0.0, 0.0, 1.0) });
    let boom = GameEvent::Explosion { center: [zero(); 3], radius: num(4.0) };
    assert_eq!(burst_for(&boom, (88, num(11.0))).unwrap().count, 88);
    assert!(burst_for(&GameEvent::Heal { target: 1, amount: one() }, (0, zero())).is_none());
}

#[test]
fn the_particle_buffer_is_capped_and_reaped() {
    let mut sys = ParticleSystem::new();
    let boom = GameEvent::Explosion { center: point(1.0, 0.0, 0.0), radius: num(4.0) };
    let place = |b: Burst| b.origin;
    let fly = |_: Burst, i: u32| point(i as f32, 0.0, 0.0);
    sys.spawn_from_event(&boom, (10, one()), &place, &fly);
    assert_eq!(sys.len(), 10);
    assert_eq!(sys.particles()[3].vel, point(3.0, 0.0, 0.0));
    assert_eq!(sys.particles()[3].pos, point(1.0, 0.0, 0.0));
    sys.spawn_from_event(&boom, (100_000, one()), &place, &fly);
    assert_eq!(sys.len(), MAX_PARTICLES);
    let step = |p: Particle| Particle { life: num(val(p.life) - 0.4), ..p };
    sys.update(&step);
    assert_eq!(sys.len(), MAX_PARTICLES);
    sys.update(&step);
    assert!(sys.is_empty());
}

#[test]
fn jitter_is_reproducible() {
    let a = jitter_bits(point(1.0, 2.0, 3.0), 4);
    assert_eq!(a, jitter_bits(point(1.0, 2.0, 3.0), 4));
    assert_ne!(a, jitter_bits(point(1.0, 2.0, 3.0), 5));
    assert_ne!(a[0], a[1]);
}

#[test]
fn a_frame_draws_terrain_then_entities() {
    assert_eq!(
        draws(&vec![30, 6], Some(12), 3),
        vec![
            Draw { what: Drawn::Terrain(0), indices: 30, instances: 1 },
            Draw { what: Drawn::Terrain(1), indices: 6, instances: 1 },
            Draw { what: Drawn::Entities, indices: 12, instances: 3 },
        ]
    );
    assert_eq!(draws(&vec![], Some(12), 0), vec![]);
    assert_eq!(draws(&vec![], None, 3), vec![]);
}

#[test]
fn entities_are_drawn_by_kind_and_team() {
    assert_eq!(team_tint(Team::Red), [num(0.85), num(0.25), num(0.25), num(1.0)]);
    assert_eq!(entity_look(EntityKind::Player, Team::Blue), (num(1.0), team_tint(Team::Blue)));
    assert_eq!(entity_look(EntityKind::Projectile, Team::Blue).0, num(0.25));
    assert_eq!(extent(0, 7), (1, 7));
    assert_eq!(resized((4, 5), 0, 9), (4, 5));
    assert_eq!(resized((4, 5), 8, 9), (8, 9));
    assert_eq!(preferred_format(&vec![false, true, true]), Some(1));
    assert_eq!(preferred_format(&vec![false, false]), Some(0));
    assert_eq!(preferred_format(&vec![]), None);
}

fn shader(id: &str, stage: ShaderStage, source: &str) -> ShaderDef {
    ShaderDef {
        id: ShaderId::new(id),
        name: id.to_string(),
        stage,
        source: source.to_string(),
        params: vec![],
    }
}

#[test]
fn the_last_surface_shader_draws() {
    let build = |s: &ShaderDef| Some(s.source.clone());
    let mut p: Pipelines<String> = Pipelines::new("fallback".to_string());
    assert_eq!(p.opaque_pipeline(), "fallback");
    p.rebuild(&vec![shader("s.sky", ShaderStage::Sky, "sky")], &build);
    assert_eq!(p.opaque_pipeline(), "fallback");
    p.rebuild(
        &vec![
            shader("s.a", ShaderStage::Surface, "a"),
            shader("s.b", ShaderStage::Surface, "b"),
            shader("s.w", ShaderStage::Water, "w"),
        ],
        &build,
    );
    assert_eq!(p.opaque_pipeline(), "b");
    p.install_surface_pipeline("s.a".to_string(), "a2".to_string());
    assert_eq!(p.opaque_pipeline(), "a2");
}

#[test]
fn content_swaps_rebuild_the_pipelines() {
    let build = |s: &ShaderDef| Some(s.source.clone());
    let mut registry = ContentRegistry::bootstrap(b"0");
    let mut pipelines: Pipelines<String> = Pipelines::new("fallback".to_string());
    let mut reload = HotReload::new();
    assert_eq!(reload.apply(&mut registry, &mut pipelines, &build), None);
    let mut pack = ContentPack::empty();
    pack.shaders.push(shader("s.a", ShaderStage::Surface, "a"));
    assert_eq!(reload.stage(&mut registry, 4, pack, b"4"), Ok(()));
    assert_eq!(pipelines.opaque_pipeline(), "fallback");
    assert_eq!(reload.apply(&mut registry, &mut pipelines, &build), Some(4));
    assert_eq!(reload.applied_epoch, 4);
    assert_eq!(pipelines.opaque_pipeline(), "a");
    assert!(matches!(
        reload.stage(&mut registry, 4, ContentPack::empty(), b"5"),
        Err(ContentError::Invalid(_))
    ));
}

#[test]
fn the_highlight_is_on_one_slot_however_many_there_are() {
    let mut hud = HudState::new();
    hud.abilities = (0..300)
        .map(|_| AbilitySlot { spell_id: String::new(), cooldown_frac: zero(), selected: true })
        .collect();
    hud.set_selected_slot(2);
    let copy = hud.clone();
    assert_eq!(copy.selected_slot, 2);
    assert!(copy.abilities.iter().enumerate().all(|(i, a)| a.selected == (i == 2)));
}

#[test]
fn a_shader_that_does_not_compile_keeps_the_previous_look() {
    let build = |s: &ShaderDef| if s.source == "broken" { None } else { Some(s.source.clone()) };
    let mut p: Pipelines<String> = Pipelines::new("fallback".to_string());
    p.rebuild(&vec![shader("s.a", ShaderStage::Surface, "broken")], &build);
    assert_eq!(p.opaque_pipeline(), "fallback");
    p.rebuild(&vec![shader("s.a", ShaderStage::Surface, "a")], &build);
    assert_eq!(p.opaque_pipeline(), "a");
    p.rebuild(
        &vec![shader("s.b", ShaderStage::Surface, "b"), shader("s.a", ShaderStage::Surface, "broken")],
        &build,
    );
    assert_eq!(p.opaque_pipeline(), "b");
    p.rebuild(&vec![shader("s.b", ShaderStage::Surface, "broken")], &build);
    assert_eq!(p.opaque_pipeline(), "b");
}

#[test]
fn ticks_are_counted_and_backlog_is_dropped() {
    let mut s = Session::new(1000);
    assert_eq!(s.elapsed(1016), 16);
    assert_eq!(s.elapsed(900), 0);
    assert_eq!(s.ticks_due(num(0.5), num(0.25), &plus, &minus), 2);
    assert_eq!(s.accumulator, zero());
    assert_eq!(s.ticks_due(num(0.375), num(0.25), &plus, &minus), 1);
    assert_eq!(s.accumulator, num(0.125));
    assert_eq!(s.ticks_due(num(100.0), num(0.25), &plus, &minus), MAX_CATCHUP_TICKS);
    assert_eq!(s.accumulator, zero());
}

#[test]
fn a_session_follows_its_authority() {
    let mut s = Session::new(0);
    assert_eq!(s.begin_tick(50, 2), (0, false));
    assert!(!s.ping_due(5000));
    assert!(matches!(s.on_server::<u8>(ServerMessage::JoinAccept { entity: 7 }), Response::Rehome(7)));
    assert!(s.joined && s.local_id == 7);
    assert_eq!(s.begin_tick(50, 2), (50, true));
    assert_eq!(s.begin_tick(51, 2), (51, false));
    assert!(s.ping_due(5000) && !s.ping_due(5999) && s.ping_due(6000));
    assert!(matches!(s.on_server(ServerMessage::Snapshot(3u8)), Response::Apply(3)));
    assert!(matches!(s.on_server::<u8>(ServerMessage::Pong { client_time_ms: 9 }), Response::RoundTrip(9)));
    assert!(matches!(s.on_server::<u8>(ServerMessage::Karma), Response::Nothing));
    assert!(matches!(s.on_server::<u8>(ServerMessage::Redirect { entity: 8 }), Response::Rehome(8)));
    assert!(matches!(s.on_server::<u8>(ServerMessage::Kick), Response::Nothing));
    assert!(!s.joined);
    let first = s.hosted_frame();
    assert!(first.ensure_joined && first.publish_hud && !first.log);
    let second = s.hosted_frame();
    assert!(!second.ensure_joined && !second.publish_hud);
}

#[test]
fn zones_stream_in_one_by_one() {
    let order = vec![ZoneId { x: 0, z: 0 }, ZoneId { x: 1, z: 0 }];
    let mut resident = vec![];
    assert_eq!(next_upload(&order, &mut resident), Some(order[0]));
    assert_eq!(next_upload(&order, &mut resident), Some(order[1]));
    assert_eq!(next_upload(&order, &mut resident), None);
    assert_eq!(resident, order);
    assert_eq!(first_person(&vec![4, 9, 4, 2], 4), (Some(0), vec![1, 3]));
    assert_eq!(first_person(&vec![9], 4), (None, vec![0]));
}

#[test]
fn particles_fade_with_their_life() {
    let over = |a: Scalar, b: Scalar| num(val(a) / val(b));
    let p = Particle {
        pos: [zero(); 3],
        vel: [zero(); 3],
        color: [one(); 3],
        size: one(),
        life: num(0.5),
        max_life: num(2.0),
        gravity: zero(),
    };
    assert_eq!(p.alpha(&over), num(0.25));
    assert_eq!(Particle { life: num(9.0), ..p }.alpha(&over), one());
    assert_eq!(Particle { life: num(0.0005), max_life: zero(), ..p }.alpha(&over), num(0.0005 / 0.001));
}
