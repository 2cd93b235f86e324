use cerena::anim::skeleton::{Joint, JointRole, LimbSide, Skeleton};
use cerena::anim::state::AnimatorConfig;
use cerena::anim::transform::{Matrix, Transform};
use cerena::assets::bake::{bake_creature, bake_item_mesh, bake_shader, BakeQuality};
use cerena::assets::bundle::AssetBundle;
use cerena::assets::handle::{AssetKey, AssetKind};
use cerena::assets::render_asset::{Mesh, RigAsset, SkinnedMesh, TextureData};
use cerena::assets::rig::{assemble_skeleton, body_scale, build_config, build_skeleton, limb_count, Limb, Part};
use cerena::assets::server::AssetServer;
use cerena::assets::skin::{skin_mesh, strongest_influences};
use cerena::content::default_pack::{default_pack, StarterRules};
use cerena::content::ids::MobId;
use cerena::content::item::{EquipSlot, ItemDef, Rarity};
use cerena::content::loot::next_u64;
use cerena::content::material::MaterialDef;
use cerena::content::mob::MobDef;
use cerena::content::pack::ContentPack;
use cerena::scalar::{one, zero, Scalar};
use cerena::text::{fnv1a, seed32};

fn num(x: f32) -> Scalar {
    Scalar { bits: x.to_bits() }
}

fn val(x: Scalar) -> f32 {
    f32::from_bits(x.bits)
}

fn point(x: f32, y: f32, z: f32) -> [Scalar; 3] {
    [num(x), num(y), num(z)]
}

fn chained(a: Transform, b: Transform) -> Transform {
    let mut r = b;
    for i in 0..3 {
        r.translation[i] = num(val(a.translation[i]) + val(a.scale[i]) * val(b.translation[i]));
    }
    r
}

fn inverted(t: Transform) -> Matrix {
    let mut m = [zero(); 16];
    for i in 0..4 {
        m[i * 5] = one();
    }
    for i in 0..3 {
        m[12 + i] = num(-val(t.translation[i]));
    }
    m
}

fn weight(v: [Scalar; 3], b: [Scalar; 3]) -> Scalar {
    let d2: f32 = (0..3).map(|i| (val(v[i]) - val(b[i])).powi(2)).sum();
    num(1.0 / (d2 + 1e-3))
}

fn shares(raw: [Scalar; 4]) -> [Scalar; 4] {
    let sum: f32 = raw.iter().map(|w| val(*w)).sum();
    let inv = if sum > 0.0 { 1.0 / sum } else { 0.0 };
    raw.map(|w| num(val(w) * inv))
}

fn unit(state: &mut u64) -> f32 {
    (next_u64(state) >> 40) as f32 / (1u32 << 24) as f32
}

fn mob(seed: u32, scale: f32) -> MobDef {
    MobDef {
        id: MobId::new("mob.t"),
        name: "t".to_string(),
        max_health: num(100.0),
        move_speed: num(4.0),
        abilities: vec![],
        xp_reward: 0,
        loot_table: vec![],
        material: None,
        scale: num(scale),
        aggressive: false,
        mesh_seed: seed,
    }
}

/// The draws of a body: its torso height and head radius, the limb count draw, and the
/// direction of each limb.
fn drawn(seed: u64) -> (f32, f32, u64, Vec<[f32; 3]>) {
    let mut state = seed;
    let torso_h = 0.35 + 0.2 * unit(&mut state);
    let head_r = 0.22 + 0.12 * unit(&mut state);
    let count = next_u64(&mut state);
    let mut limbs = vec![];
    for _ in 0..limb_count(count) {
        let angle = unit(&mut state) * std::f32::consts::TAU;
        let pitch = unit(&mut state) - 0.6;
        limbs.push([angle.cos() * pitch.cos(), pitch.sin(), angle.sin() * pitch.cos()]);
    }
    (torso_h, head_r, count, limbs)
}

fn grown_skeleton(m: &MobDef) -> Skeleton {
    let lean = |seed: u64, i: usize| {
        let dir = drawn(seed).3[i];
        (num(dir[0]), num(dir[1]))
    };
    let place = |seed: u64, size: Scalar, part: Part| {
        let (torso_h, head_r, _, limbs) = drawn(seed);
        let k = val(size);
        match part {
            Part::Spine => point(0.0, torso_h * 0.5 * k, 0.0),
            Part::Head => point(0.0, (torso_h * 0.5 + head_r * 0.7) * k, 0.0),
            Part::Limb(i) => point(limbs[i][0] * 0.3 * k, limbs[i][1] * 0.3 * k, limbs[i][2] * 0.3 * k),
        }
    };
    build_skeleton(m, &|seed: u64| drawn(seed).2, &lean, &place)
}

fn blob(res: usize) -> Mesh {
    let mut positions = vec![];
    for i in 0..res {
        positions.push(point(i as f32 * 0.1, 0.5, 0.0));
    }
    Mesh { positions, normals: vec![], uvs: vec![], colors: vec![], indices: vec![0, 1, 2] }
}

fn creature(m: &MobDef, quality: BakeQuality) -> (SkinnedMesh, RigAsset) {
    bake_creature(
        blob(quality.mesh_res),
        grown_skeleton(m),
        AnimatorConfig::default(),
        &chained,
        &inverted,
        &weight,
        &shares,
    )
}

fn texture(_: &MaterialDef, size: u32, seed: u32) -> TextureData {
    TextureData { width: size, height: size, rgba: vec![seed as u8; 4] }
}

fn emblem(seed: u64, res: usize) -> Mesh {
    let mut mesh = blob(res);
    mesh.indices = vec![seed as u32];
    mesh
}

fn bake(pack: &ContentPack, encoded: &[u8]) -> AssetBundle {
    AssetBundle::bake(pack, encoded, BakeQuality::low(), &texture, &texture, &creature, &emblem)
}

fn full_pack() -> ContentPack {
    default_pack(StarterRules { game_modes: vec![], loot_tables: vec![], spawn_rules: vec![], triggers: vec![] })
}

#[test]
fn creature_bake_skins_every_vertex() {
    let (sm, rig) = creature(&mob(0x7002, 1.0), BakeQuality::low());
    assert!(!sm.positions.is_empty());
    assert!(sm.is_skinned(), "creature mesh should carry bone weights");
    assert_eq!(sm.joints.len(), sm.positions.len());
    assert_eq!(rig.inverse_bind.len(), rig.skeleton.len());
}

#[test]
fn bundle_bakes_the_default_pack() {
    let pack = full_pack();
    let bundle = bake(&pack, b"encoded");
    for mob in &pack.mobs {
        let v = bundle.mob_visual(mob.id.as_str()).expect("mob has a visual");
        assert!(v.mesh.index() < bundle.meshes.len());
        assert!(v.rig.index() < bundle.rigs.len());
        if let Some(m) = v.material {
            assert!(m.index() < bundle.materials.len());
        }
    }
    for item in &pack.items {
        assert!(bundle.item_visual(item.id.as_str()).is_some());
    }
    assert_eq!(bundle.textures.len(), pack.materials.len() * 2);
    assert_eq!(bundle.pack_hash, ContentPack::hash(b"encoded"));
}

#[test]
fn a_bundle_resolves_handles() {
    let pack = full_pack();
    let bundle = bake(&pack, b"encoded");
    let mat = &pack.materials[0];
    let h = bundle.material_handle(mat.id.as_str()).unwrap();
    let asset = bundle.material(h);
    assert_eq!(asset.roughness, mat.roughness);
    assert!(bundle.texture(asset.albedo).srgb);
    assert!(!bundle.texture(asset.normal).srgb);
    assert_eq!(bundle.texture(asset.albedo).rgba[0], seed32(mat.id.as_str()) as u8);
    let sh = bundle.shader_handle(pack.shaders[0].id.as_str()).unwrap();
    assert_eq!(bundle.shader(sh).source, pack.shaders[0].source);
    assert!(bundle.shader_handle("shader.none").is_none());
    let v = bundle.mob_visual(pack.mobs[0].id.as_str()).unwrap();
    assert!(bundle.mesh(v.mesh).is_skinned());
    assert_eq!(bundle.rig(v.rig).animator().skeleton().len(), bundle.rig(v.rig).skeleton.len());
    assert_eq!(
        bundle.asset_count(),
        bundle.meshes.len() + bundle.textures.len() + bundle.materials.len() + bundle.shaders.len()
            + bundle.rigs.len()
    );
    assert!(bundle.mob_visual("mob.none").is_none());
}

#[test]
fn items_grow_the_emblem_of_their_own_seed() {
    let item = ItemDef::base("item.ember_staff", "Ember Staff", EquipSlot::Staff, Rarity::Rare);
    let coarse = bake_item_mesh(&item, BakeQuality::low(), &emblem);
    assert_eq!(coarse.positions.len(), 16);
    assert_eq!(coarse.indices, vec![fnv1a("item.ember_staff") as u32]);
    assert!(!coarse.is_skinned());
    let fine = bake_item_mesh(&item, BakeQuality::high(), &emblem);
    assert_eq!(fine.positions.len(), 24);
    assert_eq!((fine.vertex_count(), fine.tri_count()), (24, 0));
}

#[test]
fn shaders_pass_through() {
    let pack = full_pack();
    let baked = bake_shader(&pack.shaders[0]);
    assert_eq!(baked.source, pack.shaders[0].source);
    assert_eq!(baked.stage, pack.shaders[0].stage);
    assert_eq!(baked.params, pack.shaders[0].params);
}

#[test]
fn rig_is_deterministic_and_valid() {
    let a = grown_skeleton(&mob(0x7001, 1.0));
    let b = grown_skeleton(&mob(0x7001, 1.0));
    assert_eq!(a.len(), b.len());
    assert!(a.len() >= 5, "root+spine+head plus >=2 limbs");
    a.validate().expect("rig must be topologically ordered");
    assert!(matches!(a.joints[0].role, JointRole::Root));
    assert!(matches!(a.joints[1].role, JointRole::Spine));
    assert!(matches!(a.joints[2].role, JointRole::Head));
}

#[test]
fn scale_grows_the_rig() {
    let small = grown_skeleton(&mob(0x7004, 1.0));
    let big = grown_skeleton(&mob(0x7004, 3.0));
    assert_eq!(small.len(), big.len());
    assert!(
        val(big.global_bind(&chained)[2].translation[1]) > val(small.global_bind(&chained)[2].translation[1])
    );
}

#[test]
fn rigs_follow_the_seed_and_not_the_size() {
    for seed in 0u32..40 {
        let small = grown_skeleton(&mob(seed, 1.0));
        let big = grown_skeleton(&mob(seed, 3.0));
        assert!((5..=8).contains(&small.len()));
        assert_eq!(small.len(), 3 + limb_count(drawn(seed as u64 ^ 0xC0FF_EE17_BEEF_0001).2));
        assert_eq!(small.validate(), Ok(()));
        assert_eq!(small, grown_skeleton(&mob(seed, 1.0)));
        assert_eq!(grown_skeleton(&mob(seed, 0.0)), small);
        let (mut legs, mut arms) = (0u8, 0u8);
        for (i, j) in small.joints.iter().enumerate() {
            assert_eq!(j.role, big.joints[i].role);
            match j.role {
                JointRole::Leg { index, .. } => {
                    assert_eq!((j.parent, index), (0, legs));
                    legs += 1;
                }
                JointRole::Arm { index, .. } => {
                    assert_eq!((j.parent, index), (0, arms));
                    arms += 1;
                }
                _ => assert_eq!(j.parent, i as i32 - 1),
            }
        }
    }
}

#[test]
fn limbs_are_legs_or_arms_by_direction() {
    let limb = |x: f32, y: f32| Limb { bone: point(x, y, 0.0), dir_x: num(x), dir_y: num(y) };
    let s = assemble_skeleton(
        point(0.0, 0.2, 0.0),
        point(0.0, 0.4, 0.0),
        &vec![limb(-0.5, -0.5), limb(0.5, 0.2), limb(0.0, -0.5), limb(0.5, -0.1)],
    );
    assert_eq!(s.joints[3].role, JointRole::Leg { side: LimbSide::Left, index: 0 });
    assert_eq!(s.joints[4].role, JointRole::Arm { side: LimbSide::Right, index: 0 });
    assert_eq!(s.joints[5].role, JointRole::Leg { side: LimbSide::Center, index: 1 });
    assert_eq!(s.joints[6].role, JointRole::Arm { side: LimbSide::Right, index: 1 });
    assert_eq!(s.joints[6].name, "limb.6");
    assert_eq!(s.joints[6].parent, 0);
    assert_eq!((limb_count(0), limb_count(7)), (2, 5));
}

#[test]
fn big_creatures_stride_slowly() {
    let over = |a: Scalar, b: Scalar| num(val(a) / val(b));
    let plus = |a: Scalar, b: Scalar| num(val(a) + val(b));
    let times = |a: Scalar, b: Scalar| num(val(a) * val(b));
    let golem = build_config(&mob(1, 3.0), &over, &plus, &times);
    let wisp = build_config(&mob(1, 0.5), &over, &plus, &times);
    assert!(val(golem.cadence) < val(wisp.cadence));
    assert_eq!(wisp.cadence, num(2.4 / 0.5));
    assert_eq!(golem.gait.stride, num(0.6 + 0.1 * 3.0));
    assert_eq!(golem.gait.bob, num(0.05 * 3.0));
    assert_eq!(golem.run_speed, num(4.0));
    assert_eq!(body_scale(&mob(1, 0.0)), one());
}

#[test]
fn swap_bumps_generation_and_changes_lookup() {
    let pack = full_pack();
    let mut server = AssetServer::new(bake(&pack, b"full"));
    assert_eq!(server.generation(), 0);
    server.stage(bake(&pack, b"full"));
    assert!(!server.has_staged());
    assert!(server.mob_visual("mob.wisp").is_some());
    let empty = ContentPack::empty();
    server.stage(bake(&empty, b"empty"));
    assert!(server.has_staged());
    assert_eq!(server.apply_staged(), Some(1));
    assert!(server.mob_visual("mob.wisp").is_none(), "empty pack has no mobs");
    assert_eq!(server.generation(), 1);
    assert_eq!(server.apply_staged(), None);
    assert!(server.item_visual("item.ember_staff").is_none());
    assert_eq!(server.bundle().label, "empty");
}

#[test]
fn adhoc_cache_reuses_bakes() {
    let pack = full_pack();
    let mut server = AssetServer::new(bake(&pack, b"full"));
    let key = AssetKey::new(AssetKind::Mesh, "seed:0x1234", server.pack_hash());
    let mut bakes = 0;
    for _ in 0..3 {
        server.adhoc_mesh(key.clone(), || {
            bakes += 1;
            SkinnedMesh::default()
        });
    }
    assert_eq!(bakes, 1, "an ad-hoc mesh should bake once and cache");
}

#[test]
fn asset_keys_tell_variants_apart() {
    let a = AssetKey::new(AssetKind::Mesh, "x", "h");
    assert!(a.matches(&AssetKey::new(AssetKind::Mesh, "x", "h")));
    assert!(!a.matches(&a.clone().variant(2)));
    assert!(!a.matches(&AssetKey::new(AssetKind::Rig, "x", "h")));
    assert!(!a.matches(&AssetKey::new(AssetKind::Mesh, "x", "other")));
}

#[test]
fn weights_sum_to_one_and_pick_nearest() {
    let skel = Skeleton {
        joints: vec![
            Joint { name: "a".to_string(), parent: -1, bind_local: Transform::identity(), role: JointRole::Root },
            Joint {
                name: "b".to_string(),
                parent: 0,
                bind_local: Transform::from_translation(point(0.0, 5.0, 0.0)),
                role: JointRole::Head,
            },
        ],
    };
    let bones = skel.bind_positions(&chained);
    let (joints, weights) = skin_mesh(&vec![point(0.0, 0.1, 0.0)], &bones, &weight, &shares);
    assert_eq!(joints.len(), 1);
    let total: f32 = weights[0].iter().map(|w| val(*w)).sum();
    assert!((total - 1.0).abs() < 1e-4, "weights must sum to 1, got {}", total);
    let w0 = val(weights[0][joints[0].iter().position(|&j| j == 0).unwrap()]);
    assert!(w0 > 0.8, "nearest bone should dominate, got {}", w0);
}

#[test]
fn empty_skeleton_yields_static() {
    let bones = Skeleton::default().bind_positions(&chained);
    let (j, w) = skin_mesh(&vec![point(0.0, 0.0, 0.0)], &bones, &weight, &shares);
    assert!(j.is_empty() && w.is_empty());
}

#[test]
fn the_four_heaviest_bones_are_kept() {
    let weights = vec![num(0.1), num(0.9), num(0.2), num(0.8), num(0.7), num(0.05), num(0.6)];
    let mut bones: Vec<u16> = strongest_influences(&weights).iter().map(|i| i.0).collect();
    bones.sort();
    assert_eq!(bones, vec![1, 3, 4, 6]);
}

#[test]
fn missing_attributes_are_padded() {
    let mesh = Mesh {
        positions: vec![point(1.0, 2.0, 3.0), point(0.0, 0.0, 0.0)],
        normals: vec![point(1.0, 0.0, 0.0)],
        uvs: vec![],
        colors: vec![],
        indices: vec![],
    };
    let v = mesh.interleave();
    assert_eq!(v.len(), 2);
    assert_eq!(v[0].normal, point(1.0, 0.0, 0.0));
    assert_eq!(v[1].normal, point(0.0, 1.0, 0.0));
    assert_eq!(v[1].uv, [zero(); 2]);
    assert_eq!(v[1].color, [one(); 4]);
}
