use cerena::content::affix::{affix, AffixKind};
use cerena::content::default_pack::{starter_pack, StarterRules};
use cerena::content::enchant::RunewordDef;
use cerena::content::forge::ForgeConfig;
use cerena::content::gear;
use cerena::content::gem::gem;
use cerena::content::ids::{ElementId, ItemId, LootTableId, RunewordId, SetId};
use cerena::content::item::{
    ElementMods, EquipSlot, ItemDef, ItemTrigger, ProcEffect, ProcWhen, Rarity, StatMods,
};
use cerena::content::itemset::{SetBonus, SetDef};
use cerena::content::loot::{next_u64, LootEntry, LootTableDef};
use cerena::content::material::{ColorRamp, NoiseLayer};
use cerena::content::movement::MovementKind;
use cerena::content::pack::ContentPack;
use cerena::content::tuning::TuningConfig;
use cerena::content::worldgen::WorldGenParams;
use cerena::scalar::{dec, one, zero, Scalar};

fn num(x: f32) -> Scalar {
    Scalar { bits: x.to_bits() }
}

fn val(x: Scalar) -> f32 {
    f32::from_bits(x.bits)
}

fn plus(a: Scalar, b: Scalar) -> Scalar {
    num(val(a) + val(b))
}

fn times(a: Scalar, b: Scalar) -> Scalar {
    num(val(a) * val(b))
}

fn scale(draw: u64, total: Scalar) -> Scalar {
    num(draw as f32 / (1u32 << 24) as f32 * val(total))
}

fn starter() -> ContentPack {
    starter_pack(StarterRules { game_modes: vec![], loot_tables: vec![], spawn_rules: vec![], triggers: vec![] })
}

fn geared() -> ContentPack {
    let mut pack = ContentPack::empty();
    gear::apply(&mut pack);
    pack
}

fn proc() -> ItemTrigger {
    ItemTrigger {
        label: "spark".to_string(),
        when: ProcWhen::OnHit,
        chance: num(0.25),
        icd_s: one(),
        effect: ProcEffect::Heal { amount: one() },
    }
}

#[test]
fn rarities_climb_to_mythic() {
    let ladder =
        [Rarity::Common, Rarity::Uncommon, Rarity::Rare, Rarity::Epic, Rarity::Legendary, Rarity::Mythic];
    for i in 0..5 {
        assert_eq!(ladder[i].promote(), ladder[i + 1]);
        assert!(ladder[i].socket_budget() <= ladder[i + 1].socket_budget());
        assert!(val(ladder[i].drop_weight()) > val(ladder[i + 1].drop_weight()));
    }
    assert_eq!(Rarity::Mythic.promote(), Rarity::Mythic);
    assert_eq!(Rarity::Epic.affix_budget(), 5);
    assert_eq!(Rarity::Legendary.affix_budget(), 3);
    assert_eq!(Rarity::Rare.power_factor(), num(1.35));
    assert_eq!(Rarity::Common.drop_weight(), num(1000.0));
    assert_eq!(Rarity::Mythic.tint(), [num(1.0), num(0.3), num(0.45)]);
}

#[test]
fn slots_read_as_weapon_armor_or_jewel() {
    assert!(EquipSlot::Staff.is_weapon() && EquipSlot::Weapon.is_weapon());
    assert!(EquipSlot::Offhand.is_armor() && EquipSlot::Helm.is_armor());
    assert!(!EquipSlot::Ring.is_armor() && !EquipSlot::Ring.is_weapon());
    assert!(EquipSlot::Ring.is_multi());
    assert!(!EquipSlot::Staff.is_multi());
}

#[test]
fn elements_resolve_by_name() {
    let mods = ElementMods { fire: num(1.0), necro: num(2.0), physical: num(3.0), ..ElementMods::default() };
    assert_eq!(mods.get(&ElementId::new("fire")), num(1.0));
    assert_eq!(mods.get(&ElementId::new("void")), num(2.0));
    assert_eq!(mods.get(&ElementId::new("necro")), num(2.0));
    assert_eq!(mods.get(&ElementId::new("steel")), num(3.0));
    assert_eq!(mods.get(&ElementId::new("frost")), num(0.0));
}

#[test]
fn stat_blocks_add_scale_and_blend_field_by_field() {
    let lo = StatMods { power: num(2.0), jump_count: num(1.0), ..StatMods::default() };
    let hi = StatMods {
        power: num(6.0),
        elem_damage: ElementMods { storm: num(4.0), ..ElementMods::default() },
        ..StatMods::default()
    };
    let sum = lo.combine(&hi, &plus);
    assert_eq!(sum.power, num(8.0));
    assert_eq!(sum.jump_count, num(1.0));
    assert_eq!(sum.elem_damage.storm, num(4.0));
    let half = hi.scaled(num(0.5), &times);
    assert_eq!(half.power, num(3.0));
    assert_eq!(half.elem_damage.storm, num(2.0));
    let mid = StatMods::lerp(&lo, &hi, num(0.5), &plus, &times);
    assert_eq!(mid.power, num(4.0));
    assert_eq!(mid.jump_count, num(0.5));
    assert_eq!(mid.elem_damage.storm, num(2.0));
}

#[test]
fn builders_change_one_thing_each() {
    let item = ItemDef::base("item.x", "X", EquipSlot::Ring, Rarity::Rare)
        .with_stats(StatMods { power: num(3.0), ..StatMods::default() })
        .with_trigger(proc())
        .with_tags(&["fire", "caster"])
        .with_sockets(2)
        .described("An X.")
        .in_set("set.x")
        .unique_bound()
        .require_level(7);
    assert_eq!(item.stat_mods.power, num(3.0));
    assert_eq!(item.triggers, vec![proc()]);
    assert_eq!(item.affix_tags, vec!["fire", "caster"]);
    assert_eq!((item.base_sockets, item.level_req, item.max_stack), (2, 7, 1));
    assert_eq!(item.description, "An X.");
    assert_eq!(item.set, Some(SetId::new("set.x")));
    assert!(item.unique && item.soulbound && !item.stackable);
    assert_eq!(item.upgrade.as_ref().unwrap().max_level, 12);
    assert!(ItemDef::base("item.y", "Y", EquipSlot::Consumable, Rarity::Common).upgrade.is_none());
    assert_eq!(ItemDef::default().slot, EquipSlot::Unworn);
}

#[test]
fn affixes_roll_between_their_ends() {
    let a = affix("affix.a", AffixKind::Prefix, "Ardent", 3)
        .tagged(&["fire"])
        .on_slots(&[EquipSlot::Staff])
        .range(
            StatMods { power: num(2.0), ..StatMods::default() },
            StatMods { power: num(4.0), ..StatMods::default() },
        )
        .weighted(num(0.5))
        .with_proc(proc());
    assert_eq!((a.tier, a.level_req), (3, 16));
    assert_eq!(a.weight, num(0.5));
    assert!(a.proc.is_some());
    assert_eq!(a.roll(num(0.5), &plus, &times).power, num(3.0));
    assert_eq!(a.roll(num(9.0), &plus, &times).power, num(4.0));
    assert_eq!(a.roll(num(-1.0), &plus, &times).power, num(2.0));
    let fire = vec!["fire".to_string()];
    let frost = vec!["frost".to_string()];
    assert!(a.eligible(EquipSlot::Staff, &fire, 16));
    assert!(!a.eligible(EquipSlot::Staff, &fire, 15));
    assert!(!a.eligible(EquipSlot::Ring, &fire, 16));
    assert!(!a.eligible(EquipSlot::Staff, &frost, 16));
    let any = affix("affix.b", AffixKind::Suffix, "of Use", 0).tagged(&["universal"]);
    assert_eq!(any.level_req, 0);
    assert!(any.eligible(EquipSlot::Boots, &frost, 0));
    assert!(any.eligible(EquipSlot::Ring, &[], 1));
    assert!(!any.eligible(EquipSlot::Unworn, &[], 1));
    assert!(any.clone().on_slots(&[EquipSlot::Unworn]).eligible(EquipSlot::Unworn, &[], 1));
}

#[test]
fn gems_read_differently_by_slot() {
    let g = gem("gem.ruby", "Ruby", 2)
        .weapon(StatMods { power: num(1.0), ..StatMods::default() })
        .armor(StatMods { vitality: num(2.0), ..StatMods::default() })
        .jewel(StatMods { magic_find: num(3.0), ..StatMods::default() })
        .fuses_from("gem.ruby_chip", 3)
        .with_proc(proc());
    assert_eq!(g.mods_for(EquipSlot::Staff).power, num(1.0));
    assert_eq!(g.mods_for(EquipSlot::Belt).vitality, num(2.0));
    assert_eq!(g.mods_for(EquipSlot::Amulet).magic_find, num(3.0));
    let (from, n) = g.fuse_from.unwrap();
    assert_eq!((from.as_str(), n), ("gem.ruby_chip", 3));
    assert!(g.proc.is_some() && g.rune_symbol.is_none());
}

#[test]
fn runewords_need_the_exact_order() {
    let word = RunewordDef {
        id: RunewordId::new("rw.w"),
        name: "W".to_string(),
        sequence: vec!["a".to_string(), "b".to_string()],
        base_slots: vec![EquipSlot::Staff],
        level_req: 1,
        mods: StatMods::default(),
        triggers: vec![],
        grants_spells: vec![],
    };
    let ab = ["a".to_string(), "b".to_string()];
    let ba = ["b".to_string(), "a".to_string()];
    assert!(word.matches(EquipSlot::Staff, &ab));
    assert!(!word.matches(EquipSlot::Staff, &ba));
    assert!(!word.matches(EquipSlot::Staff, &ab[..1]));
    assert!(!word.matches(EquipSlot::Ring, &ab));
}

#[test]
fn more_pieces_never_lose_a_bonus() {
    let bonus = |n: u8| SetBonus {
        pieces_required: n,
        description: format!("{}", n),
        mods: StatMods::default(),
        triggers: vec![],
        grants_spells: vec![],
    };
    let set = SetDef {
        id: SetId::new("set.s"),
        name: "S".to_string(),
        pieces: vec![],
        bonuses: vec![bonus(4), bonus(2), bonus(3)],
    };
    let at = |n: u8| -> Vec<u8> { set.active_bonuses(n).iter().map(|b| b.pieces_required).collect() };
    assert_eq!(at(1), Vec::<u8>::new());
    assert_eq!(at(2), vec![2]);
    assert_eq!(at(3), vec![2, 3]);
    assert_eq!(at(9), vec![4, 2, 3]);
}

#[test]
fn loot_rolls_are_a_function_of_the_seed() {
    let entry = |item: &str, min: u16, max: u16| LootEntry {
        item: ItemId::new(item),
        weight: one(),
        min,
        max,
        rarity_bonus: zero(),
    };
    let table = LootTableDef {
        id: LootTableId::new("loot.t"),
        name: "T".to_string(),
        entries: vec![entry("item.a", 1, 3), entry("item.b", 2, 2)],
        rolls: 4,
        level_scaling: zero(),
    };
    let full: u32 = 1 << 24;
    let drops = table.roll(42, &plus, &scale);
    assert_eq!(drops, table.roll(42, &plus, &scale));
    assert_eq!(drops.len(), 4);
    let mut state: u64 = 42;
    for (item, count) in &drops {
        let draw = next_u64(&mut state) >> 40;
        if draw < full as u64 / 2 {
            assert_eq!(item.as_str(), "item.a");
            assert_eq!(*count as u64, 1 + next_u64(&mut state) % 3);
        } else {
            assert_eq!((item.as_str(), *count), ("item.b", 2));
        }
    }
    let mut empty = table.clone();
    empty.entries.clear();
    assert!(empty.roll(42, &plus, &scale).is_empty());
    let mut spent = table.clone();
    for e in &mut spent.entries {
        e.rarity_bonus = num(-1.0);
    }
    assert_eq!(spent.running_sums(&plus), vec![zero(), zero()]);
    assert!(spent.roll(42, &plus, &scale).is_empty());
}

#[test]
fn weights_set_the_odds() {
    let entry = |item: &str, weight: f32, bonus: f32| LootEntry {
        item: ItemId::new(item),
        weight: num(weight),
        min: 1,
        max: 1,
        rarity_bonus: num(bonus),
    };
    let table = LootTableDef {
        id: LootTableId::new("loot.w"),
        name: "W".to_string(),
        entries: vec![entry("item.a", 1.0, 1.5), entry("item.b", 2.0, -4.0), entry("item.c", 0.5, 0.0)],
        rolls: 40,
        level_scaling: zero(),
    };
    assert_eq!(table.running_sums(&plus), vec![num(2.5), num(2.5), num(3.0)]);
    let mut state: u64 = 7;
    let drops = table.roll(7, &plus, &scale);
    assert_eq!(drops.len(), 40);
    for (item, count) in &drops {
        let pick = (next_u64(&mut state) >> 40) as f32 / (1u32 << 24) as f32 * 3.0;
        assert_eq!(item.as_str(), if pick < 2.5 { "item.a" } else { "item.c" });
        assert_eq!(*count, 1);
    }
    assert!(drops.iter().any(|(item, _)| item.as_str() == "item.c"));
}

#[test]
fn an_entry_without_weight_never_drops() {
    let entry = |item: &str, weight: Scalar, bonus: Scalar| LootEntry {
        item: ItemId::new(item),
        weight,
        min: 1,
        max: 1,
        rarity_bonus: bonus,
    };
    let table = LootTableDef {
        id: LootTableId::new("loot.t"),
        name: "T".to_string(),
        entries: vec![entry("item.a", zero(), one()), entry("item.b", one(), zero()), entry("item.c", one(), zero())],
        rolls: 20,
        level_scaling: zero(),
    };
    assert!(!table.entries[0].is_weighted() && table.entries[1].is_weighted());
    for seed in 0u64..50 {
        let drops = table.roll(seed, &plus, &scale);
        assert_eq!(drops.len(), 20);
        assert!(drops.iter().all(|(item, _)| item.as_str() != "item.a"));
        assert!(drops.iter().any(|(item, _)| item.as_str() == "item.c"));
    }
}

#[test]
fn the_generator_is_splitmix() {
    let mut state: u64 = 0;
    assert_eq!(next_u64(&mut state), 0xe220_a839_7b1d_cdaf);
    assert_eq!(next_u64(&mut state), 0x6e78_9e6a_a1b9_65f4);
}

#[test]
fn ramps_sample_the_surrounding_stops() {
    let stop = |t: f32, v: f32| (num(t), [num(v), num(v), num(v), num(1.0)]);
    let mix = |a: (Scalar, [Scalar; 4]), b: (Scalar, [Scalar; 4]), t: Scalar| -> [Scalar; 4] {
        let f = (val(t) - val(a.0)) / (val(b.0) - val(a.0));
        let blend = |i: usize| num(val(a.1[i]) + (val(b.1[i]) - val(a.1[i])) * f);
        [blend(0), blend(1), blend(2), blend(3)]
    };
    let ramp = ColorRamp { stops: vec![stop(0.25, 0.0), stop(0.75, 1.0)] };
    assert_eq!(ramp.sample(num(0.0), &mix)[0], num(0.0));
    assert_eq!(ramp.sample(num(0.5), &mix)[0], num(0.5));
    assert_eq!(ramp.sample(num(9.0), &mix)[0], num(1.0));
    assert_eq!(ColorRamp::default().sample(num(0.5), &mix), [zero(); 4]);
}

#[test]
fn starter_items_are_as_authored() {
    let pack = starter();
    let staff = pack.items.iter().find(|i| i.id.as_str() == "item.ember_staff").unwrap();
    assert_eq!(staff.slot, EquipSlot::Staff);
    assert_eq!(staff.rarity, Rarity::Rare);
    assert_eq!(staff.stat_mods.power, num(12.0));
    assert_eq!(staff.stat_mods.spell_power_pct, num(0.1));
    assert_eq!(staff.stat_mods.focus, num(0.0));
    assert_eq!(staff.grants_spells[0].as_str(), "spell.fireball");
    assert_eq!(staff.grants_abilities[0].as_str(), "ability.fireball");
    assert_eq!(staff.level_req, 1);
    assert!(staff.upgrade.is_none());
    assert_eq!(pack.items[0].id.as_str(), "item.crystal_shard");
    assert!(pack.movement_modes.iter().any(|m| matches!(m.kind, MovementKind::Grapple { .. })));
}

#[test]
fn legendary_gear_has_signature_procs() {
    let pack = geared();
    let legends: Vec<&ItemDef> =
        pack.items.iter().filter(|i| i.rarity >= Rarity::Legendary && i.set.is_none()).collect();
    assert!(!legends.is_empty());
    for item in legends {
        assert!(!item.triggers.is_empty(), "{}", item.id.as_str());
    }
    for set in &pack.item_sets {
        for piece in &set.pieces {
            let item = pack.items.iter().find(|i| i.id == *piece).unwrap();
            assert_eq!(item.set.as_ref(), Some(&set.id));
        }
    }
}

#[test]
fn house_rules_have_their_defaults() {
    let t = TuningConfig::default();
    assert_eq!(t.gravity, num(24.0));
    assert!(t.world_edit_persistence);
    let f = ForgeConfig::default();
    assert_eq!(f.quality_cap, 100);
    let n = NoiseLayer::default();
    assert_eq!((n.octaves, n.frequency, n.gain), (4, dec(1, 0), num(0.5)));
    let w = WorldGenParams::default();
    assert!(!w.biomes.is_empty());
}
