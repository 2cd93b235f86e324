use cerena::content::ability::CastInput;
use cerena::content::default_pack::{default_pack, starter_pack, StarterRules};
use cerena::content::error::ContentError;
use cerena::content::gamemode::{GameModeDef, TeamConfig, WinCondition};
use cerena::content::hotreload::PackDiff;
use cerena::content::ids::{
    AbilityId, ElementId, GameModeId, ItemId, LootTableId, MaterialId, MobId, MovementModeId, SetId,
    ShaderId, SpellId, StatusId, TechNodeId,
};
use cerena::content::item::{
    CraftRecipe, EquipSlot, ItemDef, ItemTrigger, ProcEffect, ProcWhen, Rarity,
};
use cerena::content::loot::{LootEntry, LootTableDef};
use cerena::content::material::ShaderStage;
use cerena::content::pack::ContentPack;
use cerena::content::registry::ContentRegistry;
use cerena::content::spell::{EffectOp, Faction, SpellDef};
use cerena::content::status::{StatusEffectDef, StatusKind};
use cerena::content::triggers::GameTriggerKind;
use cerena::content::{expansion, gear};
use cerena::scalar::{one, zero, Scalar};

fn num(x: f32) -> Scalar {
    Scalar { bits: x.to_bits() }
}

fn mode(id: &str) -> GameModeDef {
    GameModeDef {
        id: GameModeId::new(id),
        name: id.to_string(),
        description: String::new(),
        teams: TeamConfig::FreeForAll,
        win: WinCondition::Endless,
        scoring: vec![],
        respawn_seconds: one(),
        allow_loot_drops: true,
        loot_multiplier: one(),
        starting_loadout: vec![AbilityId::new("ability.fireball")],
        starting_items: vec![(ItemId::new("item.mana_crystal"), 2)],
        pvp_enabled: true,
        mob_waves: false,
    }
}

fn boss_loot() -> LootTableDef {
    LootTableDef {
        id: LootTableId::new("loot.boss"),
        name: "Boss".to_string(),
        entries: vec![LootEntry {
            item: ItemId::new("item.void_relic"),
            weight: one(),
            min: 1,
            max: 1,
            rarity_bonus: zero(),
        }],
        rolls: 1,
        level_scaling: zero(),
    }
}

fn no_rules() -> StarterRules {
    StarterRules { game_modes: vec![], loot_tables: vec![], spawn_rules: vec![], triggers: vec![] }
}

fn match_rules() -> StarterRules {
    StarterRules {
        game_modes: vec![mode("gamemode.duel"), mode("gamemode.skirmish"), mode("gamemode.free")],
        loot_tables: vec![boss_loot()],
        spawn_rules: vec![],
        triggers: vec![],
    }
}

#[test]
fn expanded_pack_validates() {
    let pack = default_pack(match_rules());
    pack.validate().expect("expanded default pack must validate");
}

#[test]
fn expansion_adds_content() {
    let pack = default_pack(match_rules());
    assert!(pack.spells.len() >= 35, "expected many spells, got {}", pack.spells.len());
    assert!(pack.tech.nodes.len() >= 30, "expected a deep tech tree, got {}", pack.tech.nodes.len());
    assert!(pack.mobs.len() >= 12, "expected a full bestiary, got {}", pack.mobs.len());
    assert!(pack.game_modes.len() >= 5, "expected new game modes, got {}", pack.game_modes.len());
}

#[test]
fn mob_abilities_resolve() {
    let pack = default_pack(match_rules());
    let ability_ids: std::collections::HashSet<_> = pack.abilities.iter().map(|a| a.id.clone()).collect();
    for m in &pack.mobs {
        for ab in &m.abilities {
            assert!(ability_ids.contains(ab), "mob {} casts missing ability {}", m.id.as_str(), ab.as_str());
        }
    }
}

#[test]
fn the_expansion_needs_boss_loot() {
    let pack = default_pack(no_rules());
    assert_eq!(
        pack.validate(),
        Err(ContentError::Invalid(
            "spawn rule spawn.mire_warden references missing loot table loot.boss".to_string()
        ))
    );
    assert_eq!(starter_pack(no_rules()).validate(), Ok(()));
}

#[test]
fn fireball_is_as_authored() {
    let pack = starter_pack(no_rules());
    assert_eq!(pack.label, "cerena-default-0.2");
    let spell = &pack.spells[0];
    assert_eq!(spell.id.as_str(), "spell.fireball");
    assert_eq!(spell.name, "Fireball");
    assert_eq!(spell.element.as_str(), "fire");
    assert_eq!(spell.mana_cost, num(20.0));
    assert_eq!(spell.cast_time, num(0.4));
    assert_eq!(spell.cooldown, num(1.5));
    assert_eq!(spell.scaling.power, num(0.8));
    assert_eq!(spell.author_cost, spell.complexity());
    match &spell.root {
        EffectOp::Projectile { speed, gravity, radius, lifetime_s, homing, on_hit } => {
            assert_eq!((*speed, *gravity), (num(42.0), num(1.5)));
            assert_eq!((*radius, *lifetime_s, *homing), (num(0.4), num(4.0), num(0.0)));
            match &**on_hit {
                EffectOp::Area { radius, faction, falloff, then } => {
                    assert_eq!((*radius, *falloff), (num(4.0), num(0.5)));
                    assert_eq!(*faction, Faction::Enemies);
                    assert!(matches!(&**then, EffectOp::Sequence(_)));
                },
                other => panic!("unexpected {:?}", other),
            }
        },
        other => panic!("unexpected {:?}", other),
    }
}

#[test]
fn the_expansion_only_adds() {
    let before = starter_pack(match_rules());
    let mut after = starter_pack(match_rules());
    expansion::apply(&mut after);
    for (i, s) in before.spells.iter().enumerate() {
        assert_eq!(s.id, after.spells[i].id);
    }
    for (i, s) in before.items.iter().enumerate() {
        assert_eq!(s.id, after.items[i].id);
    }
    assert_eq!(after.game_modes.len(), before.game_modes.len() + 2);
    assert_eq!(after.worldgen.biomes.len(), before.worldgen.biomes.len() + 2);
    let last = after.game_modes.last().unwrap();
    assert_eq!(last.id.as_str(), "gamemode.relic_royale");
    assert_eq!(last.win, WinCondition::LastTeamStanding);
    assert_eq!(last.respawn_seconds, num(9999.0));
}

#[test]
fn gear_keeps_a_pack_valid() {
    let mut pack = default_pack(match_rules());
    let items = pack.items.len();
    gear::apply(&mut pack);
    assert_eq!(pack.validate(), Ok(()));
    assert!(pack.items.len() > items);
    assert!(!pack.affixes.is_empty() && !pack.gems.is_empty() && !pack.item_sets.is_empty());
    assert!(!pack.enchants.is_empty() && !pack.runewords.is_empty());
}

#[test]
fn every_spell_is_priced_by_its_graph() {
    let pack = default_pack(match_rules());
    for s in &pack.spells {
        assert_eq!(s.author_cost, s.complexity(), "{}", s.id.as_str());
    }
}

#[test]
fn a_pack_is_named_by_its_digest() {
    assert_eq!(
        ContentPack::hash(b"abc"),
        "ba7816bf8f01cfea414140de5dae2223b00361a396177a9cb410ff61f20015ad"
    );
    assert_eq!(
        ContentPack::hash(b""),
        "e3b0c44298fc1c149afbf4c8996fb92427ae41e4649b934ca495991b7852b855"
    );
}

#[test]
fn only_the_announced_pack_is_let_through() {
    let want = ContentPack::hash(b"bytes");
    let ok = ContentPack::decode_verified(b"bytes", Ok(ContentPack::empty()), &want);
    assert_eq!(ok.unwrap().label, "empty");
    let longer = ContentPack::decode_verified(b"bytes\0", Ok(ContentPack::empty()), &want);
    assert!(longer.is_err());
    let bad = ContentPack::decode_verified(b"other", Ok(ContentPack::empty()), &want);
    assert_eq!(
        bad.unwrap_err(),
        ContentError::HashMismatch { expected: want.clone(), got: ContentPack::hash(b"other") }
    );
    let unread = ContentPack::decode_verified(b"bytes", Err("short".to_string()), &want);
    assert_eq!(unread.unwrap_err(), ContentError::Decode("short".to_string()));
    assert_eq!(ContentPack::encode(Ok(vec![1])), Ok(vec![1]));
    assert_eq!(ContentPack::encode(Err("e".to_string())), Err(ContentError::Decode("e".to_string())));
}

#[test]
fn errors_read_as_one_line() {
    assert_eq!(ContentError::Decode("x".to_string()).message(), "content decode failed: x");
    assert_eq!(
        ContentError::HashMismatch { expected: "a".to_string(), got: "b".to_string() }.message(),
        "content hash mismatch: expected a, got b"
    );
    assert_eq!(
        ContentError::UnknownId { kind: "spell", id: "s".to_string() }.message(),
        "unknown spell id: s"
    );
    assert_eq!(ContentError::Invalid("bad".to_string()).message(), "validation failed: bad");
}

#[test]
fn the_bootstrap_registry_answers_nothing() {
    let reg = ContentRegistry::bootstrap(b"empty pack");
    assert_eq!(reg.epoch, 0);
    assert_eq!(reg.active_hash, ContentPack::hash(b"empty pack"));
    assert!(reg.spell(&SpellId::new("spell.fireball")).is_none());
    assert!(!reg.has_pending());
}

#[test]
fn a_registry_resolves_the_current_definitions() {
    let reg = ContentRegistry::new(3, default_pack(match_rules()), b"bytes").unwrap();
    assert_eq!(reg.epoch, 3);
    assert_eq!(reg.spell(&SpellId::new("spell.fireball")).unwrap().name, "Fireball");
    assert!(reg.item(&ItemId::new("item.mana_crystal")).is_some());
    assert!(reg.ability(&AbilityId::new("ability.fireball")).is_some());
    assert!(reg.status(&StatusId::new("status.invisible")).is_some());
    assert!(reg.mob(&MobId::new("mob.wisp")).is_some());
    assert!(reg.mob(&MobId::new("mob.nobody")).is_none());
    let material = reg.pack().materials[0].id.as_str().to_string();
    assert_eq!(reg.material(&MaterialId::new(&material)).unwrap().id.as_str(), material);
    let shader = reg.pack().shaders[0].id.as_str().to_string();
    assert_eq!(reg.shader(&ShaderId::new(&shader)).unwrap().id.as_str(), shader);
    for kind in [GameTriggerKind::Kill, GameTriggerKind::Timer, GameTriggerKind::Death] {
        for t in reg.triggers_for(kind) {
            assert_eq!(t.on.kind(), kind);
        }
    }
}

#[test]
fn a_bad_pack_never_becomes_live() {
    let mut bad = ContentPack::empty();
    bad.loot_tables.push(boss_loot());
    assert!(ContentRegistry::new(1, bad, b"x").is_err());

    let mut reg = ContentRegistry::bootstrap(b"0");
    let mut worse = ContentPack::empty();
    worse.loot_tables.push(boss_loot());
    assert_eq!(
        reg.stage(1, worse, b"1"),
        Err(ContentError::Invalid("loot table loot.boss references missing item item.void_relic".to_string()))
    );
    assert!(!reg.has_pending());
    assert_eq!(reg.apply_pending(), None);
}

#[test]
fn a_swap_happens_at_the_boundary_and_epochs_only_advance() {
    let mut reg = ContentRegistry::new(5, ContentPack::empty(), b"first").unwrap();
    assert_eq!(reg.stage(6, default_pack(match_rules()), b"second"), Ok(()));
    assert!(reg.has_pending());
    assert!(reg.spell(&SpellId::new("spell.fireball")).is_none());
    assert_eq!(reg.epoch, 5);
    assert_eq!(reg.apply_pending(), Some(6));
    assert_eq!(reg.epoch, 6);
    assert_eq!(reg.active_hash, ContentPack::hash(b"second"));
    assert!(reg.spell(&SpellId::new("spell.fireball")).is_some());
    assert!(matches!(reg.stage(6, ContentPack::empty(), b"third"), Err(ContentError::Invalid(_))));
    assert_eq!(reg.apply_pending(), None);
}

#[test]
fn a_diff_names_what_changed() {
    let mut old = ContentPack::empty();
    old.items.push(ItemDef::base("item.a", "A", EquipSlot::Ring, Rarity::Common));
    old.items.push(ItemDef::base("item.b", "B", EquipSlot::Ring, Rarity::Common));
    let mut new = ContentPack::empty();
    new.items.push(ItemDef::base("item.b", "B!", EquipSlot::Ring, Rarity::Common));
    new.items.push(ItemDef::base("item.d", "D", EquipSlot::Ring, Rarity::Common));
    new.items.push(ItemDef::base("item.c", "C", EquipSlot::Ring, Rarity::Common));
    let diff = PackDiff::between(&old, &new);
    assert_eq!(diff.added, vec!["item:item.c", "item:item.d"]);
    assert_eq!(diff.removed, vec!["item:item.a"]);
    assert_eq!(diff.changed, vec!["item:item.b"]);
    let none = PackDiff::between(&old, &old);
    assert!(none.added.is_empty() && none.removed.is_empty() && none.changed.is_empty());
}

#[test]
fn every_edit_of_a_status_shows() {
    let burn = || StatusEffectDef {
        id: StatusId::new("status.burn"),
        name: "Burn".to_string(),
        kind: StatusKind::Burning { dps: num(1.0) },
        max_stacks: 3,
        tick_interval_s: one(),
        duration_default_s: num(4.0),
        beneficial: false,
        material: None,
    };
    let pack = |s: StatusEffectDef| {
        let mut p = ContentPack::empty();
        p.statuses.push(s);
        p
    };
    let edits = vec![
        StatusEffectDef { name: "Scorch".to_string(), ..burn() },
        StatusEffectDef { kind: StatusKind::Burning { dps: num(9.0) }, ..burn() },
        StatusEffectDef { kind: StatusKind::Regen { hps: num(1.0) }, ..burn() },
        StatusEffectDef { max_stacks: 4, ..burn() },
        StatusEffectDef { tick_interval_s: num(0.5), ..burn() },
        StatusEffectDef { duration_default_s: num(5.0), ..burn() },
        StatusEffectDef { beneficial: true, ..burn() },
        StatusEffectDef { material: Some(MaterialId::new("material.lava")), ..burn() },
    ];
    for edited in edits {
        let diff = PackDiff::between(&pack(burn()), &pack(edited));
        assert_eq!(diff.changed, vec!["status:status.burn"]);
        assert!(diff.added.is_empty() && diff.removed.is_empty());
    }
    assert!(PackDiff::between(&pack(burn()), &pack(burn())).changed.is_empty());
}

#[test]
fn a_copied_pack_does_not_differ() {
    let pack = starter_pack(no_rules());
    let diff = PackDiff::between(&pack, &pack.clone());
    assert!(diff.added.is_empty() && diff.removed.is_empty() && diff.changed.is_empty());
    assert_eq!(pack.clone().spells[3].complexity(), pack.spells[3].complexity());
}

#[test]
fn every_edit_of_a_spell_shows() {
    let edits: Vec<fn(&mut SpellDef)> = vec![
        |d| d.name.push('!'),
        |d| d.description.push('!'),
        |d| d.element = ElementId::new("void"),
        |d| d.mana_cost = num(77.0),
        |d| d.cast_time = num(7.5),
        |d| d.cooldown = num(7.5),
        |d| d.channeled = !d.channeled,
        |d| d.scaling.level = num(7.5),
        |d| d.root = EffectOp::Noop,
        |d| d.root = EffectOp::Delay { secs: one(), then: Box::new(d.root.clone()) },
        |d| d.author_cost += 1,
    ];
    for edit in edits {
        let old = starter_pack(no_rules());
        let mut new = old.clone();
        edit(&mut new.spells[0]);
        let diff = PackDiff::between(&old, &new);
        assert_eq!(diff.changed, vec![format!("spell:{}", old.spells[0].id.as_str())]);
        assert!(diff.added.is_empty() && diff.removed.is_empty());
    }
}

#[test]
fn an_edit_deep_in_an_effect_shows() {
    let pack = |amount: f32, element: &str, extra: bool| {
        let hurt = EffectOp::Damage { amount: num(amount), element: ElementId::new(element) };
        let mut list = vec![EffectOp::Heal { amount: one() }, hurt];
        if extra {
            list.push(EffectOp::Noop);
        }
        let mut p = starter_pack(no_rules());
        p.spells[0].root = EffectOp::Area {
            radius: one(),
            faction: Faction::Enemies,
            falloff: one(),
            then: Box::new(EffectOp::Sequence(list)),
        };
        p
    };
    let old = pack(5.0, "fire", false);
    for new in [pack(6.0, "fire", false), pack(5.0, "frost", false), pack(5.0, "fire", true)] {
        assert_eq!(PackDiff::between(&old, &new).changed.len(), 1);
    }
    assert!(PackDiff::between(&old, &pack(5.0, "fire", false)).changed.is_empty());
}

#[test]
fn every_edit_of_an_item_shows() {
    let edits: Vec<fn(&mut ItemDef)> = vec![
        |d| d.name.push('!'),
        |d| d.description.push('!'),
        |d| d.rarity = Rarity::Mythic,
        |d| d.slot = EquipSlot::Belt,
        |d| d.stat_mods.power = num(9.0),
        |d| d.stat_mods.elem_resist.chrono = num(9.0),
        |d| d.triggers[0].chance = num(0.75),
        |d| d.triggers.clear(),
        |d| d.grants_spells.push(SpellId::new("spell.x")),
        |d| d.grants_movement.clear(),
        |d| d.grants_abilities.push(AbilityId::new("ability.x")),
        |d| d.material = Some(MaterialId::new("material.x")),
        |d| d.stackable = true,
        |d| d.max_stack = 9,
        |d| d.on_use = Some(SpellId::new("spell.x")),
        |d| d.level_req = 30,
        |d| d.craft = None,
        |d| d.craft = Some(CraftRecipe { inputs: vec![(ItemId::new("item.y"), 3)], tech_req: None }),
        |d| d.base_sockets = 3,
        |d| d.affix_tags.push("void".to_string()),
        |d| d.set = Some(SetId::new("set.x")),
        |d| d.upgrade = None,
        |d| d.unique = true,
        |d| d.soulbound = true,
    ];
    let mut item = ItemDef::base("item.a", "A", EquipSlot::Ring, Rarity::Common);
    item.triggers.push(ItemTrigger {
        label: "spark".to_string(),
        when: ProcWhen::OnHit,
        chance: num(0.25),
        icd_s: one(),
        effect: ProcEffect::Heal { amount: one() },
    });
    item.grants_movement.push(MovementModeId::new("move.x"));
    item.craft = Some(CraftRecipe { inputs: vec![(ItemId::new("item.y"), 2)], tech_req: None });
    let mut old = ContentPack::empty();
    old.items.push(item);
    for edit in edits {
        let mut new = old.clone();
        edit(&mut new.items[0]);
        assert_eq!(PackDiff::between(&old, &new).changed, vec!["item:item.a"]);
    }
}

#[test]
fn every_edit_of_an_ability_or_a_shader_shows() {
    let edits: Vec<fn(&mut ContentPack)> = vec![
        |p| p.abilities[0].name.push('!'),
        |p| p.abilities[0].spell = SpellId::new("spell.x"),
        |p| p.abilities[0].binding = CastInput::Slot(7),
        |p| p.abilities[0].cooldown_override = Some(zero()),
        |p| p.abilities[0].icon_material = Some(MaterialId::new("material.x")),
        |p| p.shaders[0].name.push('!'),
        |p| p.shaders[0].stage = ShaderStage::Particle,
        |p| p.shaders[0].source.push(' '),
        |p| p.shaders[0].params.push(("x".to_string(), one())),
    ];
    let old = starter_pack(no_rules());
    let keys = [
        format!("ability:{}", old.abilities[0].id.as_str()),
        format!("shader:{}", old.shaders[0].id.as_str()),
    ];
    for (i, edit) in edits.into_iter().enumerate() {
        let mut new = old.clone();
        edit(&mut new);
        assert_eq!(PackDiff::between(&old, &new).changed, vec![keys[i / 5].clone()]);
    }
}

#[test]
fn the_tech_frontier_is_what_can_be_bought() {
    let pack = default_pack(match_rules());
    let mut unlocked: cerena::table::NameMap<()> = cerena::table::NameMap::new();
    let first: Vec<String> = pack.tech.available(&unlocked).iter().map(|n| n.id.as_str().to_string()).collect();
    assert!(!first.is_empty());
    for id in &first {
        assert!(pack.tech.node(&TechNodeId::new(id)).unwrap().prereqs.is_empty());
        unlocked.insert(id.clone(), ());
    }
    for n in pack.tech.available(&unlocked) {
        assert!(!first.contains(&n.id.as_str().to_string()));
        assert!(n.prereqs.iter().all(|p| first.contains(&p.as_str().to_string())));
        assert!(pack.tech.prereqs_met(n, &unlocked));
    }
    assert!(pack.tech.node(&TechNodeId::new("tech.nothing")).is_none());
}
