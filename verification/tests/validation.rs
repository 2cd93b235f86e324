use cerena::content::ability::{AbilityDef, CastInput};
use cerena::content::enchant::RunewordDef;
use cerena::content::error::ContentError;
use cerena::content::gamemode::{GameModeDef, TeamConfig, WinCondition};
use cerena::content::gem::gem;
use cerena::content::ids::{
    AbilityId, ElementId, GameModeId, ItemId, LootTableId, MobId, RunewordId, SetId, SpawnRuleId,
    SpellId, StatusId, TechNodeId, TriggerId,
};
use cerena::content::item::{EquipSlot, ItemDef, Rarity, StatMods};
use cerena::content::itemset::SetDef;
use cerena::content::loot::{LootEntry, LootTableDef};
use cerena::content::pack::ContentPack;
use cerena::content::spawn::{SpawnRuleDef, SpawnTrigger};
use cerena::content::spell::{EffectOp, Scaling, SpellDef};
use cerena::content::tech::TechNode;
use cerena::content::triggers::{GameTrigger, RuleAction, TriggerCondition, TriggerDef};
use cerena::scalar::{dec, one, zero};

fn spell(id: &str, root: EffectOp) -> SpellDef {
    SpellDef {
        id: SpellId::new(id),
        name: id.to_string(),
        description: String::new(),
        element: ElementId::new("element.fire"),
        mana_cost: zero(),
        cast_time: zero(),
        cooldown: zero(),
        channeled: false,
        scaling: Scaling { power: zero(), focus: zero(), agility: zero(), level: zero() },
        root,
        author_cost: 0,
    }
}

fn ability(id: &str, spell: &str) -> AbilityDef {
    AbilityDef {
        id: AbilityId::new(id),
        name: id.to_string(),
        spell: SpellId::new(spell),
        binding: CastInput::Primary,
        cooldown_override: None,
        icon_material: None,
    }
}

fn mode(id: &str, loadout: Vec<AbilityId>, items: Vec<(ItemId, u16)>) -> GameModeDef {
    GameModeDef {
        id: GameModeId::new(id),
        name: id.to_string(),
        description: String::new(),
        teams: TeamConfig::FreeForAll,
        win: WinCondition::Endless,
        scoring: vec![],
        respawn_seconds: one(),
        allow_loot_drops: true,
        loot_multiplier: one(),
        starting_loadout: loadout,
        starting_items: items,
        pvp_enabled: true,
        mob_waves: false,
    }
}

fn table(id: &str, item: &str) -> LootTableDef {
    LootTableDef {
        id: LootTableId::new(id),
        name: id.to_string(),
        entries: vec![LootEntry {
            item: ItemId::new(item),
            weight: one(),
            min: 1,
            max: 1,
            rarity_bonus: zero(),
        }],
        rolls: 1,
        level_scaling: zero(),
    }
}

fn spawn(id: &str, mob: &str, loot: Option<&str>) -> SpawnRuleDef {
    SpawnRuleDef {
        id: SpawnRuleId::new(id),
        name: id.to_string(),
        mob: MobId::new(mob),
        trigger: SpawnTrigger::OnZoneEnter,
        max_alive: 1,
        biome_filter: vec![],
        level_scaling: zero(),
        loot_table: loot.map(LootTableId::new),
    }
}

fn rule(on: GameTrigger, conditions: Vec<TriggerCondition>, actions: Vec<RuleAction>) -> TriggerDef {
    TriggerDef {
        id: TriggerId::new("trigger.t"),
        name: "t".to_string(),
        on,
        conditions,
        actions,
        once_per_player: false,
    }
}

fn node(id: &str, item: &str) -> TechNode {
    TechNode {
        id: TechNodeId::new(id),
        name: id.to_string(),
        description: String::new(),
        branch: "fire".to_string(),
        tier: 1,
        cost_skill_points: 1,
        prereqs: vec![],
        effects: vec![],
        unlock_items: vec![ItemId::new(item)],
        icon_material: None,
    }
}

fn complaint(pack: &ContentPack) -> String {
    match pack.validate() {
        Err(ContentError::Invalid(text)) => text,
        other => panic!("expected a complaint, got {:?}", other),
    }
}

#[test]
fn the_empty_pack_is_valid() {
    let pack = ContentPack::empty();
    assert_eq!(pack.label, "empty");
    assert_eq!(pack.validate(), Ok(()));
}

#[test]
fn an_ability_needs_its_spell() {
    let mut pack = ContentPack::empty();
    pack.abilities.push(ability("ability.a", "spell.none"));
    assert_eq!(complaint(&pack), "ability ability.a references missing spell spell.none");
    pack.spells.push(spell("spell.none", EffectOp::Noop));
    assert_eq!(pack.validate(), Ok(()));
}

#[test]
fn a_tech_node_needs_its_items() {
    let mut pack = ContentPack::empty();
    pack.tech.nodes.push(node("tech.t", "item.none"));
    assert_eq!(complaint(&pack), "tech node tech.t unlocks missing item item.none");
}

#[test]
fn a_spell_needs_its_statuses_however_deep() {
    let apply = EffectOp::ApplyStatus { status: StatusId::new("status.none"), duration_s: one(), stacks: 1 };
    let deep = EffectOp::Sequence(vec![
        EffectOp::Noop,
        EffectOp::Delay {
            secs: one(),
            then: Box::new(EffectOp::IfMarked {
                tag: "m".to_string(),
                then: Box::new(EffectOp::Noop),
                otherwise: Box::new(EffectOp::Parallel(vec![apply])),
            }),
        },
    ]);
    let mut pack = ContentPack::empty();
    pack.spells.push(spell("spell.s", deep));
    assert_eq!(complaint(&pack), "spell spell.s applies missing status status.none");
}

#[test]
fn a_game_mode_needs_its_loadout_and_items() {
    let mut pack = ContentPack::empty();
    pack.game_modes.push(mode("mode.m", vec![AbilityId::new("ability.none")], vec![]));
    assert_eq!(
        complaint(&pack),
        "game mode mode.m starting_loadout references missing ability ability.none"
    );
    let mut other = ContentPack::empty();
    other.game_modes.push(mode("mode.m", vec![], vec![(ItemId::new("item.none"), 1)]));
    assert_eq!(complaint(&other), "game mode mode.m starting_items references missing item item.none");
}

#[test]
fn a_loot_table_needs_its_items() {
    let mut pack = ContentPack::empty();
    pack.loot_tables.push(table("loot.l", "item.none"));
    assert_eq!(complaint(&pack), "loot table loot.l references missing item item.none");
    pack.items.push(ItemDef::base("item.none", "None", EquipSlot::Trinket, Rarity::Common));
    assert_eq!(pack.validate(), Ok(()));
}

#[test]
fn a_spawn_rule_needs_its_mob_and_loot() {
    let mut pack = ContentPack::empty();
    pack.spawn_rules.push(spawn("spawn.s", "mob.none", None));
    assert_eq!(complaint(&pack), "spawn rule spawn.s references missing mob mob.none");
}

#[test]
fn a_trigger_needs_everything_it_names() {
    let cases = vec![
        (
            rule(GameTrigger::OnPickup { item: ItemId::new("item.x") }, vec![], vec![]),
            "trigger trigger.t fires on pickup of missing item item.x",
        ),
        (
            rule(GameTrigger::OnSpellCast { spell: SpellId::new("spell.x") }, vec![], vec![]),
            "trigger trigger.t fires on cast of missing spell spell.x",
        ),
        (
            rule(GameTrigger::OnKill, vec![TriggerCondition::HasItem { item: ItemId::new("item.x") }], vec![]),
            "trigger trigger.t condition references missing item item.x",
        ),
        (
            rule(GameTrigger::OnKill, vec![TriggerCondition::HasTech { node: TechNodeId::new("tech.x") }], vec![]),
            "trigger trigger.t condition references missing tech node tech.x",
        ),
        (
            rule(GameTrigger::OnKill, vec![], vec![RuleAction::GrantItem { item: ItemId::new("item.x"), count: 1 }]),
            "trigger trigger.t action grants missing item item.x",
        ),
        (
            rule(
                GameTrigger::OnKill,
                vec![],
                vec![RuleAction::ApplyStatus { status: StatusId::new("status.x"), duration_s: one() }],
            ),
            "trigger trigger.t action applies missing status status.x",
        ),
        (
            rule(GameTrigger::OnKill, vec![], vec![RuleAction::SpawnMob { mob: MobId::new("mob.x"), count: 1 }]),
            "trigger trigger.t action spawns missing mob mob.x",
        ),
        (
            rule(GameTrigger::OnKill, vec![], vec![RuleAction::SpawnLoot { table: LootTableId::new("loot.x") }]),
            "trigger trigger.t action rolls missing loot table loot.x",
        ),
    ];
    for (trigger, expected) in cases {
        let mut pack = ContentPack::empty();
        pack.triggers.push(trigger);
        assert_eq!(complaint(&pack), expected);
    }
    let mut fine = ContentPack::empty();
    fine.triggers.push(rule(
        GameTrigger::OnLevelUp { level: 3 },
        vec![TriggerCondition::Always, TriggerCondition::Chance { p: dec(5, 1) }],
        vec![RuleAction::GrantXp { amount: 5 }],
    ));
    assert_eq!(fine.validate(), Ok(()));
}

#[test]
fn a_set_needs_its_pieces_and_a_runeword_its_runes() {
    let mut pack = ContentPack::empty();
    pack.item_sets.push(SetDef {
        id: SetId::new("set.s"),
        name: "s".to_string(),
        pieces: vec![ItemId::new("item.none")],
        bonuses: vec![],
    });
    assert_eq!(complaint(&pack), "set set.s lists missing item item.none");

    let mut other = ContentPack::empty();
    other.runewords.push(RunewordDef {
        id: RunewordId::new("rw.w"),
        name: "w".to_string(),
        sequence: vec!["ur".to_string(), "tal".to_string()],
        base_slots: vec![EquipSlot::Staff],
        level_req: 1,
        mods: StatMods::default(),
        triggers: vec![],
        grants_spells: vec![],
    });
    other.gems.push(gem("gem.ur", "Ur", 1).rune("ur"));
    assert_eq!(complaint(&other), "runeword rw.w needs missing rune symbol tal");
    other.gems.push(gem("gem.tal", "Tal", 1).rune("tal"));
    assert_eq!(other.validate(), Ok(()));
}

#[test]
fn the_first_complaint_is_the_one_reported() {
    let mut pack = ContentPack::empty();
    pack.loot_tables.push(table("loot.l", "item.none"));
    pack.abilities.push(ability("ability.a", "spell.one"));
    pack.abilities.push(ability("ability.b", "spell.two"));
    assert_eq!(complaint(&pack), "ability ability.a references missing spell spell.one");
}
