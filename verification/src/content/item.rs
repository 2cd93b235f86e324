//! Items: equippable gear, consumables, and craftable materials.
//!
//! An [`ItemDef`] is pure data. Items are the main way a player gains *capabilities*
//! (spells, movement modes, abilities) and *stats* in the world: a staff grants a
//! fireball, boots grant a dash, a robe boosts mana. Live inventories store
//! per-character [`crate::content::ids::ItemId`]s (and, in the sim, rolled *instances* that
//! layer upgrade level, affixes, sockets, and enchants on top), so re-tuning a base
//! item is a hot-reload, never a save migration.
//!
//! Design law for Cerena gear (Leif): **everything you wear has a noticeable effect
//! and impact.** A sword is not "+3 damage" — it is a combo-extending arc that chains
//! lightning on crit and grows hungrier with every kill. Boots leave a fire trail.
//! A robe converts overheal into a shield. To make that expressive *as data*, an item
//! carries not only flat [`StatMods`] but a set of [`ItemTrigger`] procs, sockets,
//! a set membership, and an [`UpgradeProfile`] — all composed by the sim from the
//! same closed primitive sets (the spell VM does the actual work).

use crate::content::ids::{AbilityId, ElementId, ItemId, MaterialId, MobId, MovementModeId, SetId, SpellId, StatusId, TechNodeId};
use crate::scalar::{dec, decimal, Scalar};
use crate::text::same;
use vstd::prelude::*;

verus! {

/// How rare / powerful an item is. Drives drop weighting, affix budget, socket count,
/// name tint, and the VFX budget the client spends on its glow. The sim does branch on
/// it for the *roll* (how many affixes / sockets a dropped instance gets), but combat
/// reads the rolled [`StatMods`], not the tier.
#[derive(Debug, Clone, Copy, PartialEq, Eq, PartialOrd, Ord, Structural)]
pub enum Rarity {
    Common,
    Uncommon,
    Rare,
    Epic,
    Legendary,
    Mythic,
}

/// The body slot an item occupies. A character may equip one item per wearable
/// slot (relics/trinkets/consumables follow their own inventory rules in the sim).
#[derive(Debug, Clone, Copy, PartialEq, Eq, Structural)]
pub enum EquipSlot {
    /// Main hand: a staff/wand/orb. The caster's primary magic implement.
    Staff,
    /// Main hand alternative: a melee weapon (sword/axe/maul). Drives `World::melee_attack`.
    Weapon,
    /// Off-hand focus / tome / shield. Grants block + a defensive proc niche.
    Offhand,
    /// Chest: robe / cuirass. The biggest stat block; mana and survivability.
    Robe,
    /// Head: hat / circlet / helm.
    Helm,
    /// Hands: gloves / gauntlets. Attack/cast speed niche.
    Gloves,
    /// Feet: boots / sabatons. Movement, dashes, parkour grants.
    Boots,
    /// Belt: a quick-slot / utility niche.
    Belt,
    Ring,
    Amulet,
    /// A powerful socketable artifact (one of a kind effects).
    Relic,
    Consumable,
    Trinket,
    /// Never equipped: a pure crafting reagent / essence.
    Unworn,
}

/// Per-element damage / resistance modifiers. Folded into combat by the simulation:
/// `elem_damage` raises outgoing damage of that element, `elem_resist` cuts incoming.
/// Kept as named fields (rather than a map) so it stays `Copy` and folds with the
/// rest of [`StatMods`] in one pass.
#[derive(Debug, Clone, Copy, PartialEq)]
pub struct ElementMods {
    pub fire: Scalar,
    pub frost: Scalar,
    pub storm: Scalar,
    pub arcane: Scalar,
    pub nature: Scalar,
    pub necro: Scalar,
    pub chrono: Scalar,
    pub radiant: Scalar,
    /// Physical (melee / non-elemental). Swords and thorns route through here.
    pub physical: Scalar,
}

/// Flat, additive stat modifiers an item contributes while equipped. Every field is
/// `Scalar` and defaults to zero, so an item only states what it changes. The sim sums
/// every equipped item's effective mods (base + upgrade + affixes + gems + enchant +
/// set bonus) via [`StatMods::combine`] into the character's effective stats per tick.
///
/// The contract for the designer: **none of these are flavour.** Each maps to a
/// concrete seam the sim reads (see the derived stats and the combat/movement
/// hooks). If you put a number here, a player will feel it.
#[derive(Debug, Clone, Copy, PartialEq)]
pub struct StatMods {
    // --- core attributes ---
    pub power: Scalar,
    pub focus: Scalar,
    pub agility: Scalar,
    pub vitality: Scalar,

    // --- pools & regen ---
    pub max_mana: Scalar,
    pub max_health: Scalar,
    pub max_stamina: Scalar,
    pub mana_regen: Scalar,
    pub health_regen: Scalar,

    // --- casting / spell shaping (every one is felt) ---
    /// Multiplicative spell-power bonus as a fraction (0.15 = +15%). Summed, applied once.
    pub spell_power_pct: Scalar,
    /// Fraction (0..1) shaved off ability cooldowns.
    pub cooldown_reduction: Scalar,
    /// Cast-speed bonus fraction (cuts cast_time).
    pub cast_speed_pct: Scalar,
    /// Spell/projectile range bonus fraction.
    pub range_pct: Scalar,
    /// AoE radius bonus fraction (bigger novas, wider beams).
    pub aoe_radius_pct: Scalar,
    /// Projectile travel-speed bonus fraction.
    pub projectile_speed_pct: Scalar,
    /// Extra projectiles added to multi-projectile spells (rounded; a literal "+2 bolts").
    pub extra_projectiles: Scalar,
    /// Extra pierce: how many additional targets a projectile/beam punches through.
    pub pierce: Scalar,
    /// Fraction of a hit's damage also dealt to nearby foes (cleave / splash).
    pub area_damage: Scalar,

    // --- crit & sustain ---
    /// Added critical-strike chance (0..1).
    pub crit_chance: Scalar,
    /// Added critical *bonus* multiplier (0.5 = crits hit +50% harder than baseline).
    pub crit_damage: Scalar,
    /// Fraction of damage dealt returned as health.
    pub lifesteal: Scalar,
    /// Fraction of spell damage dealt returned as mana.
    pub mana_leech: Scalar,
    /// Flat health restored on a kill.
    pub health_on_kill: Scalar,
    /// Flat mana restored on a kill.
    pub mana_on_kill: Scalar,

    // --- defence ---
    /// Flat damage subtracted from every incoming hit (after resist), floored at a chip.
    pub armor: Scalar,
    /// Multiplicative incoming-damage reduction fraction (capped by the sim).
    pub armor_pct: Scalar,
    /// Chance (0..1) to block, halving a hit (off-hands / shields).
    pub block_chance: Scalar,
    /// Fraction of incoming damage reflected to the attacker.
    pub thorns: Scalar,
    /// Crowd-control duration reduction fraction (stuns/slows/roots last less).
    pub tenacity: Scalar,
    /// Fall-damage reduction fraction.
    pub fall_damage_pct: Scalar,

    // --- melee & movement (so swords and boots matter) ---
    /// Melee damage bonus fraction (drives `World::melee_attack`).
    pub melee_power_pct: Scalar,
    /// Added melee reach in metres (a longer sword arc).
    pub melee_range: Scalar,
    /// Attack/swing/melee-speed bonus fraction (faster combo cadence).
    pub attack_speed_pct: Scalar,
    /// Knockback bonus fraction on melee and impulse.
    pub knockback_pct: Scalar,
    /// Flat addition to base movement speed (m/s).
    pub move_speed: Scalar,
    /// Extra mid-air jumps granted (boots).
    pub jump_count: Scalar,
    /// Extra burst-movement (dash/blink) charges.
    pub dash_charges: Scalar,

    // --- summons ---
    /// Summon damage/health bonus fraction.
    pub summon_power_pct: Scalar,
    /// Extra summons added to summon spells.
    pub summon_count: Scalar,

    // --- economy / discovery ---
    /// Loot rarity+quantity bonus fraction (shifts drop rolls up the rarity ladder).
    pub magic_find: Scalar,
    /// Essence/currency find bonus fraction.
    pub gold_find: Scalar,
    /// XP gain bonus fraction.
    pub xp_gain_pct: Scalar,

    // --- per-element ---
    /// Outgoing damage bonus per element.
    pub elem_damage: ElementMods,
    /// Incoming damage reduction per element.
    pub elem_resist: ElementMods,
}

/// When a proc fires. Each maps to a concrete event the sim already raises.
#[derive(Debug, Clone, PartialEq)]
pub enum ProcWhen {
    /// On any damaging hit you land (melee or spell).
    OnHit,
    /// On a critical hit you land.
    OnCrit,
    /// On a melee swing connecting.
    OnMelee,
    /// On a kill you secure.
    OnKill,
    /// Whenever you finish casting a spell.
    OnCast,
    /// When you take damage.
    OnTakeDamage,
    /// When a hit would drop you below `frac` health (panic buttons; respects ICD).
    OnLowHealth { frac: Scalar },
    /// When you successfully block.
    OnBlock,
    /// When you dash / blink / use a burst-movement ability.
    OnDash,
    /// Continuously while equipped (an aura). `effect` is applied/refreshed each tick.
    Aura,
    /// On a fixed interval in seconds (heartbeat effects: a pulsing nova, a regen tick).
    Interval { secs: Scalar },
}

/// What a proc does. Most route into the spell VM (reuse all of `EffectOp`); a few are
/// direct so common cases need no companion `SpellDef`.
#[derive(Debug, Clone, PartialEq)]
pub enum ProcEffect {
    /// Cast a full spell from the pack at the proc's natural origin/target (impact for
    /// OnHit, self for Aura, etc.). The richest option — anything the VM can express.
    CastSpell { spell: SpellId },
    /// Apply a status to the wearer.
    BuffSelf { status: StatusId, duration_s: Scalar, stacks: u8 },
    /// Apply a status to the thing that was hit / the attacker.
    DebuffTarget { status: StatusId, duration_s: Scalar, stacks: u8 },
    /// A burst of elemental damage in a radius around the event point.
    Nova { element: ElementId, radius: Scalar, damage: Scalar },
    /// A bolt that arcs to up to `jumps` nearby foes for `damage` each.
    ChainBolt { element: ElementId, jumps: u8, damage: Scalar },
    /// Heal the wearer a flat amount.
    Heal { amount: Scalar },
    /// Grant the wearer a temporary shield.
    Shield { amount: Scalar, duration_s: Scalar },
    /// Grant a temporary flat [`StatMods`] buff to the wearer (a "Berserk" surge).
    TempStats { mods: Box<StatMods>, duration_s: Scalar },
    /// Summon a creature to fight for the wearer.
    Summon { mob: MobId, count: u8, duration_s: Scalar },
}

/// A complete proc: a chance-gated, internal-cooldown-gated [`ProcEffect`] on a
/// [`ProcWhen`] event. This is the unit of "every item does something."
#[derive(Debug, Clone, PartialEq)]
pub struct ItemTrigger {
    /// Short label for the tooltip ("Chain Lightning on crit").
    pub label: String,
    pub when: ProcWhen,
    /// Probability (0..1) the proc fires when its event occurs. 1.0 = always.
    pub chance: Scalar,
    /// Internal cooldown in seconds: the minimum gap between fires (anti-spam).
    pub icd_s: Scalar,
    pub effect: ProcEffect,
}

/// How an item base grows when forged (+1, +2, ... up to `max_level`). A rolled
/// instance stores only its current `upgrade_level`; the effective mods are
/// `base.scaled(1 + level * stat_growth)` plus the per-level flat/proc additions.
/// The sim's `forge` module spends [`UpgradeProfile::essence`] to raise the level and
/// rolls failure above `safe_until`.
#[derive(Debug, Clone, PartialEq)]
pub struct UpgradeProfile {
    /// Hard cap on the upgrade level.
    pub max_level: u8,
    /// Per-level multiplicative growth of the item's [`StatMods`] (0.08 = +8%/level).
    pub stat_growth: Scalar,
    /// Per-level growth of the magnitude of the item's procs (bigger novas, etc.).
    pub proc_growth: Scalar,
    /// The essence/reagent item consumed per upgrade attempt.
    pub essence: ItemId,
    /// Base essence count for a +1; the cost grows with level in the forge.
    pub essence_cost_base: u16,
    /// Levels at and below which an upgrade can never fail.
    pub safe_until: u8,
    /// Per-level failure chance above `safe_until` (a failure consumes essence and,
    /// past a threshold, can shave one level — tuned in the forge config).
    pub fail_chance_per_level: Scalar,
}

/// A crafting recipe: a bag of input items (id + quantity) and an optional tech-tree
/// gate. The sim's crafting system consumes the inputs and produces the owning item.
#[derive(Debug, Clone)]
pub struct CraftRecipe {
    /// Required reagents as `(item, quantity)` pairs.
    pub inputs: Vec<(ItemId, u16)>,
    /// A tech node that must be unlocked before this recipe is craftable.
    pub tech_req: Option<TechNodeId>,
}

/// A complete item definition: the *base* that drops roll from and that the forge
/// upgrades. The flagship way players gain power — equip it for its [`StatMods`], its
/// procs, the spells / movement modes / abilities it grants, or use a consumable to
/// fire its `on_use` spell.
#[derive(Debug, Clone)]
pub struct ItemDef {
    pub id: ItemId,
    pub name: String,
    /// Tooltip flavour text; cosmetic.
    pub description: String,
    pub rarity: Rarity,
    pub slot: EquipSlot,

    /// Base stats granted while equipped (before upgrade/affixes/gems/set).
    pub stat_mods: StatMods,
    /// Innate procs every instance of this base carries (a Legendary's signature
    /// mechanic lives here). Distinct from affix procs, which are rolled per instance.
    pub triggers: Vec<ItemTrigger>,

    /// Spells this item adds to the wielder's spellbook while equipped.
    pub grants_spells: Vec<SpellId>,
    /// Movement / parkour modes unlocked while equipped.
    pub grants_movement: Vec<MovementModeId>,
    /// Equipped abilities (bound actions) this item provides.
    pub grants_abilities: Vec<AbilityId>,

    /// Procedural material used to texture the item mesh.
    pub material: Option<MaterialId>,
    /// Whether multiple copies stack in one inventory slot.
    pub stackable: bool,
    /// Maximum count per stack (1 if not stackable).
    pub max_stack: u16,
    /// A spell fired when the item is consumed/activated (potions, scrolls).
    pub on_use: Option<SpellId>,
    /// Minimum character level required to equip / use.
    pub level_req: u32,
    /// Optional crafting recipe that produces this item.
    pub craft: Option<CraftRecipe>,

    // --- the new "build" layer ---
    /// Number of sockets present on a *base* drop of this item (rolled instances may
    /// plus more up to the rarity's socket budget). Gems / runes slot here.
    pub base_sockets: u8,
    /// Which affix tags may roll on this item (e.g. `["caster","fire","universal"]`).
    /// The forge filters the affix pool by slot *and* these tags.
    pub affix_tags: Vec<String>,
    /// Set this item belongs to (set bonuses activate by equipped-piece count).
    pub set: Option<SetId>,
    /// Upgrade scaling. `None` means the item cannot be forged (consumables, reagents).
    pub upgrade: Option<UpgradeProfile>,
    /// True for hand-authored unique/legendary items: they never roll random affixes
    /// over their signature, only sockets and upgrade levels.
    pub unique: bool,
    /// If true the item soulbinds to the first wielder (can't be looted off your
    /// corpse). Legendaries/Mythics typically bind; everything else is free-floating.
    pub soulbound: bool,
}

impl Rarity {
    /// The place of the rarity on the ladder, from the bottom.
    pub open spec fn rung(self) -> int {
        match self {
            Rarity::Common => 0,
            Rarity::Uncommon => 1,
            Rarity::Rare => 2,
            Rarity::Epic => 3,
            Rarity::Legendary => 4,
            Rarity::Mythic => 5,
        }
    }

    /// The maximum number of *random* affixes an instance of this rarity may roll.
    /// Legendary/Mythic items are largely defined by fixed signature mechanics, so they
    /// roll *fewer* random affixes on top of a richer base.
    pub fn affix_budget(self) -> (r: u8)
        ensures
            r == match self {
                Rarity::Common => 0u8,
                Rarity::Uncommon => 2u8,
                Rarity::Rare => 4u8,
                Rarity::Epic => 5u8,
                Rarity::Legendary => 3u8,
                Rarity::Mythic => 4u8,
            },
    {
        match self {
            Rarity::Common => 0,
            Rarity::Uncommon => 2,
            Rarity::Rare => 4,
            Rarity::Epic => 5,
            Rarity::Legendary => 3,
            Rarity::Mythic => 4,
        }
    }

    /// The most sockets that a rarity allows.
    pub open spec fn sockets(self) -> u8 {
        match self {
            Rarity::Common => 0,
            Rarity::Uncommon => 1,
            Rarity::Rare => 2,
            Rarity::Epic => 3,
            Rarity::Legendary => 3,
            Rarity::Mythic => 4,
        }
    }

    /// The maximum number of sockets an instance of this rarity may roll.
    pub fn socket_budget(self) -> (r: u8)
        ensures
            r == self.sockets(),
    {
        match self {
            Rarity::Common => 0,
            Rarity::Uncommon => 1,
            Rarity::Rare => 2,
            Rarity::Epic => 3,
            Rarity::Legendary => 3,
            Rarity::Mythic => 4,
        }
    }

    /// Multiplier applied to a rolled instance's base stat budget. Higher rarity bases
    /// simply carry more.
    pub fn power_factor(self) -> (r: Scalar)
        ensures
            r == match self {
                Rarity::Common => decimal(1, 0),
                Rarity::Uncommon => decimal(115, 2),
                Rarity::Rare => decimal(135, 2),
                Rarity::Epic => decimal(16, 1),
                Rarity::Legendary => decimal(2, 0),
                Rarity::Mythic => decimal(26, 1),
            },
    {
        match self {
            Rarity::Common => dec(1, 0),
            Rarity::Uncommon => dec(115, 2),
            Rarity::Rare => dec(135, 2),
            Rarity::Epic => dec(16, 1),
            Rarity::Legendary => dec(2, 0),
            Rarity::Mythic => dec(26, 1),
        }
    }

    /// Relative drop weight (higher = more common). Magic-find shifts the roll up this
    /// ladder.
    pub fn drop_weight(self) -> (r: Scalar)
        ensures
            r == match self {
                Rarity::Common => decimal(1000, 0),
                Rarity::Uncommon => decimal(420, 0),
                Rarity::Rare => decimal(130, 0),
                Rarity::Epic => decimal(34, 0),
                Rarity::Legendary => decimal(7, 0),
                Rarity::Mythic => decimal(1, 0),
            },
    {
        match self {
            Rarity::Common => dec(1000, 0),
            Rarity::Uncommon => dec(420, 0),
            Rarity::Rare => dec(130, 0),
            Rarity::Epic => dec(34, 0),
            Rarity::Legendary => dec(7, 0),
            Rarity::Mythic => dec(1, 0),
        }
    }

    /// The next rarity up (saturating at `Mythic`). Used by magic-find upgrade rolls and
    /// by gem/essence fusion that "promotes" an item's tier.
    pub fn promote(self) -> (r: Rarity)
        ensures
            r.rung() == if self.rung() < 5 {
                self.rung() + 1
            } else {
                5
            },
    {
        match self {
            Rarity::Common => Rarity::Uncommon,
            Rarity::Uncommon => Rarity::Rare,
            Rarity::Rare => Rarity::Epic,
            Rarity::Epic => Rarity::Legendary,
            Rarity::Legendary => Rarity::Mythic,
            Rarity::Mythic => Rarity::Mythic,
        }
    }

    /// Client name tint as a linear-ish RGB triple (the client maps it to its palette).
    pub fn tint(self) -> (r: [Scalar; 3])
        ensures
            r@ == match self {
                Rarity::Common => seq![decimal(78, 2), decimal(78, 2), decimal(8, 1)],
                Rarity::Uncommon => seq![decimal(3, 1), decimal(85, 2), decimal(35, 2)],
                Rarity::Rare => seq![decimal(3, 1), decimal(55, 2), decimal(1, 0)],
                Rarity::Epic => seq![decimal(7, 1), decimal(35, 2), decimal(95, 2)],
                Rarity::Legendary => seq![decimal(1, 0), decimal(62, 2), decimal(18, 2)],
                Rarity::Mythic => seq![decimal(1, 0), decimal(3, 1), decimal(45, 2)],
            },
    {
        match self {
            Rarity::Common => [dec(78, 2), dec(78, 2), dec(8, 1)],
            Rarity::Uncommon => [dec(3, 1), dec(85, 2), dec(35, 2)],
            Rarity::Rare => [dec(3, 1), dec(55, 2), dec(1, 0)],
            Rarity::Epic => [dec(7, 1), dec(35, 2), dec(95, 2)],
            Rarity::Legendary => [dec(1, 0), dec(62, 2), dec(18, 2)],
            Rarity::Mythic => [dec(1, 0), dec(3, 1), dec(45, 2)],
        }
    }
}

/// A rung names one rarity.
pub proof fn rungs_are_distinct(a: Rarity, b: Rarity)
    requires
        a.rung() == b.rung(),
    ensures
        a == b,
{
}

/// Climbing the ladder never costs a socket.
pub proof fn sockets_grow_with_rarity(a: Rarity, b: Rarity)
    requires
        a.rung() <= b.rung(),
    ensures
        a.sockets() <= b.sockets(),
{
}

impl EquipSlot {
    /// Worn on the body: the slots in which gems read as armor.
    pub open spec fn armor(self) -> bool {
        self is Robe || self is Helm || self is Gloves || self is Boots || self is Belt
            || self is Offhand
    }

    /// Held to deal damage: the slots in which gems read as a weapon.
    pub open spec fn weapon(self) -> bool {
        self is Staff || self is Weapon
    }

    /// Whether this slot is "armor" for the purpose of gem behaviour (gems read
    /// differently in weapons vs armor, a la classic ARPGs) and set accounting.
    pub fn is_armor(self) -> (r: bool)
        ensures
            r == self.armor(),
    {
        matches!(
            self,
            EquipSlot::Robe
                | EquipSlot::Helm
                | EquipSlot::Gloves
                | EquipSlot::Boots
                | EquipSlot::Belt
                | EquipSlot::Offhand
        )
    }

    /// Whether this slot deals damage (weapon/staff) for gem behaviour.
    pub fn is_weapon(self) -> (r: bool)
        ensures
            r == self.weapon(),
    {
        matches!(self, EquipSlot::Staff | EquipSlot::Weapon)
    }

    /// Whether a character may hold more than one equipped (rings).
    pub fn is_multi(self) -> (r: bool)
        ensures
            r == (self is Ring),
    {
        matches!(self, EquipSlot::Ring)
    }
}

/// No slot is both a weapon and armor.
pub proof fn weapons_are_not_armor(slot: EquipSlot)
    ensures
        !(slot.weapon() && slot.armor()),
{
}

impl ElementMods {
    /// Every field is zero.
    pub open spec fn zeroed(self) -> bool {
        &&& self.fire.bits == 0
        &&& self.frost.bits == 0
        &&& self.storm.bits == 0
        &&& self.arcane.bits == 0
        &&& self.nature.bits == 0
        &&& self.necro.bits == 0
        &&& self.chrono.bits == 0
        &&& self.radiant.bits == 0
        &&& self.physical.bits == 0
    }

    /// Each field of `r` is what `plus` makes of the same field of `a` and of `b`.
    pub open spec fn is_sum<F: Fn(Scalar, Scalar) -> Scalar>(a: Self, b: Self, plus: F, r: Self) -> bool {
        &&& call_ensures(plus, (a.fire, b.fire), r.fire)
        &&& call_ensures(plus, (a.frost, b.frost), r.frost)
        &&& call_ensures(plus, (a.storm, b.storm), r.storm)
        &&& call_ensures(plus, (a.arcane, b.arcane), r.arcane)
        &&& call_ensures(plus, (a.nature, b.nature), r.nature)
        &&& call_ensures(plus, (a.necro, b.necro), r.necro)
        &&& call_ensures(plus, (a.chrono, b.chrono), r.chrono)
        &&& call_ensures(plus, (a.radiant, b.radiant), r.radiant)
        &&& call_ensures(plus, (a.physical, b.physical), r.physical)
    }

    /// Each field of `r` is what `times` makes of the same field of `a` and of `t`.
    pub open spec fn is_scaled<F: Fn(Scalar, Scalar) -> Scalar>(a: Self, t: Scalar, times: F, r: Self) -> bool {
        &&& call_ensures(times, (a.fire, t), r.fire)
        &&& call_ensures(times, (a.frost, t), r.frost)
        &&& call_ensures(times, (a.storm, t), r.storm)
        &&& call_ensures(times, (a.arcane, t), r.arcane)
        &&& call_ensures(times, (a.nature, t), r.nature)
        &&& call_ensures(times, (a.necro, t), r.necro)
        &&& call_ensures(times, (a.chrono, t), r.chrono)
        &&& call_ensures(times, (a.radiant, t), r.radiant)
        &&& call_ensures(times, (a.physical, t), r.physical)
    }

    /// Sum this with another set of mods field-by-field; no field is left out.
    pub fn combine<F: Fn(Scalar, Scalar) -> Scalar>(&self, other: &Self, plus: &F) -> (r: Self)
        requires
            forall|x: Scalar, y: Scalar| call_requires(*plus, (x, y)),
        ensures
            Self::is_sum(*self, *other, *plus, r),
    {
        ElementMods {
            fire: plus(self.fire, other.fire),
            frost: plus(self.frost, other.frost),
            storm: plus(self.storm, other.storm),
            arcane: plus(self.arcane, other.arcane),
            nature: plus(self.nature, other.nature),
            necro: plus(self.necro, other.necro),
            chrono: plus(self.chrono, other.chrono),
            radiant: plus(self.radiant, other.radiant),
            physical: plus(self.physical, other.physical),
        }
    }

    /// Scale every field by `t`; no field is left out.
    pub fn scaled<F: Fn(Scalar, Scalar) -> Scalar>(&self, t: Scalar, times: &F) -> (r: Self)
        requires
            forall|x: Scalar, y: Scalar| call_requires(*times, (x, y)),
        ensures
            Self::is_scaled(*self, t, *times, r),
    {
        ElementMods {
            fire: times(self.fire, t),
            frost: times(self.frost, t),
            storm: times(self.storm, t),
            arcane: times(self.arcane, t),
            nature: times(self.nature, t),
            necro: times(self.necro, t),
            chrono: times(self.chrono, t),
            radiant: times(self.radiant, t),
            physical: times(self.physical, t),
        }
    }
}

impl Default for ElementMods {
    fn default() -> (r: Self)
        ensures
            r.zeroed(),
    {
        let zero = Scalar { bits: 0 };
        ElementMods {
            fire: zero,
            frost: zero,
            storm: zero,
            arcane: zero,
            nature: zero,
            necro: zero,
            chrono: zero,
            radiant: zero,
            physical: zero,
        }
    }
}

impl ElementMods {
    /// The modifier that an element's name selects: its own, or `physical` for every name
    /// that is not one of the magic elements.
    pub open spec fn of(self, element: Seq<char>) -> Scalar {
        if element == "fire"@ {
            self.fire
        } else if element == "frost"@ {
            self.frost
        } else if element == "storm"@ {
            self.storm
        } else if element == "arcane"@ {
            self.arcane
        } else if element == "nature"@ {
            self.nature
        } else if element == "necro"@ || element == "void"@ {
            self.necro
        } else if element == "chrono"@ || element == "time"@ {
            self.chrono
        } else if element == "radiant"@ || element == "light"@ {
            self.radiant
        } else {
            self.physical
        }
    }

    /// Resolve the modifier for an element by its content id. Unknown elements map to
    /// `physical` so non-elemental hits still benefit from "+physical" gear.
    pub fn get(&self, element: &ElementId) -> (r: Scalar)
        ensures
            r == self.of(element@),
    {
        let name = element.as_str();
        if same(name, "fire") {
            self.fire
        } else if same(name, "frost") {
            self.frost
        } else if same(name, "storm") {
            self.storm
        } else if same(name, "arcane") {
            self.arcane
        } else if same(name, "nature") {
            self.nature
        } else if same(name, "necro") || same(name, "void") {
            self.necro
        } else if same(name, "chrono") || same(name, "time") {
            self.chrono
        } else if same(name, "radiant") || same(name, "light") {
            self.radiant
        } else {
            self.physical
        }
    }
}

impl StatMods {
    /// Every field is zero.
    pub open spec fn zeroed(self) -> bool {
        &&& self.power.bits == 0
        &&& self.focus.bits == 0
        &&& self.agility.bits == 0
        &&& self.vitality.bits == 0
        &&& self.max_mana.bits == 0
        &&& self.max_health.bits == 0
        &&& self.max_stamina.bits == 0
        &&& self.mana_regen.bits == 0
        &&& self.health_regen.bits == 0
        &&& self.spell_power_pct.bits == 0
        &&& self.cooldown_reduction.bits == 0
        &&& self.cast_speed_pct.bits == 0
        &&& self.range_pct.bits == 0
        &&& self.aoe_radius_pct.bits == 0
        &&& self.projectile_speed_pct.bits == 0
        &&& self.extra_projectiles.bits == 0
        &&& self.pierce.bits == 0
        &&& self.area_damage.bits == 0
        &&& self.crit_chance.bits == 0
        &&& self.crit_damage.bits == 0
        &&& self.lifesteal.bits == 0
        &&& self.mana_leech.bits == 0
        &&& self.health_on_kill.bits == 0
        &&& self.mana_on_kill.bits == 0
        &&& self.armor.bits == 0
        &&& self.armor_pct.bits == 0
        &&& self.block_chance.bits == 0
        &&& self.thorns.bits == 0
        &&& self.tenacity.bits == 0
        &&& self.fall_damage_pct.bits == 0
        &&& self.melee_power_pct.bits == 0
        &&& self.melee_range.bits == 0
        &&& self.attack_speed_pct.bits == 0
        &&& self.knockback_pct.bits == 0
        &&& self.move_speed.bits == 0
        &&& self.jump_count.bits == 0
        &&& self.dash_charges.bits == 0
        &&& self.summon_power_pct.bits == 0
        &&& self.summon_count.bits == 0
        &&& self.magic_find.bits == 0
        &&& self.gold_find.bits == 0
        &&& self.xp_gain_pct.bits == 0
        &&& self.elem_damage.zeroed()
        &&& self.elem_resist.zeroed()
    }

    /// Each field of `r` is what `plus` makes of the same field of `a` and of `b`.
    pub open spec fn is_sum<F: Fn(Scalar, Scalar) -> Scalar>(a: Self, b: Self, plus: F, r: Self) -> bool {
        &&& call_ensures(plus, (a.power, b.power), r.power)
        &&& call_ensures(plus, (a.focus, b.focus), r.focus)
        &&& call_ensures(plus, (a.agility, b.agility), r.agility)
        &&& call_ensures(plus, (a.vitality, b.vitality), r.vitality)
        &&& call_ensures(plus, (a.max_mana, b.max_mana), r.max_mana)
        &&& call_ensures(plus, (a.max_health, b.max_health), r.max_health)
        &&& call_ensures(plus, (a.max_stamina, b.max_stamina), r.max_stamina)
        &&& call_ensures(plus, (a.mana_regen, b.mana_regen), r.mana_regen)
        &&& call_ensures(plus, (a.health_regen, b.health_regen), r.health_regen)
        &&& call_ensures(plus, (a.spell_power_pct, b.spell_power_pct), r.spell_power_pct)
        &&& call_ensures(plus, (a.cooldown_reduction, b.cooldown_reduction), r.cooldown_reduction)
        &&& call_ensures(plus, (a.cast_speed_pct, b.cast_speed_pct), r.cast_speed_pct)
        &&& call_ensures(plus, (a.range_pct, b.range_pct), r.range_pct)
        &&& call_ensures(plus, (a.aoe_radius_pct, b.aoe_radius_pct), r.aoe_radius_pct)
        &&& call_ensures(plus, (a.projectile_speed_pct, b.projectile_speed_pct), r.projectile_speed_pct)
        &&& call_ensures(plus, (a.extra_projectiles, b.extra_projectiles), r.extra_projectiles)
        &&& call_ensures(plus, (a.pierce, b.pierce), r.pierce)
        &&& call_ensures(plus, (a.area_damage, b.area_damage), r.area_damage)
        &&& call_ensures(plus, (a.crit_chance, b.crit_chance), r.crit_chance)
        &&& call_ensures(plus, (a.crit_damage, b.crit_damage), r.crit_damage)
        &&& call_ensures(plus, (a.lifesteal, b.lifesteal), r.lifesteal)
        &&& call_ensures(plus, (a.mana_leech, b.mana_leech), r.mana_leech)
        &&& call_ensures(plus, (a.health_on_kill, b.health_on_kill), r.health_on_kill)
        &&& call_ensures(plus, (a.mana_on_kill, b.mana_on_kill), r.mana_on_kill)
        &&& call_ensures(plus, (a.armor, b.armor), r.armor)
        &&& call_ensures(plus, (a.armor_pct, b.armor_pct), r.armor_pct)
        &&& call_ensures(plus, (a.block_chance, b.block_chance), r.block_chance)
        &&& call_ensures(plus, (a.thorns, b.thorns), r.thorns)
        &&& call_ensures(plus, (a.tenacity, b.tenacity), r.tenacity)
        &&& call_ensures(plus, (a.fall_damage_pct, b.fall_damage_pct), r.fall_damage_pct)
        &&& call_ensures(plus, (a.melee_power_pct, b.melee_power_pct), r.melee_power_pct)
        &&& call_ensures(plus, (a.melee_range, b.melee_range), r.melee_range)
        &&& call_ensures(plus, (a.attack_speed_pct, b.attack_speed_pct), r.attack_speed_pct)
        &&& call_ensures(plus, (a.knockback_pct, b.knockback_pct), r.knockback_pct)
        &&& call_ensures(plus, (a.move_speed, b.move_speed), r.move_speed)
        &&& call_ensures(plus, (a.jump_count, b.jump_count), r.jump_count)
        &&& call_ensures(plus, (a.dash_charges, b.dash_charges), r.dash_charges)
        &&& call_ensures(plus, (a.summon_power_pct, b.summon_power_pct), r.summon_power_pct)
        &&& call_ensures(plus, (a.summon_count, b.summon_count), r.summon_count)
        &&& call_ensures(plus, (a.magic_find, b.magic_find), r.magic_find)
        &&& call_ensures(plus, (a.gold_find, b.gold_find), r.gold_find)
        &&& call_ensures(plus, (a.xp_gain_pct, b.xp_gain_pct), r.xp_gain_pct)
        &&& ElementMods::is_sum(a.elem_damage, b.elem_damage, plus, r.elem_damage)
        &&& ElementMods::is_sum(a.elem_resist, b.elem_resist, plus, r.elem_resist)
    }

    /// Each field of `r` is what `times` makes of the same field of `a` and of `t`.
    pub open spec fn is_scaled<F: Fn(Scalar, Scalar) -> Scalar>(a: Self, t: Scalar, times: F, r: Self) -> bool {
        &&& call_ensures(times, (a.power, t), r.power)
        &&& call_ensures(times, (a.focus, t), r.focus)
        &&& call_ensures(times, (a.agility, t), r.agility)
        &&& call_ensures(times, (a.vitality, t), r.vitality)
        &&& call_ensures(times, (a.max_mana, t), r.max_mana)
        &&& call_ensures(times, (a.max_health, t), r.max_health)
        &&& call_ensures(times, (a.max_stamina, t), r.max_stamina)
        &&& call_ensures(times, (a.mana_regen, t), r.mana_regen)
        &&& call_ensures(times, (a.health_regen, t), r.health_regen)
        &&& call_ensures(times, (a.spell_power_pct, t), r.spell_power_pct)
        &&& call_ensures(times, (a.cooldown_reduction, t), r.cooldown_reduction)
        &&& call_ensures(times, (a.cast_speed_pct, t), r.cast_speed_pct)
        &&& call_ensures(times, (a.range_pct, t), r.range_pct)
        &&& call_ensures(times, (a.aoe_radius_pct, t), r.aoe_radius_pct)
        &&& call_ensures(times, (a.projectile_speed_pct, t), r.projectile_speed_pct)
        &&& call_ensures(times, (a.extra_projectiles, t), r.extra_projectiles)
        &&& call_ensures(times, (a.pierce, t), r.pierce)
        &&& call_ensures(times, (a.area_damage, t), r.area_damage)
        &&& call_ensures(times, (a.crit_chance, t), r.crit_chance)
        &&& call_ensures(times, (a.crit_damage, t), r.crit_damage)
        &&& call_ensures(times, (a.lifesteal, t), r.lifesteal)
        &&& call_ensures(times, (a.mana_leech, t), r.mana_leech)
        &&& call_ensures(times, (a.health_on_kill, t), r.health_on_kill)
        &&& call_ensures(times, (a.mana_on_kill, t), r.mana_on_kill)
        &&& call_ensures(times, (a.armor, t), r.armor)
        &&& call_ensures(times, (a.armor_pct, t), r.armor_pct)
        &&& call_ensures(times, (a.block_chance, t), r.block_chance)
        &&& call_ensures(times, (a.thorns, t), r.thorns)
        &&& call_ensures(times, (a.tenacity, t), r.tenacity)
        &&& call_ensures(times, (a.fall_damage_pct, t), r.fall_damage_pct)
        &&& call_ensures(times, (a.melee_power_pct, t), r.melee_power_pct)
        &&& call_ensures(times, (a.melee_range, t), r.melee_range)
        &&& call_ensures(times, (a.attack_speed_pct, t), r.attack_speed_pct)
        &&& call_ensures(times, (a.knockback_pct, t), r.knockback_pct)
        &&& call_ensures(times, (a.move_speed, t), r.move_speed)
        &&& call_ensures(times, (a.jump_count, t), r.jump_count)
        &&& call_ensures(times, (a.dash_charges, t), r.dash_charges)
        &&& call_ensures(times, (a.summon_power_pct, t), r.summon_power_pct)
        &&& call_ensures(times, (a.summon_count, t), r.summon_count)
        &&& call_ensures(times, (a.magic_find, t), r.magic_find)
        &&& call_ensures(times, (a.gold_find, t), r.gold_find)
        &&& call_ensures(times, (a.xp_gain_pct, t), r.xp_gain_pct)
        &&& ElementMods::is_scaled(a.elem_damage, t, times, r.elem_damage)
        &&& ElementMods::is_scaled(a.elem_resist, t, times, r.elem_resist)
    }

    /// Sum this with another set of mods field-by-field; no field is left out.
    pub fn combine<F: Fn(Scalar, Scalar) -> Scalar>(&self, other: &Self, plus: &F) -> (r: Self)
        requires
            forall|x: Scalar, y: Scalar| call_requires(*plus, (x, y)),
        ensures
            Self::is_sum(*self, *other, *plus, r),
    {
        StatMods {
            power: plus(self.power, other.power),
            focus: plus(self.focus, other.focus),
            agility: plus(self.agility, other.agility),
            vitality: plus(self.vitality, other.vitality),
            max_mana: plus(self.max_mana, other.max_mana),
            max_health: plus(self.max_health, other.max_health),
            max_stamina: plus(self.max_stamina, other.max_stamina),
            mana_regen: plus(self.mana_regen, other.mana_regen),
            health_regen: plus(self.health_regen, other.health_regen),
            spell_power_pct: plus(self.spell_power_pct, other.spell_power_pct),
            cooldown_reduction: plus(self.cooldown_reduction, other.cooldown_reduction),
            cast_speed_pct: plus(self.cast_speed_pct, other.cast_speed_pct),
            range_pct: plus(self.range_pct, other.range_pct),
            aoe_radius_pct: plus(self.aoe_radius_pct, other.aoe_radius_pct),
            projectile_speed_pct: plus(self.projectile_speed_pct, other.projectile_speed_pct),
            extra_projectiles: plus(self.extra_projectiles, other.extra_projectiles),
            pierce: plus(self.pierce, other.pierce),
            area_damage: plus(self.area_damage, other.area_damage),
            crit_chance: plus(self.crit_chance, other.crit_chance),
            crit_damage: plus(self.crit_damage, other.crit_damage),
            lifesteal: plus(self.lifesteal, other.lifesteal),
            mana_leech: plus(self.mana_leech, other.mana_leech),
            health_on_kill: plus(self.health_on_kill, other.health_on_kill),
            mana_on_kill: plus(self.mana_on_kill, other.mana_on_kill),
            armor: plus(self.armor, other.armor),
            armor_pct: plus(self.armor_pct, other.armor_pct),
            block_chance: plus(self.block_chance, other.block_chance),
            thorns: plus(self.thorns, other.thorns),
            tenacity: plus(self.tenacity, other.tenacity),
            fall_damage_pct: plus(self.fall_damage_pct, other.fall_damage_pct),
            melee_power_pct: plus(self.melee_power_pct, other.melee_power_pct),
            melee_range: plus(self.melee_range, other.melee_range),
            attack_speed_pct: plus(self.attack_speed_pct, other.attack_speed_pct),
            knockback_pct: plus(self.knockback_pct, other.knockback_pct),
            move_speed: plus(self.move_speed, other.move_speed),
            jump_count: plus(self.jump_count, other.jump_count),
            dash_charges: plus(self.dash_charges, other.dash_charges),
            summon_power_pct: plus(self.summon_power_pct, other.summon_power_pct),
            summon_count: plus(self.summon_count, other.summon_count),
            magic_find: plus(self.magic_find, other.magic_find),
            gold_find: plus(self.gold_find, other.gold_find),
            xp_gain_pct: plus(self.xp_gain_pct, other.xp_gain_pct),
            elem_damage: self.elem_damage.combine(&other.elem_damage, plus),
            elem_resist: self.elem_resist.combine(&other.elem_resist, plus),
        }
    }

    /// Scale every field by `t`; no field is left out.
    pub fn scaled<F: Fn(Scalar, Scalar) -> Scalar>(&self, t: Scalar, times: &F) -> (r: Self)
        requires
            forall|x: Scalar, y: Scalar| call_requires(*times, (x, y)),
        ensures
            Self::is_scaled(*self, t, *times, r),
    {
        StatMods {
            power: times(self.power, t),
            focus: times(self.focus, t),
            agility: times(self.agility, t),
            vitality: times(self.vitality, t),
            max_mana: times(self.max_mana, t),
            max_health: times(self.max_health, t),
            max_stamina: times(self.max_stamina, t),
            mana_regen: times(self.mana_regen, t),
            health_regen: times(self.health_regen, t),
            spell_power_pct: times(self.spell_power_pct, t),
            cooldown_reduction: times(self.cooldown_reduction, t),
            cast_speed_pct: times(self.cast_speed_pct, t),
            range_pct: times(self.range_pct, t),
            aoe_radius_pct: times(self.aoe_radius_pct, t),
            projectile_speed_pct: times(self.projectile_speed_pct, t),
            extra_projectiles: times(self.extra_projectiles, t),
            pierce: times(self.pierce, t),
            area_damage: times(self.area_damage, t),
            crit_chance: times(self.crit_chance, t),
            crit_damage: times(self.crit_damage, t),
            lifesteal: times(self.lifesteal, t),
            mana_leech: times(self.mana_leech, t),
            health_on_kill: times(self.health_on_kill, t),
            mana_on_kill: times(self.mana_on_kill, t),
            armor: times(self.armor, t),
            armor_pct: times(self.armor_pct, t),
            block_chance: times(self.block_chance, t),
            thorns: times(self.thorns, t),
            tenacity: times(self.tenacity, t),
            fall_damage_pct: times(self.fall_damage_pct, t),
            melee_power_pct: times(self.melee_power_pct, t),
            melee_range: times(self.melee_range, t),
            attack_speed_pct: times(self.attack_speed_pct, t),
            knockback_pct: times(self.knockback_pct, t),
            move_speed: times(self.move_speed, t),
            jump_count: times(self.jump_count, t),
            dash_charges: times(self.dash_charges, t),
            summon_power_pct: times(self.summon_power_pct, t),
            summon_count: times(self.summon_count, t),
            magic_find: times(self.magic_find, t),
            gold_find: times(self.gold_find, t),
            xp_gain_pct: times(self.xp_gain_pct, t),
            elem_damage: self.elem_damage.scaled(t, times),
            elem_resist: self.elem_resist.scaled(t, times),
        }
    }
}

impl Default for StatMods {
    fn default() -> (r: Self)
        ensures
            r.zeroed(),
    {
        let zero = Scalar { bits: 0 };
        StatMods {
            power: zero,
            focus: zero,
            agility: zero,
            vitality: zero,
            max_mana: zero,
            max_health: zero,
            max_stamina: zero,
            mana_regen: zero,
            health_regen: zero,
            spell_power_pct: zero,
            cooldown_reduction: zero,
            cast_speed_pct: zero,
            range_pct: zero,
            aoe_radius_pct: zero,
            projectile_speed_pct: zero,
            extra_projectiles: zero,
            pierce: zero,
            area_damage: zero,
            crit_chance: zero,
            crit_damage: zero,
            lifesteal: zero,
            mana_leech: zero,
            health_on_kill: zero,
            mana_on_kill: zero,
            armor: zero,
            armor_pct: zero,
            block_chance: zero,
            thorns: zero,
            tenacity: zero,
            fall_damage_pct: zero,
            melee_power_pct: zero,
            melee_range: zero,
            attack_speed_pct: zero,
            knockback_pct: zero,
            move_speed: zero,
            jump_count: zero,
            dash_charges: zero,
            summon_power_pct: zero,
            summon_count: zero,
            magic_find: zero,
            gold_find: zero,
            xp_gain_pct: zero,
            elem_damage: ElementMods::default(),
            elem_resist: ElementMods::default(),
        }
    }
}

impl StatMods {
    /// `r` is `lo + (hi - lo) * t`, taken as `lo + (hi + lo * -1) * t`, field by field.
    pub open spec fn is_blend<A: Fn(Scalar, Scalar) -> Scalar, M: Fn(Scalar, Scalar) -> Scalar>(
        lo: Self,
        hi: Self,
        t: Scalar,
        plus: A,
        times: M,
        r: Self,
    ) -> bool {
        exists|negated: Self, range: Self, part: Self| #[trigger]
            Self::is_blend_by(lo, hi, t, plus, times, r, negated, range, part)
    }

    /// The same with the three intermediate results at hand.
    pub open spec fn is_blend_by<A: Fn(Scalar, Scalar) -> Scalar, M: Fn(Scalar, Scalar) -> Scalar>(
        lo: Self,
        hi: Self,
        t: Scalar,
        plus: A,
        times: M,
        r: Self,
        negated: Self,
        range: Self,
        part: Self,
    ) -> bool {
        &&& Self::is_scaled(lo, decimal(-1, 0), times, negated)
        &&& Self::is_sum(hi, negated, plus, range)
        &&& Self::is_scaled(range, t, times, part)
        &&& Self::is_sum(lo, part, plus, r)
    }

    /// Linear blend between `lo` (t=0) and `hi` (t=1). The affix roller uses this to turn a
    /// min/max range plus a rolled `t in 0..1` into a concrete value.
    pub fn lerp<A: Fn(Scalar, Scalar) -> Scalar, M: Fn(Scalar, Scalar) -> Scalar>(
        lo: &Self,
        hi: &Self,
        t: Scalar,
        plus: &A,
        times: &M,
    ) -> (r: Self)
        requires
            forall|x: Scalar, y: Scalar| call_requires(*plus, (x, y)),
            forall|x: Scalar, y: Scalar| call_requires(*times, (x, y)),
        ensures
            Self::is_blend(*lo, *hi, t, *plus, *times, r),
    {
        let negated = lo.scaled(dec(-1, 0), times);
        let range = hi.combine(&negated, plus);
        let part = range.scaled(t, times);
        let r = lo.combine(&part, plus);
        assert(Self::is_blend_by(*lo, *hi, t, *plus, *times, r, negated, range, part));
        r
    }
}

impl ElementMods {
    /// The modifiers, element by element.
    pub open spec fn fields(self) -> Seq<Scalar> {
        seq![
            self.fire,
            self.frost,
            self.storm,
            self.arcane,
            self.nature,
            self.necro,
            self.chrono,
            self.radiant,
            self.physical,
        ]
    }

    proof fn sum_at<F: Fn(Scalar, Scalar) -> Scalar>(a: Self, b: Self, plus: F, r: Self, i: int)
        requires
            Self::is_sum(a, b, plus, r),
            0 <= i < a.fields().len(),
        ensures
            call_ensures(plus, (a.fields()[i], b.fields()[i]), r.fields()[i]),
    {
    }

    proof fn scale_at<F: Fn(Scalar, Scalar) -> Scalar>(a: Self, t: Scalar, times: F, r: Self, i: int)
        requires
            Self::is_scaled(a, t, times, r),
            0 <= i < a.fields().len(),
        ensures
            call_ensures(times, (a.fields()[i], t), r.fields()[i]),
    {
    }
}

impl StatMods {
    /// The stats, one by one: the plain ones, then the damage bonus and the resistance of each
    /// element.
    pub open spec fn fields(self) -> Seq<Scalar> {
        self.plain() + self.elem_damage.fields() + self.elem_resist.fields()
    }

    /// The stats that belong to no element.
    pub open spec fn plain(self) -> Seq<Scalar> {
        seq![
            self.power,
            self.focus,
            self.agility,
            self.vitality,
            self.max_mana,
            self.max_health,
            self.max_stamina,
            self.mana_regen,
            self.health_regen,
            self.spell_power_pct,
            self.cooldown_reduction,
            self.cast_speed_pct,
            self.range_pct,
            self.aoe_radius_pct,
            self.projectile_speed_pct,
            self.extra_projectiles,
            self.pierce,
            self.area_damage,
            self.crit_chance,
            self.crit_damage,
            self.lifesteal,
            self.mana_leech,
            self.health_on_kill,
            self.mana_on_kill,
            self.armor,
            self.armor_pct,
            self.block_chance,
            self.thorns,
            self.tenacity,
            self.fall_damage_pct,
            self.melee_power_pct,
            self.melee_range,
            self.attack_speed_pct,
            self.knockback_pct,
            self.move_speed,
            self.jump_count,
            self.dash_charges,
            self.summon_power_pct,
            self.summon_count,
            self.magic_find,
            self.gold_find,
            self.xp_gain_pct,
        ]
    }

    proof fn sum_at<F: Fn(Scalar, Scalar) -> Scalar>(a: Self, b: Self, plus: F, r: Self, i: int)
        requires
            Self::is_sum(a, b, plus, r),
            0 <= i < a.fields().len(),
        ensures
            call_ensures(plus, (a.fields()[i], b.fields()[i]), r.fields()[i]),
    {
        let n = a.plain().len() as int;
        let e = a.elem_damage.fields().len() as int;
        if n <= i < n + e {
            ElementMods::sum_at(a.elem_damage, b.elem_damage, plus, r.elem_damage, i - n);
        } else if n + e <= i {
            ElementMods::sum_at(a.elem_resist, b.elem_resist, plus, r.elem_resist, i - n - e);
        }
    }

    proof fn scale_at<F: Fn(Scalar, Scalar) -> Scalar>(a: Self, t: Scalar, times: F, r: Self, i: int)
        requires
            Self::is_scaled(a, t, times, r),
            0 <= i < a.fields().len(),
        ensures
            call_ensures(times, (a.fields()[i], t), r.fields()[i]),
    {
        let n = a.plain().len() as int;
        let e = a.elem_damage.fields().len() as int;
        if n <= i < n + e {
            ElementMods::scale_at(a.elem_damage, t, times, r.elem_damage, i - n);
        } else if n + e <= i {
            ElementMods::scale_at(a.elem_resist, t, times, r.elem_resist, i - n - e);
        }
    }
}

/// No stat is left out of the list: blocks with the same list are the same block.
pub proof fn fields_tell_all(a: StatMods, b: StatMods)
    requires
        a.fields() == b.fields(),
    ensures
        a == b,
{
    let n = a.plain().len() as int;
    let e = a.elem_damage.fields().len() as int;
    assert forall|i: int| 0 <= i < n implies a.plain()[i] == b.plain()[i] by {
        assert(a.fields()[i] == a.plain()[i]);
        assert(b.fields()[i] == b.plain()[i]);
    }
    assert forall|i: int| 0 <= i < e implies a.elem_damage.fields()[i] == b.elem_damage.fields()[i]
        && a.elem_resist.fields()[i] == b.elem_resist.fields()[i] by {
        assert(a.fields()[n + i] == a.elem_damage.fields()[i]);
        assert(b.fields()[n + i] == b.elem_damage.fields()[i]);
        assert(a.fields()[n + e + i] == a.elem_resist.fields()[i]);
        assert(b.fields()[n + e + i] == b.elem_resist.fields()[i]);
    }
    assert(a.plain()[0] == b.plain()[0]);
    assert(a.plain()[1] == b.plain()[1]);
    assert(a.plain()[2] == b.plain()[2]);
    assert(a.plain()[3] == b.plain()[3]);
    assert(a.plain()[4] == b.plain()[4]);
    assert(a.plain()[5] == b.plain()[5]);
    assert(a.plain()[6] == b.plain()[6]);
    assert(a.plain()[7] == b.plain()[7]);
    assert(a.plain()[8] == b.plain()[8]);
    assert(a.plain()[9] == b.plain()[9]);
    assert(a.plain()[10] == b.plain()[10]);
    assert(a.plain()[11] == b.plain()[11]);
    assert(a.plain()[12] == b.plain()[12]);
    assert(a.plain()[13] == b.plain()[13]);
    assert(a.plain()[14] == b.plain()[14]);
    assert(a.plain()[15] == b.plain()[15]);
    assert(a.plain()[16] == b.plain()[16]);
    assert(a.plain()[17] == b.plain()[17]);
    assert(a.plain()[18] == b.plain()[18]);
    assert(a.plain()[19] == b.plain()[19]);
    assert(a.plain()[20] == b.plain()[20]);
    assert(a.plain()[21] == b.plain()[21]);
    assert(a.plain()[22] == b.plain()[22]);
    assert(a.plain()[23] == b.plain()[23]);
    assert(a.plain()[24] == b.plain()[24]);
    assert(a.plain()[25] == b.plain()[25]);
    assert(a.plain()[26] == b.plain()[26]);
    assert(a.plain()[27] == b.plain()[27]);
    assert(a.plain()[28] == b.plain()[28]);
    assert(a.plain()[29] == b.plain()[29]);
    assert(a.plain()[30] == b.plain()[30]);
    assert(a.plain()[31] == b.plain()[31]);
    assert(a.plain()[32] == b.plain()[32]);
    assert(a.plain()[33] == b.plain()[33]);
    assert(a.plain()[34] == b.plain()[34]);
    assert(a.plain()[35] == b.plain()[35]);
    assert(a.plain()[36] == b.plain()[36]);
    assert(a.plain()[37] == b.plain()[37]);
    assert(a.plain()[38] == b.plain()[38]);
    assert(a.plain()[39] == b.plain()[39]);
    assert(a.plain()[40] == b.plain()[40]);
    assert(a.plain()[41] == b.plain()[41]);
    assert(a.elem_damage.fields()[0] == b.elem_damage.fields()[0]);
    assert(a.elem_resist.fields()[0] == b.elem_resist.fields()[0]);
    assert(a.elem_damage.fields()[1] == b.elem_damage.fields()[1]);
    assert(a.elem_resist.fields()[1] == b.elem_resist.fields()[1]);
    assert(a.elem_damage.fields()[2] == b.elem_damage.fields()[2]);
    assert(a.elem_resist.fields()[2] == b.elem_resist.fields()[2]);
    assert(a.elem_damage.fields()[3] == b.elem_damage.fields()[3]);
    assert(a.elem_resist.fields()[3] == b.elem_resist.fields()[3]);
    assert(a.elem_damage.fields()[4] == b.elem_damage.fields()[4]);
    assert(a.elem_resist.fields()[4] == b.elem_resist.fields()[4]);
    assert(a.elem_damage.fields()[5] == b.elem_damage.fields()[5]);
    assert(a.elem_resist.fields()[5] == b.elem_resist.fields()[5]);
    assert(a.elem_damage.fields()[6] == b.elem_damage.fields()[6]);
    assert(a.elem_resist.fields()[6] == b.elem_resist.fields()[6]);
    assert(a.elem_damage.fields()[7] == b.elem_damage.fields()[7]);
    assert(a.elem_resist.fields()[7] == b.elem_resist.fields()[7]);
    assert(a.elem_damage.fields()[8] == b.elem_damage.fields()[8]);
    assert(a.elem_resist.fields()[8] == b.elem_resist.fields()[8]);
}

/// Adding in either order comes to the same, as far as the sums are numbers.
pub open spec fn commutes<F: Fn(Scalar, Scalar) -> Scalar>(plus: F) -> bool {
    forall|x: Scalar, y: Scalar, p: Scalar, q: Scalar| #[trigger]
        call_ensures(plus, (x, y), p) && #[trigger] call_ensures(plus, (y, x), q) ==> p == q
            || p.nan() && q.nan()
}

/// Each piece of gear counts: every stat of two blocks folded together is the sum of that same
/// stat of the one and of the other.
pub proof fn every_stat_is_summed<F: Fn(Scalar, Scalar) -> Scalar>(
    a: StatMods,
    b: StatMods,
    plus: F,
    r: StatMods,
)
    requires
        StatMods::is_sum(a, b, plus, r),
    ensures
        r.fields().len() == a.fields().len(),
        forall|i: int|
            0 <= i < a.fields().len() ==> call_ensures(
                plus,
                (a.fields()[i], b.fields()[i]),
                #[trigger] r.fields()[i],
            ),
{
    assert forall|i: int| 0 <= i < a.fields().len() implies call_ensures(
        plus,
        (a.fields()[i], b.fields()[i]),
        #[trigger] r.fields()[i],
    ) by {
        StatMods::sum_at(a, b, plus, r, i);
    }
}

/// Gear folds in any order: where adding commutes, two blocks folded either way agree in every
/// stat.
pub proof fn gear_folds_in_any_order<F: Fn(Scalar, Scalar) -> Scalar>(
    a: StatMods,
    b: StatMods,
    plus: F,
    r: StatMods,
    s: StatMods,
)
    requires
        commutes(plus),
        StatMods::is_sum(a, b, plus, r),
        StatMods::is_sum(b, a, plus, s),
    ensures
        forall|i: int|
            0 <= i < r.fields().len() ==> #[trigger] r.fields()[i] == s.fields()[i]
                || r.fields()[i].nan() && s.fields()[i].nan(),
{
    assert forall|i: int| 0 <= i < r.fields().len() implies #[trigger] r.fields()[i]
        == s.fields()[i] || r.fields()[i].nan() && s.fields()[i].nan() by {
        StatMods::sum_at(a, b, plus, r, i);
        StatMods::sum_at(b, a, plus, s, i);
    }
}

/// Nothing is lost on a bare character: where adding nothing leaves a number as it is, a block
/// folded into no stats at all keeps every one of its stats, and so does it with no stats folded
/// into it.
pub proof fn bare_folds_to_the_gear<F: Fn(Scalar, Scalar) -> Scalar>(
    bare: StatMods,
    b: StatMods,
    plus: F,
    r: StatMods,
    s: StatMods,
)
    requires
        forall|i: int| 0 <= i < bare.fields().len() ==> (#[trigger] bare.fields()[i]).bits == 0,
        forall|x: Scalar, p: Scalar| #[trigger]
            call_ensures(plus, (Scalar { bits: 0 }, x), p) && !x.nan() ==> p.rank() == x.rank(),
        forall|x: Scalar, p: Scalar| #[trigger]
            call_ensures(plus, (x, Scalar { bits: 0 }), p) && !x.nan() ==> p.rank() == x.rank(),
        StatMods::is_sum(bare, b, plus, r),
        StatMods::is_sum(b, bare, plus, s),
    ensures
        forall|i: int|
            0 <= i < b.fields().len() && !(#[trigger] b.fields()[i]).nan() ==> r.fields()[i].rank()
                == b.fields()[i].rank() && s.fields()[i].rank() == b.fields()[i].rank(),
{
    assert forall|i: int| 0 <= i < b.fields().len() && !(#[trigger] b.fields()[i]).nan() implies
        r.fields()[i].rank() == b.fields()[i].rank() && s.fields()[i].rank()
        == b.fields()[i].rank() by {
        StatMods::sum_at(bare, b, plus, r, i);
        StatMods::sum_at(b, bare, plus, s, i);
        assert(bare.fields()[i] == (Scalar { bits: 0 }));
    }
}

/// A block without stats has none: the default block is zero in every stat.
pub proof fn bare_has_no_stats(a: StatMods)
    requires
        a.zeroed(),
    ensures
        forall|i: int| 0 <= i < a.fields().len() ==> (#[trigger] a.fields()[i]).bits == 0,
{
    assert forall|i: int| 0 <= i < a.fields().len() implies (#[trigger] a.fields()[i]).bits
        == 0 by {
        let n = a.plain().len() as int;
        let e = a.elem_damage.fields().len() as int;
        if i < n {
            assert(a.fields()[i] == a.plain()[i]);
        } else if i < n + e {
            assert(a.fields()[i] == a.elem_damage.fields()[i - n]);
        } else {
            assert(a.fields()[i] == a.elem_resist.fields()[i - n - e]);
        }
    }
}

/// An upgrade reaches every stat: each stat of a scaled block is that same stat, scaled.
pub proof fn every_stat_is_scaled<F: Fn(Scalar, Scalar) -> Scalar>(
    a: StatMods,
    t: Scalar,
    times: F,
    r: StatMods,
)
    requires
        StatMods::is_scaled(a, t, times, r),
    ensures
        forall|i: int|
            0 <= i < a.fields().len() ==> call_ensures(
                times,
                (a.fields()[i], t),
                #[trigger] r.fields()[i],
            ),
{
    assert forall|i: int| 0 <= i < a.fields().len() implies call_ensures(
        times,
        (a.fields()[i], t),
        #[trigger] r.fields()[i],
    ) by {
        StatMods::scale_at(a, t, times, r, i);
    }
}

/// A blend begins at its low end: in every stat where a part taken at `t` adds nothing, the
/// blend is the low block's stat.
pub proof fn blends_begin_low<A: Fn(Scalar, Scalar) -> Scalar, M: Fn(Scalar, Scalar) -> Scalar>(
    lo: StatMods,
    hi: StatMods,
    t: Scalar,
    plus: A,
    times: M,
    r: StatMods,
    i: int,
)
    requires
        StatMods::is_blend(lo, hi, t, plus, times, r),
        0 <= i < r.fields().len(),
        forall|x: Scalar, p: Scalar, q: Scalar| #[trigger]
            call_ensures(times, (x, t), p) && #[trigger] call_ensures(plus, (lo.fields()[i], p), q)
                ==> q == lo.fields()[i],
    ensures
        r.fields()[i] == lo.fields()[i],
{
    let (negated, range, part) = choose|negated: StatMods, range: StatMods, part: StatMods| #[trigger]
        StatMods::is_blend_by(lo, hi, t, plus, times, r, negated, range, part);
    StatMods::scale_at(range, t, times, part, i);
    StatMods::sum_at(lo, part, plus, r, i);
}

/// A blend ends at its high end: in every stat where the whole way from the low to the high
/// block, taken at `t`, leads there, the blend is the high block's stat.
pub proof fn blends_end_high<A: Fn(Scalar, Scalar) -> Scalar, M: Fn(Scalar, Scalar) -> Scalar>(
    lo: StatMods,
    hi: StatMods,
    t: Scalar,
    plus: A,
    times: M,
    r: StatMods,
    i: int,
)
    requires
        StatMods::is_blend(lo, hi, t, plus, times, r),
        0 <= i < r.fields().len(),
        forall|d: Scalar, p: Scalar| #[trigger] call_ensures(times, (d, t), p) ==> p == d,
        forall|x: Scalar, d: Scalar, q: Scalar|
            #![trigger call_ensures(plus, (hi.fields()[i], x), d), call_ensures(plus, (lo.fields()[i], d), q)]
            call_ensures(times, (lo.fields()[i], decimal(-1, 0)), x) && call_ensures(
                plus,
                (hi.fields()[i], x),
                d,
            ) && call_ensures(plus, (lo.fields()[i], d), q) ==> q == hi.fields()[i],
    ensures
        r.fields()[i] == hi.fields()[i],
{
    let (negated, range, part) = choose|negated: StatMods, range: StatMods, part: StatMods| #[trigger]
        StatMods::is_blend_by(lo, hi, t, plus, times, r, negated, range, part);
    StatMods::scale_at(lo, decimal(-1, 0), times, negated, i);
    StatMods::sum_at(hi, negated, plus, range, i);
    StatMods::scale_at(range, t, times, part, i);
    StatMods::sum_at(lo, part, plus, r, i);
    assert(part.fields()[i] == range.fields()[i]);
}

/// An element reads its own modifier: whatever else a set says, the modifier that was put in for
/// an element is the one that its name selects, and names that mean one element agree.
pub proof fn elements_read_their_own(m: ElementMods, x: Scalar, other: Seq<char>)
    ensures
        (ElementMods { fire: x, ..m }).of("fire"@) == x,
        (ElementMods { frost: x, ..m }).of("frost"@) == x,
        (ElementMods { storm: x, ..m }).of("storm"@) == x,
        (ElementMods { arcane: x, ..m }).of("arcane"@) == x,
        (ElementMods { nature: x, ..m }).of("nature"@) == x,
        (ElementMods { necro: x, ..m }).of("necro"@) == x,
        (ElementMods { chrono: x, ..m }).of("chrono"@) == x,
        (ElementMods { radiant: x, ..m }).of("radiant"@) == x,
        m.of("necro"@) == m.of("void"@),
        m.of("chrono"@) == m.of("time"@),
        m.of("radiant"@) == m.of("light"@),
        !(set![
            "fire"@,
            "frost"@,
            "storm"@,
            "arcane"@,
            "nature"@,
            "necro"@,
            "void"@,
            "chrono"@,
            "time"@,
            "radiant"@,
            "light"@,
        ].contains(other)) ==> (ElementMods { physical: x, ..m }).of(other) == x,
{
    reveal_strlit("fire");
    reveal_strlit("frost");
    reveal_strlit("storm");
    reveal_strlit("arcane");
    reveal_strlit("nature");
    reveal_strlit("necro");
    reveal_strlit("void");
    reveal_strlit("chrono");
    reveal_strlit("time");
    reveal_strlit("radiant");
    reveal_strlit("light");
    let head = |s: Seq<char>| (s.len(), s[0], s[1]);
    assert(head("fire"@) == (4nat, 'f', 'i'));
    assert(head("frost"@) == (5nat, 'f', 'r'));
    assert(head("storm"@) == (5nat, 's', 't'));
    assert(head("arcane"@) == (6nat, 'a', 'r'));
    assert(head("nature"@) == (6nat, 'n', 'a'));
    assert(head("necro"@) == (5nat, 'n', 'e'));
    assert(head("void"@) == (4nat, 'v', 'o'));
    assert(head("chrono"@) == (6nat, 'c', 'h'));
    assert(head("time"@) == (4nat, 't', 'i'));
    assert(head("radiant"@) == (7nat, 'r', 'a'));
    assert(head("light"@) == (5nat, 'l', 'i'));
}

impl Default for UpgradeProfile {
    fn default() -> (r: Self)
        ensures
            r.standard(),
    {
        UpgradeProfile {
            max_level: 12,
            stat_growth: dec(8, 2),
            proc_growth: dec(5, 2),
            essence: ItemId::new("item.essence.arcane"),
            essence_cost_base: 1,
            safe_until: 4,
            fail_chance_per_level: dec(6, 2),
        }
    }
}

impl UpgradeProfile {
    /// The profile of an item that says nothing of its own.
    pub open spec fn standard(self) -> bool {
        &&& self.max_level == 12
        &&& self.stat_growth == decimal(8, 2)
        &&& self.proc_growth == decimal(5, 2)
        &&& self.essence@ == "item.essence.arcane"@
        &&& self.essence_cost_base == 1
        &&& self.safe_until == 4
        &&& self.fail_chance_per_level == decimal(6, 2)
    }
}

/// The texts of the list.
pub open spec fn texts(list: Seq<String>) -> Seq<Seq<char>> {
    Seq::new(list.len(), |i: int| list[i]@)
}

/// The texts of the list.
pub open spec fn words(list: Seq<&str>) -> Seq<Seq<char>> {
    Seq::new(list.len(), |i: int| list[i]@)
}

/// Owned copies of the texts, in order.
pub fn owned_texts(list: &[&str]) -> (r: Vec<String>)
    ensures
        texts(r@) == words(list@),
{
    let mut out: Vec<String> = Vec::new();
    let mut i: usize = 0;
    while i < list.len()
        invariant
            i <= list.len(),
            out@.len() == i,
            forall|k: int| 0 <= k < i ==> #[trigger] out@[k]@ == list@[k]@,
        decreases list.len() - i,
    {
        out.push(list[i].to_owned());
        i = i + 1;
    }
    assert(texts(out@) =~= words(list@));
    out
}

impl ItemDef {
    /// Nothing beyond what the item is: no stats, procs, grants, stack, use, recipe, socket,
    /// tag, set or binding.
    pub open spec fn bare(self) -> bool {
        &&& self.description@ == Seq::<char>::empty()
        &&& self.stat_mods.zeroed()
        &&& self.triggers@.len() == 0
        &&& self.grants_spells@.len() == 0
        &&& self.grants_movement@.len() == 0
        &&& self.grants_abilities@.len() == 0
        &&& self.material is None
        &&& !self.stackable
        &&& self.max_stack == 1
        &&& self.on_use is None
        &&& self.level_req == 0
        &&& self.craft is None
        &&& self.base_sockets == 0
        &&& self.affix_tags@.len() == 0
        &&& self.set is None
        &&& !self.unique
        &&& !self.soulbound
    }

    /// A minimal base used by builders; fill in the fields you care about. Keeps the big
    /// content packs terse. Whatever can be worn can be forged.
    pub fn base(id: &str, name: &str, slot: EquipSlot, rarity: Rarity) -> (r: Self)
        ensures
            r.id@ == id@,
            r.name@ == name@,
            r.slot == slot,
            r.rarity == rarity,
            r.bare(),
            if slot is Consumable || slot is Unworn {
                r.upgrade is None
            } else {
                r.upgrade matches Some(u) && u.standard()
            },
    {
        ItemDef {
            id: ItemId::new(id),
            name: name.to_owned(),
            description: String::new(),
            rarity,
            slot,
            stat_mods: StatMods::default(),
            triggers: Vec::new(),
            grants_spells: Vec::new(),
            grants_movement: Vec::new(),
            grants_abilities: Vec::new(),
            material: None,
            stackable: false,
            max_stack: 1,
            on_use: None,
            level_req: 0,
            craft: None,
            base_sockets: 0,
            affix_tags: Vec::new(),
            set: None,
            upgrade: if matches!(slot, EquipSlot::Consumable | EquipSlot::Unworn) {
                None
            } else {
                Some(UpgradeProfile::default())
            },
            unique: false,
            soulbound: false,
        }
    }

    /// Builder: set the base stats.
    pub fn with_stats(self, mods: StatMods) -> (r: Self)
        ensures
            r == (ItemDef { stat_mods: mods, ..self }),
    {
        let mut item = self;
        item.stat_mods = mods;
        item
    }

    /// Builder: add a signature proc.
    pub fn with_trigger(self, t: ItemTrigger) -> (r: Self)
        ensures
            r.triggers@ == self.triggers@.push(t),
            r == (ItemDef { triggers: r.triggers, ..self }),
    {
        let mut item = self;
        item.triggers.push(t);
        item
    }

    /// Builder: tag the item for affix rolling.
    pub fn with_tags(self, tags: &[&str]) -> (r: Self)
        ensures
            texts(r.affix_tags@) == words(tags@),
            r == (ItemDef { affix_tags: r.affix_tags, ..self }),
    {
        let mut item = self;
        item.affix_tags = owned_texts(tags);
        item
    }

    /// Builder: set the socket count.
    pub fn with_sockets(self, n: u8) -> (r: Self)
        ensures
            r == (ItemDef { base_sockets: n, ..self }),
    {
        let mut item = self;
        item.base_sockets = n;
        item
    }

    /// Builder: set the tooltip text.
    pub fn described(self, d: &str) -> (r: Self)
        ensures
            r.description@ == d@,
            r == (ItemDef { description: r.description, ..self }),
    {
        let mut item = self;
        item.description = d.to_owned();
        item
    }

    /// Builder: make the item a piece of a set.
    pub fn in_set(self, set: &str) -> (r: Self)
        ensures
            r.set matches Some(s) && s@ == set@,
            r == (ItemDef { set: r.set, ..self }),
    {
        let mut item = self;
        item.set = Some(SetId::new(set));
        item
    }

    /// Builder: mark the item unique and soulbound.
    pub fn unique_bound(self) -> (r: Self)
        ensures
            r == (ItemDef { unique: true, soulbound: true, ..self }),
    {
        let mut item = self;
        item.unique = true;
        item.soulbound = true;
        item
    }

    /// Builder: set the level requirement.
    pub fn require_level(self, lvl: u32) -> (r: Self)
        ensures
            r == (ItemDef { level_req: lvl, ..self }),
    {
        let mut item = self;
        item.level_req = lvl;
        item
    }
}

impl Default for ItemDef {
    /// A blank Common reagent, for literals that only state what differs.
    fn default() -> (r: Self)
        ensures
            r.id@ == ""@,
            r.name@ == Seq::<char>::empty(),
            r.slot == EquipSlot::Unworn,
            r.rarity == Rarity::Common,
            r.bare(),
            r.upgrade is None,
    {
        let mut item = ItemDef::base("", "", EquipSlot::Unworn, Rarity::Common);
        item.name = String::new();
        item
    }
}

/// Whether the list holds the slot.
pub fn holds_slot(slots: &Vec<EquipSlot>, slot: EquipSlot) -> (r: bool)
    ensures
        r == slots@.contains(slot),
{
    let mut i: usize = 0;
    while i < slots.len()
        invariant
            i <= slots.len(),
            forall|k: int| 0 <= k < i ==> slots@[k] != slot,
        decreases slots.len() - i,
    {
        if slots[i] == slot {
            assert(slots@[i as int] == slot);
            return true;
        }
        i = i + 1;
    }
    false
}

/// Whether the list holds the text.
pub fn holds_text(list: &[String], text: &str) -> (r: bool)
    ensures
        r == texts(list@).contains(text@),
{
    let mut i: usize = 0;
    while i < list.len()
        invariant
            i <= list.len(),
            forall|k: int| 0 <= k < i ==> #[trigger] list@[k]@ != text@,
        decreases list.len() - i,
    {
        if same(list[i].as_str(), text) {
            assert(texts(list@)[i as int] == text@);
            return true;
        }
        i = i + 1;
    }
    assert forall|k: int| 0 <= k < texts(list@).len() implies texts(list@)[k] != text@ by {
        assert(texts(list@)[k] == list@[k]@);
    }
    false
}

/// Promotion climbs the ladder one rung at a time, from common to mythic, and stays at the top.
pub proof fn promotion_climbs_the_ladder(a: Rarity, b: Rarity)
    requires
        call_ensures(Rarity::promote, (a,), b),
    ensures
        a is Common ==> b is Uncommon,
        a is Uncommon ==> b is Rare,
        a is Rare ==> b is Epic,
        a is Epic ==> b is Legendary,
        a is Legendary || a is Mythic ==> b is Mythic,
{
}

/// A promoted item never has room for fewer sockets; a common one has none and a mythic one four.
pub proof fn better_items_have_more_sockets(a: Rarity, b: Rarity, before: u8, after: u8)
    requires
        call_ensures(Rarity::promote, (a,), b),
        call_ensures(Rarity::socket_budget, (a,), before),
        call_ensures(Rarity::socket_budget, (b,), after),
    ensures
        before <= after <= before + 1,
        a is Common ==> before == 0,
        a is Uncommon || a is Rare ==> after == before + 1,
        a is Epic ==> after == before,
        b is Mythic ==> after == 4,
{
    promotion_climbs_the_ladder(a, b);
}

/// What is worn on the body or off the hand is armor, what is held to strike is a weapon, and rings,
/// amulets, relics and trinkets are neither; only rings can be worn several at a time.
pub proof fn slots_are_what_they_are(slot: EquipSlot, armor: bool, weapon: bool, multi: bool)
    requires
        call_ensures(EquipSlot::is_armor, (slot,), armor),
        call_ensures(EquipSlot::is_weapon, (slot,), weapon),
        call_ensures(EquipSlot::is_multi, (slot,), multi),
    ensures
        armor <==> slot is Robe || slot is Helm || slot is Gloves || slot is Boots || slot is Belt
            || slot is Offhand,
        weapon <==> slot is Staff || slot is Weapon,
        !armor && !weapon <==> slot is Ring || slot is Amulet || slot is Relic || slot is Trinket
            || slot is Consumable || slot is Unworn,
        multi <==> slot is Ring,
{
}

/// A bare base is what it was named and no more: it changes no stat, grants and does nothing, stacks
/// alone and is bound to nobody; what can be worn can be forged, safely up to the fourth of twelve levels.
pub proof fn bare_bases_are_bare(id: &str, name: &str, slot: EquipSlot, rarity: Rarity, r: ItemDef, i: int)
    requires
        call_ensures(ItemDef::base, (id, name, slot, rarity), r),
        0 <= i < r.stat_mods.fields().len(),
    ensures
        r.id@ == id@ && r.name@ == name@ && r.slot == slot && r.rarity == rarity,
        r.description@.len() == 0,
        r.stat_mods.fields()[i].bits == 0,
        r.triggers@.len() == 0 && r.grants_spells@.len() == 0 && r.grants_movement@.len() == 0,
        r.grants_abilities@.len() == 0 && r.affix_tags@.len() == 0,
        r.material is None && r.on_use is None && r.craft is None && r.set is None,
        !r.stackable && r.max_stack == 1,
        r.level_req == 0 && r.base_sockets == 0,
        !r.unique && !r.soulbound,
        r.upgrade is None <==> slot is Consumable || slot is Unworn,
        r.upgrade matches Some(u) ==> {
            &&& u.max_level == 12 && u.safe_until == 4 && u.essence_cost_base == 1
            &&& u.stat_growth == decimal(8, 2) && u.proc_growth == decimal(5, 2)
            &&& u.fail_chance_per_level == decimal(6, 2)
            &&& u.essence@ == "item.essence.arcane"@
        },
{
}

} // verus!
