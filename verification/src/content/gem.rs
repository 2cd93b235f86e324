//! Gems and runes: the things you socket into gear to customise it.
//!
//! Two ARPG traditions, both data:
//! - **Gems** read *differently in weapons vs armor* (a Ruby is +fire-damage in a
//!   weapon, +max-health in a robe), giving sockets a real placement decision.
//! - **Runes** are gems with a fixed identity used to spell out [`crate::content::enchant::RunewordDef`]s.
//!
//! Gems tier up by **fusion** (`fuse_from`): three Chipped Rubies make one Flawed Ruby,
//! and so on, so a socketed build is itself an upgrade sink.

use crate::content::ids::GemId;
use crate::content::item::{EquipSlot, ItemTrigger, StatMods};
use vstd::prelude::*;

verus! {

/// A socketable gem or rune.
#[derive(Debug, Clone)]
pub struct GemDef {
    pub id: GemId,
    pub name: String,
    /// 1 (chipped) .. 5 (perfect / great rune). Higher tiers grant more.
    pub tier: u8,
    /// Stats granted when socketed into a *weapon/staff*.
    pub weapon_mods: StatMods,
    /// Stats granted when socketed into *armor* (robe/helm/gloves/boots/belt/offhand).
    pub armor_mods: StatMods,
    /// Stats granted when socketed into a *jewellery/relic* slot (ring/amulet/relic/trinket).
    pub jewel_mods: StatMods,
    /// A proc granted regardless of slot (rare; usually higher-tier gems / runes).
    pub proc: Option<ItemTrigger>,
    /// If this is a *rune* (used in runewords) this is its rune letter/name for the
    /// recipe matcher; ordinary gems leave it `None`.
    pub rune_symbol: Option<String>,
    /// Fusion recipe: `Some((lower_gem, count))` means `count` of `lower_gem` fuse into
    /// one of this. `None` for a base (chipped) gem.
    pub fuse_from: Option<(GemId, u8)>,
}

impl GemDef {
    /// The mods this gem contributes in a given slot family.
    pub fn mods_for(&self, slot: EquipSlot) -> (r: StatMods)
        ensures
            r == if slot.weapon() {
                self.weapon_mods
            } else if slot.armor() {
                self.armor_mods
            } else {
                self.jewel_mods
            },
    {
        if slot.is_weapon() {
            self.weapon_mods
        } else if slot.is_armor() {
            self.armor_mods
        } else {
            self.jewel_mods
        }
    }

    pub fn weapon(self, m: StatMods) -> (r: Self)
        ensures
            r == (GemDef { weapon_mods: m, ..self }),
    {
        let mut gem = self;
        gem.weapon_mods = m;
        gem
    }

    pub fn armor(self, m: StatMods) -> (r: Self)
        ensures
            r == (GemDef { armor_mods: m, ..self }),
    {
        let mut gem = self;
        gem.armor_mods = m;
        gem
    }

    pub fn jewel(self, m: StatMods) -> (r: Self)
        ensures
            r == (GemDef { jewel_mods: m, ..self }),
    {
        let mut gem = self;
        gem.jewel_mods = m;
        gem
    }

    pub fn rune(self, symbol: &str) -> (r: Self)
        ensures
            r.rune_symbol matches Some(s) && s@ == symbol@,
            r == (GemDef { rune_symbol: r.rune_symbol, ..self }),
    {
        let mut gem = self;
        gem.rune_symbol = Some(symbol.to_owned());
        gem
    }

    pub fn fuses_from(self, lower: &str, count: u8) -> (r: Self)
        ensures
            r.fuse_from matches Some(f) && f.0@ == lower@ && f.1 == count,
            r == (GemDef { fuse_from: r.fuse_from, ..self }),
    {
        let mut gem = self;
        gem.fuse_from = Some((GemId::new(lower), count));
        gem
    }

    pub fn with_proc(self, p: ItemTrigger) -> (r: Self)
        ensures
            r == (GemDef { proc: Some(p), ..self }),
    {
        let mut gem = self;
        gem.proc = Some(p);
        gem
    }
}

/// Terse builder.
pub fn gem(id: &str, name: &str, tier: u8) -> (r: GemDef)
    ensures
        r.id@ == id@,
        r.name@ == name@,
        r.tier == tier,
        r.weapon_mods.zeroed(),
        r.armor_mods.zeroed(),
        r.jewel_mods.zeroed(),
        r.proc is None,
        r.rune_symbol is None,
        r.fuse_from is None,
{
    GemDef {
        id: GemId::new(id),
        name: name.to_owned(),
        tier,
        weapon_mods: StatMods::default(),
        armor_mods: StatMods::default(),
        jewel_mods: StatMods::default(),
        proc: None,
        rune_symbol: None,
        fuse_from: None,
    }
}

/// A gem reads by where it sits: as a weapon's in what is held to strike, as armour's in what is
/// worn on the body or held against blows, as a jewel's everywhere else.
pub proof fn gems_read_by_where_they_sit(gem: GemDef, slot: EquipSlot, r: StatMods)
    requires
        call_ensures(GemDef::mods_for, (&gem, slot), r),
    ensures
        slot is Staff || slot is Weapon ==> r == gem.weapon_mods,
        slot is Robe || slot is Helm || slot is Gloves || slot is Boots || slot is Belt
            || slot is Offhand ==> r == gem.armor_mods,
        slot is Ring || slot is Amulet || slot is Relic || slot is Trinket || slot is Consumable
            || slot is Unworn ==> r == gem.jewel_mods,
{
}

} // verus!
