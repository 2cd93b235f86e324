//! The gear economy as rows: essences, affixes, gems, runewords, enchants, signature items and
//! sets.

use crate::content::affix::{affix, tier_level, AffixDef, AffixKind};
use crate::content::enchant::{EnchantDef, RunewordDef};
use crate::content::gem::{gem, GemDef};
use crate::content::ids::{EnchantId, GemId, RunewordId, SetId};
use crate::content::item::{EquipSlot, ItemDef, Rarity};
use crate::content::itemset::{SetBonus, SetDef};
use crate::content::sheet::proc::{
    are_procs, may_proc, maybe_proc, read_procs, ProcRow, NO_PROC,
};
use crate::content::sheet::stats::{block, mods, Line, NONE};
use crate::content::sheet::{list, lists, read_some, refer, refers, used};
use crate::scalar::decimal;
use vstd::prelude::*;

verus! {

/// Nothing that a bare base leaves out: no grants, material, use or recipe, no affix tags.
pub open spec fn grants_nothing(d: ItemDef) -> bool {
    &&& d.grants_spells@.len() == 0
    &&& d.grants_movement@.len() == 0
    &&& d.grants_abilities@.len() == 0
    &&& d.material is None
    &&& d.on_use is None
    &&& d.craft is None
    &&& d.affix_tags@.len() == 0
}

/// `(id, name, tooltip)`.
pub type EssenceRow = (&'static str, &'static str, &'static str);

/// An essence: a reagent that is never worn and stacks high.
pub open spec fn is_essence(d: ItemDef, row: EssenceRow) -> bool {
    &&& d.id@ == row.0@
    &&& d.name@ == row.1@
    &&& d.description@ == row.2@
    &&& d.rarity == Rarity::Uncommon
    &&& d.slot == EquipSlot::Unworn
    &&& d.stackable && d.max_stack == 999
    &&& d.upgrade is None
    &&& grants_nothing(d)
    &&& d.stat_mods.zeroed()
    &&& d.triggers@.len() == 0
    &&& d.level_req == 0
    &&& d.base_sockets == 0
    &&& d.set is None
    &&& !d.unique && !d.soulbound
}

/// Reads a row.
pub fn essence(row: EssenceRow) -> (r: ItemDef)
    ensures
        is_essence(r, row),
{
    let mut d = ItemDef::base(row.0, row.1, EquipSlot::Unworn, Rarity::Uncommon);
    d.description = row.2.to_owned();
    d.stackable = true;
    d.max_stack = 999;
    d.upgrade = None;
    d
}

/// `(id, kind, word, tier, tags, slots, low roll, high roll, proc)`.
pub type AffixRow = (
    &'static str,
    AffixKind,
    &'static str,
    u8,
    (u8, [&'static str; 3]),
    (u8, [EquipSlot; 3]),
    [Line; 6],
    [Line; 6],
    ProcRow,
);

/// The slots are the first `n`.
pub open spec fn fits(list: Seq<EquipSlot>, n: u8, slots: Seq<EquipSlot>) -> bool {
    list == slots.take(used(n, slots.len()) as int)
}

fn fit(n: u8, slots: &[EquipSlot]) -> (r: Vec<EquipSlot>)
    ensures
        fits(r@, n, slots@),
{
    let mut out: Vec<EquipSlot> = Vec::new();
    let mut i: usize = 0;
    while i < n as usize && i < slots.len()
        invariant
            i <= n,
            i <= slots.len(),
            out@ == slots@.take(i as int),
        decreases slots.len() - i,
    {
        out.push(slots[i]);
        i = i + 1;
        assert(out@ =~= slots@.take(i as int));
    }
    out
}

/// The definition is what the row says.
pub open spec fn is_affix(d: AffixDef, row: AffixRow) -> bool {
    &&& d.id@ == row.0@
    &&& d.kind == row.1
    &&& d.word@ == row.2@
    &&& d.tier == row.3
    &&& d.weight == decimal(100, 0)
    &&& d.level_req == tier_level(row.3)
    &&& lists(d.tags@, row.4.0, row.4.1@)
    &&& fits(d.slots@, row.5.0, row.5.1@)
    &&& d.roll_lo == block(row.6@)
    &&& d.roll_hi == block(row.7@)
    &&& may_proc(d.proc, row.8)
}

/// Reads a row.
pub fn read_affix(row: AffixRow) -> (r: AffixDef)
    ensures
        is_affix(r, row),
{
    let mut d = affix(row.0, row.1, row.2, row.3).range(
        mods(row.6.as_slice()),
        mods(row.7.as_slice()),
    );
    d.tags = list(row.4.0, row.4.1.as_slice());
    d.slots = fit(row.5.0, row.5.1.as_slice());
    d.proc = maybe_proc(row.8);
    d
}

/// `(id, name, tier, weapon stats, armor stats, jewellery stats, rune symbol, (fused from, how
/// many), proc)`.
pub type GemRow = (
    &'static str,
    &'static str,
    u8,
    [Line; 2],
    [Line; 5],
    [Line; 2],
    &'static str,
    (&'static str, u8),
    ProcRow,
);

/// The fusion is the one that the row says, or there is none.
pub open spec fn fuses(f: Option<(GemId, u8)>, row: (&'static str, u8)) -> bool {
    match f {
        Some((lower, count)) => row.1 != 0 && lower@ == row.0@ && count == row.1,
        None => row.1 == 0,
    }
}

/// The definition is what the row says.
pub open spec fn is_gem(d: GemDef, row: GemRow) -> bool {
    &&& d.id@ == row.0@
    &&& d.name@ == row.1@
    &&& d.tier == row.2
    &&& d.weapon_mods == block(row.3@)
    &&& d.armor_mods == block(row.4@)
    &&& d.jewel_mods == block(row.5@)
    &&& refers(d.rune_symbol, row.6@)
    &&& fuses(d.fuse_from, row.7)
    &&& may_proc(d.proc, row.8)
}

/// Reads a row.
pub fn read_gem(row: GemRow) -> (r: GemDef)
    ensures
        is_gem(r, row),
{
    let mut d = gem(row.0, row.1, row.2).weapon(mods(row.3.as_slice())).armor(
        mods(row.4.as_slice()),
    ).jewel(mods(row.5.as_slice()));
    d.rune_symbol = refer(row.6);
    d.proc = maybe_proc(row.8);
    if row.7.1 != 0 {
        d.fuses_from(row.7.0, row.7.1)
    } else {
        d
    }
}

/// `(id, name, runes, slots, level, stats, proc)`.
pub type RunewordRow = (
    &'static str,
    &'static str,
    [&'static str; 3],
    [EquipSlot; 2],
    u32,
    [Line; 7],
    [ProcRow; 1],
);

/// The definition is what the row says.
pub open spec fn is_runeword(d: RunewordDef, row: RunewordRow) -> bool {
    &&& d.id@ == row.0@
    &&& d.name@ == row.1@
    &&& lists(d.sequence@, 3, row.2@)
    &&& fits(d.base_slots@, 2, row.3@)
    &&& d.level_req == row.4
    &&& d.mods == block(row.5@)
    &&& are_procs(d.triggers@, 1, row.6@)
    &&& d.grants_spells@.len() == 0
}

/// Reads a row.
pub fn runeword(row: RunewordRow) -> (r: RunewordDef)
    ensures
        is_runeword(r, row),
{
    RunewordDef {
        id: RunewordId::new(row.0),
        name: row.1.to_owned(),
        sequence: list(3, row.2.as_slice()),
        base_slots: fit(2, row.3.as_slice()),
        level_req: row.4,
        mods: mods(row.5.as_slice()),
        triggers: read_procs(1, row.6.as_slice()),
        grants_spells: Vec::new(),
    }
}

/// `(id, name, slots, level, stats, proc, word in the item's name)`.
pub type EnchantRow = (
    &'static str,
    &'static str,
    (u8, [EquipSlot; 2]),
    u32,
    [Line; 2],
    ProcRow,
    &'static str,
);

/// The definition is what the row says.
pub open spec fn is_enchant(d: EnchantDef, row: EnchantRow) -> bool {
    &&& d.id@ == row.0@
    &&& d.name@ == row.1@
    &&& fits(d.slots@, row.2.0, row.2.1@)
    &&& d.level_req == row.3
    &&& d.mods == block(row.4@)
    &&& may_proc(d.proc, row.5)
    &&& refers(d.name_word, row.6@)
}

/// Reads a row.
pub fn enchant(row: EnchantRow) -> (r: EnchantDef)
    ensures
        is_enchant(r, row),
{
    EnchantDef {
        id: EnchantId::new(row.0),
        name: row.1.to_owned(),
        slots: fit(row.2.0, row.2.1.as_slice()),
        level_req: row.3,
        mods: mods(row.4.as_slice()),
        proc: maybe_proc(row.5),
        name_word: refer(row.6),
    }
}

/// `(id, name, tooltip, slot, rarity, stats, procs, sockets, level)`.
pub type SignatureRow = (
    &'static str,
    &'static str,
    &'static str,
    EquipSlot,
    Rarity,
    [Line; 7],
    (u8, [ProcRow; 2]),
    u8,
    u32,
);

/// What can be worn can be forged, by the standard profile.
pub open spec fn forgeable(d: ItemDef) -> bool {
    if d.slot is Consumable || d.slot is Unworn {
        d.upgrade is None
    } else {
        d.upgrade matches Some(u) && u.standard()
    }
}

/// A hand-authored signature item: unique and bound to its first wielder.
pub open spec fn is_signature(d: ItemDef, row: SignatureRow) -> bool {
    &&& d.id@ == row.0@
    &&& d.name@ == row.1@
    &&& d.description@ == row.2@
    &&& d.slot == row.3
    &&& d.rarity == row.4
    &&& d.stat_mods == block(row.5@)
    &&& are_procs(d.triggers@, row.6.0, row.6.1@)
    &&& d.base_sockets == row.7
    &&& d.level_req == row.8
    &&& d.unique && d.soulbound
    &&& forgeable(d)
    &&& grants_nothing(d)
    &&& !d.stackable && d.max_stack == 1
    &&& d.set is None
}

/// Reads a row.
pub fn signature(row: SignatureRow) -> (r: ItemDef)
    ensures
        is_signature(r, row),
{
    let mut d = ItemDef::base(row.0, row.1, row.3, row.4).described(row.2).with_stats(
        mods(row.5.as_slice()),
    ).with_sockets(row.7).require_level(row.8).unique_bound();
    d.triggers = read_procs(row.6.0, row.6.1.as_slice());
    d
}

/// `(id, name, tooltip, slot, stats, set)`.
pub type PieceRow = (
    &'static str,
    &'static str,
    &'static str,
    EquipSlot,
    [Line; 3],
    &'static str,
);

/// An epic piece of a set, with one socket.
pub open spec fn is_piece(d: ItemDef, row: PieceRow) -> bool {
    &&& d.id@ == row.0@
    &&& d.name@ == row.1@
    &&& d.description@ == row.2@
    &&& d.slot == row.3
    &&& d.rarity == Rarity::Epic
    &&& d.stat_mods == block(row.4@)
    &&& d.set matches Some(s) && s@ == row.5@
    &&& d.base_sockets == 1
    &&& d.level_req == 16
    &&& d.triggers@.len() == 0
    &&& !d.unique && !d.soulbound
    &&& forgeable(d)
    &&& grants_nothing(d)
    &&& !d.stackable && d.max_stack == 1
}

/// Reads a row.
pub fn piece(row: PieceRow) -> (r: ItemDef)
    ensures
        is_piece(r, row),
{
    ItemDef::base(row.0, row.1, row.3, Rarity::Epic).described(row.2).with_stats(
        mods(row.4.as_slice()),
    ).in_set(row.5).with_sockets(1).require_level(16)
}

/// `(pieces, tooltip, stats, procs)`.
pub type BonusRow = (u8, &'static str, [Line; 3], (u8, [ProcRow; 1]));

/// An unused place.
pub const NO_BONUS: BonusRow = (0, "", [NONE, NONE, NONE], (0, [NO_PROC]));

/// `(id, name, pieces, bonuses)`.
pub type SetRow = (&'static str, &'static str, (u8, [&'static str; 5]), (u8, [BonusRow; 3]));

/// The bonus is what the row says.
pub open spec fn is_bonus(b: SetBonus, row: BonusRow) -> bool {
    &&& b.pieces_required == row.0
    &&& b.description@ == row.1@
    &&& b.mods == block(row.2@)
    &&& are_procs(b.triggers@, row.3.0, row.3.1@)
    &&& b.grants_spells@.len() == 0
}

fn bonus(row: BonusRow) -> (r: SetBonus)
    ensures
        is_bonus(r, row),
{
    SetBonus {
        pieces_required: row.0,
        description: row.1.to_owned(),
        mods: mods(row.2.as_slice()),
        triggers: read_procs(row.3.0, row.3.1.as_slice()),
        grants_spells: Vec::new(),
    }
}

/// The bonuses are the first `n` rows.
pub open spec fn are_bonuses(list: Seq<SetBonus>, n: u8, rows: Seq<BonusRow>) -> bool {
    &&& list.len() == used(n, rows.len())
    &&& forall|i: int| 0 <= i < list.len() ==> is_bonus(#[trigger] list[i], rows[i])
}

/// The definition is what the row says.
pub open spec fn is_set(d: SetDef, row: SetRow) -> bool {
    &&& d.id@ == row.0@
    &&& d.name@ == row.1@
    &&& lists(d.pieces@, row.2.0, row.2.1@)
    &&& are_bonuses(d.bonuses@, row.3.0, row.3.1@)
}

/// Reads a row.
pub fn read_set(row: SetRow) -> (r: SetDef)
    ensures
        is_set(r, row),
{
    SetDef {
        id: SetId::new(row.0),
        name: row.1.to_owned(),
        pieces: list(row.2.0, row.2.1.as_slice()),
        bonuses: read_some(row.3.0, row.3.1.as_slice(), bonus),
    }
}

/// The list is what the table says.
pub open spec fn are_essences(list: Seq<ItemDef>, rows: Seq<EssenceRow>) -> bool {
    &&& list.len() == rows.len()
    &&& forall|i: int| 0 <= i < list.len() ==> is_essence(#[trigger] list[i], rows[i])
}

/// The list is what the table says.
pub open spec fn are_affixes(list: Seq<AffixDef>, rows: Seq<AffixRow>) -> bool {
    &&& list.len() == rows.len()
    &&& forall|i: int| 0 <= i < list.len() ==> is_affix(#[trigger] list[i], rows[i])
}

/// The list is what the table says.
pub open spec fn are_gems(list: Seq<GemDef>, rows: Seq<GemRow>) -> bool {
    &&& list.len() == rows.len()
    &&& forall|i: int| 0 <= i < list.len() ==> is_gem(#[trigger] list[i], rows[i])
}

/// The list is what the table says.
pub open spec fn are_runewords(list: Seq<RunewordDef>, rows: Seq<RunewordRow>) -> bool {
    &&& list.len() == rows.len()
    &&& forall|i: int| 0 <= i < list.len() ==> is_runeword(#[trigger] list[i], rows[i])
}

/// The list is what the table says.
pub open spec fn are_enchants(list: Seq<EnchantDef>, rows: Seq<EnchantRow>) -> bool {
    &&& list.len() == rows.len()
    &&& forall|i: int| 0 <= i < list.len() ==> is_enchant(#[trigger] list[i], rows[i])
}

/// The list is what the table says.
pub open spec fn are_signatures(list: Seq<ItemDef>, rows: Seq<SignatureRow>) -> bool {
    &&& list.len() == rows.len()
    &&& forall|i: int| 0 <= i < list.len() ==> is_signature(#[trigger] list[i], rows[i])
}

/// The list is what the table says.
pub open spec fn are_pieces(list: Seq<ItemDef>, rows: Seq<PieceRow>) -> bool {
    &&& list.len() == rows.len()
    &&& forall|i: int| 0 <= i < list.len() ==> is_piece(#[trigger] list[i], rows[i])
}

/// The list is what the table says.
pub open spec fn are_sets(list: Seq<SetDef>, rows: Seq<SetRow>) -> bool {
    &&& list.len() == rows.len()
    &&& forall|i: int| 0 <= i < list.len() ==> is_set(#[trigger] list[i], rows[i])
}

/// In the rows of essences, every column goes where it belongs.
pub proof fn essences_are_read_by_column(row: EssenceRow, r: ItemDef)
    requires
        call_ensures(essence, (row,), r),
    ensures
        r.id@ == row.0@,
        r.name@ == row.1@,
        r.description@ == row.2@,
        r.rarity == Rarity::Uncommon,
        r.slot == EquipSlot::Unworn,
        r.stackable && r.max_stack == 999,
        r.upgrade is None,
        grants_nothing(r),
        r.stat_mods.zeroed(),
        r.triggers@.len() == 0,
        r.level_req == 0,
        r.base_sockets == 0,
        r.set is None,
        !r.unique && !r.soulbound,
{
}

/// In the rows of affixes, every column goes where it belongs.
pub proof fn affixes_are_read_by_column(row: AffixRow, r: AffixDef)
    requires
        call_ensures(read_affix, (row,), r),
    ensures
        r.id@ == row.0@,
        r.kind == row.1,
        r.word@ == row.2@,
        r.tier == row.3,
        r.weight == decimal(100, 0),
        r.level_req == tier_level(row.3),
        lists(r.tags@, row.4.0, row.4.1@),
        fits(r.slots@, row.5.0, row.5.1@),
        r.roll_lo == block(row.6@),
        r.roll_hi == block(row.7@),
        may_proc(r.proc, row.8),
{
}

/// In the rows of gems, every column goes where it belongs.
pub proof fn gems_are_read_by_column(row: GemRow, r: GemDef)
    requires
        call_ensures(read_gem, (row,), r),
    ensures
        r.id@ == row.0@,
        r.name@ == row.1@,
        r.tier == row.2,
        r.weapon_mods == block(row.3@),
        r.armor_mods == block(row.4@),
        r.jewel_mods == block(row.5@),
        refers(r.rune_symbol, row.6@),
        fuses(r.fuse_from, row.7),
        may_proc(r.proc, row.8),
{
}

/// In the rows of runewords, every column goes where it belongs.
pub proof fn runewords_are_read_by_column(row: RunewordRow, r: RunewordDef)
    requires
        call_ensures(runeword, (row,), r),
    ensures
        r.id@ == row.0@,
        r.name@ == row.1@,
        lists(r.sequence@, 3, row.2@),
        fits(r.base_slots@, 2, row.3@),
        r.level_req == row.4,
        r.mods == block(row.5@),
        are_procs(r.triggers@, 1, row.6@),
        r.grants_spells@.len() == 0,
{
}

/// In the rows of enchants, every column goes where it belongs.
pub proof fn enchants_are_read_by_column(row: EnchantRow, r: EnchantDef)
    requires
        call_ensures(enchant, (row,), r),
    ensures
        r.id@ == row.0@,
        r.name@ == row.1@,
        fits(r.slots@, row.2.0, row.2.1@),
        r.level_req == row.3,
        r.mods == block(row.4@),
        may_proc(r.proc, row.5),
        refers(r.name_word, row.6@),
{
}

/// In the rows of signature items, every column goes where it belongs.
pub proof fn signature_items_are_read_by_column(row: SignatureRow, r: ItemDef)
    requires
        call_ensures(signature, (row,), r),
    ensures
        r.id@ == row.0@,
        r.name@ == row.1@,
        r.description@ == row.2@,
        r.slot == row.3,
        r.rarity == row.4,
        r.stat_mods == block(row.5@),
        are_procs(r.triggers@, row.6.0, row.6.1@),
        r.base_sockets == row.7,
        r.level_req == row.8,
        r.unique && r.soulbound,
        forgeable(r),
        grants_nothing(r),
        !r.stackable && r.max_stack == 1,
        r.set is None,
{
}

/// In the rows of set pieces, every column goes where it belongs.
pub proof fn set_pieces_are_read_by_column(row: PieceRow, r: ItemDef)
    requires
        call_ensures(piece, (row,), r),
    ensures
        r.id@ == row.0@,
        r.name@ == row.1@,
        r.description@ == row.2@,
        r.slot == row.3,
        r.rarity == Rarity::Epic,
        r.stat_mods == block(row.4@),
        r.set matches Some(s) && s@ == row.5@,
        r.base_sockets == 1,
        r.level_req == 16,
        r.triggers@.len() == 0,
        !r.unique && !r.soulbound,
        forgeable(r),
        grants_nothing(r),
        !r.stackable && r.max_stack == 1,
{
}

/// In the rows of sets, every column goes where it belongs.
pub proof fn sets_are_read_by_column(row: SetRow, r: SetDef)
    requires
        call_ensures(read_set, (row,), r),
    ensures
        r.id@ == row.0@,
        r.name@ == row.1@,
        lists(r.pieces@, row.2.0, row.2.1@),
        are_bonuses(r.bonuses@, row.3.0, row.3.1@),
{
}

/// A bonus of a set has its own threshold, words, stats and procs.
pub proof fn bonuses_are_read_by_column(row: SetRow, r: SetDef, i: int)
    requires
        call_ensures(read_set, (row,), r),
        0 <= i < r.bonuses@.len(),
    ensures
        r.bonuses@.len() <= row.3.0 && r.bonuses@.len() <= 3,
        r.bonuses@[i].pieces_required == row.3.1@[i].0,
        r.bonuses@[i].description@ == row.3.1@[i].1@,
        r.bonuses@[i].mods == block(row.3.1@[i].2@),
        are_procs(r.bonuses@[i].triggers@, row.3.1@[i].3.0, row.3.1@[i].3.1@),
{
    assert(is_bonus(r.bonuses@[i], row.3.1@[i]));
}

/// A gem is fused from what its row says, or not at all.
pub proof fn gems_fuse_as_their_rows_say(row: GemRow, r: GemDef)
    requires
        call_ensures(read_gem, (row,), r),
    ensures
        row.7.1 == 0 <==> r.fuse_from is None,
        r.fuse_from matches Some(f) ==> f.0@ == row.7.0@ && f.1 == row.7.1,
{
}

} // verus!
