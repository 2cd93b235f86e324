//! Gear sets: wearing several pieces of a matched set unlocks escalating bonuses.
//!
//! A [`SetDef`] lists its member items and a ladder of [`SetBonus`] thresholds. The
//! sim counts how many distinct set pieces a character has equipped and folds in every
//! bonus whose `pieces_required` is met — so a 2-piece grants a taste, the 6-piece the
//! signature payoff (a granted spell, a build-defining proc). Sets are the "aspirational
//! complete look" that pulls a player through the mid-game.

use crate::content::ids::{ItemId, SetId, SpellId};
use crate::content::item::{ItemTrigger, StatMods};
use vstd::prelude::*;

verus! {

/// One rung of a set's bonus ladder.
#[derive(Debug, Clone)]
pub struct SetBonus {
    /// How many distinct set pieces must be equipped for this bonus to apply.
    pub pieces_required: u8,
    /// Tooltip line ("(4) Pieces: +35% fire damage").
    pub description: String,
    /// Flat stats granted at this threshold.
    pub mods: StatMods,
    /// Procs granted at this threshold (the signature 6-piece effect).
    pub triggers: Vec<ItemTrigger>,
    /// Spells added to the spellbook at this threshold.
    pub grants_spells: Vec<SpellId>,
}

/// A named set.
#[derive(Debug, Clone)]
pub struct SetDef {
    pub id: SetId,
    pub name: String,
    /// The full roster of items that count toward this set.
    pub pieces: Vec<ItemId>,
    /// Bonus ladder; the sim applies every entry whose threshold is met.
    pub bonuses: Vec<SetBonus>,
}

/// The bonuses whose threshold `count` equipped pieces meet, in ladder order.
pub open spec fn met(bonuses: Seq<SetBonus>, count: u8) -> Seq<SetBonus>
    decreases bonuses.len(),
{
    if bonuses.len() == 0 {
        seq![]
    } else {
        let rest = met(bonuses.drop_last(), count);
        if count >= bonuses.last().pieces_required {
            rest.push(bonuses.last())
        } else {
            rest
        }
    }
}

impl SetDef {
    /// All bonuses active at `equipped_count` equipped pieces.
    pub fn active_bonuses(&self, equipped_count: u8) -> (r: Vec<&SetBonus>)
        ensures
            r@.len() == met(self.bonuses@, equipped_count).len(),
            forall|i: int|
                0 <= i < r@.len() ==> *(#[trigger] r@[i]) == met(self.bonuses@, equipped_count)[i],
    {
        let mut out: Vec<&SetBonus> = Vec::new();
        let mut i: usize = 0;
        while i < self.bonuses.len()
            invariant
                i <= self.bonuses.len(),
                out@.len() == met(self.bonuses@.take(i as int), equipped_count).len(),
                forall|k: int|
                    0 <= k < out@.len() ==> *(#[trigger] out@[k]) == met(
                        self.bonuses@.take(i as int),
                        equipped_count,
                    )[k],
            decreases self.bonuses.len() - i,
        {
            assert(self.bonuses@.take(i + 1).drop_last() =~= self.bonuses@.take(i as int));
            if equipped_count >= self.bonuses[i].pieces_required {
                out.push(&self.bonuses[i]);
            }
            i = i + 1;
        }
        assert(self.bonuses@.take(self.bonuses@.len() as int) =~= self.bonuses@);
        out
    }
}

/// `at` places the shorter list in the longer one: in order, each entry at its own place.
pub open spec fn places(at: Seq<int>, fewer: Seq<SetBonus>, more: Seq<SetBonus>) -> bool {
    &&& at.len() == fewer.len()
    &&& forall|i: int, j: int| 0 <= i < j < at.len() ==> #[trigger] at[i] < #[trigger] at[j]
    &&& forall|i: int|
        0 <= i < at.len() ==> 0 <= #[trigger] at[i] < more.len() && more[at[i]] == fewer[i]
}

proof fn placing(bonuses: Seq<SetBonus>, fewer: u8, more: u8) -> (at: Seq<int>)
    requires
        fewer <= more,
    ensures
        places(at, met(bonuses, fewer), met(bonuses, more)),
    decreases bonuses.len(),
{
    if bonuses.len() == 0 {
        seq![]
    } else {
        let at = placing(bonuses.drop_last(), fewer, more);
        if fewer >= bonuses.last().pieces_required {
            at.push(met(bonuses.drop_last(), more).len() as int)
        } else {
            at
        }
    }
}

/// Putting on another piece never loses a bonus: the bonuses of fewer pieces are among those
/// of more, in the same order.
pub proof fn more_pieces_keep_bonuses(bonuses: Seq<SetBonus>, fewer: u8, more: u8)
    requires
        fewer <= more,
    ensures
        exists|at: Seq<int>| #[trigger] places(at, met(bonuses, fewer), met(bonuses, more)),
{
    let at = placing(bonuses, fewer, more);
    assert(places(at, met(bonuses, fewer), met(bonuses, more)));
}

/// A bonus is active exactly from its threshold on: those of a number of pieces are the ones of the
/// ladder that ask for no more pieces, in ladder order.
pub proof fn bonuses_begin_at_their_threshold(bonuses: Seq<SetBonus>, count: u8)
    ensures
        met(bonuses, count) == bonuses.filter(|b: SetBonus| b.pieces_required <= count),
    decreases bonuses.len(),
{
    reveal(Seq::filter);
    if bonuses.len() > 0 {
        bonuses_begin_at_their_threshold(bonuses.drop_last(), count);
    }
}

} // verus!
