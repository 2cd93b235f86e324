//! Tech nodes as rows.

use crate::content::ids::{AbilityId, ItemId, MovementModeId, SpellId, TechNodeId};
use crate::content::sheet::stats::{block, mods, Line, NONE};
use crate::content::sheet::{list, lists, read_some, used};
use crate::content::tech::{TechEffect, TechNode};
use vstd::prelude::*;

verus! {

/// What a node grants, names and numbers aside.
#[derive(Debug, Clone, Copy, PartialEq, Eq, Structural)]
pub enum Grant {
    Ability,
    Movement,
    Recipe,
    Stats,
    Budget,
    Spell,
}

/// `(what, name, (complexity, depth), stats)`.
pub type EffectRow = (Grant, &'static str, (u32, u32), [Line; 2]);

/// An unused place.
pub const NO_EFFECT: EffectRow = (Grant::Spell, "", (0, 0), [NONE, NONE]);

/// `(id, name, description, branch, tier, skill points, prerequisites, effects, items made
/// available)`.
pub type NodeRow = (
    &'static str,
    &'static str,
    &'static str,
    &'static str,
    u32,
    u32,
    (u8, [&'static str; 1]),
    (u8, [EffectRow; 3]),
    (u8, [&'static str; 1]),
);

/// The effect is the one that the row names.
pub open spec fn grants(e: TechEffect, row: EffectRow) -> bool {
    match e {
        TechEffect::UnlockAbility(id) => row.0 == Grant::Ability && id@ == row.1@,
        TechEffect::UnlockMovement(id) => row.0 == Grant::Movement && id@ == row.1@,
        TechEffect::UnlockRecipe(id) => row.0 == Grant::Recipe && id@ == row.1@,
        TechEffect::StatMult(m) => row.0 == Grant::Stats && m == block(row.3@),
        TechEffect::RaiseSpellBudget { complexity, depth } => row.0 == Grant::Budget && complexity
            == row.2.0 && depth == row.2.1,
        TechEffect::GrantSpell(id) => row.0 == Grant::Spell && id@ == row.1@,
    }
}

fn grant(row: EffectRow) -> (r: TechEffect)
    ensures
        grants(r, row),
{
    match row.0 {
        Grant::Ability => TechEffect::UnlockAbility(AbilityId::new(row.1)),
        Grant::Movement => TechEffect::UnlockMovement(MovementModeId::new(row.1)),
        Grant::Recipe => TechEffect::UnlockRecipe(ItemId::new(row.1)),
        Grant::Stats => TechEffect::StatMult(mods(row.3.as_slice())),
        Grant::Budget => TechEffect::RaiseSpellBudget { complexity: row.2.0, depth: row.2.1 },
        Grant::Spell => TechEffect::GrantSpell(SpellId::new(row.1)),
    }
}

/// The effects are the first `n` rows.
pub open spec fn all_grants(list: Seq<TechEffect>, n: u8, rows: Seq<EffectRow>) -> bool {
    &&& list.len() == used(n, rows.len())
    &&& forall|i: int| 0 <= i < list.len() ==> grants(#[trigger] list[i], rows[i])
}

/// The definition is what the row says.
pub open spec fn is_node(d: TechNode, row: NodeRow) -> bool {
    &&& d.id@ == row.0@
    &&& d.name@ == row.1@
    &&& d.description@ == row.2@
    &&& d.branch@ == row.3@
    &&& d.tier == row.4
    &&& d.cost_skill_points == row.5
    &&& lists(d.prereqs@, row.6.0, row.6.1@)
    &&& all_grants(d.effects@, row.7.0, row.7.1@)
    &&& lists(d.unlock_items@, row.8.0, row.8.1@)
    &&& d.icon_material is None
}

/// The list is what the table says.
pub open spec fn are_nodes(list: Seq<TechNode>, rows: Seq<NodeRow>) -> bool {
    &&& list.len() == rows.len()
    &&& forall|i: int| 0 <= i < list.len() ==> is_node(#[trigger] list[i], rows[i])
}

/// Reads a row.
pub fn node(row: NodeRow) -> (r: TechNode)
    ensures
        is_node(r, row),
{
    TechNode {
        id: TechNodeId::new(row.0),
        name: row.1.to_owned(),
        description: row.2.to_owned(),
        branch: row.3.to_owned(),
        tier: row.4,
        cost_skill_points: row.5,
        prereqs: list(row.6.0, row.6.1.as_slice()),
        effects: read_some(row.7.0, row.7.1.as_slice(), grant),
        unlock_items: list(row.8.0, row.8.1.as_slice()),
        icon_material: None,
    }
}

/// What a row names is what it is read as, with the row's own numbers and names.
pub proof fn grants_as_the_row_names(e: TechEffect, row: EffectRow)
    requires
        grants(e, row),
    ensures
        row.0 == Grant::Ability ==> (e matches TechEffect::UnlockAbility(id) && id@ == row.1@),
        row.0 == Grant::Movement ==> (e matches TechEffect::UnlockMovement(id) && id@ == row.1@),
        row.0 == Grant::Recipe ==> (e matches TechEffect::UnlockRecipe(id) && id@ == row.1@),
        row.0 == Grant::Stats ==> (e matches TechEffect::StatMult(m) && m == block(row.3@)),
        row.0 == Grant::Budget ==> (e matches TechEffect::RaiseSpellBudget { complexity, depth }
            && complexity == row.2.0
            && depth == row.2.1),
        row.0 == Grant::Spell ==> (e matches TechEffect::GrantSpell(id) && id@ == row.1@),
{
}

/// In the rows of tech nodes, every column goes where it belongs.
pub proof fn tech_nodes_are_read_by_column(row: NodeRow, r: TechNode)
    requires
        call_ensures(node, (row,), r),
    ensures
        r.id@ == row.0@,
        r.name@ == row.1@,
        r.description@ == row.2@,
        r.branch@ == row.3@,
        r.tier == row.4,
        r.cost_skill_points == row.5,
        lists(r.prereqs@, row.6.0, row.6.1@),
        all_grants(r.effects@, row.7.0, row.7.1@),
        lists(r.unlock_items@, row.8.0, row.8.1@),
        r.icon_material is None,
{
}

} // verus!
