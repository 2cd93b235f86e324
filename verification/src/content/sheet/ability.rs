//! Abilities as rows.

use crate::content::ability::{AbilityDef, CastInput};
use crate::content::ids::{AbilityId, SpellId};
use vstd::prelude::*;

verus! {

/// The input that fires an ability, the slot's number aside.
#[derive(Debug, Clone, Copy, PartialEq, Eq, Structural)]
pub enum Bind {
    Primary,
    Secondary,
    Slot,
}

/// `(id, name, spell, (input, slot))`.
pub type AbilityRow = (&'static str, &'static str, &'static str, (Bind, u8));

/// The input that the row names.
pub open spec fn bound(row: (Bind, u8)) -> CastInput {
    match row.0 {
        Bind::Primary => CastInput::Primary,
        Bind::Secondary => CastInput::Secondary,
        Bind::Slot => CastInput::Slot(row.1),
    }
}

/// The definition is what the row says.
pub open spec fn is_ability(d: AbilityDef, row: AbilityRow) -> bool {
    &&& d.id@ == row.0@
    &&& d.name@ == row.1@
    &&& d.spell@ == row.2@
    &&& d.binding == bound(row.3)
    &&& d.cooldown_override is None
    &&& d.icon_material is None
}

/// The list is what the table says.
pub open spec fn are_abilities(list: Seq<AbilityDef>, rows: Seq<AbilityRow>) -> bool {
    &&& list.len() == rows.len()
    &&& forall|i: int| 0 <= i < list.len() ==> is_ability(#[trigger] list[i], rows[i])
}

/// Reads a row.
pub fn ability(row: AbilityRow) -> (r: AbilityDef)
    ensures
        is_ability(r, row),
{
    AbilityDef {
        id: AbilityId::new(row.0),
        name: row.1.to_owned(),
        spell: SpellId::new(row.2),
        binding: match row.3.0 {
            Bind::Primary => CastInput::Primary,
            Bind::Secondary => CastInput::Secondary,
            Bind::Slot => CastInput::Slot(row.3.1),
        },
        cooldown_override: None,
        icon_material: None,
    }
}

/// In the rows of abilities, every column goes where it belongs.
pub proof fn abilities_are_read_by_column(row: AbilityRow, r: AbilityDef)
    requires
        call_ensures(ability, (row,), r),
    ensures
        r.id@ == row.0@,
        r.name@ == row.1@,
        r.spell@ == row.2@,
        r.binding == bound(row.3),
        r.cooldown_override is None,
        r.icon_material is None,
{
}

/// An ability is bound to the input that its row names.
pub proof fn abilities_are_bound_as_named(row: AbilityRow, r: AbilityDef)
    requires
        call_ensures(ability, (row,), r),
    ensures
        row.3.0 is Primary <==> r.binding is Primary,
        row.3.0 is Secondary <==> r.binding is Secondary,
        row.3.0 is Slot <==> r.binding == CastInput::Slot(row.3.1),
{
}

} // verus!
