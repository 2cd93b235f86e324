//! What rows add to a pack: the names that they define there, and that their own references
//! resolve if the names in them do.

use crate::content::closed::all_known;
use crate::content::growth::{
    counted_known, defined, entered_known, entries_known, listed_known, pairs_known, row_known,
};
use crate::content::keyed::keys;
use crate::content::pack::ContentPack;
use crate::content::sheet::ability::{are_abilities, is_ability, AbilityRow};
use crate::content::sheet::gamemode::{are_modes, is_mode, ModeRow};
use crate::content::sheet::item::{are_items, is_item, ItemRow};
use crate::content::sheet::loot::{are_loot, is_loot, LootRow};
use crate::content::sheet::mob::{are_mobs, is_mob, MobRow};
use crate::content::sheet::spawn::{are_spawns, is_spawn, SpawnRow};
use crate::content::sheet::spell::{are_spells, is_spell, Op, SpellRow};
use crate::content::sheet::status::{are_statuses, is_status, StatusRow};
use crate::content::sheet::tech::{are_nodes, is_node, NodeRow};
use crate::content::sheet::trigger::{
    acts, are_triggers, needed, is_trigger, Act, ActRow, Event, Need, TriggerRow,
};
use crate::content::sheet::used;
use vstd::prelude::*;

verus! {

pub proof fn spells_added(p: ContentPack, n: int, rows: Seq<SpellRow>, effects: spec_fn(int) -> Op)
    requires
        0 <= n <= p.spells@.len(),
        are_spells(p.spells@.skip(n), rows, effects),
    ensures
        forall|j: int|
            0 <= j < rows.len() ==> keys(p.spells@).contains((#[trigger] rows[j]).0@),
{
    let new = p.spells@.skip(n);
    assert forall|j: int| 0 <= j < rows.len() implies keys(p.spells@).contains(
        (#[trigger] rows[j]).0@,
    ) by {
        assert(is_spell(new[j], rows[j]));
        assert(p.spells@[n + j] == new[j]);
        defined(p.spells@, n + j);
    }
}

pub proof fn items_added(p: ContentPack, n: int, rows: Seq<ItemRow>)
    requires
        0 <= n <= p.items@.len(),
        are_items(p.items@.skip(n), rows),
    ensures
        forall|j: int|
            0 <= j < rows.len() ==> keys(p.items@).contains((#[trigger] rows[j]).0@),
{
    let new = p.items@.skip(n);
    assert forall|j: int| 0 <= j < rows.len() implies keys(p.items@).contains(
        (#[trigger] rows[j]).0@,
    ) by {
        assert(is_item(new[j], rows[j]));
        assert(p.items@[n + j] == new[j]);
        defined(p.items@, n + j);
    }
}

pub proof fn abilities_added(p: ContentPack, n: int, rows: Seq<AbilityRow>)
    requires
        0 <= n <= p.abilities@.len(),
        are_abilities(p.abilities@.skip(n), rows),
    ensures
        forall|j: int|
            0 <= j < rows.len() ==> keys(p.abilities@).contains((#[trigger] rows[j]).0@),
{
    let new = p.abilities@.skip(n);
    assert forall|j: int| 0 <= j < rows.len() implies keys(p.abilities@).contains(
        (#[trigger] rows[j]).0@,
    ) by {
        assert(is_ability(new[j], rows[j]));
        assert(p.abilities@[n + j] == new[j]);
        defined(p.abilities@, n + j);
    }
}

pub proof fn nodes_added(p: ContentPack, n: int, rows: Seq<NodeRow>)
    requires
        0 <= n <= p.tech.nodes@.len(),
        are_nodes(p.tech.nodes@.skip(n), rows),
    ensures
        forall|j: int|
            0 <= j < rows.len() ==> keys(p.tech.nodes@).contains((#[trigger] rows[j]).0@),
{
    let new = p.tech.nodes@.skip(n);
    assert forall|j: int| 0 <= j < rows.len() implies keys(p.tech.nodes@).contains(
        (#[trigger] rows[j]).0@,
    ) by {
        assert(is_node(new[j], rows[j]));
        assert(p.tech.nodes@[n + j] == new[j]);
        defined(p.tech.nodes@, n + j);
    }
}

pub proof fn statuses_added(p: ContentPack, n: int, rows: Seq<StatusRow>)
    requires
        0 <= n <= p.statuses@.len(),
        are_statuses(p.statuses@.skip(n), rows),
    ensures
        forall|j: int|
            0 <= j < rows.len() ==> keys(p.statuses@).contains((#[trigger] rows[j]).0@),
{
    let new = p.statuses@.skip(n);
    assert forall|j: int| 0 <= j < rows.len() implies keys(p.statuses@).contains(
        (#[trigger] rows[j]).0@,
    ) by {
        assert(is_status(new[j], rows[j]));
        assert(p.statuses@[n + j] == new[j]);
        defined(p.statuses@, n + j);
    }
}

pub proof fn mobs_added(p: ContentPack, n: int, rows: Seq<MobRow>)
    requires
        0 <= n <= p.mobs@.len(),
        are_mobs(p.mobs@.skip(n), rows),
    ensures
        forall|j: int|
            0 <= j < rows.len() ==> keys(p.mobs@).contains((#[trigger] rows[j]).0@),
{
    let new = p.mobs@.skip(n);
    assert forall|j: int| 0 <= j < rows.len() implies keys(p.mobs@).contains(
        (#[trigger] rows[j]).0@,
    ) by {
        assert(is_mob(new[j], rows[j]));
        assert(p.mobs@[n + j] == new[j]);
        defined(p.mobs@, n + j);
    }
}

pub proof fn loot_added(p: ContentPack, n: int, rows: Seq<LootRow>)
    requires
        0 <= n <= p.loot_tables@.len(),
        are_loot(p.loot_tables@.skip(n), rows),
    ensures
        forall|j: int|
            0 <= j < rows.len() ==> keys(p.loot_tables@).contains((#[trigger] rows[j]).0@),
{
    let new = p.loot_tables@.skip(n);
    assert forall|j: int| 0 <= j < rows.len() implies keys(p.loot_tables@).contains(
        (#[trigger] rows[j]).0@,
    ) by {
        assert(is_loot(new[j], rows[j]));
        assert(p.loot_tables@[n + j] == new[j]);
        defined(p.loot_tables@, n + j);
    }
}

pub proof fn abilities_closed(p: ContentPack, n: int, rows: Seq<AbilityRow>)
    requires
        0 <= n <= p.abilities@.len(),
        are_abilities(p.abilities@.skip(n), rows),
        forall|j: int| 0 <= j < rows.len() ==> keys(p.spells@).contains((#[trigger] rows[j]).2@),
    ensures
        forall|i: int| n <= i < p.abilities@.len() ==> #[trigger] p.ability_closed(i),
{
    let new = p.abilities@.skip(n);
    assert forall|i: int| n <= i < p.abilities@.len() implies #[trigger] p.ability_closed(i) by {
        let d = p.abilities@[i];
        let row = rows[i - n];
        assert(new[i - n] == d);
        assert(is_ability(d, row));
    }
}

pub proof fn nodes_closed(p: ContentPack, n: int, rows: Seq<NodeRow>)
    requires
        0 <= n <= p.tech.nodes@.len(),
        are_nodes(p.tech.nodes@.skip(n), rows),
        forall|j: int| 0 <= j < rows.len() ==> row_known(
            (#[trigger] rows[j]).8.0,
            rows[j].8.1@,
            keys(p.items@),
        ),
    ensures
        forall|i: int| n <= i < p.tech.nodes@.len() ==> #[trigger] p.tech_node_closed(i),
{
    let new = p.tech.nodes@.skip(n);
    assert forall|i: int| n <= i < p.tech.nodes@.len() implies #[trigger] p.tech_node_closed(i) by {
        let d = p.tech.nodes@[i];
        let row = rows[i - n];
        assert(new[i - n] == d);
        assert(is_node(d, row));
        listed_known(d.unlock_items@, row.8.0, row.8.1@, keys(p.items@));
    }
}

pub proof fn modes_closed(p: ContentPack, n: int, rows: Seq<ModeRow>)
    requires
        0 <= n <= p.game_modes@.len(),
        are_modes(p.game_modes@.skip(n), rows),
        forall|j: int| 0 <= j < rows.len() ==> row_known(
            (#[trigger] rows[j]).8.0,
            rows[j].8.1@,
            keys(p.abilities@),
        ) && pairs_known(rows[j].9.0, rows[j].9.1@, keys(p.items@)),
    ensures
        forall|i: int| n <= i < p.game_modes@.len() ==> #[trigger] p.game_mode_closed(i),
{
    let new = p.game_modes@.skip(n);
    assert forall|i: int| n <= i < p.game_modes@.len() implies #[trigger] p.game_mode_closed(i) by {
        let d = p.game_modes@[i];
        let row = rows[i - n];
        assert(new[i - n] == d);
        assert(is_mode(d, row));
        listed_known(d.starting_loadout@, row.8.0, row.8.1@, keys(p.abilities@));
        counted_known(d.starting_items@, row.9.0, row.9.1@, keys(p.items@));
    }
}

pub proof fn loot_closed(p: ContentPack, n: int, rows: Seq<LootRow>)
    requires
        0 <= n <= p.loot_tables@.len(),
        are_loot(p.loot_tables@.skip(n), rows),
        forall|j: int| 0 <= j < rows.len() ==> entries_known(
            (#[trigger] rows[j]).2.0,
            rows[j].2.1@,
            keys(p.items@),
        ),
    ensures
        forall|i: int| n <= i < p.loot_tables@.len() ==> #[trigger] p.loot_table_closed(i),
{
    let new = p.loot_tables@.skip(n);
    assert forall|i: int| n <= i < p.loot_tables@.len() implies #[trigger] p.loot_table_closed(i) by {
        let d = p.loot_tables@[i];
        let row = rows[i - n];
        assert(new[i - n] == d);
        assert(is_loot(d, row));
        entered_known(d.entries@, row.2.0, row.2.1@, keys(p.items@));
    }
}

pub proof fn spawns_closed(p: ContentPack, n: int, rows: Seq<SpawnRow>)
    requires
        0 <= n <= p.spawn_rules@.len(),
        are_spawns(p.spawn_rules@.skip(n), rows),
        forall|j: int| 0 <= j < rows.len() ==> keys(p.mobs@).contains((#[trigger] rows[j]).2@)
            && keys(p.loot_tables@).contains(rows[j].7@),
    ensures
        forall|i: int| n <= i < p.spawn_rules@.len() ==> #[trigger] p.spawn_rule_closed(i),
{
    let new = p.spawn_rules@.skip(n);
    assert forall|i: int| n <= i < p.spawn_rules@.len() implies #[trigger] p.spawn_rule_closed(i) by {
        let d = p.spawn_rules@[i];
        let row = rows[i - n];
        assert(new[i - n] == d);
        assert(is_spawn(d, row));
    }
}

/// What a trigger's row names is known.
pub open spec fn rule_known(row: TriggerRow, p: ContentPack) -> bool {
    &&& row.2.0 == Event::SpellCast ==> keys(p.spells@).contains(row.2.1@)
    &&& forall|k: int|
        0 <= k < used(row.3.0, 2) && (#[trigger] row.3.1@[k]).0 == Need::HasTech ==> keys(
            p.tech.nodes@,
        ).contains(row.3.1@[k].1@)
    &&& forall|k: int| 0 <= k < used(row.4.0, 2) ==> act_known(#[trigger] row.4.1@[k], p)
}

/// What an action's row names is known.
pub open spec fn act_known(row: ActRow, p: ContentPack) -> bool {
    match row.0 {
        Act::GrantItem => keys(p.items@).contains(row.1@),
        Act::ApplyStatus => keys(p.statuses@).contains(row.1@),
        Act::SpawnMob => keys(p.mobs@).contains(row.1@),
        Act::Broadcast => true,
    }
}

proof fn rule_closed(p: ContentPack, i: int, row: TriggerRow)
    requires
        is_trigger(p.triggers@[i], row),
        rule_known(row, p),
    ensures
        p.trigger_closed(i),
{
    let t = p.triggers@[i];
    assert(p.event_closed(t.on));
    assert forall|j: int| 0 <= j < t.conditions@.len() implies p.condition_closed(
        #[trigger] t.conditions@[j],
    ) by {
        assert(needed(t.conditions@[j], row.3.1@[j]));
    }
    assert forall|j: int| 0 <= j < t.actions@.len() implies p.action_closed(
        #[trigger] t.actions@[j],
    ) by {
        assert(acts(t.actions@[j], row.4.1@[j]));
        assert(act_known(row.4.1@[j], p));
    }
}

pub proof fn triggers_closed(p: ContentPack, n: int, rows: Seq<TriggerRow>)
    requires
        0 <= n <= p.triggers@.len(),
        are_triggers(p.triggers@.skip(n), rows),
        forall|j: int| 0 <= j < rows.len() ==> rule_known(#[trigger] rows[j], p),
    ensures
        forall|i: int| n <= i < p.triggers@.len() ==> #[trigger] p.trigger_closed(i),
{
    let new = p.triggers@.skip(n);
    assert forall|i: int| n <= i < p.triggers@.len() implies #[trigger] p.trigger_closed(i) by {
        let d = p.triggers@[i];
        let row = rows[i - n];
        assert(new[i - n] == d);
        assert(is_trigger(d, row));
        rule_closed(p, i, row);
    }
}

/// The abilities that the creature at `i` casts are all the pack's.
pub open spec fn casts_known(p: ContentPack, i: int) -> bool {
    all_known(p.mobs@[i].abilities@, keys(p.abilities@))
}

/// Every ability that a creature casts is one of the pack's.
pub open spec fn mobs_closed(p: ContentPack) -> bool {
    forall|i: int| 0 <= i < p.mobs@.len() ==> #[trigger] casts_known(p, i)
}

pub proof fn mobs_cast(p: ContentPack, n: int, rows: Seq<MobRow>)
    requires
        0 <= n <= p.mobs@.len(),
        are_mobs(p.mobs@.skip(n), rows),
        forall|j: int| 0 <= j < rows.len() ==> row_known(
            (#[trigger] rows[j]).4.0,
            rows[j].4.1@,
            keys(p.abilities@),
        ),
    ensures
        forall|i: int| n <= i < p.mobs@.len() ==> #[trigger] casts_known(p, i),
{
    let new = p.mobs@.skip(n);
    assert forall|i: int| n <= i < p.mobs@.len() implies #[trigger] casts_known(p, i) by {
        let d = p.mobs@[i];
        let row = rows[i - n];
        assert(new[i - n] == d);
        assert(is_mob(d, row));
        listed_known(d.abilities@, row.4.0, row.4.1@, keys(p.abilities@));
    }
}

} // verus!
