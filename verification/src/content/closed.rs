//! What validation is for: a pack that passes it has no dangling reference, and a pack
//! without dangling references passes it.

use crate::content::keyed::{keys, Keyed};
use crate::content::pack::ContentPack;
use crate::content::spell::{leads_down, EffectOp};
use crate::content::triggers::{GameTrigger, RuleAction, TriggerCondition, TriggerDef};
use crate::content::validate::{
    carries, either, first_missing, first_of, first_of_at, first_of_none, missing, status_problem,
    status_problem_below, symbols,
};
use vstd::prelude::*;

verus! {

/// Every reference is to a known name.
pub open spec fn all_known<R: Keyed>(refs: Seq<R>, known: Set<Seq<char>>) -> bool {
    forall|i: int| 0 <= i < refs.len() ==> known.contains(#[trigger] refs[i].key())
}

/// The statuses that an op or anything below it applies.
pub open spec fn applied(op: EffectOp) -> Set<Seq<char>>
    decreases op, 1nat, 0nat,
{
    let below = applied_below(op, op.below().len());
    match op {
        EffectOp::ApplyStatus { status, .. } => below.insert(status@),
        _ => below,
    }
}

/// The same for the first `n` ops directly below.
pub open spec fn applied_below(op: EffectOp, n: nat) -> Set<Seq<char>>
    decreases op, 0nat, n,
{
    if n == 0 || n > op.below().len() {
        Set::empty()
    } else {
        proof {
            op.below_is_smaller(n - 1);
        }
        applied_below(op, (n - 1) as nat).union(applied(op.below()[n - 1]))
    }
}

impl ContentPack {
    /// The event that a trigger waits for names known things only.
    pub open spec fn event_closed(self, on: GameTrigger) -> bool {
        match on {
            GameTrigger::OnPickup { item } => keys(self.items@).contains(item@),
            GameTrigger::OnSpellCast { spell } => keys(self.spells@).contains(spell@),
            _ => true,
        }
    }

    /// The condition names known things only.
    pub open spec fn condition_closed(self, c: TriggerCondition) -> bool {
        match c {
            TriggerCondition::HasItem { item } => keys(self.items@).contains(item@),
            TriggerCondition::HasTech { node } => keys(self.tech.nodes@).contains(node@),
            _ => true,
        }
    }

    /// The action names known things only.
    pub open spec fn action_closed(self, a: RuleAction) -> bool {
        match a {
            RuleAction::GrantItem { item, .. } => keys(self.items@).contains(item@),
            RuleAction::ApplyStatus { status, .. } => keys(self.statuses@).contains(status@),
            RuleAction::SpawnMob { mob, .. } => keys(self.mobs@).contains(mob@),
            RuleAction::SpawnLoot { table } => keys(self.loot_tables@).contains(table@),
            _ => true,
        }
    }

    pub open spec fn ability_closed(self, i: int) -> bool {
        keys(self.spells@).contains(self.abilities@[i].spell@)
    }

    pub open spec fn tech_node_closed(self, i: int) -> bool {
        all_known(self.tech.nodes@[i].unlock_items@, keys(self.items@))
    }

    pub open spec fn spell_closed(self, i: int) -> bool {
        applied(self.spells@[i].root).subset_of(keys(self.statuses@))
    }

    pub open spec fn game_mode_closed(self, i: int) -> bool {
        &&& all_known(self.game_modes@[i].starting_loadout@, keys(self.abilities@))
        &&& all_known(self.game_modes@[i].starting_items@, keys(self.items@))
    }

    pub open spec fn loot_table_closed(self, i: int) -> bool {
        all_known(self.loot_tables@[i].entries@, keys(self.items@))
    }

    pub open spec fn spawn_rule_closed(self, i: int) -> bool {
        &&& keys(self.mobs@).contains(self.spawn_rules@[i].mob@)
        &&& match self.spawn_rules@[i].loot_table {
            Some(t) => keys(self.loot_tables@).contains(t@),
            None => true,
        }
    }

    pub open spec fn trigger_closed(self, i: int) -> bool {
        let t = self.triggers@[i];
        &&& self.event_closed(t.on)
        &&& forall|j: int|
            0 <= j < t.conditions@.len() ==> self.condition_closed(#[trigger] t.conditions@[j])
        &&& forall|j: int| 0 <= j < t.actions@.len() ==> self.action_closed(#[trigger] t.actions@[j])
    }

    pub open spec fn item_set_closed(self, i: int) -> bool {
        all_known(self.item_sets@[i].pieces@, keys(self.items@))
    }

    pub open spec fn runeword_closed(self, i: int) -> bool {
        all_known(self.runewords@[i].sequence@, symbols(self.gems@))
    }

    /// No reference dangles: abilities cast spells of the pack, tech nodes unlock its
    /// items, spells apply its statuses, game modes start from its abilities and items,
    /// loot tables hold its items, spawn rules its mobs and loot tables, triggers name only
    /// what it defines, sets are made of its items and runewords of its runes.
    pub open spec fn closed(self) -> bool {
        &&& forall|i: int| 0 <= i < self.abilities@.len() ==> #[trigger] self.ability_closed(i)
        &&& forall|i: int| 0 <= i < self.tech.nodes@.len() ==> #[trigger] self.tech_node_closed(i)
        &&& forall|i: int| 0 <= i < self.spells@.len() ==> #[trigger] self.spell_closed(i)
        &&& forall|i: int| 0 <= i < self.game_modes@.len() ==> #[trigger] self.game_mode_closed(i)
        &&& forall|i: int| 0 <= i < self.loot_tables@.len() ==> #[trigger] self.loot_table_closed(i)
        &&& forall|i: int| 0 <= i < self.spawn_rules@.len() ==> #[trigger] self.spawn_rule_closed(i)
        &&& forall|i: int| 0 <= i < self.triggers@.len() ==> #[trigger] self.trigger_closed(i)
        &&& forall|i: int| 0 <= i < self.item_sets@.len() ==> #[trigger] self.item_set_closed(i)
        &&& forall|i: int| 0 <= i < self.runewords@.len() ==> #[trigger] self.runeword_closed(i)
    }
}

proof fn first_missing_none<R: Keyed>(
    what: Seq<char>,
    id: Seq<char>,
    verb: Seq<char>,
    refs: Seq<R>,
    known: Set<Seq<char>>,
)
    ensures
        first_missing(what, id, verb, refs, known) is None <==> all_known(refs, known),
{
    let problems = Seq::new(refs.len(), |i: int| missing(what, id, verb, refs[i].key(), known));
    first_of_none(problems);
    if all_known(refs, known) {
        assert forall|j: int| 0 <= j < problems.len() implies problems[j] is None by {
            assert(known.contains(refs[j].key()));
        }
    }
    if forall|j: int| 0 <= j < problems.len() ==> problems[j] is None {
        assert forall|i: int| 0 <= i < refs.len() implies known.contains(
            #[trigger] refs[i].key(),
        ) by {
            assert(problems[i] is None);
        }
    }
}

proof fn status_problem_none(op: EffectOp, spell: Seq<char>, known: Set<Seq<char>>)
    ensures
        status_problem(op, spell, known) is None <==> applied(op).subset_of(known),
    decreases op, 1nat, 0nat,
{
    status_problem_below_none(op, spell, known, op.below().len());
    let below = applied_below(op, op.below().len());
    if let EffectOp::ApplyStatus { status, .. } = op {
        if applied(op).subset_of(known) {
            assert(applied(op).contains(status@));
            assert forall|k: Seq<char>| below.contains(k) implies known.contains(k) by {
                assert(applied(op).contains(k));
            }
        }
    }
}

proof fn status_problem_below_none(op: EffectOp, spell: Seq<char>, known: Set<Seq<char>>, n: nat)
    requires
        n <= op.below().len(),
    ensures
        status_problem_below(op, spell, known, n) is None <==> applied_below(op, n).subset_of(known),
    decreases op, 0nat, n,
{
    if n > 0 {
        op.below_is_smaller(n - 1);
        status_problem_below_none(op, spell, known, (n - 1) as nat);
        status_problem_none(op.below()[n - 1], spell, known);
        let here = applied(op.below()[n - 1]);
        let rest = applied_below(op, (n - 1) as nat);
        if applied_below(op, n).subset_of(known) {
            assert forall|k: Seq<char>| here.contains(k) || rest.contains(k) implies known.contains(
                k,
            ) by {
                assert(applied_below(op, n).contains(k));
            }
        }
    }
}

proof fn trigger_problem_none(pack: ContentPack, i: int)
    ensures
        pack.trigger_problem(i) is None <==> pack.trigger_closed(i),
{
    let t = pack.triggers@[i];
    let conditions = Seq::new(
        t.conditions@.len(),
        |j: int| pack.condition_problem(t.id@, t.conditions@[j]),
    );
    let actions = Seq::new(t.actions@.len(), |j: int| pack.action_problem(t.id@, t.actions@[j]));
    first_of_none(conditions);
    first_of_none(actions);
    if pack.trigger_closed(i) {
        assert forall|j: int| 0 <= j < conditions.len() implies conditions[j] is None by {
            assert(pack.condition_closed(t.conditions@[j]));
        }
        assert forall|j: int| 0 <= j < actions.len() implies actions[j] is None by {
            assert(pack.action_closed(t.actions@[j]));
        }
    }
    if pack.trigger_problem(i) is None {
        assert forall|j: int| 0 <= j < t.conditions@.len() implies pack.condition_closed(
            #[trigger] t.conditions@[j],
        ) by {
            assert(conditions[j] is None);
        }
        assert forall|j: int| 0 <= j < t.actions@.len() implies pack.action_closed(
            #[trigger] t.actions@[j],
        ) by {
            assert(actions[j] is None);
        }
    }
}

proof fn abilities_none(pack: ContentPack)
    ensures
        first_of(Seq::new(pack.abilities@.len(), |i: int| pack.ability_problem(i))) is None <==> (forall|i: int|
            0 <= i < pack.abilities@.len() ==> #[trigger] pack.ability_closed(i)),
{
    let problems = Seq::new(pack.abilities@.len(), |i: int| pack.ability_problem(i));
    first_of_none(problems);
    assert forall|i: int| 0 <= i < problems.len() implies (problems[i] is None
        <==> #[trigger] pack.ability_closed(i)) by {
    }
    if forall|i: int| 0 <= i < pack.abilities@.len() ==> #[trigger] pack.ability_closed(i) {
        assert forall|j: int| 0 <= j < problems.len() implies problems[j] is None by {
            assert(pack.ability_closed(j));
        }
    }
}

proof fn tech_nodes_none(pack: ContentPack)
    ensures
        first_of(Seq::new(pack.tech.nodes@.len(), |i: int| pack.tech_node_problem(i))) is None <==> (forall|i: int|
            0 <= i < pack.tech.nodes@.len() ==> #[trigger] pack.tech_node_closed(i)),
{
    let problems = Seq::new(pack.tech.nodes@.len(), |i: int| pack.tech_node_problem(i));
    first_of_none(problems);
    assert forall|i: int| 0 <= i < problems.len() implies (problems[i] is None
        <==> #[trigger] pack.tech_node_closed(i)) by {
        let node = pack.tech.nodes@[i];
            first_missing_none("tech node "@, node.id@, " unlocks missing item "@, node.unlock_items@, keys(pack.items@));
    }
    if forall|i: int| 0 <= i < pack.tech.nodes@.len() ==> #[trigger] pack.tech_node_closed(i) {
        assert forall|j: int| 0 <= j < problems.len() implies problems[j] is None by {
            assert(pack.tech_node_closed(j));
        }
    }
}

proof fn spells_none(pack: ContentPack)
    ensures
        first_of(Seq::new(pack.spells@.len(), |i: int| pack.spell_problem(i))) is None <==> (forall|i: int|
            0 <= i < pack.spells@.len() ==> #[trigger] pack.spell_closed(i)),
{
    let problems = Seq::new(pack.spells@.len(), |i: int| pack.spell_problem(i));
    first_of_none(problems);
    assert forall|i: int| 0 <= i < problems.len() implies (problems[i] is None
        <==> #[trigger] pack.spell_closed(i)) by {
        status_problem_none(pack.spells@[i].root, pack.spells@[i].id@, keys(pack.statuses@));
    }
    if forall|i: int| 0 <= i < pack.spells@.len() ==> #[trigger] pack.spell_closed(i) {
        assert forall|j: int| 0 <= j < problems.len() implies problems[j] is None by {
            assert(pack.spell_closed(j));
        }
    }
}

proof fn game_modes_none(pack: ContentPack)
    ensures
        first_of(Seq::new(pack.game_modes@.len(), |i: int| pack.game_mode_problem(i))) is None <==> (forall|i: int|
            0 <= i < pack.game_modes@.len() ==> #[trigger] pack.game_mode_closed(i)),
{
    let problems = Seq::new(pack.game_modes@.len(), |i: int| pack.game_mode_problem(i));
    first_of_none(problems);
    assert forall|i: int| 0 <= i < problems.len() implies (problems[i] is None
        <==> #[trigger] pack.game_mode_closed(i)) by {
        let m = pack.game_modes@[i];
            first_missing_none("game mode "@, m.id@, " starting_loadout references missing ability "@, m.starting_loadout@, keys(pack.abilities@));
            first_missing_none("game mode "@, m.id@, " starting_items references missing item "@, m.starting_items@, keys(pack.items@));
    }
    if forall|i: int| 0 <= i < pack.game_modes@.len() ==> #[trigger] pack.game_mode_closed(i) {
        assert forall|j: int| 0 <= j < problems.len() implies problems[j] is None by {
            assert(pack.game_mode_closed(j));
        }
    }
}

proof fn loot_tables_none(pack: ContentPack)
    ensures
        first_of(Seq::new(pack.loot_tables@.len(), |i: int| pack.loot_table_problem(i))) is None <==> (forall|i: int|
            0 <= i < pack.loot_tables@.len() ==> #[trigger] pack.loot_table_closed(i)),
{
    let problems = Seq::new(pack.loot_tables@.len(), |i: int| pack.loot_table_problem(i));
    first_of_none(problems);
    assert forall|i: int| 0 <= i < problems.len() implies (problems[i] is None
        <==> #[trigger] pack.loot_table_closed(i)) by {
        let t = pack.loot_tables@[i];
            first_missing_none("loot table "@, t.id@, " references missing item "@, t.entries@, keys(pack.items@));
    }
    if forall|i: int| 0 <= i < pack.loot_tables@.len() ==> #[trigger] pack.loot_table_closed(i) {
        assert forall|j: int| 0 <= j < problems.len() implies problems[j] is None by {
            assert(pack.loot_table_closed(j));
        }
    }
}

proof fn spawn_rules_none(pack: ContentPack)
    ensures
        first_of(Seq::new(pack.spawn_rules@.len(), |i: int| pack.spawn_rule_problem(i))) is None <==> (forall|i: int|
            0 <= i < pack.spawn_rules@.len() ==> #[trigger] pack.spawn_rule_closed(i)),
{
    let problems = Seq::new(pack.spawn_rules@.len(), |i: int| pack.spawn_rule_problem(i));
    first_of_none(problems);
    assert forall|i: int| 0 <= i < problems.len() implies (problems[i] is None
        <==> #[trigger] pack.spawn_rule_closed(i)) by {
    }
    if forall|i: int| 0 <= i < pack.spawn_rules@.len() ==> #[trigger] pack.spawn_rule_closed(i) {
        assert forall|j: int| 0 <= j < problems.len() implies problems[j] is None by {
            assert(pack.spawn_rule_closed(j));
        }
    }
}

proof fn triggers_none(pack: ContentPack)
    ensures
        first_of(Seq::new(pack.triggers@.len(), |i: int| pack.trigger_problem(i))) is None <==> (forall|i: int|
            0 <= i < pack.triggers@.len() ==> #[trigger] pack.trigger_closed(i)),
{
    let problems = Seq::new(pack.triggers@.len(), |i: int| pack.trigger_problem(i));
    first_of_none(problems);
    assert forall|i: int| 0 <= i < problems.len() implies (problems[i] is None
        <==> #[trigger] pack.trigger_closed(i)) by {
        trigger_problem_none(pack, i);
    }
    if forall|i: int| 0 <= i < pack.triggers@.len() ==> #[trigger] pack.trigger_closed(i) {
        assert forall|j: int| 0 <= j < problems.len() implies problems[j] is None by {
            assert(pack.trigger_closed(j));
        }
    }
}

proof fn item_sets_none(pack: ContentPack)
    ensures
        first_of(Seq::new(pack.item_sets@.len(), |i: int| pack.item_set_problem(i))) is None <==> (forall|i: int|
            0 <= i < pack.item_sets@.len() ==> #[trigger] pack.item_set_closed(i)),
{
    let problems = Seq::new(pack.item_sets@.len(), |i: int| pack.item_set_problem(i));
    first_of_none(problems);
    assert forall|i: int| 0 <= i < problems.len() implies (problems[i] is None
        <==> #[trigger] pack.item_set_closed(i)) by {
        let s = pack.item_sets@[i];
            first_missing_none("set "@, s.id@, " lists missing item "@, s.pieces@, keys(pack.items@));
    }
    if forall|i: int| 0 <= i < pack.item_sets@.len() ==> #[trigger] pack.item_set_closed(i) {
        assert forall|j: int| 0 <= j < problems.len() implies problems[j] is None by {
            assert(pack.item_set_closed(j));
        }
    }
}

proof fn runewords_none(pack: ContentPack)
    ensures
        first_of(Seq::new(pack.runewords@.len(), |i: int| pack.runeword_problem(i))) is None <==> (forall|i: int|
            0 <= i < pack.runewords@.len() ==> #[trigger] pack.runeword_closed(i)),
{
    let problems = Seq::new(pack.runewords@.len(), |i: int| pack.runeword_problem(i));
    first_of_none(problems);
    assert forall|i: int| 0 <= i < problems.len() implies (problems[i] is None
        <==> #[trigger] pack.runeword_closed(i)) by {
        let w = pack.runewords@[i];
            first_missing_none("runeword "@, w.id@, " needs missing rune symbol "@, w.sequence@, symbols(pack.gems@));
    }
    if forall|i: int| 0 <= i < pack.runewords@.len() ==> #[trigger] pack.runeword_closed(i) {
        assert forall|j: int| 0 <= j < problems.len() implies problems[j] is None by {
            assert(pack.runeword_closed(j));
        }
    }
}

/// Validation accepts exactly the packs without a dangling reference.
pub proof fn valid_means_closed(pack: ContentPack)
    ensures
        pack.problem() is None <==> pack.closed(),
{
    abilities_none(pack);
    tech_nodes_none(pack);
    spells_none(pack);
    game_modes_none(pack);
    loot_tables_none(pack);
    spawn_rules_none(pack);
    triggers_none(pack);
    item_sets_none(pack);
    runewords_none(pack);
}

impl ContentPack {
    /// The pack has a definition of this id among its spells.
    pub open spec fn has_spell(self, id: Seq<char>) -> bool {
        exists|k: int| 0 <= k < self.spells@.len() && (#[trigger] self.spells@[k]).id@ == id
    }

    /// The pack has a definition of this id among its items.
    pub open spec fn has_item(self, id: Seq<char>) -> bool {
        exists|k: int| 0 <= k < self.items@.len() && (#[trigger] self.items@[k]).id@ == id
    }

    /// The pack has a definition of this id among its abilities.
    pub open spec fn has_ability(self, id: Seq<char>) -> bool {
        exists|k: int| 0 <= k < self.abilities@.len() && (#[trigger] self.abilities@[k]).id@ == id
    }

    /// The pack has a definition of this id among its statuses.
    pub open spec fn has_status(self, id: Seq<char>) -> bool {
        exists|k: int| 0 <= k < self.statuses@.len() && (#[trigger] self.statuses@[k]).id@ == id
    }

    /// The pack has a definition of this id among its mobs.
    pub open spec fn has_mob(self, id: Seq<char>) -> bool {
        exists|k: int| 0 <= k < self.mobs@.len() && (#[trigger] self.mobs@[k]).id@ == id
    }

    /// The pack has a definition of this id among its loot tables.
    pub open spec fn has_loot_table(self, id: Seq<char>) -> bool {
        exists|k: int| 0 <= k < self.loot_tables@.len() && (#[trigger] self.loot_tables@[k]).id@ == id
    }

    /// The pack has a definition of this id among its tech nodes.
    pub open spec fn has_tech_node(self, id: Seq<char>) -> bool {
        exists|k: int| 0 <= k < self.tech.nodes@.len() && (#[trigger] self.tech.nodes@[k]).id@ == id
    }

    /// Some gem of the pack is the rune of this symbol.
    pub open spec fn has_rune(self, symbol: Seq<char>) -> bool {
        exists|k: int|
            0 <= k < self.gems@.len() && ((#[trigger] self.gems@[k]).rune_symbol matches Some(s) && s@
                == symbol)
    }
}

proof fn keys_are_ids(pack: ContentPack, id: Seq<char>)
    ensures
        keys(pack.spells@).contains(id) <==> pack.has_spell(id),
        keys(pack.items@).contains(id) <==> pack.has_item(id),
        keys(pack.abilities@).contains(id) <==> pack.has_ability(id),
        keys(pack.statuses@).contains(id) <==> pack.has_status(id),
        keys(pack.mobs@).contains(id) <==> pack.has_mob(id),
        keys(pack.loot_tables@).contains(id) <==> pack.has_loot_table(id),
        keys(pack.tech.nodes@).contains(id) <==> pack.has_tech_node(id),
        symbols(pack.gems@).contains(id) <==> pack.has_rune(id),
{
    if pack.has_spell(id) {
        let k = choose|k: int| 0 <= k < pack.spells@.len() && (#[trigger] pack.spells@[k]).id@ == id;
        assert(pack.spells@[k].key() == id);
    }
    if keys(pack.spells@).contains(id) {
        let k = choose|k: int| 0 <= k < pack.spells@.len() && #[trigger] pack.spells@[k].key() == id;
        assert(pack.spells@[k].id@ == id);
    }
    if pack.has_item(id) {
        let k = choose|k: int| 0 <= k < pack.items@.len() && (#[trigger] pack.items@[k]).id@ == id;
        assert(pack.items@[k].key() == id);
    }
    if keys(pack.items@).contains(id) {
        let k = choose|k: int| 0 <= k < pack.items@.len() && #[trigger] pack.items@[k].key() == id;
        assert(pack.items@[k].id@ == id);
    }
    if pack.has_ability(id) {
        let k = choose|k: int| 0 <= k < pack.abilities@.len() && (#[trigger] pack.abilities@[k]).id@ == id;
        assert(pack.abilities@[k].key() == id);
    }
    if keys(pack.abilities@).contains(id) {
        let k = choose|k: int| 0 <= k < pack.abilities@.len() && #[trigger] pack.abilities@[k].key() == id;
        assert(pack.abilities@[k].id@ == id);
    }
    if pack.has_status(id) {
        let k = choose|k: int| 0 <= k < pack.statuses@.len() && (#[trigger] pack.statuses@[k]).id@ == id;
        assert(pack.statuses@[k].key() == id);
    }
    if keys(pack.statuses@).contains(id) {
        let k = choose|k: int| 0 <= k < pack.statuses@.len() && #[trigger] pack.statuses@[k].key() == id;
        assert(pack.statuses@[k].id@ == id);
    }
    if pack.has_mob(id) {
        let k = choose|k: int| 0 <= k < pack.mobs@.len() && (#[trigger] pack.mobs@[k]).id@ == id;
        assert(pack.mobs@[k].key() == id);
    }
    if keys(pack.mobs@).contains(id) {
        let k = choose|k: int| 0 <= k < pack.mobs@.len() && #[trigger] pack.mobs@[k].key() == id;
        assert(pack.mobs@[k].id@ == id);
    }
    if pack.has_loot_table(id) {
        let k = choose|k: int| 0 <= k < pack.loot_tables@.len() && (#[trigger] pack.loot_tables@[k]).id@ == id;
        assert(pack.loot_tables@[k].key() == id);
    }
    if keys(pack.loot_tables@).contains(id) {
        let k = choose|k: int| 0 <= k < pack.loot_tables@.len() && #[trigger] pack.loot_tables@[k].key() == id;
        assert(pack.loot_tables@[k].id@ == id);
    }
    if pack.has_tech_node(id) {
        let k = choose|k: int| 0 <= k < pack.tech.nodes@.len() && (#[trigger] pack.tech.nodes@[k]).id@ == id;
        assert(pack.tech.nodes@[k].key() == id);
    }
    if keys(pack.tech.nodes@).contains(id) {
        let k = choose|k: int| 0 <= k < pack.tech.nodes@.len() && #[trigger] pack.tech.nodes@[k].key() == id;
        assert(pack.tech.nodes@[k].id@ == id);
    }
    if pack.has_rune(id) {
        let k = choose|k: int|
            0 <= k < pack.gems@.len() && ((#[trigger] pack.gems@[k]).rune_symbol matches Some(s) && s@
                == id);
        assert(carries(pack.gems@[k], id));
    }
    if symbols(pack.gems@).contains(id) {
        let k = choose|k: int| 0 <= k < pack.gems@.len() && #[trigger] carries(pack.gems@[k], id);
        assert(pack.gems@[k].rune_symbol is Some);
    }
}

proof fn part_is_applied(op: EffectOp, i: int, n: nat)
    requires
        0 <= i < n <= op.below().len(),
    ensures
        applied(op.below()[i]).subset_of(applied_below(op, n)),
    decreases n,
{
    if i < n - 1 {
        part_is_applied(op, i, (n - 1) as nat);
    }
}

proof fn path_is_applied(path: Seq<EffectOp>, status: Seq<char>)
    requires
        leads_down(path),
        path.last() matches EffectOp::ApplyStatus { status: s, .. } && s@ == status,
    ensures
        applied(path[0]).contains(status),
    decreases path.len(),
{
    if path.len() > 1 {
        let rest = path.skip(1);
        assert forall|i: int| 0 < i < rest.len() implies rest[i - 1].below().contains(
            #[trigger] rest[i],
        ) by {
            assert(rest[i] == path[i + 1]);
        }
        assert(rest.last() == path.last());
        path_is_applied(rest, status);
        let op = path[0];
        assert(op.below().contains(path[1]));
        let k = choose|k: int| 0 <= k < op.below().len() && op.below()[k] == path[1];
        part_is_applied(op, k, op.below().len());
    }
}

proof fn applied_has_a_path(op: EffectOp, status: Seq<char>) -> (path: Seq<EffectOp>)
    requires
        applied(op).contains(status),
    ensures
        leads_down(path),
        path[0] == op,
        path.last() matches EffectOp::ApplyStatus { status: s, .. } && s@ == status,
    decreases op,
{
    if op matches EffectOp::ApplyStatus { status: s, .. } && s@ == status {
        seq![op]
    } else {
        let k = part_that_applies(op, status, op.below().len());
        op.below_is_smaller(k);
        let rest = applied_has_a_path(op.below()[k], status);
        let path = seq![op] + rest;
        assert forall|i: int| 0 < i < path.len() implies path[i - 1].below().contains(
            #[trigger] path[i],
        ) by {
            if i == 1 {
                assert(path[1] == op.below()[k]);
            } else {
                assert(rest[i - 2].below().contains(rest[i - 1]));
            }
        }
        assert(path.last() == rest.last());
        path
    }
}

proof fn part_that_applies(op: EffectOp, status: Seq<char>, n: nat) -> (k: int)
    requires
        n <= op.below().len(),
        applied_below(op, n).contains(status),
    ensures
        0 <= k < n,
        applied(op.below()[k]).contains(status),
    decreases n,
{
    if applied(op.below()[n - 1]).contains(status) {
        n - 1
    } else {
        part_that_applies(op, status, (n - 1) as nat)
    }
}

/// A pack that passes dangles nowhere: every spell that an ability casts, every item that a node,
/// a mode, a table or a set names, every ability of a loadout, every mob, loot table, node, status
/// and rune that a rule, a trigger or a runeword needs is defined in it, and so is every status that
/// a spell applies anywhere down its graph.
pub proof fn valid_packs_dangle_nowhere(pack: ContentPack, i: int, j: int, path: Seq<EffectOp>)
    requires
        pack.problem() is None,
    ensures
        0 <= i < pack.abilities@.len() ==> pack.has_spell(pack.abilities@[i].spell@),
        0 <= i < pack.tech.nodes@.len() && 0 <= j < pack.tech.nodes@[i].unlock_items@.len()
            ==> pack.has_item(pack.tech.nodes@[i].unlock_items@[j]@),
        0 <= i < pack.spells@.len() && leads_down(path) && path[0] == pack.spells@[i].root ==> (
        path.last() matches EffectOp::ApplyStatus { status, .. } ==> pack.has_status(status@)),
        0 <= i < pack.game_modes@.len() && 0 <= j < pack.game_modes@[i].starting_loadout@.len()
            ==> pack.has_ability(pack.game_modes@[i].starting_loadout@[j]@),
        0 <= i < pack.game_modes@.len() && 0 <= j < pack.game_modes@[i].starting_items@.len()
            ==> pack.has_item(pack.game_modes@[i].starting_items@[j].0@),
        0 <= i < pack.loot_tables@.len() && 0 <= j < pack.loot_tables@[i].entries@.len()
            ==> pack.has_item(pack.loot_tables@[i].entries@[j].item@),
        0 <= i < pack.spawn_rules@.len() ==> pack.has_mob(pack.spawn_rules@[i].mob@) && (
        pack.spawn_rules@[i].loot_table matches Some(t) ==> pack.has_loot_table(t@)),
        0 <= i < pack.triggers@.len() ==> match pack.triggers@[i].on {
            GameTrigger::OnPickup { item } => pack.has_item(item@),
            GameTrigger::OnSpellCast { spell } => pack.has_spell(spell@),
            _ => true,
        },
        0 <= i < pack.triggers@.len() && 0 <= j < pack.triggers@[i].conditions@.len()
            ==> match pack.triggers@[i].conditions@[j] {
            TriggerCondition::HasItem { item } => pack.has_item(item@),
            TriggerCondition::HasTech { node } => pack.has_tech_node(node@),
            _ => true,
        },
        0 <= i < pack.triggers@.len() && 0 <= j < pack.triggers@[i].actions@.len()
            ==> match pack.triggers@[i].actions@[j] {
            RuleAction::GrantItem { item, .. } => pack.has_item(item@),
            RuleAction::ApplyStatus { status, .. } => pack.has_status(status@),
            RuleAction::SpawnMob { mob, .. } => pack.has_mob(mob@),
            RuleAction::SpawnLoot { table } => pack.has_loot_table(table@),
            _ => true,
        },
        0 <= i < pack.item_sets@.len() && 0 <= j < pack.item_sets@[i].pieces@.len()
            ==> pack.has_item(pack.item_sets@[i].pieces@[j]@),
        0 <= i < pack.runewords@.len() && 0 <= j < pack.runewords@[i].sequence@.len()
            ==> pack.has_rune(pack.runewords@[i].sequence@[j]@),
{
    valid_means_closed(pack);
    if 0 <= i < pack.abilities@.len() {
        assert(pack.ability_closed(i));
        keys_are_ids(pack, pack.abilities@[i].spell@);
    }
    if 0 <= i < pack.tech.nodes@.len() && 0 <= j < pack.tech.nodes@[i].unlock_items@.len() {
        assert(pack.tech_node_closed(i));
        let list = pack.tech.nodes@[i].unlock_items@;
        assert(keys(pack.items@).contains(list[j].key()));
        keys_are_ids(pack, list[j]@);
    }
    if 0 <= i < pack.spells@.len() && leads_down(path) && path[0] == pack.spells@[i].root {
        if let EffectOp::ApplyStatus { status, .. } = path.last() {
            assert(pack.spell_closed(i));
            path_is_applied(path, status@);
            keys_are_ids(pack, status@);
        }
    }
    if 0 <= i < pack.game_modes@.len() {
        assert(pack.game_mode_closed(i));
        let (list, bag) = (pack.game_modes@[i].starting_loadout@, pack.game_modes@[i].starting_items@);
        if 0 <= j < list.len() {
            assert(keys(pack.abilities@).contains(list[j].key()));
            keys_are_ids(pack, list[j]@);
        }
        if 0 <= j < bag.len() {
            assert(keys(pack.items@).contains(bag[j].key()));
            keys_are_ids(pack, bag[j].0@);
        }
    }
    if 0 <= i < pack.loot_tables@.len() && 0 <= j < pack.loot_tables@[i].entries@.len() {
        assert(pack.loot_table_closed(i));
        let list = pack.loot_tables@[i].entries@;
        assert(keys(pack.items@).contains(list[j].key()));
        keys_are_ids(pack, list[j].item@);
    }
    if 0 <= i < pack.spawn_rules@.len() {
        assert(pack.spawn_rule_closed(i));
        keys_are_ids(pack, pack.spawn_rules@[i].mob@);
        if let Some(t) = pack.spawn_rules@[i].loot_table {
            keys_are_ids(pack, t@);
        }
    }
    if 0 <= i < pack.triggers@.len() {
        assert(pack.trigger_closed(i));
        let t = pack.triggers@[i];
        match t.on {
            GameTrigger::OnPickup { item } => keys_are_ids(pack, item@),
            GameTrigger::OnSpellCast { spell } => keys_are_ids(pack, spell@),
            _ => {},
        }
        if 0 <= j < t.conditions@.len() {
            assert(pack.condition_closed(t.conditions@[j]));
            match t.conditions@[j] {
                TriggerCondition::HasItem { item } => keys_are_ids(pack, item@),
                TriggerCondition::HasTech { node } => keys_are_ids(pack, node@),
                _ => {},
            }
        }
        if 0 <= j < t.actions@.len() {
            assert(pack.action_closed(t.actions@[j]));
            match t.actions@[j] {
                RuleAction::GrantItem { item, .. } => keys_are_ids(pack, item@),
                RuleAction::ApplyStatus { status, .. } => keys_are_ids(pack, status@),
                RuleAction::SpawnMob { mob, .. } => keys_are_ids(pack, mob@),
                RuleAction::SpawnLoot { table } => keys_are_ids(pack, table@),
                _ => {},
            }
        }
    }
    if 0 <= i < pack.item_sets@.len() && 0 <= j < pack.item_sets@[i].pieces@.len() {
        assert(pack.item_set_closed(i));
        let list = pack.item_sets@[i].pieces@;
        assert(keys(pack.items@).contains(list[j].key()));
        keys_are_ids(pack, list[j]@);
    }
    if 0 <= i < pack.runewords@.len() && 0 <= j < pack.runewords@[i].sequence@.len() {
        assert(pack.runeword_closed(i));
        let list = pack.runewords@[i].sequence@;
        assert(symbols(pack.gems@).contains(list[j].key()));
        keys_are_ids(pack, list[j]@);
    }
}

/// A pack that dangles nowhere passes: validation never refuses a pack that defines all it names.
pub proof fn packs_that_dangle_nowhere_pass(pack: ContentPack)
    requires
        forall|i: int|
            0 <= i < pack.abilities@.len() ==> pack.has_spell((#[trigger] pack.abilities@[i]).spell@),
        forall|i: int, j: int|
            0 <= i < pack.tech.nodes@.len() && 0 <= j < pack.tech.nodes@[i].unlock_items@.len()
                ==> pack.has_item((#[trigger] pack.tech.nodes@[i].unlock_items@[j])@),
        forall|i: int, path: Seq<EffectOp>|
            0 <= i < pack.spells@.len() && #[trigger] leads_down(path) && path[0] == (
            #[trigger] pack.spells@[i]).root ==> (
            path.last() matches EffectOp::ApplyStatus { status, .. } ==> pack.has_status(status@)),
        forall|i: int, j: int|
            0 <= i < pack.game_modes@.len() && 0 <= j < pack.game_modes@[i].starting_loadout@.len()
                ==> pack.has_ability((#[trigger] pack.game_modes@[i].starting_loadout@[j])@),
        forall|i: int, j: int|
            0 <= i < pack.game_modes@.len() && 0 <= j < pack.game_modes@[i].starting_items@.len()
                ==> pack.has_item((#[trigger] pack.game_modes@[i].starting_items@[j]).0@),
        forall|i: int, j: int|
            0 <= i < pack.loot_tables@.len() && 0 <= j < pack.loot_tables@[i].entries@.len()
                ==> pack.has_item((#[trigger] pack.loot_tables@[i].entries@[j]).item@),
        forall|i: int|
            0 <= i < pack.spawn_rules@.len() ==> pack.has_mob((#[trigger] pack.spawn_rules@[i]).mob@)
                && (pack.spawn_rules@[i].loot_table matches Some(t) ==> pack.has_loot_table(t@)),
        forall|i: int|
            0 <= i < pack.triggers@.len() ==> match (#[trigger] pack.triggers@[i]).on {
                GameTrigger::OnPickup { item } => pack.has_item(item@),
                GameTrigger::OnSpellCast { spell } => pack.has_spell(spell@),
                _ => true,
            },
        forall|i: int, j: int|
            0 <= i < pack.triggers@.len() && 0 <= j < pack.triggers@[i].conditions@.len()
                ==> match #[trigger] pack.triggers@[i].conditions@[j] {
                TriggerCondition::HasItem { item } => pack.has_item(item@),
                TriggerCondition::HasTech { node } => pack.has_tech_node(node@),
                _ => true,
            },
        forall|i: int, j: int|
            0 <= i < pack.triggers@.len() && 0 <= j < pack.triggers@[i].actions@.len()
                ==> match #[trigger] pack.triggers@[i].actions@[j] {
                RuleAction::GrantItem { item, .. } => pack.has_item(item@),
                RuleAction::ApplyStatus { status, .. } => pack.has_status(status@),
                RuleAction::SpawnMob { mob, .. } => pack.has_mob(mob@),
                RuleAction::SpawnLoot { table } => pack.has_loot_table(table@),
                _ => true,
            },
        forall|i: int, j: int|
            0 <= i < pack.item_sets@.len() && 0 <= j < pack.item_sets@[i].pieces@.len()
                ==> pack.has_item((#[trigger] pack.item_sets@[i].pieces@[j])@),
        forall|i: int, j: int|
            0 <= i < pack.runewords@.len() && 0 <= j < pack.runewords@[i].sequence@.len()
                ==> pack.has_rune((#[trigger] pack.runewords@[i].sequence@[j])@),
    ensures
        pack.problem() is None,
{
    assert forall|i: int| 0 <= i < pack.abilities@.len() implies #[trigger] pack.ability_closed(i) by {
        keys_are_ids(pack, pack.abilities@[i].spell@);
    }
    assert forall|i: int| 0 <= i < pack.tech.nodes@.len() implies #[trigger] pack.tech_node_closed(i) by {
        let list = pack.tech.nodes@[i].unlock_items@;
        assert forall|j: int| 0 <= j < list.len() implies keys(pack.items@).contains(
            #[trigger] list[j].key(),
        ) by {
            assert(pack.has_item(pack.tech.nodes@[i].unlock_items@[j]@));
            keys_are_ids(pack, list[j]@);
        }
    }
    assert forall|i: int| 0 <= i < pack.spells@.len() implies #[trigger] pack.spell_closed(i) by {
        let root = pack.spells@[i].root;
        assert forall|k: Seq<char>| applied(root).contains(k) implies keys(pack.statuses@).contains(
            k,
        ) by {
            let path = applied_has_a_path(root, k);
            assert(pack.has_status(k));
            keys_are_ids(pack, k);
        }
    }
    assert forall|i: int| 0 <= i < pack.game_modes@.len() implies #[trigger] pack.game_mode_closed(i) by {
        let (list, bag) = (pack.game_modes@[i].starting_loadout@, pack.game_modes@[i].starting_items@);
        assert forall|j: int| 0 <= j < list.len() implies keys(pack.abilities@).contains(
            #[trigger] list[j].key(),
        ) by {
            assert(pack.has_ability(pack.game_modes@[i].starting_loadout@[j]@));
            keys_are_ids(pack, list[j]@);
        }
        assert forall|j: int| 0 <= j < bag.len() implies keys(pack.items@).contains(
            #[trigger] bag[j].key(),
        ) by {
            assert(pack.has_item(pack.game_modes@[i].starting_items@[j].0@));
            keys_are_ids(pack, bag[j].0@);
        }
    }
    assert forall|i: int| 0 <= i < pack.loot_tables@.len() implies #[trigger] pack.loot_table_closed(i) by {
        let list = pack.loot_tables@[i].entries@;
        assert forall|j: int| 0 <= j < list.len() implies keys(pack.items@).contains(
            #[trigger] list[j].key(),
        ) by {
            assert(pack.has_item(pack.loot_tables@[i].entries@[j].item@));
            keys_are_ids(pack, list[j].item@);
        }
    }
    assert forall|i: int| 0 <= i < pack.spawn_rules@.len() implies #[trigger] pack.spawn_rule_closed(i) by {
        keys_are_ids(pack, pack.spawn_rules@[i].mob@);
        if let Some(t) = pack.spawn_rules@[i].loot_table {
            keys_are_ids(pack, t@);
        }
    }
    assert forall|i: int| 0 <= i < pack.triggers@.len() implies #[trigger] pack.trigger_closed(i) by {
        let t = pack.triggers@[i];
        match t.on {
            GameTrigger::OnPickup { item } => keys_are_ids(pack, item@),
            GameTrigger::OnSpellCast { spell } => keys_are_ids(pack, spell@),
            _ => {},
        }
        assert forall|j: int| 0 <= j < t.conditions@.len() implies pack.condition_closed(
            #[trigger] t.conditions@[j],
        ) by {
            assert(t.conditions@[j] == pack.triggers@[i].conditions@[j]);
            match t.conditions@[j] {
                TriggerCondition::HasItem { item } => keys_are_ids(pack, item@),
                TriggerCondition::HasTech { node } => keys_are_ids(pack, node@),
                _ => {},
            }
        }
        assert forall|j: int| 0 <= j < t.actions@.len() implies pack.action_closed(
            #[trigger] t.actions@[j],
        ) by {
            assert(t.actions@[j] == pack.triggers@[i].actions@[j]);
            match t.actions@[j] {
                RuleAction::GrantItem { item, .. } => keys_are_ids(pack, item@),
                RuleAction::ApplyStatus { status, .. } => keys_are_ids(pack, status@),
                RuleAction::SpawnMob { mob, .. } => keys_are_ids(pack, mob@),
                RuleAction::SpawnLoot { table } => keys_are_ids(pack, table@),
                _ => {},
            }
        }
    }
    assert forall|i: int| 0 <= i < pack.item_sets@.len() implies #[trigger] pack.item_set_closed(i) by {
        let list = pack.item_sets@[i].pieces@;
        assert forall|j: int| 0 <= j < list.len() implies keys(pack.items@).contains(
            #[trigger] list[j].key(),
        ) by {
            assert(pack.has_item(pack.item_sets@[i].pieces@[j]@));
            keys_are_ids(pack, list[j]@);
        }
    }
    assert forall|i: int| 0 <= i < pack.runewords@.len() implies #[trigger] pack.runeword_closed(i) by {
        let list = pack.runewords@[i].sequence@;
        assert forall|j: int| 0 <= j < list.len() implies symbols(pack.gems@).contains(
            #[trigger] list[j].key(),
        ) by {
            assert(pack.has_rune(pack.runewords@[i].sequence@[j]@));
            keys_are_ids(pack, list[j]@);
        }
    }
    valid_means_closed(pack);
}

/// The line names a reference of the pack, by both its ends, whose target the pack does not define.
pub open spec fn names_a_gap(pack: ContentPack, why: Seq<char>) -> bool {
    ||| exists|i: int|
        {
            let a = #[trigger] pack.abilities@[i];
            &&& 0 <= i < pack.abilities@.len()
            &&& !pack.has_spell(a.spell@)
            &&& why == "ability "@ + a.id@ + " references missing spell "@ + a.spell@
        }
    ||| exists|i: int, j: int|
        {
            let refers = (#[trigger] pack.tech.nodes@[i].unlock_items@[j])@;
            &&& 0 <= i < pack.tech.nodes@.len() && 0 <= j < pack.tech.nodes@[i].unlock_items@.len()
            &&& !pack.has_item(refers)
            &&& why == "tech node "@ + pack.tech.nodes@[i].id@ + " unlocks missing item "@ + refers
        }
    ||| exists|i: int, j: int|
        {
            let refers = (#[trigger] pack.game_modes@[i].starting_loadout@[j])@;
            &&& 0 <= i < pack.game_modes@.len() && 0 <= j < pack.game_modes@[i].starting_loadout@.len()
            &&& !pack.has_ability(refers)
            &&& why == "game mode "@ + pack.game_modes@[i].id@ + " starting_loadout references missing ability "@ + refers
        }
    ||| exists|i: int, j: int|
        {
            let refers = (#[trigger] pack.game_modes@[i].starting_items@[j]).0@;
            &&& 0 <= i < pack.game_modes@.len() && 0 <= j < pack.game_modes@[i].starting_items@.len()
            &&& !pack.has_item(refers)
            &&& why == "game mode "@ + pack.game_modes@[i].id@ + " starting_items references missing item "@ + refers
        }
    ||| exists|i: int, j: int|
        {
            let refers = (#[trigger] pack.loot_tables@[i].entries@[j]).item@;
            &&& 0 <= i < pack.loot_tables@.len() && 0 <= j < pack.loot_tables@[i].entries@.len()
            &&& !pack.has_item(refers)
            &&& why == "loot table "@ + pack.loot_tables@[i].id@ + " references missing item "@ + refers
        }
    ||| exists|i: int, j: int|
        {
            let refers = (#[trigger] pack.item_sets@[i].pieces@[j])@;
            &&& 0 <= i < pack.item_sets@.len() && 0 <= j < pack.item_sets@[i].pieces@.len()
            &&& !pack.has_item(refers)
            &&& why == "set "@ + pack.item_sets@[i].id@ + " lists missing item "@ + refers
        }
    ||| exists|i: int, j: int|
        {
            let refers = (#[trigger] pack.runewords@[i].sequence@[j])@;
            &&& 0 <= i < pack.runewords@.len() && 0 <= j < pack.runewords@[i].sequence@.len()
            &&& !pack.has_rune(refers)
            &&& why == "runeword "@ + pack.runewords@[i].id@ + " needs missing rune symbol "@ + refers
        }
    ||| exists|i: int, path: Seq<EffectOp>|
        {
            let s = #[trigger] pack.spells@[i];
            &&& 0 <= i < pack.spells@.len() && #[trigger] leads_down(path) && path[0] == s.root
            &&& path.last() matches EffectOp::ApplyStatus { status, .. } && !pack.has_status(status@)
                && why == "spell "@ + s.id@ + " applies missing status "@ + status@
        }
    ||| exists|i: int|
        {
            let r = #[trigger] pack.spawn_rules@[i];
            &&& 0 <= i < pack.spawn_rules@.len()
            &&& !pack.has_mob(r.mob@)
            &&& why == "spawn rule "@ + r.id@ + " references missing mob "@ + r.mob@
        }
    ||| exists|i: int|
        {
            let r = #[trigger] pack.spawn_rules@[i];
            &&& 0 <= i < pack.spawn_rules@.len()
            &&& r.loot_table matches Some(t) && !pack.has_loot_table(t@) && why == "spawn rule "@ + r.id@
                + " references missing loot table "@ + t@
        }
    ||| exists|i: int| 0 <= i < pack.triggers@.len() && event_gap(pack, #[trigger] pack.triggers@[i], why)
    ||| exists|i: int, j: int|
        0 <= i < pack.triggers@.len() && 0 <= j < pack.triggers@[i].conditions@.len() && condition_gap(
            pack,
            pack.triggers@[i].id@,
            #[trigger] pack.triggers@[i].conditions@[j],
            why,
        )
    ||| exists|i: int, j: int|
        0 <= i < pack.triggers@.len() && 0 <= j < pack.triggers@[i].actions@.len() && action_gap(
            pack,
            pack.triggers@[i].id@,
            #[trigger] pack.triggers@[i].actions@[j],
            why,
        )
}

/// The line says that the trigger waits for something that the pack does not define.
pub open spec fn event_gap(pack: ContentPack, t: TriggerDef, why: Seq<char>) -> bool {
    match t.on {
        GameTrigger::OnPickup { item } => !pack.has_item(item@) && why == "trigger "@ + t.id@
            + " fires on pickup of missing item "@ + item@,
        GameTrigger::OnSpellCast { spell } => !pack.has_spell(spell@) && why == "trigger "@ + t.id@
            + " fires on cast of missing spell "@ + spell@,
        _ => false,
    }
}

/// The line says that the condition asks for something that the pack does not define.
pub open spec fn condition_gap(
    pack: ContentPack,
    id: Seq<char>,
    c: TriggerCondition,
    why: Seq<char>,
) -> bool {
    match c {
        TriggerCondition::HasItem { item } => !pack.has_item(item@) && why == "trigger "@ + id
            + " condition references missing item "@ + item@,
        TriggerCondition::HasTech { node } => !pack.has_tech_node(node@) && why == "trigger "@ + id
            + " condition references missing tech node "@ + node@,
        _ => false,
    }
}

/// The line says that the action hands out something that the pack does not define.
pub open spec fn action_gap(pack: ContentPack, id: Seq<char>, a: RuleAction, why: Seq<char>) -> bool {
    match a {
        RuleAction::GrantItem { item, .. } => !pack.has_item(item@) && why == "trigger "@ + id
            + " action grants missing item "@ + item@,
        RuleAction::ApplyStatus { status, .. } => !pack.has_status(status@) && why == "trigger "@ + id
            + " action applies missing status "@ + status@,
        RuleAction::SpawnMob { mob, .. } => !pack.has_mob(mob@) && why == "trigger "@ + id
            + " action spawns missing mob "@ + mob@,
        RuleAction::SpawnLoot { table } => !pack.has_loot_table(table@) && why == "trigger "@ + id
            + " action rolls missing loot table "@ + table@,
        _ => false,
    }
}

proof fn first_stands_somewhere(problems: Seq<Option<Seq<char>>>) -> (i: int)
    requires
        first_of(problems) is Some,
    ensures
        0 <= i < problems.len(),
        problems[i] == first_of(problems),
    decreases problems.len(),
{
    if problems[0] is Some {
        0
    } else {
        let i = first_stands_somewhere(problems.drop_first());
        i + 1
    }
}

proof fn missing_stands_somewhere<R: Keyed>(
    what: Seq<char>,
    id: Seq<char>,
    verb: Seq<char>,
    refs: Seq<R>,
    known: Set<Seq<char>>,
) -> (j: int)
    requires
        first_missing(what, id, verb, refs, known) is Some,
    ensures
        0 <= j < refs.len(),
        !known.contains(refs[j].key()),
        first_missing(what, id, verb, refs, known) == Some(what + id + verb + refs[j].key()),
{
    let problems = Seq::new(refs.len(), |i: int| missing(what, id, verb, refs[i].key(), known));
    let j = first_stands_somewhere(problems);
    assert(problems[j] == missing(what, id, verb, refs[j].key(), known));
    j
}

proof fn status_stands_somewhere(op: EffectOp, spell: Seq<char>, known: Set<Seq<char>>) -> (path: Seq<
    EffectOp,
>)
    requires
        status_problem(op, spell, known) is Some,
    ensures
        leads_down(path),
        path[0] == op,
        path.last() matches EffectOp::ApplyStatus { status, .. } && !known.contains(status@)
            && status_problem(op, spell, known) == Some(
            "spell "@ + spell + " applies missing status "@ + status@,
        ),
    decreases op,
{
    let own = match op {
        EffectOp::ApplyStatus { status, .. } => missing(
            "spell "@,
            spell,
            " applies missing status "@,
            status@,
            known,
        ),
        _ => None,
    };
    if own is Some {
        seq![op]
    } else {
        let k = status_part(op, spell, known, op.below().len());
        op.below_is_smaller(k);
        let rest = status_stands_somewhere(op.below()[k], spell, known);
        let path = seq![op] + rest;
        assert forall|i: int| 0 < i < path.len() implies path[i - 1].below().contains(
            #[trigger] path[i],
        ) by {
            if i == 1 {
                assert(path[1] == op.below()[k]);
            } else {
                assert(rest[i - 2].below().contains(rest[i - 1]));
            }
        }
        assert(path.last() == rest.last());
        path
    }
}

proof fn status_part(op: EffectOp, spell: Seq<char>, known: Set<Seq<char>>, n: nat) -> (k: int)
    requires
        n <= op.below().len(),
        status_problem_below(op, spell, known, n) is Some,
    ensures
        0 <= k < n,
        status_problem(op.below()[k], spell, known) == status_problem_below(op, spell, known, n),
        status_problem(op.below()[k], spell, known) is Some,
    decreases n,
{
    if status_problem_below(op, spell, known, (n - 1) as nat) is Some {
        status_part(op, spell, known, (n - 1) as nat)
    } else {
        n - 1
    }
}

/// What validation complains of is a gap: the line names a definition of the pack and what it refers to
/// that the pack does not define.
pub proof fn complaints_name_a_gap(pack: ContentPack, why: Seq<char>)
    requires
        pack.problem() == Some(why),
    ensures
        names_a_gap(pack, why),
{
    let abilities = Seq::new(pack.abilities@.len(), |i: int| pack.ability_problem(i));
    let nodes = Seq::new(pack.tech.nodes@.len(), |i: int| pack.tech_node_problem(i));
    let spells = Seq::new(pack.spells@.len(), |i: int| pack.spell_problem(i));
    let modes = Seq::new(pack.game_modes@.len(), |i: int| pack.game_mode_problem(i));
    let tables = Seq::new(pack.loot_tables@.len(), |i: int| pack.loot_table_problem(i));
    let rules = Seq::new(pack.spawn_rules@.len(), |i: int| pack.spawn_rule_problem(i));
    let triggers = Seq::new(pack.triggers@.len(), |i: int| pack.trigger_problem(i));
    let sets = Seq::new(pack.item_sets@.len(), |i: int| pack.item_set_problem(i));
    let words = Seq::new(pack.runewords@.len(), |i: int| pack.runeword_problem(i));
    if first_of(abilities) is Some {
        let i = first_stands_somewhere(abilities);
        keys_are_ids(pack, pack.abilities@[i].spell@);
        assert(pack.ability_problem(i) == Some(why));
    } else if first_of(nodes) is Some {
        let i = first_stands_somewhere(nodes);
        let node = pack.tech.nodes@[i];
        let j = missing_stands_somewhere(
            "tech node "@,
            node.id@,
            " unlocks missing item "@,
            node.unlock_items@,
            keys(pack.items@),
        );
        keys_are_ids(pack, node.unlock_items@[j]@);
        assert(pack.tech.nodes@[i].unlock_items@[j]@ == node.unlock_items@[j].key());
    } else if first_of(spells) is Some {
        let i = first_stands_somewhere(spells);
        let s = pack.spells@[i];
        let path = status_stands_somewhere(s.root, s.id@, keys(pack.statuses@));
        if let EffectOp::ApplyStatus { status, .. } = path.last() {
            keys_are_ids(pack, status@);
        }
        assert(pack.spells@[i] == s && leads_down(path));
    } else if first_of(modes) is Some {
        let i = first_stands_somewhere(modes);
        let m = pack.game_modes@[i];
        if first_missing(
            "game mode "@,
            m.id@,
            " starting_loadout references missing ability "@,
            m.starting_loadout@,
            keys(pack.abilities@),
        ) is Some {
            let j = missing_stands_somewhere(
                "game mode "@,
                m.id@,
                " starting_loadout references missing ability "@,
                m.starting_loadout@,
                keys(pack.abilities@),
            );
            keys_are_ids(pack, m.starting_loadout@[j]@);
            assert(pack.game_modes@[i].starting_loadout@[j]@ == m.starting_loadout@[j].key());
        } else {
            let j = missing_stands_somewhere(
                "game mode "@,
                m.id@,
                " starting_items references missing item "@,
                m.starting_items@,
                keys(pack.items@),
            );
            keys_are_ids(pack, m.starting_items@[j].0@);
            assert(pack.game_modes@[i].starting_items@[j].0@ == m.starting_items@[j].key());
        }
    } else if first_of(tables) is Some {
        let i = first_stands_somewhere(tables);
        let t = pack.loot_tables@[i];
        let j = missing_stands_somewhere(
            "loot table "@,
            t.id@,
            " references missing item "@,
            t.entries@,
            keys(pack.items@),
        );
        keys_are_ids(pack, t.entries@[j].item@);
        assert(pack.loot_tables@[i].entries@[j].item@ == t.entries@[j].key());
    } else if first_of(rules) is Some {
        let i = first_stands_somewhere(rules);
        let r = pack.spawn_rules@[i];
        keys_are_ids(pack, r.mob@);
        if let Some(t) = r.loot_table {
            keys_are_ids(pack, t@);
        }
        assert(pack.spawn_rule_problem(i) == Some(why));
    } else if first_of(triggers) is Some {
        let i = first_stands_somewhere(triggers);
        assert(pack.trigger_problem(i) == Some(why));
        trigger_complaint(pack, i, why);
    } else if first_of(sets) is Some {
        let i = first_stands_somewhere(sets);
        let s = pack.item_sets@[i];
        let j = missing_stands_somewhere(
            "set "@,
            s.id@,
            " lists missing item "@,
            s.pieces@,
            keys(pack.items@),
        );
        keys_are_ids(pack, s.pieces@[j]@);
        assert(pack.item_sets@[i].pieces@[j]@ == s.pieces@[j].key());
    } else {
        let i = first_stands_somewhere(words);
        let w = pack.runewords@[i];
        let j = missing_stands_somewhere(
            "runeword "@,
            w.id@,
            " needs missing rune symbol "@,
            w.sequence@,
            symbols(pack.gems@),
        );
        keys_are_ids(pack, w.sequence@[j]@);
        assert(pack.runewords@[i].sequence@[j]@ == w.sequence@[j].key());
    }
}

proof fn trigger_complaint(pack: ContentPack, i: int, why: Seq<char>)
    requires
        0 <= i < pack.triggers@.len(),
        pack.trigger_problem(i) == Some(why),
    ensures
        names_a_gap(pack, why),
{
    let t = pack.triggers@[i];
    let conditions = Seq::new(
        t.conditions@.len(),
        |j: int| pack.condition_problem(t.id@, t.conditions@[j]),
    );
    let actions = Seq::new(t.actions@.len(), |j: int| pack.action_problem(t.id@, t.actions@[j]));
    if pack.event_problem(t.id@, t.on) is Some {
        match t.on {
            GameTrigger::OnPickup { item } => keys_are_ids(pack, item@),
            GameTrigger::OnSpellCast { spell } => keys_are_ids(pack, spell@),
            _ => {},
        }
        assert(event_gap(pack, pack.triggers@[i], why));
    } else if first_of(conditions) is Some {
        let j = first_stands_somewhere(conditions);
        match t.conditions@[j] {
            TriggerCondition::HasItem { item } => keys_are_ids(pack, item@),
            TriggerCondition::HasTech { node } => keys_are_ids(pack, node@),
            _ => {},
        }
        assert(condition_gap(pack, t.id@, pack.triggers@[i].conditions@[j], why));
    } else {
        let j = first_stands_somewhere(actions);
        match t.actions@[j] {
            RuleAction::GrantItem { item, .. } => keys_are_ids(pack, item@),
            RuleAction::ApplyStatus { status, .. } => keys_are_ids(pack, status@),
            RuleAction::SpawnMob { mob, .. } => keys_are_ids(pack, mob@),
            RuleAction::SpawnLoot { table } => keys_are_ids(pack, table@),
            _ => {},
        }
        assert(action_gap(pack, t.id@, pack.triggers@[i].actions@[j], why));
    }
}

/// Abilities are read first, in order: the first that casts a missing spell is what is complained of.
pub proof fn the_first_gap_is_named(pack: ContentPack, i: int)
    requires
        0 <= i < pack.abilities@.len(),
        !pack.has_spell(pack.abilities@[i].spell@),
        forall|j: int| 0 <= j < i ==> pack.has_spell((#[trigger] pack.abilities@[j]).spell@),
    ensures
        pack.problem() == Some(
            "ability "@ + pack.abilities@[i].id@ + " references missing spell "@
                + pack.abilities@[i].spell@,
        ),
{
    let abilities = Seq::new(pack.abilities@.len(), |i: int| pack.ability_problem(i));
    assert forall|j: int| 0 <= j < i implies abilities[j] is None by {
        keys_are_ids(pack, pack.abilities@[j].spell@);
    }
    keys_are_ids(pack, pack.abilities@[i].spell@);
    first_of_at(abilities, i);
}

} // verus!
