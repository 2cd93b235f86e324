//! Structural validation of a pack: every reference that the rules follow must lead to a
//! definition of the same pack.

use crate::content::error::ContentError;
use crate::content::gem::GemDef;
use crate::content::keyed::{index, keys, Keyed};
use crate::content::pack::ContentPack;
use crate::content::spell::EffectOp;
use crate::content::triggers::{GameTrigger, RuleAction, TriggerCondition, TriggerDef};
use crate::table::NameMap;
use vstd::prelude::*;

verus! {

/// The first of two problems.
pub open spec fn either(a: Option<Seq<char>>, b: Option<Seq<char>>) -> Option<Seq<char>> {
    if a is Some {
        a
    } else {
        b
    }
}

/// The problem of a reference to `target` from the definition `id`, if `target` is not
/// among the known names.
pub open spec fn missing(
    what: Seq<char>,
    id: Seq<char>,
    verb: Seq<char>,
    target: Seq<char>,
    known: Set<Seq<char>>,
) -> Option<Seq<char>> {
    if known.contains(target) {
        None
    } else {
        Some(what + id + verb + target)
    }
}

/// The first problem in the list.
pub open spec fn first_of(problems: Seq<Option<Seq<char>>>) -> Option<Seq<char>>
    decreases problems.len(),
{
    if problems.len() == 0 {
        None
    } else {
        either(problems[0], first_of(problems.drop_first()))
    }
}

/// What comes first is what stands behind nothing but `None`.
pub proof fn first_of_at(problems: Seq<Option<Seq<char>>>, i: int)
    requires
        0 <= i < problems.len(),
        forall|j: int| 0 <= j < i ==> problems[j] is None,
        problems[i] is Some,
    ensures
        first_of(problems) == problems[i],
    decreases i,
{
    if i > 0 {
        let rest = problems.drop_first();
        assert forall|j: int| 0 <= j < i - 1 implies rest[j] is None by {
            assert(rest[j] == problems[j + 1]);
        }
        first_of_at(rest, i - 1);
    }
}

/// There is no first problem exactly if there is no problem.
pub proof fn first_of_none(problems: Seq<Option<Seq<char>>>)
    ensures
        first_of(problems) is None <==> forall|j: int|
            0 <= j < problems.len() ==> problems[j] is None,
    decreases problems.len(),
{
    if problems.len() > 0 {
        let rest = problems.drop_first();
        first_of_none(rest);
        assert forall|j: int| 0 <= j < rest.len() implies rest[j] == problems[j + 1] by {}
        if problems[0] is None && first_of(rest) is None {
            assert forall|j: int| 0 <= j < problems.len() implies problems[j] is None by {
                if j > 0 {
                    assert(rest[j - 1] is None);
                }
            }
        }
    }
}

/// The problem of the first reference that is not among the known names.
pub open spec fn first_missing<R: Keyed>(
    what: Seq<char>,
    id: Seq<char>,
    verb: Seq<char>,
    refs: Seq<R>,
    known: Set<Seq<char>>,
) -> Option<Seq<char>> {
    first_of(Seq::new(refs.len(), |i: int| missing(what, id, verb, refs[i].key(), known)))
}

/// A problem found, in text, agrees with the problem there is.
pub open spec fn agrees(found: Option<String>, problem: Option<Seq<char>>) -> bool {
    match found {
        Some(text) => problem == Some(text@),
        None => problem is None,
    }
}

fn check_ref(
    what: &str,
    id: &str,
    verb: &str,
    target: &str,
    known: &NameMap<usize>,
) -> (r: Option<String>)
    requires
        known.well_formed(),
    ensures
        agrees(r, missing(what@, id@, verb@, target@, known@.dom())),
{
    if known.contains(target) {
        None
    } else {
        let mut text = what.to_owned();
        text.append(id);
        text.append(verb);
        text.append(target);
        Some(text)
    }
}

fn check_refs<R: Keyed>(
    what: &str,
    id: &str,
    verb: &str,
    refs: &Vec<R>,
    known: &NameMap<usize>,
) -> (r: Option<String>)
    requires
        known.well_formed(),
    ensures
        agrees(r, first_missing(what@, id@, verb@, refs@, known@.dom())),
{
    let ghost problems = Seq::new(
        refs@.len(),
        |i: int| missing(what@, id@, verb@, refs@[i].key(), known@.dom()),
    );
    let mut i: usize = 0;
    while i < refs.len()
        invariant
            i <= refs.len(),
            known.well_formed(),
            problems == Seq::new(
                refs@.len(),
                |i: int| missing(what@, id@, verb@, refs@[i].key(), known@.dom()),
            ),
            forall|j: int| 0 <= j < i ==> problems[j] is None,
        decreases refs.len() - i,
    {
        let found = check_ref(what, id, verb, refs[i].name(), known);
        if found.is_some() {
            proof {
                first_of_at(problems, i as int);
            }
            return found;
        }
        i = i + 1;
    }
    proof {
        first_of_none(problems);
    }
    None
}

/// The first status, in reading order, that the op or anything below it applies and that
/// is not known.
pub open spec fn status_problem(op: EffectOp, spell: Seq<char>, known: Set<Seq<char>>) -> Option<
    Seq<char>,
>
    decreases op, 1nat, 0nat,
{
    either(
        match op {
            EffectOp::ApplyStatus { status, .. } => missing(
                "spell "@,
                spell,
                " applies missing status "@,
                status@,
                known,
            ),
            _ => None,
        },
        status_problem_below(op, spell, known, op.below().len()),
    )
}

/// The same for the first `n` ops directly below.
pub open spec fn status_problem_below(
    op: EffectOp,
    spell: Seq<char>,
    known: Set<Seq<char>>,
    n: nat,
) -> Option<Seq<char>>
    decreases op, 0nat, n,
{
    if n == 0 || n > op.below().len() {
        None
    } else {
        proof {
            op.below_is_smaller(n - 1);
        }
        either(
            status_problem_below(op, spell, known, (n - 1) as nat),
            status_problem(op.below()[n - 1], spell, known),
        )
    }
}

proof fn status_problem_stays(op: EffectOp, spell: Seq<char>, known: Set<Seq<char>>, n: nat, m: nat)
    requires
        n <= m <= op.below().len(),
        status_problem_below(op, spell, known, n) is Some,
    ensures
        status_problem_below(op, spell, known, m) == status_problem_below(op, spell, known, n),
    decreases m,
{
    if n < m {
        status_problem_stays(op, spell, known, n, (m - 1) as nat);
    }
}

fn check_status_refs(op: &EffectOp, known: &NameMap<usize>, spell: &str) -> (r: Option<String>)
    requires
        known.well_formed(),
    ensures
        agrees(r, status_problem(*op, spell@, known@.dom())),
    decreases op,
{
    match op {
        EffectOp::ApplyStatus { status, .. } => {
            let found = check_ref("spell ", spell, " applies missing status ", status.as_str(), known);
            if found.is_some() {
                return found;
            }
        },
        _ => {},
    }
    let children = op.children();
    let mut i: usize = 0;
    while i < children.len()
        invariant
            i <= children.len(),
            children@.len() == op.below().len(),
            forall|k: int| 0 <= k < children@.len() ==> *children@[k] == op.below()[k],
            known.well_formed(),
            status_problem_below(*op, spell@, known@.dom(), i as nat) is None,
            status_problem(*op, spell@, known@.dom()) == status_problem_below(
                *op,
                spell@,
                known@.dom(),
                op.below().len(),
            ),
        decreases children.len() - i,
    {
        proof {
            op.below_is_smaller(i as int);
        }
        let found = check_status_refs(children[i], known, spell);
        if found.is_some() {
            proof {
                status_problem_stays(
                    *op,
                    spell@,
                    known@.dom(),
                    (i + 1) as nat,
                    op.below().len(),
                );
            }
            return found;
        }
        i = i + 1;
    }
    None
}

/// The rune symbols that some gem carries.
pub open spec fn symbols(gems: Seq<GemDef>) -> Set<Seq<char>> {
    Set::new(
        |k: Seq<char>|
            exists|i: int|
                0 <= i < gems.len() && #[trigger] carries(gems[i], k),
    )
}

/// Whether the gem is the rune with this symbol.
pub open spec fn carries(gem: GemDef, symbol: Seq<char>) -> bool {
    match gem.rune_symbol {
        Some(s) => s@ == symbol,
        None => false,
    }
}

fn rune_symbols(gems: &Vec<GemDef>) -> (r: NameMap<usize>)
    ensures
        r.well_formed(),
        r@.dom() == symbols(gems@),
{
    let mut out: NameMap<usize> = NameMap::new();
    let mut i: usize = 0;
    assert(out@.dom() =~= symbols(gems@.take(0)));
    while i < gems.len()
        invariant
            i <= gems.len(),
            out.well_formed(),
            out@.dom() == symbols(gems@.take(i as int)),
        decreases gems.len() - i,
    {
        let ghost done = gems@.take(i as int);
        let ghost next = gems@.take(i + 1);
        let ghost was = out@.dom();
        match &gems[i].rune_symbol {
            Some(s) => {
                out.insert(s.clone(), i);
            },
            None => {},
        }
        proof {
            assert(next[i as int] == gems@[i as int]);
            assert forall|k: Seq<char>| out@.dom().contains(k) <==> symbols(next).contains(k) by {
                if symbols(done).contains(k) {
                    let j = choose|j: int| 0 <= j < done.len() && #[trigger] carries(done[j], k);
                    assert(carries(next[j], k));
                }
                if symbols(next).contains(k) {
                    let j = choose|j: int| 0 <= j < next.len() && #[trigger] carries(next[j], k);
                    if j < i {
                        assert(carries(done[j], k));
                    }
                }
                if carries(gems@[i as int], k) {
                    assert(carries(next[i as int], k));
                }
                assert(was.contains(k) <==> symbols(done).contains(k));
            }
            assert(out@.dom() =~= symbols(next));
        }
        i = i + 1;
    }
    assert(gems@.take(gems.len() as int) =~= gems@);
    out
}

/// The names that a pack defines, by kind.
struct Known {
    spells: NameMap<usize>,
    items: NameMap<usize>,
    statuses: NameMap<usize>,
    abilities: NameMap<usize>,
    mobs: NameMap<usize>,
    tech: NameMap<usize>,
    loot_tables: NameMap<usize>,
    symbols: NameMap<usize>,
}

impl Known {
    spec fn of(self, pack: ContentPack) -> bool {
        &&& self.spells.well_formed() && self.spells@.dom() == keys(pack.spells@)
        &&& self.items.well_formed() && self.items@.dom() == keys(pack.items@)
        &&& self.statuses.well_formed() && self.statuses@.dom() == keys(pack.statuses@)
        &&& self.abilities.well_formed() && self.abilities@.dom() == keys(pack.abilities@)
        &&& self.mobs.well_formed() && self.mobs@.dom() == keys(pack.mobs@)
        &&& self.tech.well_formed() && self.tech@.dom() == keys(pack.tech.nodes@)
        &&& self.loot_tables.well_formed() && self.loot_tables@.dom() == keys(pack.loot_tables@)
        &&& self.symbols.well_formed() && self.symbols@.dom() == symbols(pack.gems@)
    }
}

impl ContentPack {
    /// The problem of the event that a trigger waits for.
    pub open spec fn event_problem(self, id: Seq<char>, on: GameTrigger) -> Option<Seq<char>> {
        match on {
            GameTrigger::OnPickup { item } => missing(
                "trigger "@,
                id,
                " fires on pickup of missing item "@,
                item@,
                keys(self.items@),
            ),
            GameTrigger::OnSpellCast { spell } => missing(
                "trigger "@,
                id,
                " fires on cast of missing spell "@,
                spell@,
                keys(self.spells@),
            ),
            _ => None,
        }
    }

    /// The problem of one condition of a trigger.
    pub open spec fn condition_problem(self, id: Seq<char>, c: TriggerCondition) -> Option<Seq<char>> {
        match c {
            TriggerCondition::HasItem { item } => missing(
                "trigger "@,
                id,
                " condition references missing item "@,
                item@,
                keys(self.items@),
            ),
            TriggerCondition::HasTech { node } => missing(
                "trigger "@,
                id,
                " condition references missing tech node "@,
                node@,
                keys(self.tech.nodes@),
            ),
            _ => None,
        }
    }

    /// The problem of one action of a trigger.
    pub open spec fn action_problem(self, id: Seq<char>, a: RuleAction) -> Option<Seq<char>> {
        match a {
            RuleAction::GrantItem { item, .. } => missing(
                "trigger "@,
                id,
                " action grants missing item "@,
                item@,
                keys(self.items@),
            ),
            RuleAction::ApplyStatus { status, .. } => missing(
                "trigger "@,
                id,
                " action applies missing status "@,
                status@,
                keys(self.statuses@),
            ),
            RuleAction::SpawnMob { mob, .. } => missing(
                "trigger "@,
                id,
                " action spawns missing mob "@,
                mob@,
                keys(self.mobs@),
            ),
            RuleAction::SpawnLoot { table } => missing(
                "trigger "@,
                id,
                " action rolls missing loot table "@,
                table@,
                keys(self.loot_tables@),
            ),
            _ => None,
        }
    }

    /// The first problem of the ability at `i`.
    pub open spec fn ability_problem(self, i: int) -> Option<Seq<char>> {
        let a = self.abilities@[i];
        missing("ability "@, a.id@, " references missing spell "@, a.spell@, keys(self.spells@))
    }

    /// The first problem of the tech node at `i`.
    pub open spec fn tech_node_problem(self, i: int) -> Option<Seq<char>> {
        let node = self.tech.nodes@[i];
        first_missing(
            "tech node "@,
            node.id@,
            " unlocks missing item "@,
            node.unlock_items@,
            keys(self.items@),
        )
    }

    /// The first problem of the spell at `i`.
    pub open spec fn spell_problem(self, i: int) -> Option<Seq<char>> {
        let s = self.spells@[i];
        status_problem(s.root, s.id@, keys(self.statuses@))
    }

    /// The first problem of the game mode at `i`.
    pub open spec fn game_mode_problem(self, i: int) -> Option<Seq<char>> {
        let m = self.game_modes@[i];
        either(
            first_missing(
                "game mode "@,
                m.id@,
                " starting_loadout references missing ability "@,
                m.starting_loadout@,
                keys(self.abilities@),
            ),
            first_missing(
                "game mode "@,
                m.id@,
                " starting_items references missing item "@,
                m.starting_items@,
                keys(self.items@),
            ),
        )
    }

    /// The first problem of the loot table at `i`.
    pub open spec fn loot_table_problem(self, i: int) -> Option<Seq<char>> {
        let t = self.loot_tables@[i];
        first_missing(
            "loot table "@,
            t.id@,
            " references missing item "@,
            t.entries@,
            keys(self.items@),
        )
    }

    /// The first problem of the spawn rule at `i`.
    pub open spec fn spawn_rule_problem(self, i: int) -> Option<Seq<char>> {
        let r = self.spawn_rules@[i];
        either(
            missing("spawn rule "@, r.id@, " references missing mob "@, r.mob@, keys(self.mobs@)),
            match r.loot_table {
                Some(t) => missing(
                    "spawn rule "@,
                    r.id@,
                    " references missing loot table "@,
                    t@,
                    keys(self.loot_tables@),
                ),
                None => None,
            },
        )
    }

    /// The first problem of the trigger at `i`.
    pub open spec fn trigger_problem(self, i: int) -> Option<Seq<char>> {
        let t = self.triggers@[i];
        either(
            self.event_problem(t.id@, t.on),
            either(
                first_of(
                    Seq::new(
                        t.conditions@.len(),
                        |j: int| self.condition_problem(t.id@, t.conditions@[j]),
                    ),
                ),
                first_of(
                    Seq::new(t.actions@.len(), |j: int| self.action_problem(t.id@, t.actions@[j])),
                ),
            ),
        )
    }

    /// The first problem of the set at `i`.
    pub open spec fn item_set_problem(self, i: int) -> Option<Seq<char>> {
        let s = self.item_sets@[i];
        first_missing("set "@, s.id@, " lists missing item "@, s.pieces@, keys(self.items@))
    }

    /// The first problem of the runeword at `i`.
    pub open spec fn runeword_problem(self, i: int) -> Option<Seq<char>> {
        let w = self.runewords@[i];
        first_missing(
            "runeword "@,
            w.id@,
            " needs missing rune symbol "@,
            w.sequence@,
            symbols(self.gems@),
        )
    }

    /// The first dangling reference of the pack, in the order in which the lists are
    /// read, as a line of text that names both ends of it.
    pub open spec fn problem(self) -> Option<Seq<char>> {
        either(
            first_of(Seq::new(self.abilities@.len(), |i: int| self.ability_problem(i))),
            either(
                first_of(Seq::new(self.tech.nodes@.len(), |i: int| self.tech_node_problem(i))),
                either(
                    first_of(Seq::new(self.spells@.len(), |i: int| self.spell_problem(i))),
                    either(
                        first_of(Seq::new(self.game_modes@.len(), |i: int| self.game_mode_problem(i))),
                        either(
                            first_of(Seq::new(self.loot_tables@.len(), |i: int| self.loot_table_problem(i))),
                            either(
                                first_of(Seq::new(self.spawn_rules@.len(), |i: int| self.spawn_rule_problem(i))),
                                either(
                                    first_of(Seq::new(self.triggers@.len(), |i: int| self.trigger_problem(i))),
                                    either(
                                        first_of(Seq::new(self.item_sets@.len(), |i: int| self.item_set_problem(i))),
                                        first_of(Seq::new(self.runewords@.len(), |i: int| self.runeword_problem(i))),
                                    ),
                                ),
                            ),
                        ),
                    ),
                ),
            ),
        )
    }

    fn check_abilities(&self, known: &Known) -> (r: Option<String>)
        requires
            known.of(*self),
        ensures
            agrees(r, first_of(Seq::new(self.abilities@.len(), |i: int| self.ability_problem(i)))),
    {
        let ghost problems = Seq::new(self.abilities@.len(), |i: int| self.ability_problem(i));
        let mut i: usize = 0;
        while i < self.abilities.len()
            invariant
                i <= self.abilities.len(),
                known.of(*self),
                problems == Seq::new(self.abilities@.len(), |i: int| self.ability_problem(i)),
                forall|j: int| 0 <= j < i ==> problems[j] is None,
            decreases self.abilities.len() - i,
        {
            let a = &self.abilities[i];
            let found = check_ref(
                "ability ",
                a.id.as_str(),
                " references missing spell ",
                a.spell.as_str(),
                &known.spells,
            );
            if found.is_some() {
                proof {
                    first_of_at(problems, i as int);
                }
                return found;
            }
            i = i + 1;
        }
        proof {
            first_of_none(problems);
        }
        None
    }

    fn check_tech(&self, known: &Known) -> (r: Option<String>)
        requires
            known.of(*self),
        ensures
            agrees(r, first_of(Seq::new(self.tech.nodes@.len(), |i: int| self.tech_node_problem(i)))),
    {
        let ghost problems = Seq::new(self.tech.nodes@.len(), |i: int| self.tech_node_problem(i));
        let mut i: usize = 0;
        while i < self.tech.nodes.len()
            invariant
                i <= self.tech.nodes.len(),
                known.of(*self),
                problems == Seq::new(self.tech.nodes@.len(), |i: int| self.tech_node_problem(i)),
                forall|j: int| 0 <= j < i ==> problems[j] is None,
            decreases self.tech.nodes.len() - i,
        {
            let node = &self.tech.nodes[i];
            let found = check_refs(
                "tech node ",
                node.id.as_str(),
                " unlocks missing item ",
                &node.unlock_items,
                &known.items,
            );
            if found.is_some() {
                proof {
                    first_of_at(problems, i as int);
                }
                return found;
            }
            i = i + 1;
        }
        proof {
            first_of_none(problems);
        }
        None
    }

    fn check_spells(&self, known: &Known) -> (r: Option<String>)
        requires
            known.of(*self),
        ensures
            agrees(r, first_of(Seq::new(self.spells@.len(), |i: int| self.spell_problem(i)))),
    {
        let ghost problems = Seq::new(self.spells@.len(), |i: int| self.spell_problem(i));
        let mut i: usize = 0;
        while i < self.spells.len()
            invariant
                i <= self.spells.len(),
                known.of(*self),
                problems == Seq::new(self.spells@.len(), |i: int| self.spell_problem(i)),
                forall|j: int| 0 <= j < i ==> problems[j] is None,
            decreases self.spells.len() - i,
        {
            let s = &self.spells[i];
            let found = check_status_refs(&s.root, &known.statuses, s.id.as_str());
            if found.is_some() {
                proof {
                    first_of_at(problems, i as int);
                }
                return found;
            }
            i = i + 1;
        }
        proof {
            first_of_none(problems);
        }
        None
    }

    fn check_game_modes(&self, known: &Known) -> (r: Option<String>)
        requires
            known.of(*self),
        ensures
            agrees(r, first_of(Seq::new(self.game_modes@.len(), |i: int| self.game_mode_problem(i)))),
    {
        let ghost problems = Seq::new(self.game_modes@.len(), |i: int| self.game_mode_problem(i));
        let mut i: usize = 0;
        while i < self.game_modes.len()
            invariant
                i <= self.game_modes.len(),
                known.of(*self),
                problems == Seq::new(self.game_modes@.len(), |i: int| self.game_mode_problem(i)),
                forall|j: int| 0 <= j < i ==> problems[j] is None,
            decreases self.game_modes.len() - i,
        {
            let m = &self.game_modes[i];
            let found = check_refs(
                "game mode ",
                m.id.as_str(),
                " starting_loadout references missing ability ",
                &m.starting_loadout,
                &known.abilities,
            );
            let found = if found.is_some() {
                found
            } else {
                check_refs(
                    "game mode ",
                    m.id.as_str(),
                    " starting_items references missing item ",
                    &m.starting_items,
                    &known.items,
                )
            };
            if found.is_some() {
                proof {
                    first_of_at(problems, i as int);
                }
                return found;
            }
            i = i + 1;
        }
        proof {
            first_of_none(problems);
        }
        None
    }

    fn check_loot_tables(&self, known: &Known) -> (r: Option<String>)
        requires
            known.of(*self),
        ensures
            agrees(r, first_of(Seq::new(self.loot_tables@.len(), |i: int| self.loot_table_problem(i)))),
    {
        let ghost problems = Seq::new(self.loot_tables@.len(), |i: int| self.loot_table_problem(i));
        let mut i: usize = 0;
        while i < self.loot_tables.len()
            invariant
                i <= self.loot_tables.len(),
                known.of(*self),
                problems == Seq::new(self.loot_tables@.len(), |i: int| self.loot_table_problem(i)),
                forall|j: int| 0 <= j < i ==> problems[j] is None,
            decreases self.loot_tables.len() - i,
        {
            let t = &self.loot_tables[i];
            let found = check_refs(
                "loot table ",
                t.id.as_str(),
                " references missing item ",
                &t.entries,
                &known.items,
            );
            if found.is_some() {
                proof {
                    first_of_at(problems, i as int);
                }
                return found;
            }
            i = i + 1;
        }
        proof {
            first_of_none(problems);
        }
        None
    }

    fn check_spawn_rules(&self, known: &Known) -> (r: Option<String>)
        requires
            known.of(*self),
        ensures
            agrees(r, first_of(Seq::new(self.spawn_rules@.len(), |i: int| self.spawn_rule_problem(i)))),
    {
        let ghost problems = Seq::new(self.spawn_rules@.len(), |i: int| self.spawn_rule_problem(i));
        let mut i: usize = 0;
        while i < self.spawn_rules.len()
            invariant
                i <= self.spawn_rules.len(),
                known.of(*self),
                problems == Seq::new(self.spawn_rules@.len(), |i: int| self.spawn_rule_problem(i)),
                forall|j: int| 0 <= j < i ==> problems[j] is None,
            decreases self.spawn_rules.len() - i,
        {
            let r = &self.spawn_rules[i];
            let found = check_ref(
                "spawn rule ",
                r.id.as_str(),
                " references missing mob ",
                r.mob.as_str(),
                &known.mobs,
            );
            let found = if found.is_some() {
                found
            } else {
                match &r.loot_table {
                    Some(t) => check_ref(
                        "spawn rule ",
                        r.id.as_str(),
                        " references missing loot table ",
                        t.as_str(),
                        &known.loot_tables,
                    ),
                    None => None,
                }
            };
            if found.is_some() {
                proof {
                    first_of_at(problems, i as int);
                }
                return found;
            }
            i = i + 1;
        }
        proof {
            first_of_none(problems);
        }
        None
    }

    fn check_triggers(&self, known: &Known) -> (r: Option<String>)
        requires
            known.of(*self),
        ensures
            agrees(r, first_of(Seq::new(self.triggers@.len(), |i: int| self.trigger_problem(i)))),
    {
        let ghost problems = Seq::new(self.triggers@.len(), |i: int| self.trigger_problem(i));
        let mut i: usize = 0;
        while i < self.triggers.len()
            invariant
                i <= self.triggers.len(),
                known.of(*self),
                problems == Seq::new(self.triggers@.len(), |i: int| self.trigger_problem(i)),
                forall|j: int| 0 <= j < i ==> problems[j] is None,
            decreases self.triggers.len() - i,
        {
            let found = self.check_trigger(&self.triggers[i], known);
            if found.is_some() {
                proof {
                    first_of_at(problems, i as int);
                }
                return found;
            }
            i = i + 1;
        }
        proof {
            first_of_none(problems);
        }
        None
    }

    fn check_item_sets(&self, known: &Known) -> (r: Option<String>)
        requires
            known.of(*self),
        ensures
            agrees(r, first_of(Seq::new(self.item_sets@.len(), |i: int| self.item_set_problem(i)))),
    {
        let ghost problems = Seq::new(self.item_sets@.len(), |i: int| self.item_set_problem(i));
        let mut i: usize = 0;
        while i < self.item_sets.len()
            invariant
                i <= self.item_sets.len(),
                known.of(*self),
                problems == Seq::new(self.item_sets@.len(), |i: int| self.item_set_problem(i)),
                forall|j: int| 0 <= j < i ==> problems[j] is None,
            decreases self.item_sets.len() - i,
        {
            let s = &self.item_sets[i];
            let found = check_refs(
                "set ",
                s.id.as_str(),
                " lists missing item ",
                &s.pieces,
                &known.items,
            );
            if found.is_some() {
                proof {
                    first_of_at(problems, i as int);
                }
                return found;
            }
            i = i + 1;
        }
        proof {
            first_of_none(problems);
        }
        None
    }

    fn check_runewords(&self, known: &Known) -> (r: Option<String>)
        requires
            known.of(*self),
        ensures
            agrees(r, first_of(Seq::new(self.runewords@.len(), |i: int| self.runeword_problem(i)))),
    {
        let ghost problems = Seq::new(self.runewords@.len(), |i: int| self.runeword_problem(i));
        let mut i: usize = 0;
        while i < self.runewords.len()
            invariant
                i <= self.runewords.len(),
                known.of(*self),
                problems == Seq::new(self.runewords@.len(), |i: int| self.runeword_problem(i)),
                forall|j: int| 0 <= j < i ==> problems[j] is None,
            decreases self.runewords.len() - i,
        {
            let w = &self.runewords[i];
            let found = check_refs(
                "runeword ",
                w.id.as_str(),
                " needs missing rune symbol ",
                &w.sequence,
                &known.symbols,
            );
            if found.is_some() {
                proof {
                    first_of_at(problems, i as int);
                }
                return found;
            }
            i = i + 1;
        }
        proof {
            first_of_none(problems);
        }
        None
    }

    fn check_event(&self, id: &str, on: &GameTrigger, known: &Known) -> (r: Option<String>)
        requires
            known.of(*self),
        ensures
            agrees(r, self.event_problem(id@, *on)),
    {
        match on {
            GameTrigger::OnPickup { item } => check_ref(
                "trigger ",
                id,
                " fires on pickup of missing item ",
                item.as_str(),
                &known.items,
            ),
            GameTrigger::OnSpellCast { spell } => check_ref(
                "trigger ",
                id,
                " fires on cast of missing spell ",
                spell.as_str(),
                &known.spells,
            ),
            _ => None,
        }
    }

    fn check_condition(&self, id: &str, c: &TriggerCondition, known: &Known) -> (r: Option<String>)
        requires
            known.of(*self),
        ensures
            agrees(r, self.condition_problem(id@, *c)),
    {
        match c {
            TriggerCondition::HasItem { item } => check_ref(
                "trigger ",
                id,
                " condition references missing item ",
                item.as_str(),
                &known.items,
            ),
            TriggerCondition::HasTech { node } => check_ref(
                "trigger ",
                id,
                " condition references missing tech node ",
                node.as_str(),
                &known.tech,
            ),
            _ => None,
        }
    }

    fn check_action(&self, id: &str, a: &RuleAction, known: &Known) -> (r: Option<String>)
        requires
            known.of(*self),
        ensures
            agrees(r, self.action_problem(id@, *a)),
    {
        match a {
            RuleAction::GrantItem { item, .. } => check_ref(
                "trigger ",
                id,
                " action grants missing item ",
                item.as_str(),
                &known.items,
            ),
            RuleAction::ApplyStatus { status, .. } => check_ref(
                "trigger ",
                id,
                " action applies missing status ",
                status.as_str(),
                &known.statuses,
            ),
            RuleAction::SpawnMob { mob, .. } => check_ref(
                "trigger ",
                id,
                " action spawns missing mob ",
                mob.as_str(),
                &known.mobs,
            ),
            RuleAction::SpawnLoot { table } => check_ref(
                "trigger ",
                id,
                " action rolls missing loot table ",
                table.as_str(),
                &known.loot_tables,
            ),
            _ => None,
        }
    }

    fn check_conditions(&self, t: &TriggerDef, known: &Known) -> (r: Option<String>)
        requires
            known.of(*self),
        ensures
            agrees(
                r,
                first_of(Seq::new(t.conditions@.len(), |j: int| self.condition_problem(t.id@, t.conditions@[j]))),
            ),
    {
        let ghost problems = Seq::new(
            t.conditions@.len(),
            |j: int| self.condition_problem(t.id@, t.conditions@[j]),
        );
        let mut i: usize = 0;
        while i < t.conditions.len()
            invariant
                i <= t.conditions.len(),
                known.of(*self),
                problems == Seq::new(
                    t.conditions@.len(),
                    |j: int| self.condition_problem(t.id@, t.conditions@[j]),
                ),
                forall|j: int| 0 <= j < i ==> problems[j] is None,
            decreases t.conditions.len() - i,
        {
            let found = self.check_condition(t.id.as_str(), &t.conditions[i], known);
            if found.is_some() {
                proof {
                    first_of_at(problems, i as int);
                }
                return found;
            }
            i = i + 1;
        }
        proof {
            first_of_none(problems);
        }
        None
    }

    fn check_actions(&self, t: &TriggerDef, known: &Known) -> (r: Option<String>)
        requires
            known.of(*self),
        ensures
            agrees(
                r,
                first_of(Seq::new(t.actions@.len(), |j: int| self.action_problem(t.id@, t.actions@[j]))),
            ),
    {
        let ghost problems = Seq::new(
            t.actions@.len(),
            |j: int| self.action_problem(t.id@, t.actions@[j]),
        );
        let mut i: usize = 0;
        while i < t.actions.len()
            invariant
                i <= t.actions.len(),
                known.of(*self),
                problems == Seq::new(
                    t.actions@.len(),
                    |j: int| self.action_problem(t.id@, t.actions@[j]),
                ),
                forall|j: int| 0 <= j < i ==> problems[j] is None,
            decreases t.actions.len() - i,
        {
            let found = self.check_action(t.id.as_str(), &t.actions[i], known);
            if found.is_some() {
                proof {
                    first_of_at(problems, i as int);
                }
                return found;
            }
            i = i + 1;
        }
        proof {
            first_of_none(problems);
        }
        None
    }

    fn check_trigger(&self, t: &TriggerDef, known: &Known) -> (r: Option<String>)
        requires
            known.of(*self),
        ensures
            agrees(
                r,
                either(
                    self.event_problem(t.id@, t.on),
                    either(
                        first_of(
                            Seq::new(
                                t.conditions@.len(),
                                |j: int| self.condition_problem(t.id@, t.conditions@[j]),
                            ),
                        ),
                        first_of(
                            Seq::new(
                                t.actions@.len(),
                                |j: int| self.action_problem(t.id@, t.actions@[j]),
                            ),
                        ),
                    ),
                ),
            ),
    {
        let found = self.check_event(t.id.as_str(), &t.on, known);
        if found.is_some() {
            return found;
        }
        let found = self.check_conditions(t, known);
        if found.is_some() {
            return found;
        }
        self.check_actions(t, known)
    }

    fn first_problem(&self) -> (r: Option<String>)
        ensures
            agrees(r, self.problem()),
    {
        let known = Known {
            spells: index(&self.spells),
            items: index(&self.items),
            statuses: index(&self.statuses),
            abilities: index(&self.abilities),
            mobs: index(&self.mobs),
            tech: index(&self.tech.nodes),
            loot_tables: index(&self.loot_tables),
            symbols: rune_symbols(&self.gems),
        };
        let found = self.check_abilities(&known);
        if found.is_some() {
            return found;
        }
        let found = self.check_tech(&known);
        if found.is_some() {
            return found;
        }
        let found = self.check_spells(&known);
        if found.is_some() {
            return found;
        }
        let found = self.check_game_modes(&known);
        if found.is_some() {
            return found;
        }
        let found = self.check_loot_tables(&known);
        if found.is_some() {
            return found;
        }
        let found = self.check_spawn_rules(&known);
        if found.is_some() {
            return found;
        }
        let found = self.check_triggers(&known);
        if found.is_some() {
            return found;
        }
        let found = self.check_item_sets(&known);
        if found.is_some() {
            return found;
        }
        self.check_runewords(&known)
    }

    /// Structural validation run before a pack is accepted for swap. Catches dangling
    /// references (an ability pointing at a missing spell, a tech node granting a missing
    /// item) that would otherwise surface mid-match. The error names the first of them.
    pub fn validate(&self) -> (r: Result<(), ContentError>)
        ensures
            match self.problem() {
                None => r == Ok::<(), ContentError>(()),
                Some(text) => r matches Err(ContentError::Invalid(why)) && why@ == text,
            },
    {
        match self.first_problem() {
            Some(why) => Err(ContentError::Invalid(why)),
            None => Ok(()),
        }
    }
}

} // verus!
