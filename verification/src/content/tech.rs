//! The tech tree — long-term progression from novice to archmage.
//!
//! A [`TechTree`] is a DAG of [`TechNode`]s grouped into branches (Pyromancy,
//! Cryomancy, Arcana, Mobility, ...). Unlocking a node spends skill points and, via
//! its [`TechEffect`]s, grants abilities/movement, unlocks recipes, multiplies stats,
//! or — crucially — *raises the spell-authoring [`crate::content::spell::Budget`]* so experts
//! can craft elaborate custom spells novices cannot. All data, all hot-reloadable.

use crate::content::ids::{AbilityId, ItemId, MaterialId, MovementModeId, SpellId, TechNodeId};
use crate::content::item::StatMods;
use crate::table::NameMap;
use crate::text::same;
use vstd::prelude::*;

verus! {

/// What unlocking a tech node grants. The progression system applies each effect to
/// the player when the node is purchased.
#[derive(Debug, Clone)]
pub enum TechEffect {
    /// Make an ability available to equip.
    UnlockAbility(AbilityId),
    /// Make a movement mode available.
    UnlockMovement(MovementModeId),
    /// Make a crafting recipe (the recipe on this item) craftable.
    UnlockRecipe(ItemId),
    /// Permanent additive stat modifier.
    StatMult(StatMods),
    /// Raise the player's spell-authoring budget (lets experts build deeper, more
    /// complex custom spells). Adds to `Budget::max_complexity` / `max_depth`.
    RaiseSpellBudget { complexity: u32, depth: u32 },
    /// Directly grant a finished spell.
    GrantSpell(SpellId),
}

/// One node in the tech tree.
#[derive(Debug, Clone)]
pub struct TechNode {
    pub id: TechNodeId,
    pub name: String,
    pub description: String,
    /// The branch this node belongs to (e.g. "Pyromancy"); for UI grouping.
    pub branch: String,
    /// Depth within the branch (0 = root tier).
    pub tier: u32,
    /// Skill points required to unlock.
    pub cost_skill_points: u32,
    /// Nodes that must already be unlocked.
    pub prereqs: Vec<TechNodeId>,
    /// Effects applied when unlocked.
    pub effects: Vec<TechEffect>,
    /// Items this node makes available (validated against the pack's items).
    pub unlock_items: Vec<ItemId>,
    /// Material for the node's icon.
    pub icon_material: Option<MaterialId>,
}

/// The full tech tree.
#[derive(Debug, Clone)]
pub struct TechTree {
    pub nodes: Vec<TechNode>,
}

impl Default for TechTree {
    fn default() -> (r: Self)
        ensures
            r.nodes@ == Seq::<TechNode>::empty(),
    {
        TechTree { nodes: Vec::new() }
    }
}

/// The index of the first node with this id, from `from` on.
pub open spec fn first_node(nodes: Seq<TechNode>, id: Seq<char>, from: int) -> Option<int>
    decreases nodes.len() - from,
{
    if from < 0 || from >= nodes.len() {
        None
    } else if nodes[from].id@ == id {
        Some(from)
    } else {
        first_node(nodes, id, from + 1)
    }
}

/// Every prerequisite of the node is among the unlocked ones.
pub open spec fn reachable(node: TechNode, unlocked: Set<Seq<char>>) -> bool {
    forall|i: int| 0 <= i < node.prereqs@.len() ==> unlocked.contains(#[trigger] node.prereqs@[i]@)
}

/// The nodes that are not unlocked but whose prerequisites are, in tree order.
pub open spec fn frontier(nodes: Seq<TechNode>, unlocked: Set<Seq<char>>) -> Seq<TechNode>
    decreases nodes.len(),
{
    if nodes.len() == 0 {
        seq![]
    } else {
        let rest = frontier(nodes.drop_last(), unlocked);
        if !unlocked.contains(nodes.last().id@) && reachable(nodes.last(), unlocked) {
            rest.push(nodes.last())
        } else {
            rest
        }
    }
}

impl TechTree {
    /// Look up a node by id.
    pub fn node(&self, id: &TechNodeId) -> (r: Option<&TechNode>)
        ensures
            match first_node(self.nodes@, id@, 0) {
                Some(i) => r == Some(&self.nodes@[i]),
                None => r is None,
            },
    {
        let mut i: usize = 0;
        while i < self.nodes.len()
            invariant
                i <= self.nodes.len(),
                first_node(self.nodes@, id@, 0) == first_node(self.nodes@, id@, i as int),
            decreases self.nodes.len() - i,
        {
            if same(self.nodes[i].id.as_str(), id.as_str()) {
                return Some(&self.nodes[i]);
            }
            i = i + 1;
        }
        None
    }

    /// True if every prerequisite of `node` is in `unlocked`.
    pub fn prereqs_met(&self, node: &TechNode, unlocked: &NameMap<()>) -> (r: bool)
        requires
            unlocked.well_formed(),
        ensures
            r == reachable(*node, unlocked@.dom()),
    {
        let mut i: usize = 0;
        while i < node.prereqs.len()
            invariant
                i <= node.prereqs.len(),
                unlocked.well_formed(),
                forall|k: int|
                    0 <= k < i ==> unlocked@.dom().contains(#[trigger] node.prereqs@[k]@),
            decreases node.prereqs.len() - i,
        {
            if !unlocked.contains(node.prereqs[i].as_str()) {
                assert(!unlocked@.dom().contains(node.prereqs@[i as int]@));
                return false;
            }
            i = i + 1;
        }
        true
    }

    /// Every node whose prerequisites are met but which is not yet unlocked — i.e. the
    /// frontier a player can currently spend points on.
    pub fn available(&self, unlocked: &NameMap<()>) -> (r: Vec<&TechNode>)
        requires
            unlocked.well_formed(),
        ensures
            r@.len() == frontier(self.nodes@, unlocked@.dom()).len(),
            forall|i: int|
                0 <= i < r@.len() ==> *(#[trigger] r@[i]) == frontier(
                    self.nodes@,
                    unlocked@.dom(),
                )[i],
    {
        let mut out: Vec<&TechNode> = Vec::new();
        let mut i: usize = 0;
        while i < self.nodes.len()
            invariant
                i <= self.nodes.len(),
                unlocked.well_formed(),
                out@.len() == frontier(self.nodes@.take(i as int), unlocked@.dom()).len(),
                forall|k: int|
                    0 <= k < out@.len() ==> *(#[trigger] out@[k]) == frontier(
                        self.nodes@.take(i as int),
                        unlocked@.dom(),
                    )[k],
            decreases self.nodes.len() - i,
        {
            assert(self.nodes@.take(i + 1).drop_last() =~= self.nodes@.take(i as int));
            let node = &self.nodes[i];
            if !unlocked.contains(node.id.as_str()) && self.prereqs_met(node, unlocked) {
                out.push(node);
            }
            i = i + 1;
        }
        assert(self.nodes@.take(self.nodes@.len() as int) =~= self.nodes@);
        out
    }
}

/// What a player can spend points on is exactly what is in the tree, is not unlocked yet,
/// and has all its prerequisites unlocked.
pub proof fn frontier_is_the_reachable_rest(
    nodes: Seq<TechNode>,
    unlocked: Set<Seq<char>>,
    node: TechNode,
)
    ensures
        frontier(nodes, unlocked).contains(node) <==> nodes.contains(node) && !unlocked.contains(
            node.id@,
        ) && reachable(node, unlocked),
    decreases nodes.len(),
{
    if nodes.len() > 0 {
        let before = nodes.drop_last();
        let rest = frontier(before, unlocked);
        let all = frontier(nodes, unlocked);
        frontier_is_the_reachable_rest(before, unlocked, node);
        if all.contains(node) {
            let k = choose|k: int| 0 <= k < all.len() && all[k] == node;
            if k < rest.len() {
                assert(rest[k] == node);
                let j = choose|j: int| 0 <= j < before.len() && before[j] == node;
                assert(nodes[j] == node);
            } else {
                assert(nodes[nodes.len() - 1] == node);
            }
        }
        if nodes.contains(node) && !unlocked.contains(node.id@) && reachable(node, unlocked) {
            let j = choose|j: int| 0 <= j < nodes.len() && nodes[j] == node;
            if j < before.len() {
                assert(before[j] == node);
                let k = choose|k: int| 0 <= k < rest.len() && rest[k] == node;
                assert(all[k] == node);
            } else {
                assert(all[all.len() - 1] == node);
            }
        }
    }
}

/// The frontier is in tree order, without what is unlocked or out of reach.
pub proof fn frontier_keeps_tree_order(nodes: Seq<TechNode>, unlocked: Set<Seq<char>>)
    ensures
        frontier(nodes, unlocked) == nodes.filter(
            |n: TechNode|
                !unlocked.contains(n.id@) && forall|i: int|
                    0 <= i < n.prereqs@.len() ==> unlocked.contains(#[trigger] n.prereqs@[i]@),
        ),
    decreases nodes.len(),
{
    reveal(Seq::filter);
    if nodes.len() > 0 {
        frontier_keeps_tree_order(nodes.drop_last(), unlocked);
    }
}

/// A node that needs nothing is in reach at once, one that needs what is not unlocked is not, and
/// unlocking more never takes a node out of reach.
pub proof fn unlocking_only_opens(node: TechNode, unlocked: Set<Seq<char>>, more: Set<Seq<char>>)
    ensures
        node.prereqs@.len() == 0 ==> reachable(node, unlocked),
        (exists|i: int|
            0 <= i < node.prereqs@.len() && !unlocked.contains(#[trigger] node.prereqs@[i]@))
            ==> !reachable(node, unlocked),
        reachable(node, unlocked) && unlocked.subset_of(more) ==> reachable(node, more),
{
}

/// A node is found by its id: the first that has it, and none only if none has.
pub proof fn nodes_are_found_by_id(nodes: Seq<TechNode>, id: Seq<char>, from: int)
    requires
        0 <= from,
    ensures
        match first_node(nodes, id, from) {
            Some(i) => {
                &&& from <= i < nodes.len()
                &&& nodes[i].id@ == id
                &&& forall|j: int| from <= j < i ==> (#[trigger] nodes[j]).id@ != id
            },
            None => forall|j: int| from <= j < nodes.len() ==> (#[trigger] nodes[j]).id@ != id,
        },
    decreases nodes.len() - from,
{
    if from < nodes.len() {
        nodes_are_found_by_id(nodes, id, from + 1);
    }
}

} // verus!
