//! Content as tables: how the rows that a pack is authored in are read into definitions.
//!
//! A pack reads like a spreadsheet: one constant table per kind of definition, one row per
//! definition. In a row numbers stand in thousandths, a reference that is not there is the
//! empty text, and a list of varying length says how many of its places are used.

pub mod ability;
pub mod gamemode;
pub mod gear;
pub mod item;
pub mod loot;
pub mod material;
pub mod mission;
pub mod mob;
pub mod movement;
pub mod proc;
pub mod spawn;
pub mod spell;
pub mod stats;
pub mod status;
pub mod tech;
pub mod trigger;
pub mod world;

use crate::content::ids::{
    AbilityId, ElementId, ItemId, LootTableId, MaterialId, MobId, MovementModeId, ShaderId,
    SpellId, StatusId, TechNodeId,
};
use crate::scalar::{dec, decimal, Scalar};
use crate::text::same;
use vstd::prelude::*;

verus! {

/// The number that stands for `n` thousandths.
pub open spec fn thousandths(n: i32) -> Scalar {
    decimal(n as int, 3)
}

/// Reads a number.
pub fn milli(n: i32) -> (r: Scalar)
    ensures
        r == thousandths(n),
{
    dec(n, 3)
}

/// The numbers of a list.
pub open spec fn all_thousandths(list: Seq<i32>) -> Seq<Scalar> {
    Seq::new(list.len(), |i: int| thousandths(list[i]))
}

/// Reads three numbers.
pub fn milli3(list: [i32; 3]) -> (r: [Scalar; 3])
    ensures
        r@ == all_thousandths(list@),
{
    let r = [milli(list[0]), milli(list[1]), milli(list[2])];
    assert(r@ =~= all_thousandths(list@));
    r
}

/// Reads four numbers.
pub fn milli4(list: [i32; 4]) -> (r: [Scalar; 4])
    ensures
        r@ == all_thousandths(list@),
{
    let r = [milli(list[0]), milli(list[1]), milli(list[2]), milli(list[3])];
    assert(r@ =~= all_thousandths(list@));
    r
}

/// Something that is written as a name.
pub trait Named: Sized {
    spec fn text(&self) -> Seq<char>;

    fn named(s: &str) -> (r: Self)
        ensures
            r.text() == s@,
    ;
}

impl Named for AbilityId {
    open spec fn text(&self) -> Seq<char> {
        self@
    }

    fn named(s: &str) -> (r: Self) {
        AbilityId::new(s)
    }
}

impl Named for ElementId {
    open spec fn text(&self) -> Seq<char> {
        self@
    }

    fn named(s: &str) -> (r: Self) {
        ElementId::new(s)
    }
}

impl Named for ItemId {
    open spec fn text(&self) -> Seq<char> {
        self@
    }

    fn named(s: &str) -> (r: Self) {
        ItemId::new(s)
    }
}

impl Named for LootTableId {
    open spec fn text(&self) -> Seq<char> {
        self@
    }

    fn named(s: &str) -> (r: Self) {
        LootTableId::new(s)
    }
}

impl Named for MaterialId {
    open spec fn text(&self) -> Seq<char> {
        self@
    }

    fn named(s: &str) -> (r: Self) {
        MaterialId::new(s)
    }
}

impl Named for MobId {
    open spec fn text(&self) -> Seq<char> {
        self@
    }

    fn named(s: &str) -> (r: Self) {
        MobId::new(s)
    }
}

impl Named for MovementModeId {
    open spec fn text(&self) -> Seq<char> {
        self@
    }

    fn named(s: &str) -> (r: Self) {
        MovementModeId::new(s)
    }
}

impl Named for ShaderId {
    open spec fn text(&self) -> Seq<char> {
        self@
    }

    fn named(s: &str) -> (r: Self) {
        ShaderId::new(s)
    }
}

impl Named for SpellId {
    open spec fn text(&self) -> Seq<char> {
        self@
    }

    fn named(s: &str) -> (r: Self) {
        SpellId::new(s)
    }
}

impl Named for StatusId {
    open spec fn text(&self) -> Seq<char> {
        self@
    }

    fn named(s: &str) -> (r: Self) {
        StatusId::new(s)
    }
}

impl Named for TechNodeId {
    open spec fn text(&self) -> Seq<char> {
        self@
    }

    fn named(s: &str) -> (r: Self) {
        TechNodeId::new(s)
    }
}

impl Named for String {
    open spec fn text(&self) -> Seq<char> {
        self@
    }

    fn named(s: &str) -> (r: Self) {
        s.to_owned()
    }
}

/// How many of the places of a list are used.
pub open spec fn used(n: u8, places: nat) -> nat {
    if n <= places {
        n as nat
    } else {
        places
    }
}

/// The list holds the first `n` names.
pub open spec fn lists<T: Named>(list: Seq<T>, n: u8, names: Seq<&'static str>) -> bool {
    &&& list.len() == used(n, names.len())
    &&& forall|i: int| 0 <= i < list.len() ==> (#[trigger] list[i]).text() == names[i]@
}

/// Reads a list of names.
pub fn list<T: Named>(n: u8, names: &[&'static str]) -> (r: Vec<T>)
    ensures
        lists(r@, n, names@),
{
    let mut out: Vec<T> = Vec::new();
    let mut i: usize = 0;
    while i < n as usize && i < names.len()
        invariant
            i <= n,
            i <= names.len(),
            out@.len() == i,
            forall|k: int| 0 <= k < i ==> (#[trigger] out@[k]).text() == names@[k]@,
        decreases names.len() - i,
    {
        out.push(T::named(names[i]));
        i = i + 1;
    }
    out
}

/// The list holds the first `n` names, each with its amount.
pub open spec fn counts<T: Named>(list: Seq<(T, u16)>, n: u8, rows: Seq<(&'static str, u16)>) -> bool {
    &&& list.len() == used(n, rows.len())
    &&& forall|i: int|
        0 <= i < list.len() ==> (#[trigger] list[i]).0.text() == rows[i].0@ && list[i].1 == rows[i].1
}

/// Reads a list of names with amounts.
pub fn count<T: Named>(n: u8, rows: &[(&'static str, u16)]) -> (r: Vec<(T, u16)>)
    ensures
        counts(r@, n, rows@),
{
    let mut out: Vec<(T, u16)> = Vec::new();
    let mut i: usize = 0;
    while i < n as usize && i < rows.len()
        invariant
            i <= n,
            i <= rows.len(),
            out@.len() == i,
            forall|k: int|
                0 <= k < i ==> (#[trigger] out@[k]).0.text() == rows@[k].0@ && out@[k].1
                    == rows@[k].1,
        decreases rows.len() - i,
    {
        out.push((T::named(rows[i].0), rows[i].1));
        i = i + 1;
    }
    out
}

/// The list holds the first `n` names, each with its number.
pub open spec fn weighs<T: Named>(list: Seq<(T, Scalar)>, n: u8, rows: Seq<(&'static str, i32)>) -> bool {
    &&& list.len() == used(n, rows.len())
    &&& forall|i: int|
        0 <= i < list.len() ==> (#[trigger] list[i]).0.text() == rows[i].0@ && list[i].1
            == thousandths(rows[i].1)
}

/// Reads a list of names with numbers.
pub fn weigh<T: Named>(n: u8, rows: &[(&'static str, i32)]) -> (r: Vec<(T, Scalar)>)
    ensures
        weighs(r@, n, rows@),
{
    let mut out: Vec<(T, Scalar)> = Vec::new();
    let mut i: usize = 0;
    while i < n as usize && i < rows.len()
        invariant
            i <= n,
            i <= rows.len(),
            out@.len() == i,
            forall|k: int|
                0 <= k < i ==> (#[trigger] out@[k]).0.text() == rows@[k].0@ && out@[k].1
                    == thousandths(rows@[k].1),
        decreases rows.len() - i,
    {
        out.push((T::named(rows[i].0), milli(rows[i].1)));
        i = i + 1;
    }
    out
}

/// The reference is to the name; there is none if the name is empty.
pub open spec fn refers<T: Named>(r: Option<T>, name: Seq<char>) -> bool {
    match r {
        Some(t) => name != ""@ && t.text() == name,
        None => name == ""@,
    }
}

/// Reads a reference.
pub fn refer<T: Named>(name: &'static str) -> (r: Option<T>)
    ensures
        refers(r, name@),
{
    if same(name, "") {
        None
    } else {
        Some(T::named(name))
    }
}

/// Reads every row of a table.
pub fn read_all<R: Copy, D, F: Fn(R) -> D>(rows: &[R], read: F) -> (out: Vec<D>)
    requires
        forall|row: R| call_requires(read, (row,)),
    ensures
        out@.len() == rows@.len(),
        forall|i: int|
            0 <= i < rows@.len() ==> call_ensures(read, (rows@[i],), #[trigger] out@[i]),
{
    let mut out: Vec<D> = Vec::new();
    let mut i: usize = 0;
    while i < rows.len()
        invariant
            i <= rows.len(),
            forall|row: R| call_requires(read, (row,)),
            out@.len() == i,
            forall|k: int| 0 <= k < i ==> call_ensures(read, (rows@[k],), #[trigger] out@[k]),
        decreases rows.len() - i,
    {
        out.push(read(rows[i]));
        i = i + 1;
    }
    out
}

/// Reads the first `n` rows of a list within a row.
pub fn read_some<R: Copy, D, F: Fn(R) -> D>(n: u8, rows: &[R], read: F) -> (out: Vec<D>)
    requires
        forall|row: R| call_requires(read, (row,)),
    ensures
        out@.len() == used(n, rows@.len()),
        forall|i: int|
            0 <= i < out@.len() ==> call_ensures(read, (rows@[i],), #[trigger] out@[i]),
{
    let mut out: Vec<D> = Vec::new();
    let mut i: usize = 0;
    while i < n as usize && i < rows.len()
        invariant
            i <= n,
            i <= rows.len(),
            forall|row: R| call_requires(read, (row,)),
            out@.len() == i,
            forall|k: int| 0 <= k < i ==> call_ensures(read, (rows@[k],), #[trigger] out@[k]),
        decreases rows.len() - i,
    {
        out.push(read(rows[i]));
        i = i + 1;
    }
    out
}

/// A reference is read as the name that it is written as, and an empty name as none.
pub proof fn references_are_read_by_name<T: Named>(name: &'static str, r: Option<T>)
    requires
        call_ensures(refer::<T>, (name,), r),
    ensures
        name@.len() == 0 <==> r is None,
        r matches Some(t) ==> t.text() == name@,
{
    reveal_strlit("");
    if name@.len() == 0 {
        assert(name@ =~= ""@);
    }
}

/// As many names are read as are in use, each at its own place.
pub proof fn lists_are_read_in_order<T: Named>(n: u8, names: &[&'static str], r: Vec<T>, i: int)
    requires
        call_ensures(list::<T>, (n, names), r),
    ensures
        r@.len() <= n && r@.len() <= names@.len(),
        r@.len() == n || r@.len() == names@.len(),
        0 <= i < r@.len() ==> r@[i].text() == names@[i]@,
{
    if 0 <= i < r@.len() {
        let t = r@[i];
    }
}

/// The same for names with amounts and with numbers.
pub proof fn amounts_are_read_in_order<T: Named>(
    n: u8,
    counted: &[(&'static str, u16)],
    a: Vec<(T, u16)>,
    weighed: &[(&'static str, i32)],
    b: Vec<(T, Scalar)>,
    i: int,
)
    requires
        call_ensures(count::<T>, (n, counted), a),
        call_ensures(weigh::<T>, (n, weighed), b),
    ensures
        a@.len() <= n && a@.len() <= counted@.len(),
        a@.len() == n || a@.len() == counted@.len(),
        b@.len() <= n && b@.len() <= weighed@.len(),
        b@.len() == n || b@.len() == weighed@.len(),
        0 <= i < a@.len() ==> a@[i].0.text() == counted@[i].0@ && a@[i].1 == counted@[i].1,
        0 <= i < b@.len() ==> b@[i].0.text() == weighed@[i].0@ && b@[i].1 == decimal(
            weighed@[i].1 as int,
            3,
        ),
{
    if 0 <= i < a@.len() {
        let t = a@[i];
    }
    if 0 <= i < b@.len() {
        let t = b@[i];
    }
}

/// A number in a row stands in thousandths.
pub proof fn numbers_are_thousandths(n: i32, r: Scalar, three: [i32; 3], t: [Scalar; 3], i: int)
    requires
        call_ensures(milli, (n,), r),
        call_ensures(milli3, (three,), t),
        0 <= i < 3,
    ensures
        r == decimal(n as int, 3),
        t@[i] == decimal(three@[i] as int, 3),
{
}

} // verus!
