//! Insertion-ordered collections of the `indexmap` crate, as the library
//! uses them: a set of strings and a map keyed by strings.

use vstd::prelude::*;
use indexmap::{IndexMap, IndexSet};
use std::collections::hash_map::RandomState;
use crate::types::ProjectUrl;

verus! {

#[verifier::external_type_specification]
#[verifier::external_body]
#[verifier::reject_recursive_types(T)]
#[verifier::reject_recursive_types(S)]
pub struct ExIndexSet<T, S>(IndexSet<T, S>);

#[verifier::external_type_specification]
#[verifier::external_body]
#[verifier::reject_recursive_types(K)]
#[verifier::reject_recursive_types(V)]
#[verifier::reject_recursive_types(S)]
pub struct ExIndexMap<K, V, S>(IndexMap<K, V, S>);

/// The strings held by an `IndexSet<String>`, in insertion order.
pub uninterp spec fn set_entries(s: IndexSet<String, RandomState>) -> Seq<Seq<char>>;

/// The string set as a sequence with `x` appended, unless `x` is already there.
pub open spec fn seq_insert(s: Seq<Seq<char>>, x: Seq<char>) -> Seq<Seq<char>> {
    if s.contains(x) { s } else { s.push(x) }
}

/// Relies on `IndexSet::new`: the new set is empty.
#[verifier::external_body]
pub(crate) fn string_set_new() -> (r: IndexSet<String, RandomState>)
    ensures
        set_entries(r) == Seq::<Seq<char>>::empty(),
{
    IndexSet::new()
}

/// Relies on `IndexSet::len`: the number of entries.
#[verifier::external_body]
pub(crate) fn string_set_len(s: &IndexSet<String, RandomState>) -> (r: usize)
    ensures
        r == set_entries(*s).len(),
{
    s.len()
}

/// Relies on `IndexSet::insert`: a value not yet present is appended, a
/// present one leaves the set as it was.
#[verifier::external_body]
pub(crate) fn string_set_insert(s: &mut IndexSet<String, RandomState>, x: String) -> (r: bool)
    ensures
        set_entries(*final(s)) == seq_insert(set_entries(*old(s)), x@),
        r == !set_entries(*old(s)).contains(x@),
{
    s.insert(x)
}

/// Relies on `IndexSet::shift_remove`: a present value is removed and the
/// entries after it move up, keeping their order; an absent one changes nothing.
#[verifier::external_body]
pub(crate) fn string_set_shift_remove(s: &mut IndexSet<String, RandomState>, x: &str) -> (r: bool)
    ensures
        r == set_entries(*old(s)).contains(x@),
        !r ==> set_entries(*final(s)) == set_entries(*old(s)),
        r ==> exists|i: int|
            0 <= i < set_entries(*old(s)).len() && set_entries(*old(s))[i] == x@
                && set_entries(*final(s)) == set_entries(*old(s)).remove(i),
{
    s.shift_remove(x)
}

/// Relies on `IndexSet`'s `Clone`: the copy holds the same strings in the same order.
#[verifier::external_body]
pub(crate) fn string_set_clone(s: &IndexSet<String, RandomState>) -> (r: IndexSet<String, RandomState>)
    ensures
        set_entries(r) == set_entries(*s),
{
    s.clone()
}

/// Relies on `IndexSet::get_index`: the entry at a position, in insertion order.
#[verifier::external_body]
pub(crate) fn string_set_get_index(s: &IndexSet<String, RandomState>, i: usize) -> (r: Option<&String>)
    ensures
        i < set_entries(*s).len() ==> r.is_some() && r.unwrap()@ == set_entries(*s)[i as int],
        i >= set_entries(*s).len() ==> r.is_none(),
{
    s.get_index(i)
}


/// The entries of an `IndexMap<String, ProjectUrl>`, key and value, in insertion order.
pub uninterp spec fn map_entries(m: IndexMap<String, ProjectUrl, RandomState>) -> Seq<(Seq<char>, ProjectUrl)>;

/// Some entry of `e` has key `k`.
pub open spec fn has_key(e: Seq<(Seq<char>, ProjectUrl)>, k: Seq<char>) -> bool {
    exists|i: int| 0 <= i < e.len() && (#[trigger] e[i]).0 == k
}

/// Relies on `IndexMap::new`: the new map is empty.
#[verifier::external_body]
pub(crate) fn url_map_new() -> (r: IndexMap<String, ProjectUrl, RandomState>)
    ensures
        map_entries(r) == Seq::<(Seq<char>, ProjectUrl)>::empty(),
{
    IndexMap::new()
}

/// Relies on `IndexMap::len`: the number of entries.
#[verifier::external_body]
pub(crate) fn url_map_len(m: &IndexMap<String, ProjectUrl, RandomState>) -> (r: usize)
    ensures
        r == map_entries(*m).len(),
{
    m.len()
}

/// Relies on `IndexMap::contains_key`: whether an entry has the key.
#[verifier::external_body]
pub(crate) fn url_map_contains_key(m: &IndexMap<String, ProjectUrl, RandomState>, k: &str) -> (r: bool)
    ensures
        r == has_key(map_entries(*m), k@),
{
    m.contains_key(k)
}

/// Relies on `IndexMap::insert`: a key not yet present is appended with its value.
#[verifier::external_body]
pub(crate) fn url_map_insert(m: &mut IndexMap<String, ProjectUrl, RandomState>, k: String, v: ProjectUrl)
    requires
        !has_key(map_entries(*old(m)), k@),
    ensures
        map_entries(*final(m)) == map_entries(*old(m)).push((k@, v)),
{
    m.insert(k, v);
}

/// Relies on `IndexMap::shift_remove`: the entry with the key is removed,
/// the entries after it move up keeping their order, and its value is
/// returned; without such an entry nothing changes.
#[verifier::external_body]
pub(crate) fn url_map_shift_remove(m: &mut IndexMap<String, ProjectUrl, RandomState>, k: &str) -> (r: Option<ProjectUrl>)
    ensures
        r is None <==> !has_key(map_entries(*old(m)), k@),
        r is None ==> map_entries(*final(m)) == map_entries(*old(m)),
        r is Some ==> exists|i: int|
            0 <= i < map_entries(*old(m)).len() && (#[trigger] map_entries(*old(m))[i]).0 == k@
                && r == Some(map_entries(*old(m))[i].1)
                && map_entries(*final(m)) == map_entries(*old(m)).remove(i),
{
    m.shift_remove(k)
}

/// Relies on `IndexMap`'s `Clone`: the copy holds the same entries in the
/// same order (keys and links are cloned, and their clones are equal).
#[verifier::external_body]
pub(crate) fn url_map_clone(m: &IndexMap<String, ProjectUrl, RandomState>) -> (r: IndexMap<String, ProjectUrl, RandomState>)
    ensures
        map_entries(r) == map_entries(*m),
{
    m.clone()
}

/// Relies on `IndexMap::get_index`: the value at a position, in insertion order.
#[verifier::external_body]
pub(crate) fn url_map_get_index(m: &IndexMap<String, ProjectUrl, RandomState>, i: usize) -> (r: Option<&ProjectUrl>)
    ensures
        i < map_entries(*m).len() ==> r == Some(&map_entries(*m)[i as int].1),
        i >= map_entries(*m).len() ==> r is None,
{
    m.get_index(i).map(|e| e.1)
}

} // verus!
