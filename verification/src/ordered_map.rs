//! Trusted interface to `indexmap::IndexMap<String, String>`, the ordered
//! key/value collection the configuration keeps for user-provided maps
//! (extra navigation pages, preferred package managers).
//!
//! The map itself is opaque to the verifier; `map_entries` names what it
//! holds, as the sequence of key/value pairs in insertion order, and each
//! wrapper states over that name what the crate's documentation promises.

use vstd::prelude::*;

verus! {

#[verifier::external_type_specification]
#[verifier::external_body]
#[verifier::reject_recursive_types(K)]
#[verifier::reject_recursive_types(V)]
#[verifier::reject_recursive_types(S)]
pub struct ExIndexMap<K, V, S>(indexmap::IndexMap<K, V, S>);

/// The key/value pairs an `IndexMap<String, String>` holds, in order.
pub uninterp spec fn map_entries(m: indexmap::IndexMap<String, String>) -> Seq<
    (Seq<char>, Seq<char>),
>;

/// The view of an optional map: the entries it holds, if any.
pub open spec fn opt_map_view(o: Option<indexmap::IndexMap<String, String>>) -> Option<
    Seq<(Seq<char>, Seq<char>)>,
> {
    match o {
        Some(m) => Some(map_entries(m)),
        None => None,
    }
}

/// Whether some entry of `es` has key `k`.
pub open spec fn has_entry_key(es: Seq<(Seq<char>, Seq<char>)>, k: Seq<char>) -> bool {
    exists|i: int| 0 <= i < es.len() && es[i].0 == k
}

/// No two entries of `es` share a key.
pub open spec fn unique_entry_keys(es: Seq<(Seq<char>, Seq<char>)>) -> bool {
    forall|i: int, j: int| 0 <= i < j < es.len() ==> es[i].0 != es[j].0
}

/// Relies on `IndexMap::new`: the new map is empty.
#[verifier::external_body]
pub(crate) fn map_new() -> (r: indexmap::IndexMap<String, String>)
    ensures
        map_entries(r) == Seq::<(Seq<char>, Seq<char>)>::empty(),
{
    indexmap::IndexMap::new()
}

/// Relies on `IndexMap::insert`: an equivalent key keeps its place in the
/// order and has its value updated, with the old value returned; a new key
/// is appended last. Keys stay pairwise distinct.
#[verifier::external_body]
pub(crate) fn map_insert(
    m: &mut indexmap::IndexMap<String, String>,
    k: String,
    v: String,
) -> (r: Option<String>)
    ensures
        unique_entry_keys(map_entries(*final(m))),
        !has_entry_key(map_entries(*old(m)), k@) ==> map_entries(*final(m)) == map_entries(
            *old(m),
        ).push((k@, v@)) && r is None,
        has_entry_key(map_entries(*old(m)), k@) ==> r is Some && forall|i: int|
            0 <= i < map_entries(*old(m)).len() && map_entries(*old(m))[i].0 == k@ ==> map_entries(
                *final(m),
            ) == map_entries(*old(m)).update(i, (k@, v@)),
{
    m.insert(k, v)
}

/// Relies on `IndexMap::contains_key`, and on `String`'s hash and equality
/// agreeing with equality of the character sequences.
#[verifier::external_body]
pub(crate) fn map_contains_key(m: &indexmap::IndexMap<String, String>, k: &str) -> (r: bool)
    ensures
        r == has_entry_key(map_entries(*m), k@),
{
    m.contains_key(k)
}

/// Relies on `IndexMap::iter`: the entries come out in order, each one
/// cloned into a plain pair.
#[verifier::external_body]
pub(crate) fn map_entry_list(m: &indexmap::IndexMap<String, String>) -> (r: Vec<(String, String)>)
    ensures
        r@.len() == map_entries(*m).len(),
        forall|i: int|
            0 <= i < r@.len() ==> r@[i].0@ == map_entries(*m)[i].0 && r@[i].1@ == map_entries(
                *m,
            )[i].1,
{
    m.iter().map(|(k, v)| (k.clone(), v.clone())).collect()
}

} // verus!
