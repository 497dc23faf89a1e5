//! The route-table store: an insertion-ordered map from topic string to a
//! handler slot, kept in an `indexmap::IndexMap`.
//!
//! The map itself is outside code, so its contents are described by two
//! uninterpreted names: `map_of`, the key-to-slot mapping, and `order_of`,
//! the keys in insertion order. Every operation the router uses goes through
//! a wrapper here whose contract states, over those two names, what the
//! `indexmap` documentation promises of the call.

use vstd::prelude::*;

verus! {

#[verifier::external_type_specification]
#[verifier::external_body]
#[verifier::reject_recursive_types(K)]
#[verifier::reject_recursive_types(V)]
#[verifier::reject_recursive_types(S)]
pub struct ExIndexMap<K, V, S>(indexmap::IndexMap<K, V, S>);

/// The key-to-value mapping that the `IndexMap` currently holds, with topic
/// strings as character sequences and stored slots as integers.
pub uninterp spec fn map_of(m: indexmap::IndexMap<String, usize>) -> Map<Seq<char>, int>;

/// The keys that the `IndexMap` currently holds, in their insertion order.
pub uninterp spec fn order_of(m: indexmap::IndexMap<String, usize>) -> Seq<Seq<char>>;

/// The mapping of a route store with nothing in it.
pub open spec fn no_routes() -> Map<Seq<char>, int> {
    Map::empty()
}

/// Relies on `indexmap::IndexMap::new`: the new map is empty.
#[verifier::external_body]
pub(crate) fn routes_new() -> (m: indexmap::IndexMap<String, usize>)
    ensures
        map_of(m) == no_routes(),
        order_of(m) == Seq::<Seq<char>>::empty(),
{
    indexmap::IndexMap::new()
}

/// Relies on `indexmap::IndexMap::insert`: an equivalent key keeps its place
/// in the order and only its value is updated; a new key goes last in order.
#[verifier::external_body]
pub(crate) fn routes_insert(m: &mut indexmap::IndexMap<String, usize>, key: String, value: usize)
    ensures
        map_of(*final(m)) == map_of(*old(m)).insert(key@, value as int),
        map_of(*old(m)).contains_key(key@) ==> order_of(*final(m)) == order_of(*old(m)),
        !map_of(*old(m)).contains_key(key@) ==> order_of(*final(m)) == order_of(*old(m)).push(
            key@,
        ),
{
    m.insert(key, value);
}

/// Relies on `indexmap::IndexMap::get`: returns the stored value for an
/// equal key if one is present, else `None`.
#[verifier::external_body]
pub(crate) fn routes_get(m: &indexmap::IndexMap<String, usize>, key: &String) -> (r: Option<usize>)
    ensures
        match r {
            Some(v) => map_of(*m).contains_key(key@) && map_of(*m)[key@] == v as int,
            None => !map_of(*m).contains_key(key@),
        },
{
    m.get(key).copied()
}

/// Relies on `indexmap::IndexMap::keys`: the keys come out in their
/// insertion order.
#[verifier::external_body]
pub(crate) fn routes_keys(m: &indexmap::IndexMap<String, usize>) -> (r: Vec<String>)
    ensures
        r@.len() == order_of(*m).len(),
        forall|i: int| 0 <= i < r@.len() ==> r@[i]@ == order_of(*m)[i],
{
    m.keys().cloned().collect()
}

} // verus!
