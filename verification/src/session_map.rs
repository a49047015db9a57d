//! The concurrent map behind the session cache, and what is taken on trust of it.
//!
//! A `DashMap` changes through a shared reference. Here every call that changes one takes it by
//! exclusive reference, so that what a map holds is a value that its owner can speak of.
use crate::path::{texts, PathView};
use dashmap::DashMap;
use vstd::prelude::*;

verus! {

#[verifier::external_type_specification]
#[verifier::external_body]
#[verifier::reject_recursive_types(K)]
#[verifier::reject_recursive_types(V)]
#[verifier::reject_recursive_types(S)]
pub struct ExDashMap<K, V, S>(DashMap<K, V, S>);

/// What a map holds: the session of each path, by the text of the path's components.
pub uninterp spec fn held_sessions(map: DashMap<Vec<String>, u64>) -> Map<PathView, u64>;

/// No guard on an entry of the map was left behind without being dropped. While one is held, its
/// shard stays locked.
pub uninterp spec fn all_guards_dropped(map: DashMap<Vec<String>, u64>) -> bool;

/// `DashMap::new`: a map that holds nothing, with no shard locked.
#[verifier::external_body]
pub(crate) fn map_new() -> (fresh: DashMap<Vec<String>, u64>)
    ensures
        held_sessions(fresh) == (Map::<PathView, u64>::empty()),
        all_guards_dropped(fresh),
{
    DashMap::new()
}

/// `DashMap::try_get`, with `TryResult::try_unwrap` on what it gives: the session of `key`, or
/// none where the map holds none. A locked shard would give none as well; with every guard
/// dropped, no shard is locked.
#[verifier::external_body]
pub(crate) fn map_try_get(map: &DashMap<Vec<String>, u64>, key: &Vec<String>) -> (session: Option<
    u64,
>)
    requires
        all_guards_dropped(*map),
    ensures
        session == held_sessions(*map).get(texts(key@)),
{
    map.try_get(key).try_unwrap().map(|entry| *entry.value())
}

/// `DashMap::get`: the session of `key`, or none where the map holds none.
#[verifier::external_body]
pub(crate) fn map_get(map: &DashMap<Vec<String>, u64>, key: &Vec<String>) -> (session: Option<u64>)
    requires
        all_guards_dropped(*map),
    ensures
        session == held_sessions(*map).get(texts(key@)),
{
    map.get(key).map(|entry| *entry.value())
}

/// `DashMap::len`: how many paths the map holds a session of.
#[verifier::external_body]
pub(crate) fn map_len(map: &DashMap<Vec<String>, u64>) -> (count: usize)
    requires
        all_guards_dropped(*map),
    ensures
        count == held_sessions(*map).len(),
{
    map.len()
}

/// `DashMap::insert`: the map holds `session` for `key`, in place of the one that it held before
/// and that is given back. The guard on the shard is dropped.
#[verifier::external_body]
pub(crate) fn map_insert(
    map: &mut DashMap<Vec<String>, u64>,
    key: Vec<String>,
    session: u64,
) -> (replaced: Option<u64>)
    requires
        all_guards_dropped(*old(map)),
    ensures
        held_sessions(*final(map)) == held_sessions(*old(map)).insert(texts(key@), session),
        all_guards_dropped(*final(map)),
        replaced == held_sessions(*old(map)).get(texts(key@)),
{
    map.insert(key, session)
}

/// `DashMap::remove`: the map no longer holds a session for `key`. What it held is given back,
/// with its key. The guard on the shard is dropped.
#[verifier::external_body]
pub(crate) fn map_remove(
    map: &mut DashMap<Vec<String>, u64>,
    key: &Vec<String>,
) -> (removed: Option<(Vec<String>, u64)>)
    requires
        all_guards_dropped(*old(map)),
    ensures
        held_sessions(*final(map)) == held_sessions(*old(map)).remove(texts(key@)),
        all_guards_dropped(*final(map)),
        removed is Some <==> held_sessions(*old(map)).contains_key(texts(key@)),
        removed matches Some(entry) ==> texts(entry.0@) == texts(key@) && entry.1
            == held_sessions(*old(map))[texts(key@)],
{
    map.remove(key)
}

/// `DashMap::iter`: every path that the map holds a session of, each once, with its session. The
/// order is that of the shards and is left open.
#[verifier::external_body]
pub(crate) fn map_entries(map: &DashMap<Vec<String>, u64>) -> (entries: Vec<(Vec<String>, u64)>)
    requires
        all_guards_dropped(*map),
    ensures
        forall|i: int|
            0 <= i < entries.len() ==> held_sessions(*map).contains_pair(
                texts((#[trigger] entries[i]).0@),
                entries[i].1,
            ),
        forall|i: int, j: int|
            0 <= i < j < entries.len() ==> texts((#[trigger] entries[i]).0@) != texts(
                (#[trigger] entries[j]).0@,
            ),
        forall|path: PathView| #[trigger]
            held_sessions(*map).contains_key(path) ==> exists|i: int|
                0 <= i < entries.len() && texts((#[trigger] entries[i]).0@) == path,
{
    map.iter().map(|entry| (entry.key().clone(), *entry.value())).collect()
}

} // verus!
