//! The tables of the peers: concurrent maps of dashmap, held exclusively where they are used here.

use dashmap::DashMap;
use vstd::prelude::*;

verus! {

/// A concurrent map of dashmap. Nothing is said of what is inside.
#[verifier::external_type_specification]
#[verifier::external_body]
#[verifier::reject_recursive_types(K)]
#[verifier::reject_recursive_types(V)]
#[verifier::reject_recursive_types(S)]
pub struct ExDashMap<K, V, S>(dashmap::DashMap<K, V, S>);

/// A listening port of the agent: the port, the task that listens on it, and the relays that run
/// for connections accepted there, each with its task.
pub struct Proxy {
    pub port: u16,
    pub listener: u64,
    pub relays: Vec<(u32, u64)>,
}

/// What a map from ids to numbers holds.
pub uninterp spec fn slots(map: DashMap<u32, u64>) -> Map<u32, u64>;

/// What a map from ids to such maps holds.
pub uninterp spec fn groups(map: DashMap<u32, DashMap<u32, u64>>) -> Map<u32, Map<u32, u64>>;

/// What a map from ids to listening ports holds.
pub uninterp spec fn ports(map: DashMap<u32, Proxy>) -> Map<u32, Proxy>;

/// What a map without a key, or with it, gave for the key.
pub open spec fn lookup<V>(map: Map<u32, V>, key: u32) -> Option<V> {
    if map.contains_key(key) {
        Some(map[key])
    } else {
        None
    }
}

/// Whether the entries are those of the map, each once.
pub open spec fn lists_entries(entries: Seq<(u32, u64)>, map: Map<u32, u64>) -> bool {
    &&& forall|i: int, j: int|
        0 <= i < entries.len() && 0 <= j < entries.len() && i != j ==> entries[i].0 != entries[j].0
    &&& forall|i: int|
        0 <= i < entries.len() ==> #[trigger] lookup(map, entries[i].0) == Some(entries[i].1)
    &&& forall|key: u32| #[trigger]
        map.contains_key(key) ==> entries.contains((key, map[key]))
}

/// `DashMap::new`: an empty map.
#[verifier::external_body]
pub(crate) fn slots_new() -> (r: DashMap<u32, u64>)
    ensures
        (slots(r) == Map::<u32, u64>::empty()),
{
    DashMap::new()
}

/// `DashMap::insert`: the key gets the value; what it had before is returned.
#[verifier::external_body]
pub(crate) fn slots_insert(map: &mut DashMap<u32, u64>, key: u32, value: u64) -> (r: Option<u64>)
    ensures
        slots(*final(map)) == slots(*old(map)).insert(key, value),
        r == lookup(slots(*old(map)), key),
{
    map.insert(key, value)
}

/// `DashMap::remove`: the key is gone; what it had is returned, without the key.
#[verifier::external_body]
pub(crate) fn slots_remove(map: &mut DashMap<u32, u64>, key: u32) -> (r: Option<u64>)
    ensures
        slots(*final(map)) == slots(*old(map)).remove(key),
        r == lookup(slots(*old(map)), key),
{
    map.remove(&key).map(|entry| entry.1)
}

/// `DashMap::into_iter`: every entry of the map once, in an order that is not specified.
#[verifier::external_body]
pub(crate) fn slots_into_entries(map: DashMap<u32, u64>) -> (r: Vec<(u32, u64)>)
    ensures
        lists_entries(r@, slots(map)),
{
    map.into_iter().collect()
}

/// `DashMap::new`: an empty map.
#[verifier::external_body]
pub(crate) fn groups_new() -> (r: DashMap<u32, DashMap<u32, u64>>)
    ensures
        (groups(r) == Map::<u32, Map<u32, u64>>::empty()),
{
    DashMap::new()
}

/// `DashMap::insert`: the key gets the map given. What it had before is dropped.
#[verifier::external_body]
pub(crate) fn groups_insert(
    map: &mut DashMap<u32, DashMap<u32, u64>>,
    key: u32,
    value: DashMap<u32, u64>,
)
    ensures
        groups(*final(map)) == groups(*old(map)).insert(key, slots(value)),
{
    map.insert(key, value);
}

/// `DashMap::remove`: the key is gone; the map that it had is returned, without the key.
#[verifier::external_body]
pub(crate) fn groups_remove(map: &mut DashMap<u32, DashMap<u32, u64>>, key: u32) -> (r: Option<
    DashMap<u32, u64>,
>)
    ensures
        groups(*final(map)) == groups(*old(map)).remove(key),
        r is Some <==> groups(*old(map)).contains_key(key),
        r matches Some(group) ==> slots(group) == groups(*old(map))[key],
{
    map.remove(&key).map(|entry| entry.1)
}

/// `DashMap::new`: an empty map.
#[verifier::external_body]
pub(crate) fn ports_new() -> (r: DashMap<u32, Proxy>)
    ensures
        (ports(r) == Map::<u32, Proxy>::empty()),
{
    DashMap::new()
}

/// `DashMap::insert`: the key gets the value; what it had before is returned.
#[verifier::external_body]
pub(crate) fn ports_insert(map: &mut DashMap<u32, Proxy>, key: u32, value: Proxy) -> (r: Option<
    Proxy,
>)
    ensures
        ports(*final(map)) == ports(*old(map)).insert(key, value),
        r == lookup(ports(*old(map)), key),
{
    map.insert(key, value)
}

/// `DashMap::remove`: the key is gone; what it had is returned, without the key.
#[verifier::external_body]
pub(crate) fn ports_remove(map: &mut DashMap<u32, Proxy>, key: u32) -> (r: Option<Proxy>)
    ensures
        ports(*final(map)) == ports(*old(map)).remove(key),
        r == lookup(ports(*old(map)), key),
{
    map.remove(&key).map(|entry| entry.1)
}

/// A lookup gives what the map holds under the key, and nothing where it holds nothing.
pub proof fn law_lookup_gives_what_is_held<V>(map: Map<u32, V>, key: u32, value: V, other: u32)
    ensures
        lookup(map.insert(key, value), key) == Some(value),
        lookup(map.remove(key), key) is None,
        other != key ==> lookup(map.insert(key, value), other) == lookup(map, other),
        other != key ==> lookup(map.remove(key), other) == lookup(map, other),
        lookup(map, key) matches Some(held) ==> map.contains_key(key) && map[key] == held,
        map.contains_key(key) ==> lookup(map, key) is Some,
{
}

/// A list of entries is as long as the map is large, and holds each entry and no other pair.
pub proof fn law_list_holds_each_entry_once(
    entries: Seq<(u32, u64)>,
    map: Map<u32, u64>,
    i: int,
    key: u32,
)
    requires
        lists_entries(entries, map),
    ensures
        0 <= i < entries.len() ==> map.contains_key(entries[i].0) && map[entries[i].0]
            == entries[i].1,
        map.contains_key(key) ==> exists|j: int|
            0 <= j < entries.len() && entries[j] == (key, map[key]),
        map.dom().len() == entries.len(),
{
    let keys = entries.map_values(|entry: (u32, u64)| entry.0);
    assert(keys.no_duplicates());
    assert(keys.to_set() =~= map.dom()) by {
        assert forall|k: u32| #[trigger] map.contains_key(k) implies keys.contains(k) by {
            let j = choose|j: int| 0 <= j < entries.len() && entries[j] == (k, map[k]);
            assert(keys[j] == k);
        }
        assert forall|k: u32| keys.contains(k) implies #[trigger] map.contains_key(k) by {
            let j = choose|j: int| 0 <= j < keys.len() && keys[j] == k;
            assert(lookup(map, entries[j].0) is Some);
        }
    }
    keys.unique_seq_to_set();
    if 0 <= i < entries.len() {
        assert(lookup(map, entries[i].0) == Some(entries[i].1));
    }
}

} // verus!
