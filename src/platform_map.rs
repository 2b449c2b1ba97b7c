//! The `bevy_platform` hash maps that the index and the texture table keep,
//! keyed by integer ids, with what their methods do stated over map views.
use vstd::prelude::*;

verus! {

#[verifier::external_type_specification]
#[verifier::external_body]
#[verifier::reject_recursive_types(K)]
#[verifier::reject_recursive_types(V)]
#[verifier::reject_recursive_types(S)]
pub struct ExPlatformHashMap<K, V, S>(bevy_platform::collections::HashMap<K, V, S>);

#[verifier::external_type_specification]
#[verifier::external_body]
#[verifier::reject_recursive_types(T)]
#[verifier::reject_recursive_types(S)]
pub struct ExPlatformHashSet<T, S>(bevy_platform::collections::HashSet<T, S>);

#[verifier::external_type_specification]
#[verifier::external_body]
pub struct ExFixedHasher(bevy_platform::hash::FixedHasher);

/// The entries held by a map from ids to ids.
pub uninterp spec fn id_map_entries(m: bevy_platform::collections::HashMap<u64, u64>) -> Map<u64, u64>;

/// The entries held by a map from ids to sets of ids.
pub uninterp spec fn id_set_map_entries(
    m: bevy_platform::collections::HashMap<u64, bevy_platform::collections::HashSet<u64>>,
) -> Map<u64, Set<u64>>;

/// Relies on `bevy_platform::collections::HashMap::new`: a new map holds no entry.
#[verifier::external_body]
fn id_map_new() -> (r: bevy_platform::collections::HashMap<u64, u64>)
    ensures
        id_map_entries(r) =~= Map::empty(),
{
    bevy_platform::collections::HashMap::new()
}

/// Relies on `bevy_platform::collections::HashMap::insert`: the key now maps to
/// the value, and the value it had before is returned.
#[verifier::external_body]
fn id_map_insert(m: &mut bevy_platform::collections::HashMap<u64, u64>, k: u64, v: u64) -> (r:
    Option<u64>)
    ensures
        id_map_entries(*final(m)) == id_map_entries(*old(m)).insert(k, v),
        r == (if id_map_entries(*old(m)).contains_key(k) {
            Some(id_map_entries(*old(m))[k])
        } else {
            None
        }),
{
    m.insert(k, v)
}

/// Relies on `bevy_platform::collections::HashMap::remove`: the key leaves the
/// map, and the value it had is returned.
#[verifier::external_body]
fn id_map_remove(m: &mut bevy_platform::collections::HashMap<u64, u64>, k: u64) -> (r: Option<
    u64,
>)
    ensures
        id_map_entries(*final(m)) == id_map_entries(*old(m)).remove(k),
        r == (if id_map_entries(*old(m)).contains_key(k) {
            Some(id_map_entries(*old(m))[k])
        } else {
            None
        }),
{
    m.remove(&k)
}

/// Relies on `bevy_platform::collections::HashMap::get`: the value of the key, if any.
#[verifier::external_body]
fn id_map_get(m: &bevy_platform::collections::HashMap<u64, u64>, k: u64) -> (r: Option<u64>)
    ensures
        r == (if id_map_entries(*m).contains_key(k) {
            Some(id_map_entries(*m)[k])
        } else {
            None
        }),
{
    m.get(&k).copied()
}

/// Relies on `bevy_platform::collections::HashMap::new`: a new map holds no entry.
#[verifier::external_body]
fn id_set_map_new() -> (r: bevy_platform::collections::HashMap<
    u64,
    bevy_platform::collections::HashSet<u64>,
>)
    ensures
        id_set_map_entries(r) =~= Map::empty(),
{
    bevy_platform::collections::HashMap::new()
}

/// The set of a key after `v` was added to it.
pub open spec fn set_with(m: Map<u64, Set<u64>>, k: u64, v: u64) -> Set<u64> {
    if m.contains_key(k) {
        m[k].insert(v)
    } else {
        set![v]
    }
}

/// Relies on `HashMap::entry`, `Entry::or_default` and `HashSet::insert` of
/// `bevy_platform`: the set of the key, made empty where there was none, gains
/// the value.
#[verifier::external_body]
fn id_set_map_add(
    m: &mut bevy_platform::collections::HashMap<u64, bevy_platform::collections::HashSet<u64>>,
    k: u64,
    v: u64,
)
    ensures
        id_set_map_entries(*final(m)) == id_set_map_entries(*old(m)).insert(
            k,
            set_with(id_set_map_entries(*old(m)), k, v),
        ),
{
    m.entry(k).or_default().insert(v);
}

/// Relies on `HashMap::get_mut` and `HashSet::remove` of `bevy_platform`: where
/// the key has a set, the value leaves it and `true` is returned; where it has
/// none, nothing changes and `false` is returned.
#[verifier::external_body]
fn id_set_map_remove(
    m: &mut bevy_platform::collections::HashMap<u64, bevy_platform::collections::HashSet<u64>>,
    k: u64,
    v: u64,
) -> (r: bool)
    ensures
        r == id_set_map_entries(*old(m)).contains_key(k),
        id_set_map_entries(*final(m)) == (if r {
            id_set_map_entries(*old(m)).insert(k, id_set_map_entries(*old(m))[k].remove(v))
        } else {
            id_set_map_entries(*old(m))
        }),
{
    let Some(set) = m.get_mut(&k) else {
        return false;
    };
    set.remove(&v);
    true
}

/// Relies on `HashMap::get` and `HashSet::iter` of `bevy_platform`: the members
/// of the key's set, each once, in the set's own order.
#[verifier::external_body]
fn id_set_map_members(
    m: &bevy_platform::collections::HashMap<u64, bevy_platform::collections::HashSet<u64>>,
    k: u64,
) -> (r: Vec<u64>)
    ensures
        r@.no_duplicates(),
        r@.to_set() == (if id_set_map_entries(*m).contains_key(k) {
            id_set_map_entries(*m)[k]
        } else {
            Set::empty()
        }),
{
    match m.get(&k) {
        Some(set) => set.iter().copied().collect(),
        None => Vec::new(),
    }
}

/// A map from ids to ids.
pub struct IdMap {
    inner: bevy_platform::collections::HashMap<u64, u64>,
}

impl View for IdMap {
    type V = Map<u64, u64>;

    closed spec fn view(&self) -> Map<u64, u64> {
        id_map_entries(self.inner)
    }
}

impl IdMap {
    /// An empty map.
    pub fn new() -> (r: IdMap)
        ensures
            r@ =~= Map::<u64, u64>::empty(),
    {
        IdMap { inner: id_map_new() }
    }

    /// Maps `k` to `v`, and returns what `k` mapped to before.
    pub fn insert(&mut self, k: u64, v: u64) -> (r: Option<u64>)
        ensures
            final(self)@ == old(self)@.insert(k, v),
            r == (if old(self)@.contains_key(k) {
                Some(old(self)@[k])
            } else {
                None
            }),
    {
        id_map_insert(&mut self.inner, k, v)
    }

    /// Removes `k`, and returns what it mapped to.
    pub fn remove(&mut self, k: u64) -> (r: Option<u64>)
        ensures
            final(self)@ == old(self)@.remove(k),
            r == (if old(self)@.contains_key(k) {
                Some(old(self)@[k])
            } else {
                None
            }),
    {
        id_map_remove(&mut self.inner, k)
    }

    /// What `k` maps to.
    pub fn get(&self, k: u64) -> (r: Option<u64>)
        ensures
            r == (if self@.contains_key(k) {
                Some(self@[k])
            } else {
                None
            }),
    {
        id_map_get(&self.inner, k)
    }
}

/// A map from ids to sets of ids.
pub struct IdSetMap {
    inner: bevy_platform::collections::HashMap<u64, bevy_platform::collections::HashSet<u64>>,
}

impl View for IdSetMap {
    type V = Map<u64, Set<u64>>;

    closed spec fn view(&self) -> Map<u64, Set<u64>> {
        id_set_map_entries(self.inner)
    }
}

impl IdSetMap {
    /// An empty map.
    pub fn new() -> (r: IdSetMap)
        ensures
            r@ =~= Map::<u64, Set<u64>>::empty(),
    {
        IdSetMap { inner: id_set_map_new() }
    }

    /// Adds `v` to the set of `k`, which is created where there was none.
    pub fn add(&mut self, k: u64, v: u64)
        ensures
            final(self)@ == old(self)@.insert(k, set_with(old(self)@, k, v)),
    {
        id_set_map_add(&mut self.inner, k, v)
    }

    /// Removes `v` from the set of `k`; returns whether `k` had a set.
    pub fn remove(&mut self, k: u64, v: u64) -> (r: bool)
        ensures
            r == old(self)@.contains_key(k),
            final(self)@ == (if r {
                old(self)@.insert(k, old(self)@[k].remove(v))
            } else {
                old(self)@
            }),
    {
        id_set_map_remove(&mut self.inner, k, v)
    }

    /// The members of the set of `k`, each once.
    pub fn members(&self, k: u64) -> (r: Vec<u64>)
        ensures
            r@.no_duplicates(),
            r@.to_set() == (if self@.contains_key(k) {
                self@[k]
            } else {
                Set::empty()
            }),
    {
        id_set_map_members(&self.inner, k)
    }
}

} // verus!
