//! Per-fingerprint attempt counters held in a sharded concurrent map from
//! the `dashmap` crate.  The map itself is outside code; this module
//! declares it, names its contents, and wraps the three operations the
//! counting filter needs.

use vstd::prelude::*;

verus! {

#[verifier::external_type_specification]
#[verifier::external_body]
#[verifier::reject_recursive_types(K)]
#[verifier::reject_recursive_types(V)]
#[verifier::reject_recursive_types(S)]
pub struct ExDashMap<K, V, S>(dashmap::DashMap<K, V, S>);

/// The sharded concurrent map the counting filter keeps its per-fingerprint
/// attempt counters in.
pub type CounterMap = dashmap::DashMap<u64, u64>;

/// The entries a counter map currently holds, as a mathematical map from
/// fingerprint to attempt count.
pub uninterp spec fn counts_of(m: CounterMap) -> Map<u64, u64>;

/// The contents of a counter map with no entry yet.
pub open spec fn empty_counts() -> Map<u64, u64> {
    Map::empty()
}

/// Relies on dashmap::DashMap::new: a freshly created map is empty.
#[verifier::external_body]
pub(crate) fn new_counter_map() -> (m: CounterMap)
    ensures
        counts_of(m) == empty_counts(),
{
    dashmap::DashMap::new()
}

/// Relies on dashmap::DashMap::get: returns the value stored under `key`,
/// or `None` when the key is absent.
#[verifier::external_body]
pub(crate) fn counter_get(m: &CounterMap, key: u64) -> (r: Option<u64>)
    ensures
        r == if counts_of(*m).dom().contains(key) {
            Some(counts_of(*m)[key])
        } else {
            None::<u64>
        },
{
    m.get(&key).map(|entry| *entry)
}

/// Relies on dashmap::DashMap::insert: stores `value` under `key`,
/// replacing any previous entry.
#[verifier::external_body]
pub(crate) fn counter_set(m: &mut CounterMap, key: u64, value: u64)
    ensures
        counts_of(*final(m)) == counts_of(*old(m)).insert(key, value),
{
    m.insert(key, value);
}

} // verus!
