//! The job registry: a concurrent map from job identifier to the handle of
//! the job's status cell. Inserts come from the admission path, lookups from
//! observers, removals from the eviction timers — the storage is a
//! lock-sharded concurrent hash map, used here through contracts over its
//! abstract contents.
//!
//! Eviction timing itself is decided by [`spec_eviction_due`]: an entry may
//! go only once the grace period after completion has passed, or at once
//! under shutdown.

use vstd::prelude::*;

verus! {

/// Declares scc's lock-sharded concurrent hash map for use in signatures
/// and fields; its contents are reasoned about only through
/// [`scc_map_contents`] and the wrappers below.
#[verifier::external_type_specification]
#[verifier::external_body]
#[verifier::reject_recursive_types(K)]
#[verifier::reject_recursive_types(V)]
#[verifier::reject_recursive_types(H)]
pub struct ExSccHashMap<K, V, H: std::hash::BuildHasher>(scc::HashMap<K, V, H>);

/// The concrete storage: job identifiers to cell handles, hashed with the
/// standard state.
pub type CellMap = scc::HashMap<u128, u64, std::hash::RandomState>;

/// What the concurrent map holds, as a mathematical map from job identifier
/// to cell handle.
pub uninterp spec fn scc_map_contents(m: CellMap) -> Map<u128, u64>;

/// The contents of a map that holds nothing.
pub open spec fn no_cells() -> Map<u128, u64> {
    Map::empty()
}

/// Relies on scc::HashMap::with_capacity: a freshly built map is empty.
#[verifier::external_body]
fn scc_map_new(capacity: usize) -> (r: CellMap)
    ensures
        scc_map_contents(r) == no_cells(),
{
    scc::HashMap::with_capacity(capacity)
}

/// Relies on scc::HashMap::upsert_sync: inserts the pair or replaces the
/// value under an existing key, returning the replaced value.
#[verifier::external_body]
fn scc_map_upsert(m: &mut CellMap, key: u128, val: u64) -> (r: Option<u64>)
    ensures
        scc_map_contents(*final(m)) == scc_map_contents(*old(m)).insert(key, val),
        r == if scc_map_contents(*old(m)).dom().contains(key) {
            Some(scc_map_contents(*old(m))[key])
        } else {
            None::<u64>
        },
{
    m.upsert_sync(key, val)
}

/// Relies on scc::HashMap::read_sync: hands the reader closure the entry
/// under the key, if any; the closure here only copies the value out.
#[verifier::external_body]
fn scc_map_get(m: &CellMap, key: u128) -> (r: Option<u64>)
    ensures
        r == if scc_map_contents(*m).dom().contains(key) {
            Some(scc_map_contents(*m)[key])
        } else {
            None::<u64>
        },
{
    m.read_sync(&key, |_, v| *v)
}

/// Relies on scc::HashMap::remove_sync: takes the entry under the key out,
/// returning it.
#[verifier::external_body]
fn scc_map_remove(m: &mut CellMap, key: u128) -> (r: Option<u64>)
    ensures
        scc_map_contents(*final(m)) == scc_map_contents(*old(m)).remove(key),
        r == if scc_map_contents(*old(m)).dom().contains(key) {
            Some(scc_map_contents(*old(m))[key])
        } else {
            None::<u64>
        },
{
    m.remove_sync(&key).map(|kv| kv.1)
}

/// The registry: job id to status-cell handle. Entries appear at admission
/// and disappear only through [`JobRegistry::remove`].
pub struct JobRegistry {
    map: CellMap,
}

impl JobRegistry {
    /// The registry's abstract contents.
    pub closed spec fn view(&self) -> Map<u128, u64> {
        scc_map_contents(self.map)
    }

    /// A fresh, empty registry, sized for the expected number of jobs.
    pub fn new(capacity: usize) -> (r: JobRegistry)
        ensures
            r.view() == no_cells(),
    {
        JobRegistry { map: scc_map_new(capacity) }
    }

    /// Binds `id` to the cell handle, replacing any earlier binding.
    pub fn upsert(&mut self, id: u128, cell: u64)
        ensures
            final(self).view() == old(self).view().insert(id, cell),
    {
        let _ = scc_map_upsert(&mut self.map, id, cell);
    }

    /// The cell handle under `id`: an observer either finds the entry or
    /// learns that no such job is known — admitted long ago and evicted,
    /// or never admitted at all.
    pub fn get(&self, id: u128) -> (r: Option<u64>)
        ensures
            r == if self.view().dom().contains(id) {
                Some(self.view()[id])
            } else {
                None::<u64>
            },
    {
        scc_map_get(&self.map, id)
    }

    /// Whether `id` is currently known.
    pub fn contains(&self, id: u128) -> (r: bool)
        ensures
            r == self.view().dom().contains(id),
    {
        scc_map_get(&self.map, id).is_some()
    }

    /// Removes the entry under `id`, the only way an entry ever disappears.
    /// After this returns, a lookup of `id` reports absence.
    pub fn remove(&mut self, id: u128) -> (r: Option<u64>)
        ensures
            final(self).view() == old(self).view().remove(id),
            r == if old(self).view().dom().contains(id) {
                Some(old(self).view()[id])
            } else {
                None::<u64>
            },
    {
        scc_map_remove(&mut self.map, id)
    }
}

/// When a completed job's entry may be reclaimed: strictly after the grace
/// period has elapsed since completion, or at once when the worker subtree
/// has been told to shut down. Until then the entry stays retrievable.
pub open spec fn spec_eviction_due(
    now_ms: u64,
    done_at_ms: u64,
    grace_ms: u64,
    shutdown: bool,
) -> bool {
    shutdown || now_ms > done_at_ms + grace_ms
}

/// Decides [`spec_eviction_due`]: the race between "grace period elapsed"
/// and "shutdown signalled", first resolution wins.
pub fn eviction_due(now_ms: u64, done_at_ms: u64, grace_ms: u64, shutdown: bool) -> (r: bool)
    ensures
        r == spec_eviction_due(now_ms, done_at_ms, grace_ms, shutdown),
{
    shutdown || (now_ms as u128) > (done_at_ms as u128) + (grace_ms as u128)
}

} // verus!
