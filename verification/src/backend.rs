use vstd::prelude::*;

use crate::errors::GenError;
use crate::options::{opt_str_view, CacheOptions};

verus! {

/// The concrete storage strategy selected for a memoized function.
#[derive(Debug, Clone, Copy, PartialEq, Eq, Structural)]
pub enum StorageKind {
    /// The default: an unbounded map with overwrite-insert and no eviction.
    UnboundedMap,
    /// A capacity-bounded cache that updates recency on insert and lookup
    /// and evicts the least-recently-used entry on overflow.
    BoundedLRU,
    /// An unbounded map over a user-supplied hasher type; overwrite-insert,
    /// no eviction.
    CustomHasherMap,
}

/// Which execution contexts see the storage.
#[derive(Debug, Clone, Copy, PartialEq, Eq, Structural)]
pub enum ConcurrencyKind {
    /// The default: storage private to each execution context; acquisition
    /// never blocks and no cache benefit crosses contexts.
    PerContextIsolated,
    /// One process-wide storage instance, lazily created and guarded by a
    /// mutual-exclusion lock that is never held across the original
    /// computation.
    SharedLocked,
}

/// The storage backend selected from a resolved configuration: the strategy,
/// its parameters, and the names of its access operations.
#[derive(Debug)]
pub struct BackendDescriptor {
    pub kind: StorageKind,
    /// The bound of a `BoundedLRU` backend; `None` otherwise.
    pub capacity: Option<usize>,
    /// The hasher type of a `CustomHasherMap` backend; `None` otherwise.
    pub hasher: Option<String>,
    /// The hasher's constructor expression, when one was configured;
    /// a `CustomHasherMap` without one is initialized by its type's `new`.
    pub hasher_init: Option<String>,
    /// The time-to-live duration expression. When present, the stored value
    /// type is wrapped with a creation timestamp and lookups filter out
    /// entries whose age reaches the duration.
    pub ttl: Option<String>,
    /// Name of the insert operation on the storage type.
    pub insert_op: String,
    /// Name of the lookup operation on the storage type.
    pub lookup_op: String,
}

/// Whether a resolved configuration asks for both a capacity bound and a
/// custom hasher — the one rejected combination.
pub open spec fn backend_conflict(o: CacheOptions) -> bool {
    o.lru_max_entries is Some && o.custom_hasher is Some
}

/// The storage strategy a conflict-free configuration selects.
pub open spec fn storage_kind_of(o: CacheOptions) -> StorageKind {
    if o.lru_max_entries is Some {
        StorageKind::BoundedLRU
    } else if o.custom_hasher is Some {
        StorageKind::CustomHasherMap
    } else {
        StorageKind::UnboundedMap
    }
}

/// The concurrency mode a configuration selects.
pub open spec fn concurrency_kind_of(o: CacheOptions) -> ConcurrencyKind {
    if o.shared_cache {
        ConcurrencyKind::SharedLocked
    } else {
        ConcurrencyKind::PerContextIsolated
    }
}

/// Maps a resolved configuration to its concrete storage backend.
///
/// Capacity alone selects the bounded LRU cache; a custom hasher alone
/// selects a map over that hasher; neither selects the unbounded default
/// map. Capacity together with a custom hasher is rejected with
/// [`GenError::ConfigurationConflict`], so that combination never produces
/// a runnable artifact.
pub fn construct_cache(options: &CacheOptions) -> (r: Result<BackendDescriptor, GenError>)
    ensures
        r is Err <==> backend_conflict(*options),
        r is Err ==> r->Err_0 == GenError::ConfigurationConflict,
        r is Ok ==> {
            let b = r->Ok_0;
            &&& b.kind == storage_kind_of(*options)
            &&& b.capacity == options.lru_max_entries
            &&& opt_str_view(b.hasher) == opt_str_view(options.custom_hasher)
            &&& opt_str_view(b.hasher_init) == (if options.custom_hasher is Some {
                opt_str_view(options.custom_hasher_initializer)
            } else {
                Option::<Seq<char>>::None
            })
            &&& opt_str_view(b.ttl) == opt_str_view(options.time_to_live)
            &&& b.insert_op@ == (if options.lru_max_entries is Some {
                "put"@
            } else {
                "insert"@
            })
            &&& b.lookup_op@ == "get"@
        },
{
    if options.lru_max_entries.is_some() && options.custom_hasher.is_some() {
        return Err(GenError::ConfigurationConflict);
    }
    let kind = if options.lru_max_entries.is_some() {
        StorageKind::BoundedLRU
    } else if options.custom_hasher.is_some() {
        StorageKind::CustomHasherMap
    } else {
        StorageKind::UnboundedMap
    };
    let hasher_init = match (&options.custom_hasher, &options.custom_hasher_initializer) {
        (Some(_), Some(init)) => Some(init.clone()),
        _ => None,
    };
    let (insert_op, lookup_op) = cache_access_methods(options);
    Ok(BackendDescriptor {
        kind,
        capacity: options.lru_max_entries,
        hasher: match &options.custom_hasher {
            Some(h) => Some(h.clone()),
            None => None,
        },
        hasher_init,
        ttl: match &options.time_to_live {
            Some(t) => Some(t.clone()),
            None => None,
        },
        insert_op,
        lookup_op,
    })
}

/// The names of the storage operations that insert and look up entries: the
/// bounded LRU cache inserts with `put`, everything else with `insert`, and
/// all backends look up with `get`.
pub fn cache_access_methods(options: &CacheOptions) -> (r: (String, String))
    ensures
        r.0@ == (if options.lru_max_entries is Some {
            "put"@
        } else {
            "insert"@
        }),
        r.1@ == "get"@,
{
    if options.lru_max_entries.is_some() {
        (String::from_str("put"), String::from_str("get"))
    } else {
        (String::from_str("insert"), String::from_str("get"))
    }
}

} // verus!
