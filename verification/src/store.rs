use vstd::prelude::*;
use std::sync::Arc;
use moka::notification::RemovalCause;
use moka::sync::Cache;
use moka::sync::CacheBuilder;
use crate::expiration::CacheExpiry;
use crate::expiration::Expiration;
use crate::model::invalidate_of;
use crate::model::put_of;
use crate::model::replay;
use crate::model::EntryModel;
use crate::model::WriteOp;

verus! {

/// What the store keeps under a key: the policy and the encoded payload.
pub type CacheData = (Expiration, Vec<u8>);

/// The store: a `moka` cache from keys to `CacheData`.
pub type Store = Cache<String, CacheData>;

/// `moka::sync::Cache`, opaque to the verifier.
#[verifier::external_type_specification]
#[verifier::external_body]
#[verifier::reject_recursive_types(K)]
#[verifier::reject_recursive_types(V)]
#[verifier::reject_recursive_types(S)]
pub struct ExCache<K, V, S>(Cache<K, V, S>);

/// The builder of a store.
pub type StoreBuilder = CacheBuilder<String, CacheData, Store>;

/// `moka::sync::CacheBuilder`, opaque to the verifier.
#[verifier::external_type_specification]
#[verifier::external_body]
#[verifier::reject_recursive_types(K)]
#[verifier::reject_recursive_types(V)]
#[verifier::reject_recursive_types(C)]
pub struct ExCacheBuilder<K, V, C>(CacheBuilder<K, V, C>);

/// `moka::notification::RemovalCause`, the reason an eviction listener is
/// given. The library passes it through and never reads it.
#[verifier::external_type_specification]
#[verifier::external_body]
pub struct ExRemovalCause(RemovalCause);

/// The writes made to a store since it was built, oldest first: one `Put` for
/// each `insert`, one `Invalidate` for each `invalidate`.
///
/// This is a record of what the library did, not of what the store still
/// holds: the store drops entries on its own, when they expire or when it is
/// over capacity. The library never clones a store, and writes to it only
/// through `&mut`, so nothing else writes to it.
pub uninterp spec fn store_log(store: Store) -> Seq<WriteOp>;

/// The capacity bound a store was built with, if it has one.
pub uninterp spec fn store_capacity(store: Store) -> Option<u64>;

/// Whether a store was built with an eviction listener, which it then calls
/// for each entry that leaves it.
pub uninterp spec fn store_listens(store: Store) -> bool;

/// Whether an eviction listener was handed to a builder.
pub uninterp spec fn builder_listens(builder: StoreBuilder) -> bool;

/// The model of an entry.
pub open spec fn entry_model(entry: CacheData) -> EntryModel {
    (entry.0, entry.1@)
}

/// `Cache::builder` and `CacheBuilder::expire_after`: a builder of stores
/// whose entries expire by the library's hook. A new builder has no eviction
/// listener.
#[verifier::external_body]
pub(crate) fn store_builder() -> (builder: StoreBuilder)
    ensures
        !builder_listens(builder),
{
    Cache::builder().expire_after(CacheExpiry)
}

/// `CacheBuilder::eviction_listener`: the builder, with `listener` as the
/// function that its store will call for each entry that leaves it.
#[verifier::external_body]
pub(crate) fn store_builder_listening<F>(builder: StoreBuilder, listener: F) -> (r:
    StoreBuilder) where F: Fn(Arc<String>, CacheData, RemovalCause) + Send + Sync + 'static
    ensures
        builder_listens(r),
{
    builder.eviction_listener(listener)
}

/// `CacheBuilder::max_capacity` and `build`: a new store bounded by
/// `max_cap`, to which nothing was written yet, and which has the listener
/// of the builder if the builder has one. `build` panics only on a time to
/// live or a time to idle above a thousand years; the library sets neither.
#[verifier::external_body]
pub(crate) fn store_build(builder: StoreBuilder, max_cap: u64) -> (store: Store)
    ensures
        store_log(store) == Seq::<WriteOp>::empty(),
        store_capacity(store) == Some(max_cap),
        store_listens(store) == builder_listens(builder),
{
    builder.max_capacity(max_cap).build()
}

/// `Policy::max_capacity` of `Cache::policy`: the bound the store was built
/// with.
#[verifier::external_body]
pub(crate) fn store_max_capacity(store: &Store) -> (bound: Option<u64>)
    ensures
        bound == store_capacity(*store),
{
    store.policy().max_capacity()
}

/// `Cache::get`: a clone of the live value under `key`. The store returns a
/// value only if it is the last one inserted under the key and the key was
/// not invalidated since; it may return `None` for such a key, where the
/// entry has expired or was evicted.
#[verifier::external_body]
pub(crate) fn store_get(store: &Store, key: &str) -> (found: Option<CacheData>)
    ensures
        found matches Some(entry) ==> replay(store_log(*store)).contains_key(key@),
        found matches Some(entry) ==> replay(store_log(*store))[key@] == entry_model(entry),
{
    store.get(key)
}

/// `Cache::contains_key`: whether a live value is under `key`. As for
/// `store_get`, `true` is returned only for a key written and not invalidated
/// since.
#[verifier::external_body]
pub(crate) fn store_contains(store: &Store, key: &str) -> (present: bool)
    ensures
        present ==> replay(store_log(*store)).contains_key(key@),
{
    store.contains_key(key)
}

/// `Cache::insert`: puts `entry` under `key`, replacing what was there. The
/// bound of the store and its listener stay.
#[verifier::external_body]
pub(crate) fn store_insert(store: &mut Store, key: &str, entry: CacheData)
    ensures
        store_log(*final(store)) == store_log(*old(store)).push(put_of(key@, entry_model(entry))),
        store_capacity(*final(store)) == store_capacity(*old(store)),
        store_listens(*final(store)) == store_listens(*old(store)),
{
    store.insert(key.to_string(), entry)
}

/// `Cache::invalidate`: discards what is under `key`, if anything. The bound
/// of the store and its listener stay.
#[verifier::external_body]
pub(crate) fn store_invalidate(store: &mut Store, key: &str)
    ensures
        store_log(*final(store)) == store_log(*old(store)).push(invalidate_of(key@)),
        store_capacity(*final(store)) == store_capacity(*old(store)),
        store_listens(*final(store)) == store_listens(*old(store)),
{
    store.invalidate(key)
}

/// `Cache::run_pending_tasks`: has the store do its pending maintenance, which
/// reaps what has expired. It writes nothing.
#[verifier::external_body]
pub(crate) fn store_run_pending_tasks(store: &Store) {
    store.run_pending_tasks()
}

} // verus!
