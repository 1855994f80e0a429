use vstd::prelude::*;
use std::sync::Arc;
use bincode::Decode;
use bincode::Encode;
use moka::notification::RemovalCause;
use crate::codec::decode;
use crate::codec::encode;
use crate::error::CacheError;
use crate::expiration::Expiration;
use crate::laws::law_refresh_keeps_entries;
use crate::model::EntryModel;
use crate::model::HandleModel;
use crate::model::StoreModel;
use crate::store::entry_model;
use crate::store::store_build;
use crate::store::store_builder;
use crate::store::store_builder_listening;
use crate::store::store_capacity;
use crate::store::store_contains;
use crate::store::store_get;
use crate::store::store_insert;
use crate::store::store_invalidate;
use crate::store::store_listens;
use crate::store::store_log;
use crate::store::store_max_capacity;
use crate::store::store_run_pending_tasks;
use crate::store::CacheData;
use crate::store::Store;

verus! {

/// A handle to at most one configured store. It starts uninitialized, is made
/// ready by the first `setup`, and stays ready from then on.
pub struct CacheHandle {
    store: Option<Store>,
}

impl View for CacheHandle {
    type V = HandleModel;

    closed spec fn view(&self) -> HandleModel {
        match self.store {
            None => HandleModel::Uninitialized,
            Some(store) => HandleModel::Ready(
                StoreModel {
                    capacity: store_capacity(store),
                    listening: store_listens(store),
                    log: store_log(store),
                },
            ),
        }
    }
}

impl CacheHandle {
    /// An uninitialized handle.
    pub fn new() -> (handle: CacheHandle)
        ensures
            handle@ == HandleModel::Uninitialized,
    {
        CacheHandle { store: None }
    }

    /// Whether `setup` has succeeded on this handle.
    pub fn is_ready(&self) -> (r: bool)
        ensures
            r == self@.is_ready(),
    {
        self.store.is_some()
    }

    /// The capacity bound the handle was set up with; `None` while it is
    /// uninitialized.
    pub fn max_capacity(&self) -> (r: Option<u64>)
        ensures
            r == self@.capacity(),
    {
        match &self.store {
            Some(store) => store_max_capacity(store),
            None => None,
        }
    }
}

/// The model of what a lookup returned.
pub open spec fn found_model(found: Option<CacheData>) -> Option<EntryModel> {
    match found {
        Some(entry) => Some(entry_model(entry)),
        None => None,
    }
}

/// The policy of what a lookup returned.
pub open spec fn found_policy(found: Option<CacheData>) -> Option<Expiration> {
    match found {
        Some(entry) => Some(entry.0),
        None => None,
    }
}

/// What a lookup of a found entry comes to once its payload was decoded: the
/// policy beside the value, or the failure.
pub open spec fn hit_or_failure_of<V>(policy: Expiration, decoded: Result<V, CacheError>) -> Result<
    Option<(Expiration, V)>,
    CacheError,
> {
    match decoded {
        Ok(value) => Ok(Some((policy, value))),
        Err(e) => Err(e),
    }
}

/// What `get` makes of the outcome of `try_get`: a failure counts as a miss.
pub open spec fn miss_on_failure_of<V>(outcome: Result<Option<(Expiration, V)>, CacheError>) -> Option<
    (Expiration, V),
> {
    match outcome {
        Ok(hit) => hit,
        Err(_) => None,
    }
}

/// What `get_exp` returns for each result of the lookup: the policy of the
/// entry found, whatever its payload.
pub fn policy_of_found(found: Option<CacheData>) -> (r: Option<Expiration>)
    ensures
        r == found_policy(found),
{
    match found {
        Some(entry) => Some(entry.0),
        None => None,
    }
}

/// What `try_get` returns for an entry that was found: its policy beside the
/// decoded value, or the failure of the decoding.
pub fn hit_or_failure<V>(policy: Expiration, decoded: Result<V, CacheError>) -> (r: Result<
    Option<(Expiration, V)>,
    CacheError,
>)
    ensures
        r == hit_or_failure_of(policy, decoded),
{
    match decoded {
        Ok(value) => Ok(Some((policy, value))),
        Err(e) => Err(e),
    }
}

/// Folds the outcome of `try_get` into what `get` returns: a payload that
/// does not decode counts as a miss.
pub fn miss_on_failure<V>(outcome: Result<Option<(Expiration, V)>, CacheError>) -> (r: Option<
    (Expiration, V),
>)
    ensures
        r == miss_on_failure_of(outcome),
{
    match outcome {
        Ok(hit) => hit,
        Err(_) => None,
    }
}

/// Makes the handle ready: builds a store bounded by `max_cap` whose entries
/// expire by their own policy, with `callback`, if there is one, bound as
/// its eviction listener. Only the first call on a handle succeeds; a later one
/// fails with `AlreadyInitialized` and leaves the handle as it is, whatever
/// its arguments.
pub fn setup<F>(handle: &mut CacheHandle, callback: Option<F>, max_cap: u64) -> (r: Result<
    (),
    CacheError,
>) where F: Fn(Arc<String>, CacheData, RemovalCause) + Send + Sync + 'static
    ensures
        final(handle)@ == old(handle)@.after_setup(max_cap, callback is Some),
        r == old(handle)@.setup_outcome(),
        old(handle)@.is_ready() ==> *final(handle) == *old(handle),
{
    if handle.store.is_some() {
        return Err(CacheError::AlreadyInitialized);
    }
    let builder = store_builder();
    let builder = match callback {
        Some(listener) => store_builder_listening(builder, listener),
        None => builder,
    };
    handle.store = Some(store_build(builder, max_cap));
    Ok(())
}

/// Writes an already encoded payload under `key` with policy `exp`,
/// replacing any entry that was there. Fails with `NotInitialized`, and
/// writes nothing, on a handle that is not ready.
pub fn insert_encoded(handle: &mut CacheHandle, key: &str, payload: Vec<u8>, exp: Expiration) -> (r:
    Result<(), CacheError>)
    requires
        exp.representable(),
    ensures
        r == old(handle)@.write_outcome(),
        final(handle)@ == old(handle)@.put(key@, exp, payload@),
        r is Err ==> *final(handle) == *old(handle),
{
    match &mut handle.store {
        Some(store) => {
            store_insert(store, key, (exp, payload));
            Ok(())
        },
        None => Err(CacheError::NotInitialized),
    }
}

/// Encodes `value` and writes it under `key` with policy `exp`, replacing
/// any entry that was there. Fails with `NotInitialized` on a handle that is
/// not ready, and with `EncodeFailure` where the codec refuses the value; in
/// both cases nothing is written.
pub fn insert<V: Encode>(handle: &mut CacheHandle, key: &str, value: V, exp: Expiration) -> (r:
    Result<(), CacheError>)
    requires
        exp.representable(),
    ensures
        !old(handle)@.is_ready() ==> r == old(handle)@.write_outcome(),
        old(handle)@.is_ready() ==> (r is Ok || (r matches Err(e) && e is EncodeFailure)),
        r is Err ==> *final(handle) == *old(handle),
        r is Ok ==> exists|payload: Seq<u8>|
            final(handle)@ == old(handle)@.put(key@, exp, payload),
{
    if handle.store.is_none() {
        return Err(CacheError::NotInitialized);
    }
    match encode(&value) {
        Ok(payload) => insert_encoded(handle, key, payload, exp),
        Err(e) => Err(e),
    }
}

/// Looks `key` up and returns its policy and payload as they are stored.
/// What is returned was written under the key and not removed since; `None`
/// is returned where nothing was, where the handle is not ready, and where
/// the store has let the entry go.
pub fn get_entry(handle: &CacheHandle, key: &str) -> (found: Option<CacheData>)
    ensures
        found matches Some(entry) ==> handle@.lookup(key@) == Some(entry_model(entry)),
        handle@.lookup(key@) is None ==> found is None,
        !handle@.is_ready() ==> found is None,
{
    match &handle.store {
        Some(store) => store_get(store, key),
        None => None,
    }
}

/// Looks `key` up and decodes its payload as a `V`. `Ok(None)` is a miss, as
/// for `get_entry`; `DecodeFailure` says that an entry is there and its
/// payload is no `V`.
pub fn try_get<V: Decode<()>>(handle: &CacheHandle, key: &str) -> (r: Result<
    Option<(Expiration, V)>,
    CacheError,
>)
    ensures
        r matches Ok(Some(hit)) ==> handle@.policy_of(key@) == Some(hit.0),
        r matches Err(e) ==> e is DecodeFailure && handle@.lookup(key@) is Some,
        handle@.lookup(key@) is None ==> r matches Ok(None),
        !handle@.is_ready() ==> r matches Ok(None),
{
    match get_entry(handle, key) {
        None => Ok(None),
        Some(entry) => hit_or_failure(entry.0, decode::<V>(entry.1.as_slice())),
    }
}

/// Looks `key` up and decodes its payload as a `V`. A miss and a payload that
/// does not decode both give `None`.
pub fn get<V: Decode<()>>(handle: &CacheHandle, key: &str) -> (r: Option<(Expiration, V)>)
    ensures
        r matches Some(hit) ==> handle@.policy_of(key@) == Some(hit.0),
        handle@.lookup(key@) is None ==> r is None,
        !handle@.is_ready() ==> r is None,
{
    miss_on_failure(try_get(handle, key))
}

/// The policy stored under `key`, without touching the payload.
pub fn get_exp(handle: &CacheHandle, key: &str) -> (r: Option<Expiration>)
    ensures
        r matches Some(policy) ==> handle@.policy_of(key@) == Some(policy),
        handle@.lookup(key@) is None ==> r is None,
        !handle@.is_ready() ==> r is None,
{
    policy_of_found(get_entry(handle, key))
}

/// Invalidates `key`. Does nothing on a handle that is not ready.
pub fn remove(handle: &mut CacheHandle, key: &str)
    ensures
        final(handle)@ == old(handle)@.drop_key(key@),
        !old(handle)@.is_ready() ==> *final(handle) == *old(handle),
{
    match &mut handle.store {
        Some(store) => {
            store_invalidate(store, key);
        },
        None => {},
    }
}

/// Whether a live entry is under `key`. It is `true` only for a key that
/// was written and not removed since, and `false` on a handle that is not
/// ready.
pub fn contains_key(handle: &CacheHandle, key: &str) -> (r: bool)
    ensures
        r ==> handle@.lookup(key@) is Some,
        !handle@.is_ready() ==> !r,
{
    match &handle.store {
        Some(store) => store_contains(store, key),
        None => false,
    }
}

/// Has the store run its pending maintenance, which reaps the entries that
/// are due and tells the eviction listener of them. Does nothing on a handle
/// that is not ready. It writes nothing, so the model of the handle stays.
pub fn check_exp_interval(handle: &CacheHandle) {
    match &handle.store {
        Some(store) => store_run_pending_tasks(store),
        None => {},
    }
}

/// Carries a refresh of `key` out, given what the lookup of the key returned.
///
/// Fails with `NotInitialized` on a handle that is not ready and with
/// `KeyNotFound` where `found` is `None`; both leave the handle as it is. An
/// entry that never expires is left alone. Any other is invalidated and
/// inserted again unchanged, so that the store counts its lifetime from now.
pub fn refresh_entry(handle: &mut CacheHandle, key: &str, found: Option<CacheData>) -> (r: Result<
    (),
    CacheError,
>)
    ensures
        r == old(handle)@.refresh_outcome(found_model(found)),
        final(handle)@ == old(handle)@.after_refresh(key@, found_model(found)),
        r is Err ==> *final(handle) == *old(handle),
        found matches Some(entry) && entry.0 == Expiration::Never ==> *final(handle) == *old(
            handle,
        ),
{
    if handle.store.is_none() {
        return Err(CacheError::NotInitialized);
    }
    match found {
        None => Err(CacheError::KeyNotFound),
        Some(entry) => {
            if entry.0 == Expiration::Never {
                return Ok(());
            }
            match &mut handle.store {
                Some(store) => {
                    store_invalidate(store, key);
                    store_insert(store, key, entry);
                },
                None => {},
            }
            Ok(())
        },
    }
}

/// Gives the entry under `key` its full lifetime again, keeping its policy
/// and payload.
///
/// The key is looked up and `refresh_entry` does the rest with what was
/// found. So the call fails with `NotInitialized` on a handle that is not
/// ready, and with `KeyNotFound` where nothing is under the key or the store
/// has let the entry go. The handle is held exclusively, so no other write
/// comes between the steps.
pub fn refresh(handle: &mut CacheHandle, key: &str) -> (r: Result<(), CacheError>)
    ensures
        !old(handle)@.is_ready() ==> r == old(handle)@.write_outcome(),
        old(handle)@.is_ready() ==> r is Ok || r == old(handle)@.refresh_outcome(None),
        old(handle)@.lookup(key@) is None ==> r is Err,
        r is Err ==> *final(handle) == *old(handle),
        r is Ok ==> final(handle)@ == old(handle)@.after_refresh(
            key@,
            old(handle)@.lookup(key@),
        ),
        old(handle)@.policy_of(key@) == Some(Expiration::Never) ==> *final(handle) == *old(handle),
        final(handle)@.entries() == old(handle)@.entries(),
        final(handle)@.capacity() == old(handle)@.capacity(),
        final(handle)@.listening() == old(handle)@.listening(),
{
    if handle.store.is_none() {
        return Err(CacheError::NotInitialized);
    }
    let found = get_entry(handle, key);
    proof {
        if found is Some {
            law_refresh_keeps_entries(handle@, key@, entry_model(found.unwrap()));
        }
    }
    refresh_entry(handle, key, found)
}

} // verus!
