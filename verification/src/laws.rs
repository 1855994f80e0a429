use vstd::prelude::*;
use crate::cache::hit_or_failure_of;
use crate::cache::miss_on_failure_of;
use crate::error::CacheError;
use crate::expiration::Expiration;
use crate::model::lemma_replay_push;
use crate::model::invalidate_of;
use crate::model::put_of;
use crate::model::EntryModel;
use crate::model::HandleModel;

verus! {

/// The units agree with each other: a minute is sixty seconds, an hour sixty
/// minutes, a second a thousand milliseconds, and only `Never` has no
/// lifetime.
pub proof fn law_units_agree(v: u64, policy: Expiration)
    ensures
        Expiration::Second(v).lifetime_nanos() == Some((v * 1000 * 1_000_000) as nat),
        Expiration::Minute(v).lifetime_nanos() == Some((v * 60 * 1_000_000_000) as nat),
        Expiration::Hour(v).lifetime_nanos() == Some((v * 60 * 60 * 1_000_000_000) as nat),
        Expiration::Millis(v).lifetime_nanos() == Some((v * 1_000_000) as nat),
        policy.lifetime_nanos() is None <==> policy == Expiration::Never,
{
}

/// Setup happens once: after a first `setup` the handle is ready with the
/// capacity and the listener of that call and no entries, a second `setup`
/// fails with `AlreadyInitialized`, and its capacity and listener change
/// nothing.
pub proof fn law_setup_once(
    start: HandleModel,
    first_cap: u64,
    first_listens: bool,
    second_cap: u64,
    second_listens: bool,
)
    requires
        !start.is_ready(),
    ensures
        start.setup_outcome() == Ok::<(), CacheError>(()),
        start.after_setup(first_cap, first_listens).is_ready(),
        start.after_setup(first_cap, first_listens).capacity() == Some(first_cap),
        start.after_setup(first_cap, first_listens).listening() == first_listens,
        start.after_setup(first_cap, first_listens).entries() == Map::<
            Seq<char>,
            EntryModel,
        >::empty(),
        start.after_setup(first_cap, first_listens).setup_outcome() == Err::<(), CacheError>(
            CacheError::AlreadyInitialized,
        ),
        start.after_setup(first_cap, first_listens).after_setup(second_cap, second_listens)
            == start.after_setup(first_cap, first_listens),
{
}

/// A ready handle stays ready: no write and no further `setup` takes it back.
pub proof fn law_ready_is_final(
    state: HandleModel,
    key: Seq<char>,
    entry: EntryModel,
    max_cap: u64,
    listens: bool,
)
    requires
        state.is_ready(),
    ensures
        state.after_setup(max_cap, listens).is_ready(),
        state.put(key, entry.0, entry.1).is_ready(),
        state.drop_key(key).is_ready(),
        state.refreshed(key, entry).is_ready(),
{
}

/// An uninitialized handle holds nothing and takes no write.
pub proof fn law_uninitialized_is_empty(
    state: HandleModel,
    key: Seq<char>,
    entry: EntryModel,
)
    requires
        !state.is_ready(),
    ensures
        state.lookup(key) is None,
        state.capacity() is None,
        !state.listening(),
        state.write_outcome() == Err::<(), CacheError>(CacheError::NotInitialized),
        state.put(key, entry.0, entry.1) == state,
        state.drop_key(key) == state,
        state.refreshed(key, entry) == state,
{
}

/// A write to a ready handle is found under its key, and changes what is
/// under no other key.
pub proof fn law_put_then_lookup(
    state: HandleModel,
    key: Seq<char>,
    entry: EntryModel,
    other: Seq<char>,
)
    requires
        state.is_ready(),
    ensures
        state.put(key, entry.0, entry.1).lookup(key) == Some(entry),
        other != key ==> state.put(key, entry.0, entry.1).lookup(other) == state.lookup(other),
        state.put(key, entry.0, entry.1).capacity() == state.capacity(),
        state.put(key, entry.0, entry.1).listening() == state.listening(),
{
    lemma_replay_push(state.log(), put_of(key, entry));
}

/// After a key is removed nothing is under it, and what is under any other
/// key stays.
pub proof fn law_remove_then_absent(state: HandleModel, key: Seq<char>, other: Seq<char>)
    ensures
        state.drop_key(key).lookup(key) is None,
        other != key ==> state.drop_key(key).lookup(other) == state.lookup(other),
        state.drop_key(key).capacity() == state.capacity(),
        state.drop_key(key).listening() == state.listening(),
{
    if state.is_ready() {
        lemma_replay_push(state.log(), invalidate_of(key));
    }
}

/// A refresh that finds nothing under the key fails with `KeyNotFound` and
/// changes nothing.
pub proof fn law_refresh_absent_fails(state: HandleModel, key: Seq<char>)
    requires
        state.is_ready(),
    ensures
        state.refresh_outcome(None) == Err::<(), CacheError>(CacheError::KeyNotFound),
        state.after_refresh(key, None) == state,
{
}

/// Refreshing the entry found under a key keeps every entry of the handle,
/// its policy and payload included, the capacity and the listener.
pub proof fn law_refresh_keeps_entries(state: HandleModel, key: Seq<char>, entry: EntryModel)
    requires
        state.lookup(key) == Some(entry),
    ensures
        state.refreshed(key, entry).entries() == state.entries(),
        state.refreshed(key, entry).capacity() == state.capacity(),
        state.refreshed(key, entry).listening() == state.listening(),
        state.refreshed(key, entry).is_ready() == state.is_ready(),
{
    if entry.0 != Expiration::Never && state.is_ready() {
        let dropped = state.drop_key(key);
        lemma_replay_push(state.log(), invalidate_of(key));
        lemma_replay_push(dropped.log(), put_of(key, entry));
        assert(state.entries().remove(key).insert(key, entry) =~= state.entries());
    }
}

/// A lookup whose payload does not decode is a miss, one whose payload does
/// decode is a hit with the policy found and the value decoded, and a miss
/// of the lookup stays a miss.
pub proof fn law_decode_failure_is_a_miss<V>(policy: Expiration, value: V, failure: CacheError)
    ensures
        miss_on_failure_of(hit_or_failure_of::<V>(policy, Err(failure))) is None,
        miss_on_failure_of(hit_or_failure_of(policy, Ok(value))) == Some((policy, value)),
        miss_on_failure_of::<V>(Ok(None)) is None,
{
}

/// Refreshing an entry that never expires is no write at all.
pub proof fn law_refresh_never_is_noop(state: HandleModel, key: Seq<char>, payload: Seq<u8>)
    ensures
        state.refreshed(key, (Expiration::Never, payload)) == state,
{
}

/// Refreshing an entry that does expire is exactly two writes: the key is
/// invalidated, then the same entry is put again.
pub proof fn law_refresh_is_remove_then_put(
    state: HandleModel,
    key: Seq<char>,
    entry: EntryModel,
)
    requires
        state.is_ready(),
        entry.0 != Expiration::Never,
    ensures
        state.refreshed(key, entry).log() == state.log().push(invalidate_of(key)).push(
            put_of(key, entry),
        ),
{
}

} // verus!
