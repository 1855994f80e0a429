use vstd::prelude::*;
use crate::error::CacheError;
use crate::expiration::Expiration;

verus! {

/// What a key maps to in the model: the policy and the encoded payload.
pub type EntryModel = (Expiration, Seq<u8>);

/// One write made to a store.
pub enum WriteOp {
    /// An entry was written under `key`, replacing any earlier one.
    Put { key: Seq<char>, policy: Expiration, payload: Seq<u8> },
    /// Whatever was under `key` was invalidated.
    Invalidate { key: Seq<char> },
}

/// The effect of one write on a map of entries.
pub open spec fn apply_write(entries: Map<Seq<char>, EntryModel>, op: WriteOp) -> Map<
    Seq<char>,
    EntryModel,
> {
    match op {
        WriteOp::Put { key, policy, payload } => entries.insert(key, (policy, payload)),
        WriteOp::Invalidate { key } => entries.remove(key),
    }
}

/// The entries that a sequence of writes leaves behind: for each key the last
/// entry put under it, unless a later write invalidated it.
pub open spec fn replay(log: Seq<WriteOp>) -> Map<Seq<char>, EntryModel>
    decreases log.len(),
{
    if log.len() == 0 {
        Map::empty()
    } else {
        apply_write(replay(log.drop_last()), log.last())
    }
}

/// The write that puts `entry` under `key`.
pub open spec fn put_of(key: Seq<char>, entry: EntryModel) -> WriteOp {
    WriteOp::Put { key, policy: entry.0, payload: entry.1 }
}

/// The write that invalidates `key`.
pub open spec fn invalidate_of(key: Seq<char>) -> WriteOp {
    WriteOp::Invalidate { key }
}

/// The model of a ready store: the capacity bound it was built with, if any,
/// whether it was built with an eviction listener, and the writes made to it
/// so far.
///
/// The store expires and evicts on its own, so at any moment it holds a part
/// of `entries()`, never anything else.
pub struct StoreModel {
    pub capacity: Option<u64>,
    pub listening: bool,
    pub log: Seq<WriteOp>,
}

impl StoreModel {
    /// The entries written and not invalidated.
    pub open spec fn entries(self) -> Map<Seq<char>, EntryModel> {
        replay(self.log)
    }

    /// The model after one more write.
    pub open spec fn wrote(self, op: WriteOp) -> StoreModel {
        StoreModel { capacity: self.capacity, listening: self.listening, log: self.log.push(op) }
    }
}

/// The model of a cache handle: a state machine with the single transition
/// from `Uninitialized` to `Ready`.
pub enum HandleModel {
    Uninitialized,
    Ready(StoreModel),
}

impl HandleModel {
    /// Whether `setup` has succeeded.
    pub open spec fn is_ready(self) -> bool {
        self is Ready
    }

    /// The capacity bound of a ready handle.
    pub open spec fn capacity(self) -> Option<u64> {
        match self {
            HandleModel::Uninitialized => None,
            HandleModel::Ready(store) => store.capacity,
        }
    }

    /// Whether an eviction listener is bound: one was handed to the `setup`
    /// that made the handle ready.
    pub open spec fn listening(self) -> bool {
        match self {
            HandleModel::Uninitialized => false,
            HandleModel::Ready(store) => store.listening,
        }
    }

    /// The writes made through the handle, oldest first.
    pub open spec fn log(self) -> Seq<WriteOp> {
        match self {
            HandleModel::Uninitialized => Seq::empty(),
            HandleModel::Ready(store) => store.log,
        }
    }

    /// The entries written and not invalidated; none while uninitialized.
    pub open spec fn entries(self) -> Map<Seq<char>, EntryModel> {
        replay(self.log())
    }

    /// The entry written under `key`, if any.
    pub open spec fn lookup(self, key: Seq<char>) -> Option<EntryModel> {
        if self.entries().contains_key(key) {
            Some(self.entries()[key])
        } else {
            None
        }
    }

    /// The policy of the entry written under `key`, if any.
    pub open spec fn policy_of(self, key: Seq<char>) -> Option<Expiration> {
        match self.lookup(key) {
            Some(entry) => Some(entry.0),
            None => None,
        }
    }

    /// The state after a call of `setup` with capacity `max_cap`, and with
    /// a listener if `listening`: the first call makes the handle ready and
    /// empty, a later one changes nothing.
    pub open spec fn after_setup(self, max_cap: u64, listening: bool) -> HandleModel {
        match self {
            HandleModel::Uninitialized => HandleModel::Ready(
                StoreModel { capacity: Some(max_cap), listening, log: Seq::empty() },
            ),
            HandleModel::Ready(_) => self,
        }
    }

    /// What a call of `setup` returns in this state.
    pub open spec fn setup_outcome(self) -> Result<(), CacheError> {
        match self {
            HandleModel::Uninitialized => Ok(()),
            HandleModel::Ready(_) => Err(CacheError::AlreadyInitialized),
        }
    }

    /// What a write returns in this state.
    pub open spec fn write_outcome(self) -> Result<(), CacheError> {
        match self {
            HandleModel::Uninitialized => Err(CacheError::NotInitialized),
            HandleModel::Ready(_) => Ok(()),
        }
    }

    /// The state after one write; an uninitialized handle takes none.
    pub open spec fn wrote(self, op: WriteOp) -> HandleModel {
        match self {
            HandleModel::Uninitialized => self,
            HandleModel::Ready(store) => HandleModel::Ready(store.wrote(op)),
        }
    }

    /// The state after an entry is written under `key`.
    pub open spec fn put(self, key: Seq<char>, policy: Expiration, payload: Seq<u8>) -> HandleModel {
        self.wrote(put_of(key, (policy, payload)))
    }

    /// The state after `key` is invalidated.
    pub open spec fn drop_key(self, key: Seq<char>) -> HandleModel {
        self.wrote(invalidate_of(key))
    }

    /// The state after the entry `entry`, found under `key`, is refreshed: a
    /// policy that never expires leaves the handle alone, any other has the
    /// entry invalidated and put again unchanged.
    pub open spec fn refreshed(self, key: Seq<char>, entry: EntryModel) -> HandleModel {
        if entry.0 == Expiration::Never {
            self
        } else {
            self.drop_key(key).put(key, entry.0, entry.1)
        }
    }

    /// What `refresh` returns in this state when its lookup gave `found`.
    pub open spec fn refresh_outcome(self, found: Option<EntryModel>) -> Result<(), CacheError> {
        if !self.is_ready() {
            Err(CacheError::NotInitialized)
        } else if found is None {
            Err(CacheError::KeyNotFound)
        } else {
            Ok(())
        }
    }

    /// The state after `refresh` on `key` when its lookup gave `found`.
    pub open spec fn after_refresh(self, key: Seq<char>, found: Option<EntryModel>) -> HandleModel {
        match found {
            Some(entry) => self.refreshed(key, entry),
            None => self,
        }
    }
}

/// `replay` after one more write is `apply_write` on what was replayed before.
pub proof fn lemma_replay_push(log: Seq<WriteOp>, op: WriteOp)
    ensures
        replay(log.push(op)) == apply_write(replay(log), op),
{
    assert(log.push(op).drop_last() =~= log);
}

} // verus!
