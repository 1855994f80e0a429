use vstd::prelude::*;

verus! {

/// Why an operation on a cache handle did not succeed.
#[derive(Clone, Debug, PartialEq, Eq)]
pub enum CacheError {
    /// The handle was used for a write or a refresh before `setup` succeeded.
    NotInitialized,
    /// `setup` was called on a handle that is already ready.
    AlreadyInitialized,
    /// The codec could not encode a value; the text is the codec's own.
    EncodeFailure(String),
    /// A payload is present but does not decode as the requested type; the
    /// text is the codec's own.
    DecodeFailure(String),
    /// `refresh` found no live entry under the key.
    KeyNotFound,
}

} // verus!
