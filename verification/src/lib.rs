//! A capacity-bounded key-value cache in which every entry carries its own
//! expiration policy.
//!
//! Values are kept as encoded byte payloads beside their policy, so one store
//! holds values of any encodable type. The store itself is a `moka` cache and
//! the codec is `bincode`; both are reached through a small set of trusted
//! declarations in [`store`] and [`codec`]. Everything else is verified: the
//! policy arithmetic in [`expiration`], the abstract model of a handle in
//! [`model`], the operations in [`cache`] and the laws in [`laws`].
//!
//! A [`CacheHandle`] starts uninitialized and is made ready once, by
//! [`setup`]. Reads share the handle; writes take it exclusively, so a
//! [`refresh`] cannot interleave with another write to the same handle.

pub mod cache;
pub mod codec;
pub mod error;
pub mod expiration;
pub mod laws;
pub mod model;
pub mod store;

pub use cache::check_exp_interval;
pub use cache::contains_key;
pub use cache::get;
pub use cache::get_entry;
pub use cache::get_exp;
pub use cache::hit_or_failure;
pub use cache::insert;
pub use cache::insert_encoded;
pub use cache::miss_on_failure;
pub use cache::policy_of_found;
pub use cache::refresh;
pub use cache::refresh_entry;
pub use cache::remove;
pub use cache::setup;
pub use cache::try_get;
pub use cache::CacheHandle;
pub use codec::decode;
pub use codec::decoded_or_failure;
pub use codec::encode;
pub use codec::encoded_or_failure;
pub use error::CacheError;
pub use expiration::CacheExpiry;
pub use expiration::Expiration;
pub use moka::notification::RemovalCause;
pub use store::CacheData;
