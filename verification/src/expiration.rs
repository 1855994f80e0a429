use vstd::prelude::*;
use std::time::Duration;
use std::time::Instant;

verus! {

/// Seconds in a minute.
pub const SECS_PER_MINUTE: u64 = 60;

/// Seconds in an hour.
pub const SECS_PER_HOUR: u64 = 3600;

/// Nanoseconds in a millisecond.
pub const NANOS_PER_MILLI: u64 = 1_000_000;

/// Nanoseconds in a second.
pub const NANOS_PER_SEC: u64 = 1_000_000_000;

/// The rule that gives an entry its time to live: never, or a fixed length in
/// one of four units.
#[derive(Clone, Copy, Debug, PartialEq, Eq, Structural)]
pub enum Expiration {
    Never,
    Millis(u64),
    Second(u64),
    Minute(u64),
    Hour(u64),
}

/// The length of a `Duration` in whole nanoseconds.
///
/// `Duration` is opaque to the verifier; this is the one thing said of it, by
/// the two declarations below.
pub uninterp spec fn duration_nanos(d: Duration) -> nat;

/// `Duration::from_millis`: by its documentation the result lasts the given
/// number of milliseconds, a million nanoseconds each.
pub assume_specification[ Duration::from_millis ](millis: u64) -> (d: Duration)
    ensures
        duration_nanos(d) == millis * 1_000_000,
;

/// `Duration::from_secs`: by its documentation the result lasts the given
/// number of whole seconds, a thousand million nanoseconds each.
pub assume_specification[ Duration::from_secs ](secs: u64) -> (d: Duration)
    ensures
        duration_nanos(d) == secs * 1_000_000_000,
;

/// `std::time::Instant`, which the store hands to the expiry hook. Nothing is
/// said of it.
#[verifier::external_type_specification]
#[verifier::external_body]
pub struct ExInstant(Instant);

impl Expiration {
    /// The time to live in nanoseconds: the magnitude times the length of the
    /// unit. `None` for `Never`.
    pub open spec fn lifetime_nanos(self) -> Option<nat> {
        match self {
            Expiration::Never => None,
            Expiration::Millis(v) => Some((v * NANOS_PER_MILLI) as nat),
            Expiration::Second(v) => Some((v * NANOS_PER_SEC) as nat),
            Expiration::Minute(v) => Some((v * SECS_PER_MINUTE * NANOS_PER_SEC) as nat),
            Expiration::Hour(v) => Some((v * SECS_PER_HOUR * NANOS_PER_SEC) as nat),
        }
    }

    /// Whether the time to live, in whole seconds, fits in 64 bits. Only
    /// minutes and hours can fail this.
    pub open spec fn representable(self) -> bool {
        match self {
            Expiration::Minute(v) => v * SECS_PER_MINUTE <= u64::MAX,
            Expiration::Hour(v) => v * SECS_PER_HOUR <= u64::MAX,
            _ => true,
        }
    }

    /// Tests `representable`.
    pub fn is_representable(&self) -> (r: bool)
        ensures
            r == self.representable(),
    {
        match self {
            Expiration::Minute(v) => *v <= u64::MAX / SECS_PER_MINUTE,
            Expiration::Hour(v) => *v <= u64::MAX / SECS_PER_HOUR,
            _ => true,
        }
    }

    /// Resolves the policy to a duration: `None` for `Never`, else exactly
    /// the magnitude times the unit.
    pub fn as_duration(&self) -> (r: Option<Duration>)
        requires
            self.representable(),
        ensures
            r is None <==> *self == Expiration::Never,
            r matches Some(d) ==> self.lifetime_nanos() == Some(duration_nanos(d)),
    {
        match self {
            Expiration::Never => None,
            Expiration::Millis(v) => Some(Duration::from_millis(*v)),
            Expiration::Second(v) => Some(Duration::from_secs(*v)),
            Expiration::Minute(v) => Some(Duration::from_secs(*v * SECS_PER_MINUTE)),
            Expiration::Hour(v) => Some(Duration::from_secs(*v * SECS_PER_HOUR)),
        }
    }
}

/// The expiry hook of the store: an entry lives as long as its own policy
/// says, counted from its creation.
pub struct CacheExpiry;

impl moka::Expiry<String, (Expiration, Vec<u8>)> for CacheExpiry {
    /// Called by the store when an entry is created. A policy whose length
    /// is not representable is read as no expiry. `insert` and
    /// `insert_encoded` admit none such; `refresh_entry` writes back the
    /// policy it is given.
    fn expire_after_create(
        &self,
        key: &String,
        value: &(Expiration, Vec<u8>),
        created_at: Instant,
    ) -> (r: Option<Duration>)
        ensures
            r matches Some(d) ==> value.0.lifetime_nanos() == Some(duration_nanos(d)),
            value.0.representable() ==> (r is None <==> value.0 == Expiration::Never),
    {
        if value.0.is_representable() {
            value.0.as_duration()
        } else {
            None
        }
    }
}

} // verus!
