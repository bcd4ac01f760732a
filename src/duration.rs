//! The well-known duration record and its conversions to and from a
//! machine duration: whole seconds and the nanoseconds past them.

use vstd::prelude::*;

verus! {

/// Nanoseconds in one second.
pub const NANOS_PER_SEC: u32 = 1_000_000_000;

/// The extra data that a message carries beside its fields; it has no
/// behaviour here.
#[derive(Clone, Copy, Debug, PartialEq, Eq, Structural)]
pub struct SpecialFields {}

impl SpecialFields {
    /// The empty attachment.
    pub fn new() -> (r: SpecialFields)
        ensures
            r == (SpecialFields {}),
    {
        SpecialFields {}
    }
}

/// A span of time as the wire format writes it: signed whole seconds and
/// signed nanoseconds, neither range enforced by the type.
#[derive(Clone, Copy, Debug, PartialEq, Eq, Structural)]
pub struct Duration {
    pub seconds: i64,
    pub nanos: i32,
    pub special_fields: SpecialFields,
}

/// Why a record has no machine duration.
#[derive(Clone, Copy, Debug, PartialEq, Eq, Structural)]
pub enum DurationError {
    /// The seconds or the nanoseconds are negative.
    NegativeDuration,
}

/// The record for a machine duration of `secs` whole seconds and `nanos`
/// nanoseconds past them, where the seconds fit the record.
pub open spec fn record_of(secs: u64, nanos: u32) -> Option<Duration> {
    if secs <= i64::MAX {
        Some(Duration { seconds: secs as i64, nanos: nanos as i32, special_fields: SpecialFields {} })
    } else {
        None
    }
}

/// The machine duration of a record, as whole seconds and the nanoseconds
/// past them: the seconds plus the nanoseconds, when neither is negative.
pub open spec fn parts_of(d: Duration) -> Result<(u64, u32), DurationError> {
    if d.seconds < 0 || d.nanos < 0 {
        Err(DurationError::NegativeDuration)
    } else {
        Ok(
            (
                (d.seconds as int + d.nanos as int / NANOS_PER_SEC as int) as u64,
                (d.nanos as int % NANOS_PER_SEC as int) as u32,
            ),
        )
    }
}

/// The whole seconds of a machine duration.
pub uninterp spec fn std_secs(d: core::time::Duration) -> u64;

/// The nanoseconds of a machine duration past its whole seconds.
pub uninterp spec fn std_subsec_nanos(d: core::time::Duration) -> u32;

/// Relies on `std::time::Duration::as_secs`: the whole seconds.
pub assume_specification[ core::time::Duration::as_secs ](d: &core::time::Duration) -> (r: u64)
    ensures
        r == std_secs(*d),
;

/// Relies on `std::time::Duration::subsec_nanos`: the nanoseconds past the
/// whole seconds, which its documentation puts below one billion.
pub assume_specification[ core::time::Duration::subsec_nanos ](d: &core::time::Duration) -> (r: u32)
    ensures
        r == std_subsec_nanos(*d),
        r < NANOS_PER_SEC,
;

/// Relies on `std::time::Duration::new`: nanoseconds of a billion or more
/// carry into the seconds, and it panics only when that carry takes the
/// seconds past `u64::MAX`.
pub assume_specification[ core::time::Duration::new ](secs: u64, nanos: u32) -> (r: core::time::Duration)
    requires
        secs + nanos / NANOS_PER_SEC <= u64::MAX,
    ensures
        std_secs(r) == secs + nanos / NANOS_PER_SEC,
        std_subsec_nanos(r) == nanos % NANOS_PER_SEC,
;

impl Duration {
    /// Zero seconds, zero nanoseconds.
    pub fn zero() -> (r: Duration)
        ensures
            r == (Duration { seconds: 0, nanos: 0, special_fields: SpecialFields {} }),
    {
        Duration { seconds: 0, nanos: 0, special_fields: SpecialFields::new() }
    }

    /// The record of a machine duration of `secs` whole seconds and `nanos`
    /// nanoseconds past them; `None` when the seconds do not fit the record.
    pub fn from_secs_nanos(secs: u64, nanos: u32) -> (r: Option<Duration>)
        requires
            nanos < NANOS_PER_SEC,
        ensures
            r == record_of(secs, nanos),
    {
        if secs <= i64::MAX as u64 {
            Some(Duration { seconds: secs as i64, nanos: nanos as i32, special_fields: SpecialFields::new() })
        } else {
            None
        }
    }

    /// The machine duration of the record, as whole seconds and the
    /// nanoseconds past them; fails when either field is negative.
    pub fn to_secs_nanos(&self) -> (r: Result<(u64, u32), DurationError>)
        ensures
            r == parts_of(*self),
            r is Err <==> self.seconds < 0 || self.nanos < 0,
            r matches Ok((s, n)) ==> n < NANOS_PER_SEC && s * NANOS_PER_SEC + n == self.seconds
                * NANOS_PER_SEC + self.nanos,
    {
        if self.seconds < 0 || self.nanos < 0 {
            return Err(DurationError::NegativeDuration);
        }
        let secs = self.seconds as u64 + (self.nanos as u32 / NANOS_PER_SEC) as u64;
        let nanos = self.nanos as u32 % NANOS_PER_SEC;
        Ok((secs, nanos))
    }

    /// The record of a machine duration; `None` when its whole seconds do
    /// not fit the record.
    pub fn from_std(d: core::time::Duration) -> (r: Option<Duration>)
        ensures
            r == record_of(std_secs(d), std_subsec_nanos(d)),
            std_subsec_nanos(d) < NANOS_PER_SEC,
            r matches Some(v) ==> 0 <= v.seconds && 0 <= v.nanos < NANOS_PER_SEC,
    {
        Duration::from_secs_nanos(d.as_secs(), d.subsec_nanos())
    }

    /// The machine duration of the record; fails when either field is
    /// negative.
    pub fn to_std(&self) -> (r: Result<core::time::Duration, DurationError>)
        ensures
            r is Err <==> self.seconds < 0 || self.nanos < 0,
            r matches Ok(m) ==> parts_of(*self) == Ok::<(u64, u32), DurationError>(
                (std_secs(m), std_subsec_nanos(m)),
            ),
    {
        match self.to_secs_nanos() {
            Ok((secs, nanos)) => Ok(core::time::Duration::new(secs, nanos)),
            Err(e) => Err(e),
        }
    }
}

/// A machine duration whose whole seconds fit the record comes back
/// unchanged from its record.
pub proof fn lemma_round_trip(secs: u64, nanos: u32)
    requires
        secs <= i64::MAX,
        nanos < NANOS_PER_SEC,
    ensures
        record_of(secs, nanos) is Some,
        parts_of(record_of(secs, nanos).unwrap()) == Ok::<(u64, u32), DurationError>((secs, nanos)),
{
}

impl Default for Duration {
    fn default() -> (r: Duration)
        ensures
            r == (Duration { seconds: 0, nanos: 0, special_fields: SpecialFields {} }),
    {
        Duration::zero()
    }
}

impl Default for SpecialFields {
    fn default() -> (r: SpecialFields)
        ensures
            r == (SpecialFields {}),
    {
        SpecialFields::new()
    }
}

} // verus!
