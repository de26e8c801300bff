//! Server-side timestamps as plain values.
//!
//! A row's creation time is assigned by the server at insert time. The store
//! and the wire format only ever see a UTC instant, so the instant is held
//! here as two integers; what only a calendar library can compute (reading
//! the clock, rendering RFC 3339 text) is reached through trusted items.

use vstd::prelude::*;

verus! {

/// Seconds since the Unix epoch of the earliest instant that chrono's
/// `DateTime<Utc>` can represent (start of January 1, 262143 BCE).
pub const TS_MIN_SECS: i64 = -8_334_601_228_800;

/// Seconds since the Unix epoch of the latest instant that chrono's
/// `DateTime<Utc>` can represent (end of December 31, 262142 CE).
pub const TS_MAX_SECS: i64 = 8_210_266_876_799;

pub const NANOS_PER_SEC: u32 = 1_000_000_000;

/// A UTC instant: non-leap seconds since the Unix epoch, and nanoseconds
/// since the last whole second.
#[derive(Clone, Copy, PartialEq, Eq, Structural, Debug)]
pub struct Timestamp {
    pub secs: i64,
    pub nanos: u32,
}

/// The mathematical content of a `Timestamp`.
pub ghost struct TsV {
    pub secs: int,
    pub nanos: int,
}

impl View for Timestamp {
    type V = TsV;

    open spec fn view(&self) -> TsV {
        TsV { secs: self.secs as int, nanos: self.nanos as int }
    }
}

/// A well-formed instant: within the range a calendar library can render,
/// with a proper sub-second part.
pub open spec fn ts_wf(t: TsV) -> bool {
    &&& TS_MIN_SECS as int <= t.secs <= TS_MAX_SECS as int
    &&& 0 <= t.nanos < NANOS_PER_SEC as int
}

/// The RFC 3339 rendering of the instant `(secs, nanos)` in UTC; it depends
/// on the two integers alone.
pub uninterp spec fn rfc3339_of(secs: int, nanos: int) -> Seq<char>;

impl Timestamp {
    /// Relies on chrono's `Utc::now`: it returns a valid `DateTime<Utc>` at
    /// or after the Unix epoch, built from a system duration whose
    /// sub-second part is below one second.
    #[verifier::external_body]
    pub(crate) fn now() -> (r: Timestamp)
        ensures
            ts_wf(r@),
            0 <= r@.secs,
    {
        let t = chrono::Utc::now();
        Timestamp { secs: t.timestamp(), nanos: t.timestamp_subsec_nanos() }
    }
}

/// Relies on chrono's `DateTime::from_timestamp` and `to_rfc3339_opts`:
/// within the documented range the conversion succeeds, and the text is a
/// function of the seconds and nanoseconds alone.
#[verifier::external_body]
pub(crate) fn fmt_rfc3339(secs: i64, nanos: u32) -> (r: String)
    requires
        ts_wf(TsV { secs: secs as int, nanos: nanos as int }),
    ensures
        r@ == rfc3339_of(secs as int, nanos as int),
{
    let dt = chrono::DateTime::from_timestamp(secs, nanos).unwrap();
    dt.to_rfc3339_opts(chrono::SecondsFormat::AutoSi, true)
}

} // verus!
