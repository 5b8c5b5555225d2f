//! The envelope that wraps a stored value: what was stored, when it was written
//! and under which format version.

use crate::trusted::clock::wall_clock;
use crate::trusted::msgpack::{pack, packed, unpack, unpacked};
use vstd::prelude::*;

verus! {

/// Format version that new envelopes are written with.
pub const SCHEMA_VERSION: u64 = 1;

/// A point of wall-clock time, counted from the Unix epoch.
#[derive(Clone, Copy, Debug, PartialEq, Eq, Structural)]
pub struct Timestamp {
    pub secs: u64,
    pub nanos: u32,
}

impl Timestamp {
    /// Whether the nanoseconds are the part of a second, as a clock gives
    /// them.
    pub open spec fn is_normal(self) -> bool {
        self.nanos < 1_000_000_000
    }

    /// The instant as a number of nanoseconds since the epoch.
    pub open spec fn as_nanos(self) -> int {
        self.secs as int * 1_000_000_000 + self.nanos as int
    }

    /// The instant `secs` seconds and `nanos` nanoseconds after the epoch.
    pub fn new(secs: u64, nanos: u32) -> (t: Timestamp)
        ensures
            t.secs == secs,
            t.nanos == nanos,
    {
        Timestamp { secs, nanos }
    }

    /// The instant `secs` whole seconds after the epoch.
    pub fn from_secs(secs: u64) -> (t: Timestamp)
        ensures
            t.as_nanos() == secs as int * 1_000_000_000,
            t.secs == secs,
            t.nanos == 0,
    {
        Timestamp { secs, nanos: 0 }
    }

    /// The same count of nanoseconds, computed.
    pub fn total_nanos(&self) -> (n: u128)
        ensures
            n as int == self.as_nanos(),
    {
        let secs: u128 = self.secs as u128;
        let nanos: u128 = self.nanos as u128;
        secs * 1_000_000_000u128 + nanos
    }
}

/// Time that has passed between `created_at` and `now`, in nanoseconds. A clock
/// that went backwards counts as no time at all.
pub open spec fn elapsed_nanos(created_at: Timestamp, now: Timestamp) -> int {
    if now.as_nanos() >= created_at.as_nanos() {
        now.as_nanos() - created_at.as_nanos()
    } else {
        0
    }
}

/// Whether something written at `created_at` has outlived `ttl` at `now`.
/// Without a time-to-live nothing expires; with one of `t` seconds an entry
/// expires once at least `t` seconds have passed.
pub open spec fn expired(created_at: Timestamp, ttl: Option<u64>, now: Timestamp) -> bool {
    match ttl {
        None => false,
        Some(t) => elapsed_nanos(created_at, now) >= t as int * 1_000_000_000,
    }
}

/// Decides whether something written at `created_at` has outlived `ttl` at
/// `now`.
pub fn is_expired(created_at: Timestamp, ttl: Option<u64>, now: Timestamp) -> (r: bool)
    ensures
        r == expired(created_at, ttl, now),
{
    match ttl {
        None => false,
        Some(t) => {
            let created: u128 = created_at.total_nanos();
            let current: u128 = now.total_nanos();
            let elapsed: u128 = if current >= created {
                current - created
            } else {
                0
            };
            let limit: u128 = (t as u128) * 1_000_000_000u128;
            elapsed >= limit
        },
    }
}

/// What an envelope holds, as mathematical values.
pub struct EnvelopeView {
    pub value: Seq<u8>,
    pub created_at: Timestamp,
    pub version: u64,
}

/// A stored value together with the time it was written and the format version.
#[derive(Debug)]
pub struct KashDiskValue {
    pub value: Vec<u8>,
    pub created_at: Timestamp,
    pub version: u64,
}

impl View for KashDiskValue {
    type V = EnvelopeView;

    open spec fn view(&self) -> EnvelopeView {
        EnvelopeView { value: self.value@, created_at: self.created_at, version: self.version }
    }
}

/// The envelope that a value written at `created_at` gets.
pub open spec fn fresh(value: Seq<u8>, created_at: Timestamp) -> EnvelopeView {
    EnvelopeView { value, created_at, version: SCHEMA_VERSION }
}

/// Why an envelope could not be written.
#[derive(Debug)]
pub enum EncodeError {
    /// The clock stood before the Unix epoch, so there is no time to record.
    ClockBeforeEpoch,
    /// The serializer refused.
    Pack(rmp_serde::encode::Error),
}

/// Why bytes could not be read as an envelope.
#[derive(Debug)]
pub struct DecodeError {
    pub cause: rmp_serde::decode::Error,
}

/// The envelope that `bytes` decode to, if they are a well-formed envelope.
pub open spec fn decoded(bytes: Seq<u8>) -> Option<EnvelopeView> {
    match unpacked(bytes) {
        Some(t) => Some(
            EnvelopeView {
                value: t.0,
                created_at: Timestamp { secs: t.1, nanos: t.2 },
                version: t.3,
            },
        ),
        None => None,
    }
}

/// The bytes that an envelope is written as.
pub open spec fn encoded(e: EnvelopeView) -> Seq<u8> {
    packed(e.value, e.created_at.secs, e.created_at.nanos, e.version)
}

/// The longest value whose length the format can record.
pub open spec fn fits(value: Seq<u8>) -> bool {
    value.len() <= u32::MAX
}

impl KashDiskValue {
    /// Wraps a value that is written at `created_at`.
    pub fn new(value: Vec<u8>, created_at: Timestamp) -> (e: KashDiskValue)
        ensures
            e@ == fresh(value@, created_at),
    {
        KashDiskValue { value, created_at, version: SCHEMA_VERSION }
    }

    /// Writes the envelope as bytes. Bytes that come back decode to this very
    /// envelope again.
    pub fn to_bytes(&self) -> (r: Result<Vec<u8>, EncodeError>)
        ensures
            match r {
                Ok(bytes) => bytes@ == encoded(self@) && (fits(self@.value) ==> decoded(bytes@)
                    == Some(self@)),
                Err(e) => e is Pack,
            },
    {
        match pack(&self.value, self.created_at.secs, self.created_at.nanos, self.version) {
            Ok(bytes) => Ok(bytes),
            Err(e) => Err(EncodeError::Pack(e)),
        }
    }

    /// Whether the envelope has outlived `ttl` at `now`.
    pub fn is_expired(&self, ttl: Option<u64>, now: Timestamp) -> (r: bool)
        ensures
            r == expired(self@.created_at, ttl, now),
    {
        is_expired(self.created_at, ttl, now)
    }
}

/// Wraps `value` as written at `now` and gives the envelope's bytes. Decoding
/// them gives back the value, the time and the current format version.
pub fn encode_entry(value: &Vec<u8>, now: Timestamp) -> (r: Result<Vec<u8>, EncodeError>)
    ensures
        match r {
            Ok(bytes) => bytes@ == encoded(fresh(value@, now)) && (fits(value@) ==> decoded(bytes@)
                == Some(fresh(value@, now))),
            Err(e) => e is Pack,
        },
{
    match pack(value, now.secs, now.nanos, SCHEMA_VERSION) {
        Ok(bytes) => Ok(bytes),
        Err(e) => Err(EncodeError::Pack(e)),
    }
}

/// Reads an envelope out of `bytes`. Bytes that are no envelope give an error.
pub fn decode_entry(bytes: &[u8]) -> (r: Result<KashDiskValue, DecodeError>)
    ensures
        match r {
            Ok(e) => decoded(bytes@) == Some(e@),
            Err(_) => decoded(bytes@) is None,
        },
{
    match unpack(bytes) {
        Ok(t) => {
            let (value, at, version) = t;
            Ok(KashDiskValue { value, created_at: Timestamp { secs: at.0, nanos: at.1 }, version })
        },
        Err(cause) => Err(DecodeError { cause }),
    }
}

impl Timestamp {
    /// The time on the wall clock, if it can be counted from the epoch: whole
    /// seconds, and the part of a second in nanoseconds. Which time it is,
    /// only the clock can say.
    pub fn now() -> (r: Option<Timestamp>)
        ensures
            r matches Some(t) ==> t.is_normal(),
    {
        wall_clock()
    }
}

} // verus!
