//! What a store of envelopes holds and how reads, writes and removals change
//! it, as mathematical functions: first on the bytes in the slots, then on the
//! envelopes that those bytes stand for.

use crate::envelope::{decoded, expired, fresh, EnvelopeView, Timestamp};
use vstd::prelude::*;

verus! {

/// The bytes under `key`, if the key is present.
pub open spec fn lookup(slots: Map<Seq<u8>, Seq<u8>>, key: Seq<u8>) -> Option<Seq<u8>> {
    if slots.contains_key(key) {
        Some(slots[key])
    } else {
        None
    }
}

/// The slots with `key` set to `slot`, or cleared where `slot` is nothing.
pub open spec fn put(slots: Map<Seq<u8>, Seq<u8>>, key: Seq<u8>, slot: Option<Seq<u8>>) -> Map<
    Seq<u8>,
    Seq<u8>,
> {
    match slot {
        Some(bytes) => slots.insert(key, bytes),
        None => slots.remove(key),
    }
}

/// The bytes of a value that may be absent.
pub open spec fn bytes_of(v: Option<Vec<u8>>) -> Option<Seq<u8>> {
    match v {
        Some(b) => Some(b@),
        None => None,
    }
}

/// The bytes of a slice that may be absent.
pub open spec fn slice_of(v: Option<&[u8]>) -> Option<Seq<u8>> {
    match v {
        Some(b) => Some(b@),
        None => None,
    }
}

/// What a read leaves in a slot. Without a time-to-live the slot stays as it
/// is. With one, bytes that are no envelope and envelopes that have expired are
/// cleared.
pub open spec fn kept_on_read(slot: Option<Seq<u8>>, ttl: Option<u64>, now: Timestamp) -> Option<
    Seq<u8>,
> {
    match slot {
        None => None,
        Some(bytes) => if ttl is None {
            Some(bytes)
        } else {
            match decoded(bytes) {
                None => None,
                Some(e) => if expired(e.created_at, ttl, now) {
                    None
                } else {
                    Some(bytes)
                },
            }
        },
    }
}

/// The value that a slot stands for at `now`: nothing where the slot is empty,
/// holds no envelope, or holds one that has expired.
pub open spec fn live_value(slot: Option<Seq<u8>>, ttl: Option<u64>, now: Timestamp) -> Option<
    Seq<u8>,
> {
    match slot {
        None => None,
        Some(bytes) => match decoded(bytes) {
            None => None,
            Some(e) => if expired(e.created_at, ttl, now) {
                None
            } else {
                Some(e.value)
            },
        },
    }
}

/// Whether a sweep at `now` evicts these bytes: they hold an envelope and it
/// has expired.
pub open spec fn doomed(bytes: Seq<u8>, ttl: Option<u64>, now: Timestamp) -> bool {
    match decoded(bytes) {
        None => false,
        Some(e) => expired(e.created_at, ttl, now),
    }
}

/// The slots that a sweep at `now` leaves.
pub open spec fn swept(slots: Map<Seq<u8>, Seq<u8>>, ttl: Option<u64>, now: Timestamp) -> Map<
    Seq<u8>,
    Seq<u8>,
> {
    Map::new(|k: Seq<u8>| slots.contains_key(k) && !doomed(slots[k], ttl, now), |k: Seq<u8>| slots[k])
}

/// The envelopes that the slots hold: each key whose bytes are an envelope,
/// with that envelope.
pub open spec fn held(slots: Map<Seq<u8>, Seq<u8>>) -> Map<Seq<u8>, EnvelopeView> {
    Map::new(
        |k: Seq<u8>| slots.contains_key(k) && decoded(slots[k]) is Some,
        |k: Seq<u8>| decoded(slots[k]).unwrap(),
    )
}

/// The value that the envelopes give for `key` at `now`: that of the key's
/// envelope, unless there is none or it has expired.
pub open spec fn found(
    entries: Map<Seq<u8>, EnvelopeView>,
    key: Seq<u8>,
    ttl: Option<u64>,
    now: Timestamp,
) -> Option<Seq<u8>> {
    if entries.contains_key(key) && !expired(entries[key].created_at, ttl, now) {
        Some(entries[key].value)
    } else {
        None
    }
}

/// The envelopes after a read of `key` at `now`: an expired envelope under the
/// key is gone.
pub open spec fn after_get(
    entries: Map<Seq<u8>, EnvelopeView>,
    key: Seq<u8>,
    ttl: Option<u64>,
    now: Timestamp,
) -> Map<Seq<u8>, EnvelopeView> {
    if entries.contains_key(key) && expired(entries[key].created_at, ttl, now) {
        entries.remove(key)
    } else {
        entries
    }
}

/// The envelopes after `value` was written under `key` at `now`.
pub open spec fn after_set(
    entries: Map<Seq<u8>, EnvelopeView>,
    key: Seq<u8>,
    value: Seq<u8>,
    now: Timestamp,
) -> Map<Seq<u8>, EnvelopeView> {
    entries.insert(key, fresh(value, now))
}

/// The envelopes after `key` was removed.
pub open spec fn after_remove(entries: Map<Seq<u8>, EnvelopeView>, key: Seq<u8>) -> Map<
    Seq<u8>,
    EnvelopeView,
> {
    entries.remove(key)
}

/// The envelopes after a sweep at `now`: those that have not expired.
pub open spec fn after_sweep(
    entries: Map<Seq<u8>, EnvelopeView>,
    ttl: Option<u64>,
    now: Timestamp,
) -> Map<Seq<u8>, EnvelopeView> {
    Map::new(
        |k: Seq<u8>| entries.contains_key(k) && !expired(entries[k].created_at, ttl, now),
        |k: Seq<u8>| entries[k],
    )
}

/// What a slot stands for is what its envelope gives.
pub proof fn lemma_live_is_found(
    slots: Map<Seq<u8>, Seq<u8>>,
    key: Seq<u8>,
    ttl: Option<u64>,
    now: Timestamp,
)
    ensures
        live_value(lookup(slots, key), ttl, now) == found(held(slots), key, ttl, now),
{
}

/// A read changes the envelopes as `after_get` says.
pub proof fn lemma_read_keeps(
    slots: Map<Seq<u8>, Seq<u8>>,
    key: Seq<u8>,
    ttl: Option<u64>,
    now: Timestamp,
)
    ensures
        held(put(slots, key, kept_on_read(lookup(slots, key), ttl, now))) == after_get(
            held(slots),
            key,
            ttl,
            now,
        ),
{
    assert(held(put(slots, key, kept_on_read(lookup(slots, key), ttl, now))) =~= after_get(
        held(slots),
        key,
        ttl,
        now,
    ));
}

/// Removing a slot removes its envelope.
pub proof fn lemma_remove_held(slots: Map<Seq<u8>, Seq<u8>>, key: Seq<u8>)
    ensures
        held(slots.remove(key)) == after_remove(held(slots), key),
{
    assert(held(slots.remove(key)) =~= after_remove(held(slots), key));
}

/// Writing bytes that decode to an envelope puts that envelope under the key.
pub proof fn lemma_insert_held(
    slots: Map<Seq<u8>, Seq<u8>>,
    key: Seq<u8>,
    bytes: Seq<u8>,
    e: EnvelopeView,
)
    requires
        decoded(bytes) == Some(e),
    ensures
        held(slots.insert(key, bytes)) == held(slots).insert(key, e),
{
    assert(held(slots.insert(key, bytes)) =~= held(slots).insert(key, e));
}

/// Sweeping the slots sweeps the envelopes.
pub proof fn lemma_swept_held(slots: Map<Seq<u8>, Seq<u8>>, ttl: Option<u64>, now: Timestamp)
    ensures
        held(swept(slots, ttl, now)) == after_sweep(held(slots), ttl, now),
{
    assert(held(swept(slots, ttl, now)) =~= after_sweep(held(slots), ttl, now));
}

/// With a time-to-live of `ttl` seconds, a value written at `written` is found
/// at every time before `ttl` seconds have passed in full. A time-to-live of
/// zero is left out: under it a value is never found, whatever the clock says.
pub proof fn lemma_found_before_expiry(
    entries: Map<Seq<u8>, EnvelopeView>,
    key: Seq<u8>,
    value: Seq<u8>,
    ttl: u64,
    written: Timestamp,
    now: Timestamp,
)
    requires
        ttl > 0,
        now.as_nanos() < written.as_nanos() + ttl * 1_000_000_000,
    ensures
        found(after_set(entries, key, value, written), key, Some(ttl), now) == Some(value),
{
}

/// With a time-to-live of `ttl` seconds, a value written at `written` is found
/// at no time from `ttl` seconds after the writing on.
pub proof fn lemma_absent_from_expiry(
    entries: Map<Seq<u8>, EnvelopeView>,
    key: Seq<u8>,
    value: Seq<u8>,
    ttl: u64,
    written: Timestamp,
    now: Timestamp,
)
    requires
        now.as_nanos() >= written.as_nanos() + ttl * 1_000_000_000,
    ensures
        found(after_set(entries, key, value, written), key, Some(ttl), now) is None,
{
}

/// Without a time-to-live a value that was written is found at any time.
pub proof fn lemma_no_ttl_never_expires(
    entries: Map<Seq<u8>, EnvelopeView>,
    key: Seq<u8>,
    value: Seq<u8>,
    written: Timestamp,
    now: Timestamp,
)
    ensures
        found(after_set(entries, key, value, written), key, None, now) == Some(value),
{
}

/// A second write under a key returns the value of the first, as long as the
/// first has not expired by then, and leaves its own value under the key.
pub proof fn lemma_set_returns_previous(
    entries: Map<Seq<u8>, EnvelopeView>,
    key: Seq<u8>,
    first: Seq<u8>,
    second: Seq<u8>,
    ttl: Option<u64>,
    t1: Timestamp,
    t2: Timestamp,
)
    requires
        !expired(t1, ttl, t2),
    ensures
        found(after_set(entries, key, first, t1), key, ttl, t2) == Some(first),
        after_set(after_set(entries, key, first, t1), key, second, t2)[key] == fresh(second, t2),
{
}

/// A removal after a write returns the value that was written, as long as it
/// has not expired by then.
pub proof fn lemma_remove_returns_value(
    entries: Map<Seq<u8>, EnvelopeView>,
    key: Seq<u8>,
    value: Seq<u8>,
    ttl: Option<u64>,
    t1: Timestamp,
    t2: Timestamp,
)
    requires
        !expired(t1, ttl, t2),
    ensures
        found(after_set(entries, key, value, t1), key, ttl, t2) == Some(value),
{
}

/// After a removal nothing is found under the key, at any time and under any
/// time-to-live.
pub proof fn lemma_nothing_after_remove(
    entries: Map<Seq<u8>, EnvelopeView>,
    key: Seq<u8>,
    ttl: Option<u64>,
    now: Timestamp,
)
    ensures
        found(after_remove(entries, key), key, ttl, now) is None,
{
}

/// Removing a key that is absent finds nothing and changes nothing, so a
/// second removal does what the first did.
pub proof fn lemma_remove_absent(
    entries: Map<Seq<u8>, EnvelopeView>,
    key: Seq<u8>,
    ttl: Option<u64>,
    now: Timestamp,
)
    requires
        !entries.contains_key(key),
    ensures
        found(entries, key, ttl, now) is None,
        after_remove(entries, key) == entries,
        after_remove(after_remove(entries, key), key) == after_remove(entries, key),
{
    assert(after_remove(entries, key) =~= entries);
}

/// Reading, writing or removing one key changes nothing that is found under
/// another.
pub proof fn lemma_other_keys_untouched(
    entries: Map<Seq<u8>, EnvelopeView>,
    key: Seq<u8>,
    other: Seq<u8>,
    value: Seq<u8>,
    ttl: Option<u64>,
    at: Timestamp,
    now: Timestamp,
)
    requires
        key != other,
    ensures
        found(after_get(entries, key, ttl, at), other, ttl, now) == found(entries, other, ttl, now),
        found(after_set(entries, key, value, at), other, ttl, now) == found(
            entries,
            other,
            ttl,
            now,
        ),
        found(after_remove(entries, key), other, ttl, now) == found(entries, other, ttl, now),
{
}

/// A sweep leaves exactly what a read would still find.
pub proof fn lemma_sweep_keeps_live(
    entries: Map<Seq<u8>, EnvelopeView>,
    key: Seq<u8>,
    ttl: Option<u64>,
    now: Timestamp,
)
    ensures
        after_sweep(entries, ttl, now).contains_key(key) <==> found(entries, key, ttl, now)
            is Some,
        found(after_sweep(entries, ttl, now), key, ttl, now) == found(entries, key, ttl, now),
{
}

} // verus!
