//! What is taken on trust of `rmp_serde`: how an envelope's fields are written as
//! MessagePack and read back.

use vstd::prelude::*;

verus! {

/// `rmp_serde::encode::Error`, why the serializer refused. Nothing is read of it.
#[verifier::external_type_specification]
#[verifier::external_body]
pub struct ExEncodeError(rmp_serde::encode::Error);

/// `rmp_serde::decode::Error`, why bytes were refused. Nothing is read of it.
#[verifier::external_type_specification]
#[verifier::external_body]
pub struct ExDecodeError(rmp_serde::decode::Error);

/// The bytes that `rmp_serde::to_vec` gives for the triple of a value, the pair
/// of seconds and nanoseconds, and a version.
pub uninterp spec fn packed(value: Seq<u8>, secs: u64, nanos: u32, version: u64) -> Seq<u8>;

/// What `rmp_serde::from_slice` reads out of `bytes` as such a triple, if it
/// reads one.
pub uninterp spec fn unpacked(bytes: Seq<u8>) -> Option<(Seq<u8>, u64, u32, u64)>;

/// `rmp_serde::to_vec` on the triple `(value, (secs, nanos), version)`. The bytes
/// that come back are a function of the triple, and, as long as the value's
/// length fits the 32 bits that the format has for it, `rmp_serde::from_slice`
/// reads the same triple out of them. Nothing is promised about success.
#[verifier::external_body]
pub(crate) fn pack(value: &Vec<u8>, secs: u64, nanos: u32, version: u64) -> (r: Result<
    Vec<u8>,
    rmp_serde::encode::Error,
>)
    ensures
        r matches Ok(bytes) ==> bytes@ == packed(value@, secs, nanos, version),
        r matches Ok(bytes) ==> value@.len() <= u32::MAX ==> unpacked(bytes@) == Some(
            (value@, secs, nanos, version),
        ),
{
    rmp_serde::to_vec(&(value, (secs, nanos), version))
}

/// `rmp_serde::from_slice` for the triple `(value, (secs, nanos), version)`: what
/// it reads, or that it fails, depends on the bytes alone.
#[verifier::external_body]
pub(crate) fn unpack(bytes: &[u8]) -> (r: Result<(Vec<u8>, (u64, u32), u64), rmp_serde::decode::Error>)
    ensures
        match r {
            Ok(t) => unpacked(bytes@) == Some((t.0@, t.1.0, t.1.1, t.2)),
            Err(_) => unpacked(bytes@) is None,
        },
{
    rmp_serde::from_slice::<(Vec<u8>, (u64, u32), u64)>(bytes)
}

} // verus!
