//! The digest envelope: an immutable (code, length, digest bytes) triple,
//! stored as a `multihash::Multihash` with a fixed 64-byte allocation.
//!
//! Envelopes are built only through the validating [`wrap_digest`], which
//! refuses digests longer than [`MAX_DIGEST_LEN`] bytes.

use vstd::prelude::*;

verus! {

/// Greatest digest length, in bytes, that an envelope can hold.
pub const MAX_DIGEST_LEN: usize = 64;

#[verifier::external_type_specification]
#[verifier::external_body]
pub struct ExMultihash<const S: usize>(multihash::Multihash<S>);

#[verifier::external_type_specification]
#[verifier::external_body]
pub struct ExMultihashError(multihash::Error);

/// The algorithm code that an envelope carries.
pub uninterp spec fn mh_code(m: multihash::Multihash<64>) -> u64;

/// The digest bytes that an envelope carries.
pub uninterp spec fn mh_digest(m: multihash::Multihash<64>) -> Seq<u8>;

/// The digest length that an envelope declares.
pub uninterp spec fn mh_size(m: multihash::Multihash<64>) -> nat;

/// Relies on `multihash::Multihash::wrap`: it succeeds exactly when the
/// digest fits the 64-byte allocation, and the envelope it returns carries
/// the given code, the given digest bytes, and their count as its size.
#[verifier::external_body]
fn mh_wrap_raw(code: u64, bytes: &[u8]) -> (r: Result<
    multihash::Multihash<64>,
    multihash::Error,
>)
    ensures
        r is Ok <==> bytes@.len() <= 64,
        (r matches Ok(m) ==> mh_code(m) == code && mh_digest(m) == bytes@ && mh_size(m)
            == bytes@.len()),
{
    multihash::Multihash::wrap(code, bytes)
}

/// Error raised when a requested digest length exceeds the envelope
/// capacity.
#[derive(Clone, Copy, Debug, PartialEq, Eq)]
pub enum MhashError {
    CapacityExceeded,
}

/// Wraps digest bytes and an algorithm code into an envelope; refuses a
/// digest longer than the capacity, and never returns a partial envelope.
pub fn wrap_digest(code: u64, bytes: &[u8]) -> (r: Result<multihash::Multihash<64>, MhashError>)
    ensures
        r is Ok <==> bytes@.len() <= MAX_DIGEST_LEN,
        (r matches Ok(m) ==> mh_code(m) == code && mh_digest(m) == bytes@ && mh_size(m)
            == bytes@.len()),
        r is Err ==> r == Result::<multihash::Multihash<64>, MhashError>::Err(
            MhashError::CapacityExceeded,
        ),
{
    match mh_wrap_raw(code, bytes) {
        Ok(m) => Ok(m),
        Err(_) => Err(MhashError::CapacityExceeded),
    }
}

} // verus!
