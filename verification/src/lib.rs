//! Self-describing SHAKE digests.
//!
//! The library squeezes the SHAKE-128 and SHAKE-256 extendable-output
//! functions to a chosen number of bytes and wraps the result, together with
//! the algorithm's multicodec code and the digest length, into a multihash
//! envelope.

use vstd::prelude::*;

pub mod envelope;
pub mod hasher;
pub mod laws;

verus! {

/// Multicodec code for SHAKE-128 digests (hex 0x18).
pub const SHAKE_128_HASH_CODE: u64 = 24;

/// Multicodec code for SHAKE-256 digests (hex 0x19).
pub const SHAKE_256_HASH_CODE: u64 = 25;

/// Marker type for the crate's documentation examples.
pub struct ReadmeDoctests;

/// The code table: the closed set of supported (code, family, fixed output
/// length) triples. Both entries squeeze 48 bytes; no code outside this set
/// is representable as a value of this type.
#[derive(Clone, Copy, Debug, PartialEq, Eq, Structural)]
pub enum Code {
    /// SHAKE-128 at a fixed 48-byte output, code 24.
    Shake128_48,
    /// SHAKE-256 at a fixed 48-byte output, code 25.
    Shake256_48,
}

impl Code {
    /// The numeric multicodec code of this entry.
    pub open spec fn spec_code(self) -> u64 {
        match self {
            Code::Shake128_48 => SHAKE_128_HASH_CODE,
            Code::Shake256_48 => SHAKE_256_HASH_CODE,
        }
    }

    /// The extendable-output family of this entry.
    pub open spec fn spec_family(self) -> hasher::XofFamily {
        match self {
            Code::Shake128_48 => hasher::XofFamily::Shake128,
            Code::Shake256_48 => hasher::XofFamily::Shake256,
        }
    }

    /// The digest this entry assigns to `input`: its family's
    /// extendable-output function squeezed to 48 bytes.
    pub open spec fn spec_digest(self, input: Seq<u8>) -> Seq<u8> {
        hasher::xof_of(self.spec_family(), input, 48)
    }

    /// The numeric multicodec code of this entry.
    pub fn code(&self) -> (c: u64)
        ensures
            c == self.spec_code(),
    {
        match self {
            Code::Shake128_48 => SHAKE_128_HASH_CODE,
            Code::Shake256_48 => SHAKE_256_HASH_CODE,
        }
    }

    /// The fixed digest length of this entry, in bytes.
    pub fn size(&self) -> (s: u8)
        ensures
            s == 48,
    {
        48
    }

    /// The entry that carries the given numeric code, if any.
    pub fn from_code(code: u64) -> (r: Option<Code>)
        ensures
            r matches Some(c) ==> c.spec_code() == code,
            r is Some <==> (code == SHAKE_128_HASH_CODE || code == SHAKE_256_HASH_CODE),
    {
        if code == SHAKE_128_HASH_CODE {
            Some(Code::Shake128_48)
        } else if code == SHAKE_256_HASH_CODE {
            Some(Code::Shake256_48)
        } else {
            None
        }
    }

    /// A fresh streaming hasher of this entry's family, set to the entry's
    /// fixed output length.
    pub fn hasher(&self) -> (h: hasher::ShakeHasher)
        ensures
            h.wf(),
            h.family() == self.spec_family(),
            h.absorbed() == Seq::<u8>::empty(),
            h.output_len() == 48,
    {
        hasher::ShakeHasher::new(self.family(), 48)
    }

    /// The extendable-output family of this entry.
    pub fn family(&self) -> (f: hasher::XofFamily)
        ensures
            f == self.spec_family(),
    {
        match self {
            Code::Shake128_48 => hasher::XofFamily::Shake128,
            Code::Shake256_48 => hasher::XofFamily::Shake256,
        }
    }

    /// Digests `input` with this entry's family at its fixed 48-byte length
    /// and wraps the result in an envelope tagged with this entry's code.
    /// Never fails: every entry's length fits the envelope capacity.
    pub fn digest(&self, input: &[u8]) -> (r: multihash::Multihash<64>)
        ensures
            envelope::mh_code(r) == self.spec_code(),
            envelope::mh_digest(r) == self.spec_digest(input@),
            envelope::mh_digest(r).len() == 48,
            envelope::mh_size(r) == 48,
    {
        let mut h = self.hasher();
        h.update(input);
        let digest = h.finalize();
        match envelope::wrap_digest(self.code(), digest.as_slice()) {
            Ok(m) => m,
            Err(_) => vstd::pervasive::unreached(),
        }
    }

    /// Wraps already-computed digest bytes in an envelope tagged with this
    /// entry's code; refuses a digest longer than the envelope capacity.
    pub fn wrap(&self, digest: &[u8]) -> (r: Result<
        multihash::Multihash<64>,
        envelope::MhashError,
    >)
        ensures
            r is Ok <==> digest@.len() <= envelope::MAX_DIGEST_LEN,
            (r matches Ok(m) ==> envelope::mh_code(m) == self.spec_code() && envelope::mh_digest(m)
                == digest@ && envelope::mh_size(m) == digest@.len()),
            r is Err ==> r == Result::<multihash::Multihash<64>, envelope::MhashError>::Err(
                envelope::MhashError::CapacityExceeded,
            ),
    {
        envelope::wrap_digest(self.code(), digest)
    }
}

/// Squeezes SHAKE-128 over `input` to exactly the length of
/// `output_buffer`, writes the digest into the buffer, and wraps it in an
/// envelope tagged with code 24. Fails with `CapacityExceeded`, after the
/// buffer is filled, exactly when the buffer is longer than 64 bytes.
pub fn shake128_mhash(input: &[u8], output_buffer: &mut Vec<u8>) -> (r: Result<
    multihash::Multihash<64>,
    envelope::MhashError,
>)
    ensures
        final(output_buffer)@ == hasher::shake128_of(input@, old(output_buffer)@.len() as nat),
        final(output_buffer)@.len() == old(output_buffer)@.len(),
        r is Ok <==> old(output_buffer)@.len() <= envelope::MAX_DIGEST_LEN,
        (r matches Ok(m) ==> envelope::mh_code(m) == SHAKE_128_HASH_CODE && envelope::mh_digest(m)
            == final(output_buffer)@ && envelope::mh_size(m) == old(output_buffer)@.len()),
        r is Err ==> r == Result::<multihash::Multihash<64>, envelope::MhashError>::Err(
            envelope::MhashError::CapacityExceeded,
        ),
{
    let len = output_buffer.len();
    let mut x = hasher::Xof128::new();
    x.absorb(input);
    *output_buffer = x.squeeze(len);
    envelope::wrap_digest(SHAKE_128_HASH_CODE, output_buffer.as_slice())
}

/// Squeezes SHAKE-256 over `input` to exactly the length of
/// `output_buffer`, writes the digest into the buffer, and wraps it in an
/// envelope tagged with code 25. Fails with `CapacityExceeded`, after the
/// buffer is filled, exactly when the buffer is longer than 64 bytes.
pub fn shake256_mhash(input: &[u8], output_buffer: &mut Vec<u8>) -> (r: Result<
    multihash::Multihash<64>,
    envelope::MhashError,
>)
    ensures
        final(output_buffer)@ == hasher::shake256_of(input@, old(output_buffer)@.len() as nat),
        final(output_buffer)@.len() == old(output_buffer)@.len(),
        r is Ok <==> old(output_buffer)@.len() <= envelope::MAX_DIGEST_LEN,
        (r matches Ok(m) ==> envelope::mh_code(m) == SHAKE_256_HASH_CODE && envelope::mh_digest(m)
            == final(output_buffer)@ && envelope::mh_size(m) == old(output_buffer)@.len()),
        r is Err ==> r == Result::<multihash::Multihash<64>, envelope::MhashError>::Err(
            envelope::MhashError::CapacityExceeded,
        ),
{
    let len = output_buffer.len();
    let mut x = hasher::Xof256::new();
    x.absorb(input);
    *output_buffer = x.squeeze(len);
    envelope::wrap_digest(SHAKE_256_HASH_CODE, output_buffer.as_slice())
}

} // verus!
