//! The streaming hasher: a SHAKE extendable-output state behind the
//! conventional update / finalize / reset contract.
//!
//! The absorbed input of a state is modelled as the byte sequence
//! [`absorbed128`] (or [`absorbed256`]); what a squeeze of `n` bytes returns
//! is named [`shake128_of`] (or [`shake256_of`]), a function of the absorbed
//! bytes and `n` alone.

use vstd::prelude::*;

verus! {

/// A SHAKE-128 extendable-output state. Opaque; its absorbed input is
/// [`absorbed128`].
#[verifier::external_body]
pub struct Xof128 {
    inner: sha3::Shake128,
}

/// A SHAKE-256 extendable-output state. Opaque; its absorbed input is
/// [`absorbed256`].
#[verifier::external_body]
pub struct Xof256 {
    inner: sha3::Shake256,
}

/// The bytes a SHAKE-128 state has absorbed so far.
pub uninterp spec fn absorbed128(h: Xof128) -> Seq<u8>;

/// The bytes a SHAKE-256 state has absorbed so far.
pub uninterp spec fn absorbed256(h: Xof256) -> Seq<u8>;

/// The `len`-byte SHAKE-128 digest of `input`: what squeezing a SHAKE-128
/// state that absorbed exactly `input` returns. A function of its arguments
/// alone.
pub uninterp spec fn shake128_of(input: Seq<u8>, len: nat) -> Seq<u8>;

/// The `len`-byte SHAKE-256 digest of `input`: what squeezing a SHAKE-256
/// state that absorbed exactly `input` returns. A function of its arguments
/// alone.
pub uninterp spec fn shake256_of(input: Seq<u8>, len: nat) -> Seq<u8>;

impl Xof128 {
    /// Relies on `sha3::Shake128::default`: a fresh state has absorbed
    /// nothing.
    #[verifier::external_body]
    pub fn new() -> (h: Xof128)
        ensures
            absorbed128(h) == Seq::<u8>::empty(),
    {
        Xof128 { inner: sha3::Shake128::default() }
    }

    /// Relies on `sha3::digest::Update::update`: absorbing appends the input
    /// to the absorbed bytes.
    #[verifier::external_body]
    pub fn absorb(&mut self, input: &[u8])
        ensures
            absorbed128(*final(self)) == absorbed128(*old(self)) + input@,
    {
        sha3::digest::Update::update(&mut self.inner, input);
    }

    /// Relies on `Clone`, `sha3::digest::ExtendableOutput::finalize_xof` and
    /// `sha3::digest::XofReader::read`: squeezing a clone of the state fills
    /// the whole buffer with the digest of the absorbed bytes, and leaves the
    /// state itself untouched.
    #[verifier::external_body]
    pub fn squeeze(&self, len: usize) -> (out: Vec<u8>)
        ensures
            out@ == shake128_of(absorbed128(*self), len as nat),
            out@.len() == len,
    {
        let mut reader = sha3::digest::ExtendableOutput::finalize_xof(self.inner.clone());
        let mut out = vec![0u8; len];
        sha3::digest::XofReader::read(&mut reader, &mut out);
        out
    }
}

impl Xof256 {
    /// Relies on `sha3::Shake256::default`: a fresh state has absorbed
    /// nothing.
    #[verifier::external_body]
    pub fn new() -> (h: Xof256)
        ensures
            absorbed256(h) == Seq::<u8>::empty(),
    {
        Xof256 { inner: sha3::Shake256::default() }
    }

    /// Relies on `sha3::digest::Update::update`: absorbing appends the input
    /// to the absorbed bytes.
    #[verifier::external_body]
    pub fn absorb(&mut self, input: &[u8])
        ensures
            absorbed256(*final(self)) == absorbed256(*old(self)) + input@,
    {
        sha3::digest::Update::update(&mut self.inner, input);
    }

    /// Relies on `Clone`, `sha3::digest::ExtendableOutput::finalize_xof` and
    /// `sha3::digest::XofReader::read`: squeezing a clone of the state fills
    /// the whole buffer with the digest of the absorbed bytes, and leaves the
    /// state itself untouched.
    #[verifier::external_body]
    pub fn squeeze(&self, len: usize) -> (out: Vec<u8>)
        ensures
            out@ == shake256_of(absorbed256(*self), len as nat),
            out@.len() == len,
    {
        let mut reader = sha3::digest::ExtendableOutput::finalize_xof(self.inner.clone());
        let mut out = vec![0u8; len];
        sha3::digest::XofReader::read(&mut reader, &mut out);
        out
    }
}

/// The two supported extendable-output families.
#[derive(Clone, Copy, Debug, PartialEq, Eq, Structural)]
pub enum XofFamily {
    Shake128,
    Shake256,
}

/// The `len`-byte digest of `input` under the given family.
pub open spec fn xof_of(family: XofFamily, input: Seq<u8>, len: nat) -> Seq<u8> {
    match family {
        XofFamily::Shake128 => shake128_of(input, len),
        XofFamily::Shake256 => shake256_of(input, len),
    }
}

enum XofState {
    S128(Xof128),
    S256(Xof256),
}

/// A streaming hasher: one extendable-output state, a fixed output length,
/// and a scratch buffer of exactly that length holding the most recently
/// finalized digest.
pub struct ShakeHasher {
    state: XofState,
    out_len: usize,
    scratch: Vec<u8>,
}

impl ShakeHasher {
    /// The family this hasher squeezes.
    pub closed spec fn family(self) -> XofFamily {
        match self.state {
            XofState::S128(_) => XofFamily::Shake128,
            XofState::S256(_) => XofFamily::Shake256,
        }
    }

    /// The bytes this hasher has absorbed since construction or the last
    /// reset.
    pub closed spec fn absorbed(self) -> Seq<u8> {
        match self.state {
            XofState::S128(x) => absorbed128(x),
            XofState::S256(x) => absorbed256(x),
        }
    }

    /// The fixed output length, in bytes, that finalizing produces.
    pub closed spec fn output_len(self) -> usize {
        self.out_len
    }

    /// The scratch buffer's contents.
    pub closed spec fn scratch_view(self) -> Seq<u8> {
        self.scratch@
    }

    /// Well-formed: the scratch buffer is sized to the output length.
    pub open spec fn wf(self) -> bool {
        self.scratch_view().len() == self.output_len()
    }

    /// Builds a hasher of the given family and fixed output length, with
    /// nothing absorbed and a zeroed scratch buffer.
    pub fn new(family: XofFamily, out_len: usize) -> (h: ShakeHasher)
        ensures
            h.wf(),
            h.family() == family,
            h.absorbed() == Seq::<u8>::empty(),
            h.output_len() == out_len,
            h.scratch_view() == Seq::new(out_len as nat, |i: int| 0u8),
    {
        let state = match family {
            XofFamily::Shake128 => XofState::S128(Xof128::new()),
            XofFamily::Shake256 => XofState::S256(Xof256::new()),
        };
        ShakeHasher { state, out_len, scratch: zero_vec(out_len) }
    }

    /// Absorbs `input`: the absorbed bytes grow by exactly `input`, and
    /// nothing else changes. May be called any number of times.
    pub fn update(&mut self, input: &[u8])
        ensures
            final(self).family() == old(self).family(),
            final(self).output_len() == old(self).output_len(),
            final(self).absorbed() == old(self).absorbed() + input@,
            final(self).scratch_view() == old(self).scratch_view(),
    {
        match &mut self.state {
            XofState::S128(x) => x.absorb(input),
            XofState::S256(x) => x.absorb(input),
        }
    }

    /// Squeezes the digest of everything absorbed so far, at the fixed
    /// output length, into the scratch buffer and returns it. The absorbed
    /// state is kept as it was: later updates extend the same input, and a
    /// later finalize reflects the extended input.
    pub fn finalize(&mut self) -> (digest: Vec<u8>)
        ensures
            final(self).wf(),
            digest@ == xof_of(old(self).family(), old(self).absorbed(), old(self).output_len() as nat),
            digest@.len() == old(self).output_len(),
            final(self).family() == old(self).family(),
            final(self).output_len() == old(self).output_len(),
            final(self).absorbed() == old(self).absorbed(),
            final(self).scratch_view() == digest@,
    {
        let digest = match &self.state {
            XofState::S128(x) => x.squeeze(self.out_len),
            XofState::S256(x) => x.squeeze(self.out_len),
        };
        self.scratch = copy_bytes(&digest);
        digest
    }

    /// Discards the absorbed bytes and the scratch contents, restoring the
    /// just-constructed condition; family and output length are kept.
    pub fn reset(&mut self)
        ensures
            final(self).wf(),
            final(self).family() == old(self).family(),
            final(self).output_len() == old(self).output_len(),
            final(self).absorbed() == Seq::<u8>::empty(),
            final(self).scratch_view() == Seq::new(old(self).output_len() as nat, |i: int| 0u8),
    {
        self.state = match &self.state {
            XofState::S128(_) => XofState::S128(Xof128::new()),
            XofState::S256(_) => XofState::S256(Xof256::new()),
        };
        self.scratch = zero_vec(self.out_len);
    }
}

/// A vector of `len` zero bytes.
fn zero_vec(len: usize) -> (v: Vec<u8>)
    ensures
        v@ == Seq::new(len as nat, |i: int| 0u8),
{
    let mut v: Vec<u8> = Vec::new();
    let mut i: usize = 0;
    while i < len
        invariant
            i <= len,
            v@ == Seq::new(i as nat, |j: int| 0u8),
        decreases len - i,
    {
        v.push(0u8);
        i = i + 1;
        proof {
            assert(v@ =~= Seq::new(i as nat, |j: int| 0u8));
        }
    }
    v
}

/// A copy of the given bytes.
fn copy_bytes(src: &Vec<u8>) -> (v: Vec<u8>)
    ensures
        v@ == src@,
{
    let mut v: Vec<u8> = Vec::new();
    let mut i: usize = 0;
    while i < src.len()
        invariant
            i <= src@.len(),
            v@ == src@.subrange(0, i as int),
        decreases src@.len() - i,
    {
        v.push(src[i]);
        i = i + 1;
        proof {
            assert(v@ =~= src@.subrange(0, i as int));
        }
    }
    proof {
        assert(v@ =~= src@);
    }
    v
}

} // verus!
