//! Laws of the digest paths, stated over the spec-level model that the
//! executable contracts use: the absorbed byte sequence of a hasher and the
//! named digest functions of the two families.

use vstd::prelude::*;

use crate::hasher::shake128_of;
use crate::hasher::shake256_of;
use crate::hasher::xof_of;
use crate::hasher::XofFamily;
use crate::Code;

verus! {

/// The absorbed bytes of a hasher that starts with `init` absorbed and is
/// updated once per element of `parts`, in order. Each update appends its
/// part, as `ShakeHasher::update` ensures.
pub open spec fn absorbed_after(init: Seq<u8>, parts: Seq<Seq<u8>>) -> Seq<u8>
    decreases parts.len(),
{
    if parts.len() == 0 {
        init
    } else {
        absorbed_after(init + parts.first(), parts.drop_first())
    }
}

proof fn lemma_absorbed_after(init: Seq<u8>, parts: Seq<Seq<u8>>)
    ensures
        absorbed_after(init, parts) == init + parts.flatten(),
    decreases parts.len(),
{
    if parts.len() == 0 {
        assert(init + parts.flatten() =~= init);
    } else {
        lemma_absorbed_after(init + parts.first(), parts.drop_first());
        assert((init + parts.first()) + parts.drop_first().flatten() =~= init + (parts.first()
            + parts.drop_first().flatten()));
    }
}

/// Law: update-order equivalence. Splitting a message into any partition and
/// updating once per part leaves the same absorbed bytes as one update of
/// the whole message, so the finalized digest is the same at every length.
pub proof fn lemma_update_order_equivalence(family: XofFamily, parts: Seq<Seq<u8>>, len: nat)
    ensures
        xof_of(family, absorbed_after(Seq::<u8>::empty(), parts), len) == xof_of(
            family,
            parts.flatten(),
            len,
        ),
{
    lemma_absorbed_after(Seq::<u8>::empty(), parts);
    assert(Seq::<u8>::empty() + parts.flatten() =~= parts.flatten());
}

/// Law: determinism. The digest an entry of the code table assigns to an
/// input is a function of the input alone: any two results of the same
/// entry on the same input are equal.
pub proof fn lemma_digest_deterministic(c: Code, input: Seq<u8>, d1: Seq<u8>, d2: Seq<u8>)
    requires
        d1 == c.spec_digest(input),
        d2 == c.spec_digest(input),
    ensures
        d1 == d2,
{
}

/// Law: reset clears state. After a reset the absorbed bytes are empty, so
/// absorbing `y` leaves exactly what a fresh hasher absorbs from `y`, and
/// the digests agree at every length.
pub proof fn lemma_reset_clears_state(family: XofFamily, y: Seq<u8>, len: nat)
    ensures
        xof_of(family, Seq::<u8>::empty() + y, len) == xof_of(family, y, len),
{
    assert(Seq::<u8>::empty() + y =~= y);
}

/// Law: finalize is non-destructive. Finalizing keeps the absorbed bytes in
/// place, so updating with `extra` afterwards absorbs `m + extra`, and the
/// next finalize yields exactly the code-table digest of the concatenated
/// message; when `extra` is empty it repeats the digest of `m` itself.
pub proof fn lemma_finalize_nondestructive(c: Code, m: Seq<u8>, extra: Seq<u8>)
    ensures
        xof_of(c.spec_family(), m + extra, 48) == c.spec_digest(m + extra),
        extra.len() == 0 ==> xof_of(c.spec_family(), m + extra, 48) == c.spec_digest(m),
{
    if extra.len() == 0 {
        assert(m + extra =~= m);
    }
}

/// Law: cross-path equality. An entry of the code table squeezes the same
/// named digest function as the variable-length path of its family, so the
/// fixed 48-byte registry digest equals the 48 bytes the variable-length
/// path produces for the same input.
pub proof fn lemma_cross_path_equality(m: Seq<u8>)
    ensures
        Code::Shake128_48.spec_digest(m) == shake128_of(m, 48),
        Code::Shake256_48.spec_digest(m) == shake256_of(m, 48),
{
}

} // verus!
