//! The identity-hash binding: a caller's 32-byte identity is split into a low
//! and a high 16-byte half, hashed with the fixed circuit-friendly hash
//! primitive, and the digest reversed end to end into the byte order the
//! external proof system expects.
//!
//! The primitive reads each input part as a little-endian field element, so
//! a 16-byte half and its zero-extension to the field's 32 bytes denote the
//! same element and the same digest; the halves are handed over
//! zero-extended, which every host of the primitive accepts.

use vstd::prelude::*;
use crate::bytes::reverse32;
use crate::bytes::reverse_digest;
use crate::errors::ExclusionError;

verus! {

/// The digest that the fixed hash primitive (BN254-family parameterization,
/// little-endian byte order) computes for the input pair `(low, high)`, or
/// nothing when the primitive reports that it cannot compute one. The digest
/// is a pure function of the two inputs: the same pair always gives the same
/// outcome.
pub uninterp spec fn poseidon_pair_hash(low: Seq<u8>, high: Seq<u8>) -> Option<Seq<u8>>;

/// A 16-byte half zero-extended to the field's 32 bytes; read little-endian,
/// both denote the same field element.
pub open spec fn zero_extended(half: Seq<u8>) -> Seq<u8> {
    half + Seq::new(16, |i: int| 0u8)
}

/// Relies on solana_poseidon's `hashv` with the `Bn254X5` parameters and
/// `LittleEndian` byte order: the digest depends on the input bytes alone,
/// and failure arises only from the inputs themselves.
#[verifier::external_body]
fn poseidon_hash_pair(low: &[u8], high: &[u8]) -> (r: Option<[u8; 32]>)
    ensures
        match r {
            Some(h) => poseidon_pair_hash(low@, high@) == Some(h@),
            None => poseidon_pair_hash(low@, high@) is None,
        },
{
    match solana_poseidon::hashv(
        solana_poseidon::Parameters::Bn254X5,
        solana_poseidon::Endianness::LittleEndian,
        &[low, high],
    ) {
        Ok(digest) => Some(digest.to_bytes()),
        Err(_) => None,
    }
}

/// The expected witness binding for an identity: the primitive's digest over
/// the identity's two 16-byte halves (zero-extended to field size), reversed
/// end to end. `None` when the primitive cannot compute the digest.
pub open spec fn identity_binding(identity: Seq<u8>) -> Option<Seq<u8>> {
    match poseidon_pair_hash(
        zero_extended(identity.subrange(0, 16)),
        zero_extended(identity.subrange(16, 32)),
    ) {
        Some(h) => Some(reverse32(h)),
        None => None,
    }
}

/// Copy `half` (16 bytes of `identity` starting at `start`) and zero-extend
/// it to 32 bytes.
fn padded_half(identity: &[u8; 32], start: usize) -> (r: Vec<u8>)
    requires
        start + 16 <= 32,
    ensures
        r@ == zero_extended(identity@.subrange(start as int, start + 16)),
{
    let mut r: Vec<u8> = Vec::new();
    let mut i: usize = 0;
    while i < 16
        invariant
            start + 16 <= 32,
            i <= 16,
            r@.len() == i,
            forall|j: int| 0 <= j < i ==> r@[j] == identity@[start + j],
        decreases 16 - i,
    {
        r.push(identity[start + i]);
        i += 1;
    }
    let mut z: usize = 0;
    while z < 16
        invariant
            start + 16 <= 32,
            z <= 16,
            r@.len() == 16 + z,
            forall|j: int| 0 <= j < 16 ==> r@[j] == identity@[start + j],
            forall|j: int| 0 <= j < z ==> #[trigger] r@[16 + j] == 0u8,
        decreases 16 - z,
    {
        r.push(0u8);
        z += 1;
    }
    proof {
        assert forall|j: int| 16 <= j < 32 implies r@[j] == 0u8 by {
            assert(r@[16 + (j - 16)] == 0u8);
        }
        assert(r@ =~= zero_extended(identity@.subrange(start as int, start + 16)));
    }
    r
}

/// Compute the witness binding for a 32-byte identity: hash the identity's
/// low and high halves with the fixed primitive and reverse the digest into
/// the proof system's byte order. Fails with `PoseidonHashFailed` exactly
/// when the primitive reports a computation failure.
pub fn identity_commitment(identity: &[u8; 32]) -> (r: Result<Vec<u8>, ExclusionError>)
    ensures
        match r {
            Ok(h) => identity_binding(identity@) == Some(h@) && h@.len() == 32,
            Err(e) => e == ExclusionError::PoseidonHashFailed && identity_binding(identity@) is None,
        },
{
    let low = padded_half(identity, 0);
    let high = padded_half(identity, 16);
    match poseidon_hash_pair(low.as_slice(), high.as_slice()) {
        Some(digest) => Ok(reverse_digest(digest.as_slice())),
        None => Err(ExclusionError::PoseidonHashFailed),
    }
}

} // verus!
