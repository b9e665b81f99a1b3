//! The identity state record: a fixed 72-byte layout holding a discriminator
//! tag, the admin identity authorized to mutate the record, and the current
//! exclusion root. One record exists per admin identity, at an address
//! derived from that identity.

use vstd::prelude::*;
use vstd::slice::slice_subrange;
use vstd::pervasive::VecAdditionalExecFns;
use crate::bytes::bytes_eq;

verus! {

/// Size of a record in bytes: 8 (discriminator) + 32 (admin) + 32 (root).
pub const STATE_SIZE: usize = 72;

/// The fixed tag identifying a valid, correctly-typed record.
pub const STATE_DISCRIMINATOR: [u8; 8] = [0x73, 0x6d, 0x74, 0x5f, 0x72, 0x6f, 0x6f, 0x74];

/// The discriminator tag as a byte sequence.
pub open spec fn discriminator_bytes() -> Seq<u8> {
    seq![0x73u8, 0x6du8, 0x74u8, 0x5fu8, 0x72u8, 0x6fu8, 0x6fu8, 0x74u8]
}

/// The all-zero root a record starts with.
pub open spec fn zero_root() -> Seq<u8> {
    Seq::new(32, |i: int| 0u8)
}

/// The admin identity stored in a record.
pub open spec fn record_admin(r: Seq<u8>) -> Seq<u8> {
    r.subrange(8, 40)
}

/// The exclusion root stored in a record.
pub open spec fn record_root(r: Seq<u8>) -> Seq<u8> {
    r.subrange(40, 72)
}

/// Whether a record carries the fixed discriminator tag.
pub open spec fn record_tagged(r: Seq<u8>) -> bool {
    r.subrange(0, 8) == discriminator_bytes()
}

/// A record of the right size whose tag is the fixed discriminator.
pub open spec fn record_well_formed(r: Seq<u8>) -> bool {
    r.len() == STATE_SIZE && record_tagged(r)
}

/// Whether the first 8 bytes of `record` equal the fixed discriminator.
pub fn record_has_discriminator(record: &[u8]) -> (r: bool)
    requires
        record@.len() >= 8,
    ensures
        r == record_tagged(record@),
{
    let disc: [u8; 8] = STATE_DISCRIMINATOR;
    proof {
        assert(disc@ =~= discriminator_bytes());
    }
    let head = slice_subrange(record, 0, 8);
    bytes_eq(head, disc.as_slice())
}

/// The 72 bytes a freshly created record is seeded with: the discriminator,
/// the admin identity, and an all-zero root.
pub fn initial_record(admin: &[u8; 32]) -> (r: Vec<u8>)
    ensures
        r@.len() == STATE_SIZE,
        record_tagged(r@),
        record_admin(r@) == admin@,
        record_root(r@) == zero_root(),
{
    let disc: [u8; 8] = STATE_DISCRIMINATOR;
    proof {
        assert(disc@ =~= discriminator_bytes());
    }
    let mut r: Vec<u8> = Vec::new();
    let mut i: usize = 0;
    while i < 8
        invariant
            i <= 8,
            r@.len() == i,
            forall|j: int| 0 <= j < i ==> r@[j] == disc@[j],
        decreases 8 - i,
    {
        r.push(disc[i]);
        i += 1;
    }
    let mut k: usize = 0;
    while k < 32
        invariant
            k <= 32,
            r@.len() == 8 + k,
            forall|j: int| 0 <= j < 8 ==> r@[j] == disc@[j],
            forall|j: int| 0 <= j < k ==> r@[8 + j] == admin@[j],
        decreases 32 - k,
    {
        r.push(admin[k]);
        k += 1;
    }
    let mut z: usize = 0;
    while z < 32
        invariant
            z <= 32,
            r@.len() == 40 + z,
            forall|j: int| 0 <= j < 8 ==> r@[j] == disc@[j],
            forall|j: int| 0 <= j < 32 ==> r@[8 + j] == admin@[j],
            forall|j: int| 0 <= j < z ==> #[trigger] r@[40 + j] == 0u8,
        decreases 32 - z,
    {
        r.push(0u8);
        z += 1;
    }
    proof {
        assert(r@.subrange(0, 8) =~= discriminator_bytes());
        assert(record_admin(r@) =~= admin@);
        assert forall|j: int| 0 <= j < 32 implies record_root(r@)[j] == 0u8 by {
            assert(r@[40 + j] == 0u8);
        }
        assert(record_root(r@) =~= zero_root());
    }
    r
}

/// Overwrite the root field (bytes 40..72) of a record with a new root,
/// leaving every other byte as it was.
pub fn set_record_root(record: &mut Vec<u8>, root: &[u8])
    requires
        old(record)@.len() == STATE_SIZE,
        root@.len() == 32,
    ensures
        final(record)@ == old(record)@.subrange(0, 40) + root@,
{
    let mut i: usize = 0;
    while i < 32
        invariant
            i <= 32,
            root@.len() == 32,
            record@.len() == STATE_SIZE,
            forall|j: int| 0 <= j < 40 ==> record@[j] == old(record)@[j],
            forall|j: int| 0 <= j < i ==> record@[40 + j] == root@[j],
            forall|j: int| 40 + i <= j < 72 ==> record@[j] == old(record)@[j],
        decreases 32 - i,
    {
        record.set(40 + i, root[i]);
        i += 1;
    }
    proof {
        assert(record@ =~= old(record)@.subrange(0, 40) + root@);
    }
}

} // verus!
