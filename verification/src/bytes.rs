//! Byte-level helpers shared by the record layout, the payload parser and the
//! identity-hash binding: slice equality and end-to-end reversal of a 32-byte
//! digest.

use vstd::prelude::*;

verus! {

/// A 32-byte sequence reversed end to end: byte `i` of the result is byte
/// `31 - i` of the input.
pub open spec fn reverse32(s: Seq<u8>) -> Seq<u8> {
    Seq::new(32, |i: int| s[31 - i])
}

/// Byte-for-byte equality of two slices.
pub fn bytes_eq(a: &[u8], b: &[u8]) -> (r: bool)
    ensures
        r == (a@ == b@),
{
    if a.len() != b.len() {
        return false;
    }
    let n: usize = a.len();
    let mut i: usize = 0;
    while i < n
        invariant
            n == a@.len(),
            a@.len() == b@.len(),
            i <= n,
            forall|j: int| 0 <= j < i ==> a@[j] == b@[j],
        decreases n - i,
    {
        if a[i] != b[i] {
            return false;
        }
        i += 1;
    }
    proof {
        assert(a@ =~= b@);
    }
    true
}

/// The concatenation of two byte slices as a fresh vector.
pub fn concat_bytes(a: &[u8], b: &[u8]) -> (r: Vec<u8>)
    ensures
        r@ == a@ + b@,
{
    let mut r: Vec<u8> = Vec::new();
    let na: usize = a.len();
    let mut i: usize = 0;
    while i < na
        invariant
            na == a@.len(),
            i <= na,
            r@.len() == i,
            forall|j: int| 0 <= j < i ==> r@[j] == a@[j],
        decreases na - i,
    {
        r.push(a[i]);
        i += 1;
    }
    let nb: usize = b.len();
    let mut k: usize = 0;
    while k < nb
        invariant
            na == a@.len(),
            nb == b@.len(),
            k <= nb,
            r@.len() == na + k,
            forall|j: int| 0 <= j < na ==> r@[j] == a@[j],
            forall|j: int| 0 <= j < k ==> #[trigger] r@[na + j] == b@[j],
        decreases nb - k,
    {
        r.push(b[k]);
        k += 1;
    }
    proof {
        assert forall|j: int| na <= j < na + nb implies r@[j] == b@[j - na] by {
            assert(r@[na + (j - na)] == b@[j - na]);
        }
        assert(r@ =~= a@ + b@);
    }
    r
}

/// The reversal of a 32-byte digest, converting between the hash primitive's
/// native byte order and the byte order the external proof system expects.
pub fn reverse_digest(h: &[u8]) -> (r: Vec<u8>)
    requires
        h@.len() == 32,
    ensures
        r@ == reverse32(h@),
{
    let mut r: Vec<u8> = Vec::new();
    let mut i: usize = 0;
    while i < 32
        invariant
            h@.len() == 32,
            i <= 32,
            r@.len() == i,
            forall|j: int| 0 <= j < i ==> r@[j] == h@[31 - j],
        decreases 32 - i,
    {
        r.push(h[31 - i]);
        i += 1;
    }
    proof {
        assert(r@ =~= reverse32(h@));
    }
    r
}

} // verus!
