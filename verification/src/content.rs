//! File contents by their hash.

use vstd::prelude::*;

verus! {

/// The BLAKE3 hash of `data`.
pub uninterp spec fn blake3_hash(data: Seq<u8>) -> Seq<u8>;

/// Calls `blake3::hash` and gives the bytes of what it returns: the BLAKE3 hash of `data`, which
/// has 32 bytes.
#[verifier::external_body]
pub(crate) fn content_hash(data: &Vec<u8>) -> (r: Vec<u8>)
    ensures
        r@ == blake3_hash(data@),
        r@.len() == 32,
{
    blake3::hash(data).as_bytes().to_vec()
}

/// Are `a` and `b` the same bytes?
pub fn same_bytes(a: &Vec<u8>, b: &Vec<u8>) -> (r: bool)
    ensures
        r == (a@ == b@),
{
    if a.len() != b.len() {
        return false;
    }
    for i in 0..a.len()
        invariant
            a@.len() == b@.len(),
            forall|j: int| 0 <= j < i ==> a@[j] == b@[j],
    {
        if a[i] != b[i] {
            return false;
        }
    }
    assert(a@ =~= b@);
    true
}

} // verus!
