use vstd::prelude::*;
use sha3::{Digest, Sha3_256};

verus! {

/// The SHA3-256 digest of a byte sequence.
pub uninterp spec fn sha3_256_of(data: Seq<u8>) -> [u8; 32];

/// Relies on `sha3::Sha3_256` (through `Digest::digest`): the digest of `data`,
/// which depends on the bytes alone.
#[verifier::external_body]
pub(crate) fn sha3_256(data: &[u8]) -> (r: [u8; 32])
    ensures
        r == sha3_256_of(data@),
{
    Sha3_256::digest(data).into()
}

/// Bit `p` of a digest, counting from the least significant bit of each byte,
/// bytes in order: position `p` is bit `p % 8` of byte `p / 8`.
pub open spec fn digest_bit(d: [u8; 32], p: int) -> bool {
    (d[p / 8] >> ((p % 8) as u8)) & 1u8 == 1u8
}

/// Bit `position` of `digest`, as `digest_bit` orders them.
pub fn bit_at(digest: &[u8; 32], position: usize) -> (b: bool)
    requires
        position < 256,
    ensures
        b == digest_bit(*digest, position as int),
{
    let byte: u8 = digest[position / 8];
    let shift: u8 = (position % 8) as u8;
    (byte >> shift) & 1u8 == 1u8
}

/// Whether two blocks hold the same bytes.
pub fn blocks_equal(a: &[u8; 32], b: &[u8; 32]) -> (r: bool)
    ensures
        r == (*a == *b),
{
    let mut i: usize = 0;
    while i < 32
        invariant
            0 <= i <= 32,
            forall|j: int| 0 <= j < i ==> a[j] == b[j],
        decreases 32 - i,
    {
        if a[i] != b[i] {
            return false;
        }
        i = i + 1;
    }
    assert(*a =~= *b);
    true
}

} // verus!
