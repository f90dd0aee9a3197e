use vstd::prelude::*;
use rand::rngs::StdRng;
use rand::{RngCore, SeedableRng};

verus! {

/// The first `len` bytes of the pseudorandom stream that `StdRng` produces
/// from `seed`.
pub uninterp spec fn rng_stream(seed: [u8; 32], len: nat) -> Seq<u8>;

/// Relies on `rand::rngs::StdRng::from_seed` and `RngCore::fill_bytes`: a
/// generator seeded with `seed` fills all of a `len`-byte buffer, and the bytes
/// depend on the seed and the length alone.
#[verifier::external_body]
pub(crate) fn rng_bytes(seed: &[u8; 32], len: usize) -> (r: Vec<u8>)
    ensures
        r@ == rng_stream(*seed, len as nat),
        r@.len() == len,
{
    let mut rng = StdRng::from_seed(*seed);
    let mut out = vec![0u8; len];
    rng.fill_bytes(&mut out);
    out
}

} // verus!
