use vstd::prelude::*;
use crate::hashing::{digest_bit, sha3_256_of};
use crate::lamport::{accepts, half_block, is_public_of, signature_of, Key, LamportSignature};

verus! {

/// Two key pairs that one seed determines are the same key pair: generating
/// twice from a seed gives identical secret and public halves.
pub proof fn lemma_generate_deterministic(seed: Seq<u8>, a: LamportSignature, b: LamportSignature)
    requires
        a.generated_from(seed),
        b.generated_from(seed),
    ensures
        a.secret_view() == b.secret_view(),
        a.public_view() == b.public_view(),
{
    let (sa, sb) = (a.secret_view(), b.secret_view());
    let (pa, pb) = (a.public_view(), b.public_view());
    assert forall|one: bool, i: int| 0 <= i < 256 implies half_block(sa, one, i) == half_block(
        sb,
        one,
        i,
    ) && half_block(pa, one, i) == half_block(pb, one, i) by {
        let (x, y) = (half_block(sa, one, i), half_block(sb, one, i));
        assert(x@ == y@);
        assert forall|k: int| 0 <= k < 32 implies x[k] == y[k] by {
            assert(x@[k] == y@[k]);
        }
        assert(x =~= y);
    }
    assert forall|i: int| 0 <= i < 256 implies sa.0[i] == sb.0[i] && sa.1[i] == sb.1[i]
        && pa.0[i] == pb.0[i] && pa.1[i] == pb.1[i] by {
        assert(half_block(sa, false, i) == half_block(sb, false, i));
        assert(half_block(sa, true, i) == half_block(sb, true, i));
        assert(half_block(pa, false, i) == half_block(pb, false, i));
        assert(half_block(pa, true, i) == half_block(pb, true, i));
    }
    assert(sa.0 =~= sb.0);
    assert(sa.1 =~= sb.1);
    assert(pa.0 =~= pb.0);
    assert(pa.1 =~= pb.1);
}

/// A signature made with the secret halves of a key pair is accepted under
/// its public halves, for every message.
pub proof fn lemma_signature_verifies(secret: Key, public: Key, m: Seq<u8>)
    requires
        is_public_of(public, secret),
    ensures
        accepts(public, m, signature_of(secret, m)),
{
    let sig = signature_of(secret, m);
    assert forall|p: int| 0 <= p < 256 implies sha3_256_of(#[trigger] sig[p]@) == half_block(
        public,
        digest_bit(sha3_256_of(m), p),
        p,
    ) by {
        let one = digest_bit(sha3_256_of(m), p);
        assert(half_block(public, one, p) == sha3_256_of(half_block(secret, one, p)@));
    }
}

/// Two different digests differ in some bit.
proof fn lemma_digests_differ_in_a_bit(d1: [u8; 32], d2: [u8; 32]) -> (p: int)
    requires
        d1 != d2,
    ensures
        0 <= p < 256,
        digest_bit(d1, p) != digest_bit(d2, p),
{
    if forall|i: int| 0 <= i < 32 ==> d1[i] == d2[i] {
        assert(d1 =~= d2);
    }
    let i = choose|i: int| 0 <= i < 32 && d1[i] != d2[i];
    let (x, y) = (d1[i], d2[i]);
    assert(x != y ==> ((x >> 0u8) & 1u8 != (y >> 0u8) & 1u8) || ((x >> 1u8) & 1u8 != (y >> 1u8)
        & 1u8) || ((x >> 2u8) & 1u8 != (y >> 2u8) & 1u8) || ((x >> 3u8) & 1u8 != (y >> 3u8) & 1u8)
        || ((x >> 4u8) & 1u8 != (y >> 4u8) & 1u8) || ((x >> 5u8) & 1u8 != (y >> 5u8) & 1u8) || ((x
        >> 6u8) & 1u8 != (y >> 6u8) & 1u8) || ((x >> 7u8) & 1u8 != (y >> 7u8) & 1u8)) by (bit_vector);
    assert(forall|s: u8| #![auto] ((x >> s) & 1u8) == 0u8 || ((x >> s) & 1u8) == 1u8) by (bit_vector);
    assert(forall|s: u8| #![auto] ((y >> s) & 1u8) == 0u8 || ((y >> s) & 1u8) == 1u8) by (bit_vector);
    let k: int = if (x >> 0u8) & 1u8 != (y >> 0u8) & 1u8 {
        0
    } else if (x >> 1u8) & 1u8 != (y >> 1u8) & 1u8 {
        1
    } else if (x >> 2u8) & 1u8 != (y >> 2u8) & 1u8 {
        2
    } else if (x >> 3u8) & 1u8 != (y >> 3u8) & 1u8 {
        3
    } else if (x >> 4u8) & 1u8 != (y >> 4u8) & 1u8 {
        4
    } else if (x >> 5u8) & 1u8 != (y >> 5u8) & 1u8 {
        5
    } else if (x >> 6u8) & 1u8 != (y >> 6u8) & 1u8 {
        6
    } else {
        7
    };
    assert((x >> (k as u8)) & 1u8 != (y >> (k as u8)) & 1u8);
    let p = 8 * i + k;
    assert(p / 8 == i && p % 8 == k) by (nonlinear_arith)
        requires
            p == 8 * i + k,
            0 <= k < 8,
    ;
    p
}

/// With public halves that differ at every position, a signature made for one
/// message is rejected for any message with another digest.
pub proof fn lemma_other_message_rejected(secret: Key, public: Key, m1: Seq<u8>, m2: Seq<u8>)
    requires
        is_public_of(public, secret),
        sha3_256_of(m1) != sha3_256_of(m2),
        forall|p: int| 0 <= p < 256 ==> public.0[p] != public.1[p],
    ensures
        !accepts(public, m2, signature_of(secret, m1)),
{
    let (d1, d2) = (sha3_256_of(m1), sha3_256_of(m2));
    let p = lemma_digests_differ_in_a_bit(d1, d2);
    let sig = signature_of(secret, m1);
    let b1 = digest_bit(d1, p);
    assert(sig[p] == half_block(secret, b1, p));
    assert(half_block(public, b1, p) == sha3_256_of(half_block(secret, b1, p)@));
    assert(public.0[p] != public.1[p]);
    assert(sha3_256_of(sig[p]@) != half_block(public, digest_bit(d2, p), p));
}

/// Replacing one block of an accepted signature by a block with another digest
/// makes the signature rejected.
pub proof fn lemma_substituted_block_rejected(
    public: Key,
    m: Seq<u8>,
    sig: Seq<[u8; 32]>,
    p: int,
    v: [u8; 32],
)
    requires
        sig.len() == 256,
        accepts(public, m, sig),
        0 <= p < 256,
        sha3_256_of(v@) != sha3_256_of(sig[p]@),
    ensures
        !accepts(public, m, sig.update(p, v)),
{
    let t = sig.update(p, v);
    assert(t[p] == v);
    assert(sha3_256_of(t[p]@) != half_block(public, digest_bit(sha3_256_of(m), p), p));
}

} // verus!
