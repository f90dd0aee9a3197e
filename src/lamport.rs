use vstd::prelude::*;
use vstd::string::StringSliceAdditionalSpecFns;
use crate::hashing::{bit_at, blocks_equal, digest_bit, sha3_256, sha3_256_of};
use crate::seeded::{rng_bytes, rng_stream};

verus! {

/// A key pair, or a half of it: the zero-half first, the one-half second,
/// 256 blocks of 32 bytes each.
pub type Key = ([[u8; 32]; 256], [[u8; 32]; 256]);

/// One block for each of the 256 bits of a message digest.
pub type Signature = [[u8; 32]; 256];

/// Bytes of secret material in one half of a key.
pub const HALF_BYTES: usize = 8192;

/// Block `i` of the given half (`false`: zero-half, `true`: one-half).
pub open spec fn half_block(k: Key, one: bool, i: int) -> [u8; 32] {
    if one {
        k.1[i]
    } else {
        k.0[i]
    }
}

/// The secret block at position `i` of a half, as drawn from the stream that
/// the digest of `seed` starts: the zero-half takes the first 256 blocks, the
/// one-half the next 256.
pub open spec fn seeded_block(seed: Seq<u8>, one: bool, i: int) -> Seq<u8> {
    let start = (if one { HALF_BYTES as int } else { 0 }) + 32 * i;
    rng_stream(sha3_256_of(seed), 2 * HALF_BYTES as nat).subrange(start, start + 32)
}

/// Each public block is the digest of the secret block at the same place.
pub open spec fn is_public_of(public: Key, secret: Key) -> bool {
    forall|one: bool, i: int|
        0 <= i < 256 ==> #[trigger] half_block(public, one, i) == sha3_256_of(
            half_block(secret, one, i)@,
        )
}

/// The signature of message bytes `m`: at each position the secret block of
/// the half that the digest's bit there selects.
pub open spec fn signature_of(secret: Key, m: Seq<u8>) -> Seq<[u8; 32]> {
    Seq::new(256, |p: int| half_block(secret, digest_bit(sha3_256_of(m), p), p))
}

/// A signature is accepted for `m` when, at every position, the digest of its
/// block is the public block of the half that the digest's bit selects.
pub open spec fn accepts(public: Key, m: Seq<u8>, sig: Seq<[u8; 32]>) -> bool {
    forall|p: int|
        0 <= p < 256 ==> sha3_256_of(#[trigger] sig[p]@) == half_block(
            public,
            digest_bit(sha3_256_of(m), p),
            p,
        )
}

/// A key pair: the secret halves and the public halves derived from them.
#[derive(Debug)]
pub struct LamportSignature {
    secret: Key,
    pub public: Key,
}

impl LamportSignature {
    /// The secret halves.
    pub closed spec fn secret_view(self) -> Key {
        self.secret
    }

    /// The public halves.
    pub closed spec fn public_view(self) -> Key {
        self.public
    }

    /// This key pair is the one that `seed` determines.
    pub open spec fn generated_from(self, seed: Seq<u8>) -> bool {
        &&& forall|one: bool, i: int|
            0 <= i < 256 ==> (#[trigger] half_block(self.secret_view(), one, i))@ == seeded_block(
                seed,
                one,
                i,
            )
        &&& is_public_of(self.public_view(), self.secret_view())
    }

    /// The public halves, to hand to `verify`.
    pub fn public_key(&self) -> (r: Key)
        ensures
            r == self.public_view(),
    {
        self.public
    }

    /// Derives a key pair from `seed`: the seed's digest seeds a pseudorandom
    /// stream, which fills the zero-half and then the one-half block by block;
    /// each public block is the digest of its secret block.
    pub fn generate_key(seed: &str) -> (r: Self)
        ensures
            r.generated_from(seed.spec_bytes()),
    {
        let seed_digest = sha3_256(seed.as_bytes());
        let stream = rng_bytes(&seed_digest, 2 * HALF_BYTES);
        let mut secret_zero: [[u8; 32]; 256] = [[0u8; 32]; 256];
        let mut secret_one: [[u8; 32]; 256] = [[0u8; 32]; 256];
        let mut public_zero: [[u8; 32]; 256] = [[0u8; 32]; 256];
        let mut public_one: [[u8; 32]; 256] = [[0u8; 32]; 256];
        let mut i: usize = 0;
        while i < 256
            invariant
                0 <= i <= 256,
                stream@ == rng_stream(seed_digest, 2 * HALF_BYTES as nat),
                stream@.len() == 2 * HALF_BYTES,
                seed_digest == sha3_256_of(seed.spec_bytes()),
                forall|j: int|
                    0 <= j < i ==> (#[trigger] secret_zero[j])@ == seeded_block(
                        seed.spec_bytes(),
                        false,
                        j,
                    ),
                forall|j: int|
                    0 <= j < i ==> (#[trigger] secret_one[j])@ == seeded_block(
                        seed.spec_bytes(),
                        true,
                        j,
                    ),
                forall|j: int|
                    0 <= j < i ==> #[trigger] public_zero[j] == sha3_256_of(secret_zero[j]@),
                forall|j: int|
                    0 <= j < i ==> #[trigger] public_one[j] == sha3_256_of(secret_one[j]@),
            decreases 256 - i,
        {
            let zero_block = block_at(&stream, 32 * i);
            let one_block = block_at(&stream, HALF_BYTES + 32 * i);
            secret_zero[i] = zero_block;
            secret_one[i] = one_block;
            public_zero[i] = sha3_256(zero_block.as_slice());
            public_one[i] = sha3_256(one_block.as_slice());
            i = i + 1;
        }
        let secret: Key = (secret_zero, secret_one);
        let public: Key = (public_zero, public_one);
        LamportSignature { secret, public }
    }

    /// Signs `message`: position `p` of the signature is the secret block of
    /// the half that bit `p` of the message's digest selects.
    ///
    /// A key pair must sign at most one message: two signatures reveal both
    /// halves wherever their digests differ.
    pub fn sign(&self, message: &str) -> (r: Signature)
        ensures
            r@ == signature_of(self.secret_view(), message.spec_bytes()),
    {
        let digest = sha3_256(message.as_bytes());
        let mut signature: Signature = [[0u8; 32]; 256];
        let mut place: usize = 0;
        while place < 256
            invariant
                0 <= place <= 256,
                digest == sha3_256_of(message.spec_bytes()),
                forall|p: int|
                    0 <= p < place ==> #[trigger] signature[p] == half_block(
                        self.secret,
                        digest_bit(digest, p),
                        p,
                    ),
            decreases 256 - place,
        {
            if bit_at(&digest, place) {
                signature[place] = self.secret.1[place];
            } else {
                signature[place] = self.secret.0[place];
            }
            place = place + 1;
        }
        assert(signature@ =~= signature_of(self.secret, message.spec_bytes()));
        signature
    }

    /// Checks `signature` on `message` against `publickey`: the digest of each
    /// block must be the public block of the half that the message digest's
    /// bit at that position selects. Stops at the first mismatch.
    pub fn verify(publickey: Key, message: &str, signature: Signature) -> (r: bool)
        ensures
            r == accepts(publickey, message.spec_bytes(), signature@),
    {
        let digest = sha3_256(message.as_bytes());
        let mut place: usize = 0;
        while place < 256
            invariant
                0 <= place <= 256,
                digest == sha3_256_of(message.spec_bytes()),
                forall|p: int|
                    0 <= p < place ==> sha3_256_of(#[trigger] signature@[p]@) == half_block(
                        publickey,
                        digest_bit(digest, p),
                        p,
                    ),
            decreases 256 - place,
        {
            let block = signature[place];
            let result = sha3_256(block.as_slice());
            let bit = bit_at(&digest, place);
            let expected = if bit {
                publickey.1[place]
            } else {
                publickey.0[place]
            };
            if !blocks_equal(&result, &expected) {
                assert(sha3_256_of(signature@[place as int]@) != half_block(
                    publickey,
                    digest_bit(digest, place as int),
                    place as int,
                ));
                return false;
            }
            place = place + 1;
        }
        true
    }
}

/// The 32 bytes of `bytes` that start at `start`.
fn block_at(bytes: &Vec<u8>, start: usize) -> (b: [u8; 32])
    requires
        start + 32 <= bytes@.len(),
    ensures
        b@ == bytes@.subrange(start as int, start + 32),
{
    let len: usize = bytes.len();
    let mut b: [u8; 32] = [0u8; 32];
    let mut j: usize = 0;
    while j < 32
        invariant
            0 <= j <= 32,
            start + 32 <= len == bytes@.len(),
            forall|k: int| 0 <= k < j ==> b[k] == bytes@[start + k],
        decreases 32 - j,
    {
        b[j] = bytes[start + j];
        j = j + 1;
    }
    assert(b@ =~= bytes@.subrange(start as int, start + 32));
    b
}

} // verus!
