use lamport_signature::hashing::{bit_at, blocks_equal};
use lamport_signature::LamportSignature;

#[test]
fn generate_ok() {
    let seed = "[9;32]";
    let signature = LamportSignature::generate_key(seed);

    for i in 0..255 {
        assert_ne!(signature.public.0[i], signature.public.0[i + 1]);
        assert_ne!(signature.public.1[i], signature.public.1[i + 1]);
        assert_ne!(signature.public.0[i], signature.public.1[i]);
    }
}

#[test]
fn generate_different_seed_ok() {
    let seed0 = "[9;32]";
    let signature0 = LamportSignature::generate_key(seed0);

    let seed1 = "[99;32]";
    let signature1 = LamportSignature::generate_key(seed1);

    assert_ne!(signature0.public.0[0], signature1.public.0[0]);
    assert_ne!(signature0.public.1[0], signature1.public.1[0]);
}

#[test]
fn sign_ok() {
    let seed = "[9;32]";
    let signature = LamportSignature::generate_key(seed);

    let message = "sakura";
    let sign = signature.sign(message);

    for i in 0..255 {
        assert_ne!(sign[i], sign[i + 1]);
    }
}

#[test]
fn sign_and_verify_ok() {
    let seed = "[9;32]";
    let signature = LamportSignature::generate_key(seed);

    let message = "sakura";
    let sign = signature.sign(message);

    let result = LamportSignature::verify(signature.public, message, sign);
    assert!(result);
}

#[test]
fn verify_wrong_message_fail() {
    let seed = "[9;32]";
    let signature = LamportSignature::generate_key(seed);

    let message = "sakura";
    let sign = signature.sign(message);

    let result = LamportSignature::verify(signature.public, "message", sign);
    assert!(!result);
}

#[test]
fn verify_wrong_sign_fail() {
    let seed = "[9;32]";
    let signature = LamportSignature::generate_key(seed);

    let message = "sakura";
    let sign = signature.public.0;

    let result = LamportSignature::verify(signature.public, message, sign);
    assert!(!result);
}

#[test]
fn generate_twice_same_key() {
    let a = LamportSignature::generate_key("orchard");
    let b = LamportSignature::generate_key("orchard");
    assert_eq!(a.public, b.public);
    assert_eq!(a.sign("pear"), b.sign("pear"));
}

#[test]
fn generate_empty_seed_accepted() {
    let a = LamportSignature::generate_key("");
    let b = LamportSignature::generate_key("");
    assert_eq!(a.public, b.public);
    let sign = a.sign("");
    assert!(LamportSignature::verify(a.public_key(), "", sign));
}

#[test]
fn public_key_getter_matches_field() {
    let kp = LamportSignature::generate_key("getter");
    assert_eq!(kp.public_key(), kp.public);
}

#[test]
fn monte_near_beast_scenario() {
    let kp = LamportSignature::generate_key("monte near beast");
    let sign = kp.sign("cucumber");
    assert_eq!(sign.len(), 256);
    assert!(LamportSignature::verify(kp.public, "cucumber", sign));
    assert!(!LamportSignature::verify(kp.public, "tomato", sign));
    assert!(!LamportSignature::verify(kp.public, "cucumber", kp.public.0));
}

#[test]
fn signature_blocks_are_not_public_blocks() {
    // each revealed block is a preimage, so it differs from both public blocks
    let kp = LamportSignature::generate_key("preimage");
    let sign = kp.sign("hello");
    for p in 0..256 {
        assert_ne!(sign[p], kp.public.0[p]);
        assert_ne!(sign[p], kp.public.1[p]);
    }
}

#[test]
fn signature_reveals_one_half_per_position() {
    // two messages signed with one key agree where their digest bits agree and
    // differ where those bits differ
    let kp = LamportSignature::generate_key("halves");
    let s1 = kp.sign("first");
    let s2 = kp.sign("second");
    let mut differing = 0;
    for p in 0..256 {
        if s1[p] != s2[p] {
            differing += 1;
        }
    }
    assert!(differing > 0);
    assert!(differing < 256);
}

#[test]
fn single_substituted_block_rejected() {
    let kp = LamportSignature::generate_key("tamper");
    let sign = kp.sign("payload");
    assert!(LamportSignature::verify(kp.public, "payload", sign));
    for p in [0usize, 1, 100, 255] {
        let mut forged = sign;
        forged[p] = [0xAB; 32];
        assert!(!LamportSignature::verify(kp.public, "payload", forged));
    }
}

#[test]
fn signature_under_other_key_rejected() {
    let a = LamportSignature::generate_key("alice");
    let b = LamportSignature::generate_key("bob");
    let sign = a.sign("note");
    assert!(!LamportSignature::verify(b.public, "note", sign));
}

#[test]
fn bit_at_least_significant_first() {
    let mut digest = [0u8; 32];
    digest[0] = 0b0000_0010;
    digest[1] = 0b1000_0001;
    digest[31] = 0b1000_0000;
    assert!(!bit_at(&digest, 0));
    assert!(bit_at(&digest, 1));
    assert!(!bit_at(&digest, 7));
    assert!(bit_at(&digest, 8));
    assert!(bit_at(&digest, 15));
    assert!(!bit_at(&digest, 14));
    assert!(bit_at(&digest, 255));
    assert!(!bit_at(&digest, 254));
}

#[test]
fn blocks_equal_compares_every_byte() {
    let a = [7u8; 32];
    let mut b = a;
    assert!(blocks_equal(&a, &b));
    b[31] = 8;
    assert!(!blocks_equal(&a, &b));
    b[31] = 7;
    b[0] = 0;
    assert!(!blocks_equal(&a, &b));
}
