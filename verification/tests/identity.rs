use ceseal::crypto::IdentityKey;
use sp_core::Pair;

const SEED: &[u8; 32] = b"12345678901234567890123456789012";

#[test]
fn a_seed_has_a_known_public_key() {
    let key = IdentityKey::from_seed_slice(SEED).ok().unwrap();
    assert_eq!(
        hex::encode(key.public()),
        "741c08a06f41c596608f6774259bd9043304adfa5d3eea62760bd9be97634d63"
    );
    assert_eq!(key.secret().as_slice(), SEED);
}

#[test]
fn a_secret_key_of_sixty_four_bytes_is_taken() {
    let pair = sp_core::sr25519::Pair::from_seed(SEED);
    let key = IdentityKey::from_seed_slice(&pair.to_raw_vec()).ok().unwrap();
    assert_eq!(key.public(), pair.public().0);
}

#[test]
fn other_lengths_are_refused() {
    for len in [0, 31, 33, 63, 65] {
        let text = IdentityKey::from_seed_slice(&vec![1; len]).err().unwrap();
        assert_eq!(text, "InvalidSeedLength");
    }
}

#[test]
fn a_signature_verifies() {
    let key = IdentityKey::from_seed_slice(SEED).ok().unwrap();
    let signature = key.sign(b"message");
    let signature = sp_core::sr25519::Signature::try_from(signature.as_slice()).unwrap();
    let public = sp_core::sr25519::Public::from(key.public());
    assert!(sp_core::sr25519::Pair::verify(&signature, b"message", &public));
    assert!(!sp_core::sr25519::Pair::verify(&signature, b"massage", &public));
}
