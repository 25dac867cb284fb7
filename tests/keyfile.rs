use std::collections::HashSet;

use disk_crypto::keyfile::KeyEncryptionKey;
use disk_crypto::params::{AuthError, EncryptedKeyfile};
use rand::Rng;

fn sequential_kek() -> KeyEncryptionKey {
    let data: Vec<u8> = (0..32).collect();
    KeyEncryptionKey { key: data.try_into().unwrap() }
}

#[test]
fn test_keyfile_round_trip() {
    let src_keyfile: Vec<u8> = vec![1, 2, 3, 4, 5, 6, 7, 8, 9, 10];
    let (enc_keyfile, kek) = EncryptedKeyfile::new(src_keyfile.clone());

    let decrypted_keyfile = enc_keyfile.decrypt(kek).unwrap();
    assert_eq!(src_keyfile, decrypted_keyfile);
}

#[test]
fn test_kek_round_trip() {
    let src_kek_data: Vec<u8> = (0..32).collect();
    let src_kek_data: [u8; 32] = src_kek_data.try_into().unwrap();

    let kek = KeyEncryptionKey { key: src_kek_data };

    let mut rng = rand::rngs::OsRng::default();

    let kek_key: [u8; 32] = rng.gen();
    let ekek = kek.encrypt(kek_key);

    let dkek = ekek.decrypt(kek_key).unwrap();
    assert_eq!(dkek.key, src_kek_data);
}

#[test]
fn keyfile_round_trip_various_lengths() {
    let mut rng = rand::rngs::OsRng::default();
    for len in [0usize, 1, 15, 16, 17, 63, 64, 65, 1000, 4096] {
        let plain: Vec<u8> = (0..len).map(|_| rng.gen()).collect();
        let (enc, kek) = EncryptedKeyfile::new(plain.clone());
        assert_eq!(enc.encrypted_keyfile_content.len(), len + 16);
        assert_eq!(enc.decrypt(kek).unwrap(), plain);
    }
}

#[test]
fn sealed_keyfile_is_not_the_plaintext() {
    let plain: Vec<u8> = (1..=64).collect();
    let enc = EncryptedKeyfile::seal_under(&plain, &sequential_kek());
    assert_ne!(enc.encrypted_keyfile_content[..64].to_vec(), plain);
    assert_eq!(enc.decrypt(sequential_kek()).unwrap(), plain);
}

#[test]
fn keyfile_with_wrong_kek_fails() {
    let (enc, _kek) = EncryptedKeyfile::new(vec![1, 2, 3]);
    assert_eq!(enc.decrypt(sequential_kek()), Err(AuthError::AuthenticationFailed));
}

#[test]
fn tampered_keyfile_fails() {
    let (mut enc, kek) = EncryptedKeyfile::new(vec![9; 40]);
    enc.encrypted_keyfile_content[3] ^= 1;
    assert_eq!(enc.decrypt(kek), Err(AuthError::AuthenticationFailed));
}

#[test]
fn truncated_ciphertext_fails() {
    let (mut enc, kek) = EncryptedKeyfile::new(vec![]);
    enc.encrypted_keyfile_content.truncate(15);
    assert_eq!(enc.decrypt(kek), Err(AuthError::AuthenticationFailed));
}

#[test]
fn kek_with_wrong_key_fails() {
    let ekek = sequential_kek().encrypt([7; 32]);
    assert_eq!(ekek.ciphertext.len(), 48);
    assert!(matches!(ekek.decrypt([8; 32]), Err(AuthError::AuthenticationFailed)));
    assert_eq!(ekek.decrypt([7; 32]).unwrap().key, sequential_kek().key);
}

#[test]
fn kek_sealed_from_wrong_length_fails() {
    // A ciphertext that authenticates but does not hold 32 bytes is no key.
    let short = EncryptedKeyfile::seal_under(&vec![5; 31], &KeyEncryptionKey { key: [3; 32] });
    let ekek = disk_crypto::params::EncryptedKek { ciphertext: short.encrypted_keyfile_content, nonce: short.nonce };
    assert!(matches!(ekek.decrypt([3; 32]), Err(AuthError::AuthenticationFailed)));
}

#[test]
fn wrap_nonces_are_unique() {
    let kek = sequential_kek();
    let key = [42u8; 32];
    let mut nonces = HashSet::new();
    let mut ciphertexts = HashSet::new();
    for _ in 0..200 {
        let ekek = kek.encrypt(key);
        nonces.insert(ekek.nonce);
        ciphertexts.insert(ekek.ciphertext);
    }
    assert_eq!(nonces.len(), 200);
    assert_eq!(ciphertexts.len(), 200);
}
