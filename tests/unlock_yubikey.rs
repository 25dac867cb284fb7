use disk_crypto::keyfile::KeyEncryptionKey;
use disk_crypto::params::{AuthError, EncryptedKeyfile, EncryptionParams, PasswordAuthParameters, YubikeyAuthParams, YubikeyAuthSlot};
use disk_crypto::unlock_password::{DEFAULT_M_COST, DEFAULT_T_COST, RECOMMENDED_SALT_LEN};
use disk_crypto::unlock_yubikey::{ChallengeResponse, MAX_SEED_LEN, MIN_SEED_LEN, TOKEN_ATTEMPTS, TOKEN_M_COST, TOKEN_P_COST, TOKEN_T_COST};

/// Stands in for the token: the first 20 bytes of the challenge, negated.
#[derive(Clone, Copy)]
struct MockToken;

impl ChallengeResponse for MockToken {
    fn challenge_response(&mut self, data: [u8; 32]) -> Option<[u8; 20]> {
        // Pick the first 20 bytes, then negate them
        let mut slice = data[0..20].to_vec();
        for i in slice.iter_mut() {
            *i = 255 - *i;
        }
        Some(slice.try_into().unwrap())
    }
}

/// Busy for the first `busy` calls, then answers like `MockToken`.
struct BusyToken {
    busy: usize,
    calls: usize,
}

impl ChallengeResponse for BusyToken {
    fn challenge_response(&mut self, data: [u8; 32]) -> Option<[u8; 20]> {
        self.calls += 1;
        if self.calls <= self.busy {
            return None;
        }
        MockToken.challenge_response(data)
    }
}

/// Answers something unrelated to the challenge.
struct WrongToken;

impl ChallengeResponse for WrongToken {
    fn challenge_response(&mut self, _data: [u8; 32]) -> Option<[u8; 20]> {
        Some([0x5a; 20])
    }
}

fn sequential_kek() -> KeyEncryptionKey {
    let data: Vec<u8> = (0..32).collect();
    KeyEncryptionKey { key: data.try_into().unwrap() }
}

#[test]
fn test_yubikey_round_trip() {
    let src_kek_data: Vec<u8> = (0..32).collect();
    let src_kek_data: [u8; 32] = src_kek_data.try_into().unwrap();

    let kek = KeyEncryptionKey { key: src_kek_data };

    let pin = String::from("1234");

    let params = YubikeyAuthParams::new_with_slots(10, pin.clone(), MockToken, &kek).unwrap();

    let dkek = params.decrypt(pin, MockToken).unwrap();
    assert_eq!(dkek.key, src_kek_data);
}

#[test]
fn every_slot_unlocks_to_the_same_kek() {
    let pin = String::from("4321");
    let params = YubikeyAuthParams::new_with_slots(4, pin.clone(), MockToken, &sequential_kek()).unwrap();
    assert_eq!(params.slots.len(), 4);
    for slot in &params.slots {
        assert!(slot.challenge_seed.len() >= MIN_SEED_LEN && slot.challenge_seed.len() < MAX_SEED_LEN);
        assert_eq!((slot.m_cost, slot.t_cost, slot.p_cost), (TOKEN_M_COST, TOKEN_T_COST, TOKEN_P_COST));
        assert_eq!(slot.salt.len(), RECOMMENDED_SALT_LEN);
        assert!(slot.t_cost < DEFAULT_T_COST && slot.m_cost <= DEFAULT_M_COST);
        assert_eq!(slot.decrypt(&pin, &mut MockToken).unwrap().key, sequential_kek().key);
    }
    for _ in 0..8 {
        assert_eq!(params.decrypt(pin.clone(), MockToken).unwrap().key, sequential_kek().key);
    }
}

#[test]
fn slot_challenge_depends_on_pin_and_seed() {
    let params = YubikeyAuthParams::new_with_slots(2, "1".to_string(), MockToken, &sequential_kek()).unwrap();
    let a = params.slots[0].challenge("1");
    assert_eq!(a, params.slots[0].challenge("1"));
    assert_ne!(a, params.slots[0].challenge("2"));
    assert_ne!(a, params.slots[1].challenge("1"));
}

#[test]
fn slot_challenge_is_sha256_of_seed_and_pin() {
    let slot = YubikeyAuthSlot {
        challenge_seed: b"ab".to_vec(),
        m_cost: TOKEN_M_COST,
        t_cost: TOKEN_T_COST,
        p_cost: TOKEN_P_COST,
        salt: vec![0; 16],
        encrypted_kek: sequential_kek().encrypt([0; 32]),
    };
    // SHA-256("abc")
    let expected: [u8; 32] = [
        0xba, 0x78, 0x16, 0xbf, 0x8f, 0x01, 0xcf, 0xea, 0x41, 0x41, 0x40, 0xde, 0x5d, 0xae, 0x22, 0x23,
        0xb0, 0x03, 0x61, 0xa3, 0x96, 0x17, 0x7a, 0x9c, 0xb4, 0x10, 0xff, 0x61, 0xf2, 0x00, 0x15, 0xad,
    ];
    assert_eq!(slot.challenge("c"), expected);
}

#[test]
fn wrong_pin_fails() {
    let params = YubikeyAuthParams::new_with_slots(1, "1234".to_string(), MockToken, &sequential_kek()).unwrap();
    assert!(matches!(params.decrypt("1235".to_string(), MockToken), Err(AuthError::AuthenticationFailed)));
    assert!(matches!(params.decrypt("1234".to_string(), WrongToken), Err(AuthError::AuthenticationFailed)));
}

#[test]
fn busy_token_is_retried() {
    let params = YubikeyAuthParams::new_with_slots(1, "0".to_string(), MockToken, &sequential_kek()).unwrap();
    let mut token = BusyToken { busy: TOKEN_ATTEMPTS - 1, calls: 0 };
    assert_eq!(params.slots[0].decrypt(&"0".to_string(), &mut token).unwrap().key, sequential_kek().key);
    assert_eq!(token.calls, TOKEN_ATTEMPTS);
}

#[test]
fn absent_token_is_unavailable() {
    let params = YubikeyAuthParams::new_with_slots(1, "0".to_string(), MockToken, &sequential_kek()).unwrap();
    let mut token = BusyToken { busy: usize::MAX, calls: 0 };
    assert!(matches!(params.slots[0].decrypt(&"0".to_string(), &mut token), Err(AuthError::TokenUnavailable)));
    assert_eq!(token.calls, TOKEN_ATTEMPTS);
}

#[test]
fn enrollment_without_token_fails() {
    let token = BusyToken { busy: usize::MAX, calls: 0 };
    assert!(matches!(
        YubikeyAuthParams::new_with_slots(2, "0".to_string(), token, &sequential_kek()),
        Err(AuthError::EnrollmentFailed)
    ));
    let ok = YubikeyAuthParams::new_with_slots(0, "0".to_string(), BusyToken { busy: usize::MAX, calls: 0 }, &sequential_kek());
    assert_eq!(ok.unwrap().slots.len(), 0);
}

#[test]
fn no_slots_fail_authentication() {
    let params = YubikeyAuthParams { slots: vec![] };
    assert!(matches!(params.decrypt("0".to_string(), MockToken), Err(AuthError::AuthenticationFailed)));
}

#[test]
fn corrupt_slot_parameters_are_reported() {
    let mut params = YubikeyAuthParams::new_with_slots(1, "0".to_string(), MockToken, &sequential_kek()).unwrap();
    params.slots[0].m_cost = 7;
    assert!(matches!(params.slots[0].decrypt_with_response([1; 20]), Err(AuthError::InvalidParameters)));
}

#[test]
fn keyfile_from_pin() {
    let kek = sequential_kek();
    let keyfile: Vec<u8> = vec![0xde, 0xad, 0xbe, 0xef];
    let config = EncryptionParams {
        keyfile: EncryptedKeyfile::seal_under(&keyfile, &kek),
        password_auth: PasswordAuthParameters::new_unsolveable(&kek),
        yubikey_auth: YubikeyAuthParams::new_with_slots(3, "77".to_string(), MockToken, &kek).unwrap(),
    };
    assert_eq!(config.try_keyfile_from_pin("77".to_string(), MockToken), Ok(keyfile));
    assert_eq!(config.try_keyfile_from_pin("78".to_string(), MockToken), Err(AuthError::AuthenticationFailed));
    let token = BusyToken { busy: usize::MAX, calls: 0 };
    assert_eq!(config.try_keyfile_from_pin("77".to_string(), token), Err(AuthError::TokenUnavailable));
}

#[test]
fn slot_from_known_response() {
    let seed = vec![3u8; 64];
    let salt = vec![4u8; 16];
    let response = [9u8; 20];
    let slot = YubikeyAuthSlot::enroll_with_response(seed.clone(), salt.clone(), response, &sequential_kek());
    assert_eq!(slot.challenge_seed, seed);
    assert_eq!(slot.salt, salt);
    assert_eq!((slot.m_cost, slot.t_cost, slot.p_cost), (TOKEN_M_COST, TOKEN_T_COST, TOKEN_P_COST));
    assert_eq!(slot.decrypt_with_response(response).unwrap().key, sequential_kek().key);
    assert!(matches!(slot.decrypt_with_response([8u8; 20]), Err(AuthError::AuthenticationFailed)));
}
