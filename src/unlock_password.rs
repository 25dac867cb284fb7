//! The password factor: a wrapping key derived from the password with Argon2id,
//! under which the key-encrypting key is sealed.
use vstd::prelude::*;
use vstd::utf8::{encode_utf8, valid_utf8, encode_utf8_valid_utf8};
use crate::keyfile::{kek_result, seals_exactly, unwrap_kek_spec, KeyEncryptionKey};
use crate::params::{AuthError, PasswordAuthParameters};
use crate::primitives::{argon2_accepts, argon2id, argon2id_of, random_bytes, seals_to, wipe_bytes, wipe_key, wipe_text};

verus! {

/// Argon2's default memory cost, in KiB.
pub const DEFAULT_M_COST: u32 = 19456;

/// Argon2's default number of passes.
pub const DEFAULT_T_COST: u32 = 2;

/// Argon2's default degree of parallelism.
pub const DEFAULT_P_COST: u32 = 1;

/// Argon2's recommended salt length, in bytes.
pub const RECOMMENDED_SALT_LEN: usize = 16;

/// Length of the byte string that a factor which no text can unlock is
/// enrolled from.
pub const UNSOLVABLE_LEN: usize = 32;

/// A byte that never occurs in UTF-8 encoded text.
pub const NOT_UTF8: u8 = 0xFF;

impl PasswordAuthParameters {
    /// The wrapping key that `password` derives under these parameters.
    pub open spec fn derived_key(&self, password: Seq<u8>) -> Seq<u8> {
        argon2id_of(self.m_cost, self.t_cost, self.p_cost, password, self.salt@)
    }

    /// These parameters were enrolled from `password` for the key `kek`.
    pub open spec fn enrolled_from(&self, password: Seq<u8>, kek: Seq<u8>) -> bool {
        &&& argon2_accepts(self.m_cost, self.t_cost, self.p_cost, password.len(), self.salt@.len())
        &&& seals_exactly(self.derived_key(password), self.encrypted_kek.nonce@, self.encrypted_kek.ciphertext@, kek)
    }

    /// What unlocking with the bytes of a password gives.
    pub open spec fn decrypt_spec(&self, password: Seq<u8>) -> Result<Seq<u8>, AuthError> {
        if !argon2_accepts(self.m_cost, self.t_cost, self.p_cost, password.len(), self.salt@.len()) {
            Err(AuthError::InvalidParameters)
        } else {
            unwrap_kek_spec(self.derived_key(password), self.encrypted_kek.nonce@, self.encrypted_kek.ciphertext@)
        }
    }

    /// Enrolls `password` for `kek`, with Argon2's default costs and a fresh salt.
    pub fn new(password: String, kek: &KeyEncryptionKey) -> (r: Self)
        requires
            encode_utf8(password@).len() <= 0xFFFF_FFFF,
        ensures
            r.enrolled_from(encode_utf8(password@), kek@),
            r.m_cost == DEFAULT_M_COST,
            r.t_cost == DEFAULT_T_COST,
            r.p_cost == DEFAULT_P_COST,
            r.salt@.len() == RECOMMENDED_SALT_LEN,
    {
        // Text with Unicode combining characters may have several encodings of
        // the same meaning; the bytes are hashed as they are.
        let mut typed = password;
        let r = Self::new_internal(typed.as_str().as_bytes(), kek);
        wipe_text(&mut typed);
        r
    }

    /// Enrolls a factor that no text can unlock: it is derived from a byte
    /// string that starts with a byte UTF-8 never uses.
    pub fn new_unsolveable(kek: &KeyEncryptionKey) -> (r: Self)
        ensures
            exists|password: Seq<u8>| !valid_utf8(password) && r.enrolled_from(password, kek@),
    {
        let mut fake_password = random_bytes(UNSOLVABLE_LEN);
        fake_password.set(0, NOT_UTF8);
        proof {
            lemma_leading_ff_not_utf8(fake_password@);
        }
        let r = Self::new_internal(fake_password.as_slice(), kek);
        wipe_bytes(&mut fake_password);
        r
    }

    fn new_internal(password: &[u8], kek: &KeyEncryptionKey) -> (r: Self)
        requires
            password@.len() <= 0xFFFF_FFFF,
        ensures
            r.enrolled_from(password@, kek@),
            r.m_cost == DEFAULT_M_COST,
            r.t_cost == DEFAULT_T_COST,
            r.p_cost == DEFAULT_P_COST,
            r.salt@.len() == RECOMMENDED_SALT_LEN,
    {
        let m_cost = DEFAULT_M_COST;
        let t_cost = DEFAULT_T_COST;
        let p_cost = DEFAULT_P_COST;
        let salt = random_bytes(RECOMMENDED_SALT_LEN);
        let key = argon2id(m_cost, t_cost, p_cost, password, salt.as_slice());
        let key = match key {
            Some(k) => k,
            None => {
                assert(false);
                [0u8; 32]
            },
        };
        let mut key = key;
        let encrypted_kek = kek.encrypt(key);
        wipe_key(&mut key);
        PasswordAuthParameters { m_cost, t_cost, p_cost, salt, encrypted_kek }
    }

    /// Recovers the key-encrypting key from `password`.
    pub fn decrypt(&self, password: String) -> (r: Result<KeyEncryptionKey, AuthError>)
        ensures
            kek_result(r) == self.decrypt_spec(encode_utf8(password@)),
    {
        let mut typed = password;
        let r = if self.p_cost > 0xFF_FFFF {
            Err(AuthError::InvalidParameters)
        } else {
            match argon2id(self.m_cost, self.t_cost, self.p_cost, typed.as_str().as_bytes(), self.salt.as_slice()) {
                Some(key) => {
                    let mut key = key;
                    let r = self.encrypted_kek.decrypt(key);
                    wipe_key(&mut key);
                    r
                },
                None => Err(AuthError::InvalidParameters),
            }
        };
        wipe_text(&mut typed);
        r
    }
}

proof fn lemma_leading_ff_not_utf8(bytes: Seq<u8>)
    requires
        bytes.len() > 0,
        bytes[0] == NOT_UTF8,
    ensures
        !valid_utf8(bytes),
{
}

/// Unlocking with the password that the parameters were enrolled from gives
/// back the enrolled key.
pub proof fn lemma_password_round_trip(params: PasswordAuthParameters, password: Seq<u8>, kek: Seq<u8>)
    requires
        params.enrolled_from(password, kek),
        kek.len() == 32,
    ensures
        params.decrypt_spec(password) == Ok::<Seq<u8>, AuthError>(kek),
{
    crate::keyfile::lemma_open_after_seal(
        params.derived_key(password),
        params.encrypted_kek.nonce@,
        params.encrypted_kek.ciphertext@,
        kek,
    );
}

/// A password unlock never hands back a key that was not sealed under the key
/// derived from the password given: whatever it returns, the stored ciphertext
/// authenticates as exactly those 32 bytes under that key.
pub proof fn lemma_password_unlock_is_authentic(params: PasswordAuthParameters, password: Seq<u8>, kek: Seq<u8>)
    requires
        params.decrypt_spec(password) == Ok::<Seq<u8>, AuthError>(kek),
    ensures
        kek.len() == 32,
        seals_to(params.derived_key(password), params.encrypted_kek.nonce@, kek, params.encrypted_kek.ciphertext@),
{
}

/// No text encodes to a byte string that is not valid UTF-8, so a factor
/// enrolled from such a string is never unlocked with the bytes of any text.
pub proof fn lemma_text_never_matches_invalid_utf8(text: Seq<char>, bytes: Seq<u8>)
    requires
        !valid_utf8(bytes),
    ensures
        encode_utf8(text) != bytes,
{
    encode_utf8_valid_utf8(text);
}

} // verus!
