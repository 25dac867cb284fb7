//! The envelope record: one encrypted keyfile and the descriptors of every
//! factor that can recover its key-encrypting key.
use vstd::prelude::*;

verus! {

/// The whole envelope: the encrypted keyfile, the password factor and the
/// hardware-token slots.
#[derive(Clone)]
pub struct EncryptionParams {
    pub keyfile: EncryptedKeyfile,
    pub password_auth: PasswordAuthParameters,
    pub yubikey_auth: YubikeyAuthParams,
}

/// The disk keyfile, encrypted under the key-encrypting key.
#[derive(Clone)]
pub struct EncryptedKeyfile {
    /// The keyfile sealed with XChaCha20-Poly1305, tag appended.
    pub encrypted_keyfile_content: Vec<u8>,
    /// The XChaCha20 nonce.
    pub nonce: [u8; 24],
}

/// The password factor: Argon2id cost parameters, salt, and the key-encrypting
/// key sealed under the key derived from the password.
#[derive(Clone)]
pub struct PasswordAuthParameters {
    pub m_cost: u32,
    pub t_cost: u32,
    pub p_cost: u32,
    /// Public random value hashed together with the password.
    pub salt: Vec<u8>,
    /// The key-encrypting key, sealed under the password-derived key.
    pub encrypted_kek: EncryptedKek,
}

/// The hardware-token factor: any number of independently enrolled slots.
#[derive(Clone)]
pub struct YubikeyAuthParams {
    pub slots: Vec<YubikeyAuthSlot>,
}

/// One hardware-token slot.
#[derive(Clone)]
pub struct YubikeyAuthSlot {
    /// Concatenated with the PIN and hashed, this gives the token's challenge.
    pub challenge_seed: Vec<u8>,
    pub m_cost: u32,
    pub t_cost: u32,
    pub p_cost: u32,
    /// Public random value hashed together with the token's response.
    pub salt: Vec<u8>,
    /// The key-encrypting key, sealed under the response-derived key.
    pub encrypted_kek: EncryptedKek,
}

/// A key-encrypting key sealed under a factor's key.
#[derive(Clone)]
pub struct EncryptedKek {
    pub ciphertext: Vec<u8>,
    pub nonce: [u8; 24],
}

/// Why an unlock or an enrollment did not succeed.
#[derive(Clone, Copy, Debug, PartialEq, Eq, Structural)]
pub enum AuthError {
    /// Wrong credential or corrupted ciphertext; the two are not told apart.
    AuthenticationFailed,
    /// The token did not answer its challenge, however often it was asked.
    TokenUnavailable,
    /// The token did not answer during enrollment.
    EnrollmentFailed,
    /// The stored key-derivation parameters are ones the KDF refuses: the
    /// envelope itself is broken.
    InvalidParameters,
}

} // verus!
