//! The cryptographic building blocks this library calls into: XChaCha20-Poly1305,
//! Argon2id, SHA-256 and the operating system's random source.
//!
//! Each function here is trusted: Verus believes its contract, which states
//! what the outside crate's source shows of the call.
use vstd::prelude::*;
use chacha20poly1305::aead::Aead;
use chacha20poly1305::KeyInit;
use rand::Rng;
use rand::RngCore;
use sha2::Digest;

verus! {

/// Length in bytes of the Poly1305 authentication tag appended to every ciphertext.
pub const TAG_LEN: usize = 16;

/// The longest message XChaCha20-Poly1305 seals or opens, in bytes: the 32-bit
/// block counter starts at 1 (block 0 keys Poly1305), so 2^32 - 2 blocks of 64
/// bytes of keystream remain.
pub const MAX_MESSAGE_LEN: u64 = 274_877_906_816;

/// XChaCha20-Poly1305 encryption of `plaintext` under `key` and `nonce`, with no
/// associated data: the ciphertext followed by its tag.
pub uninterp spec fn xchacha_seal(key: Seq<u8>, nonce: Seq<u8>, plaintext: Seq<u8>) -> Seq<u8>;

/// The 32-byte Argon2id (version 0x13) output for the given cost parameters,
/// password and salt.
pub uninterp spec fn argon2id_of(m_cost: u32, t_cost: u32, p_cost: u32, password: Seq<u8>, salt: Seq<u8>) -> Seq<u8>;

/// The SHA-256 digest of `data`.
pub uninterp spec fn sha256_of(data: Seq<u8>) -> Seq<u8>;

/// A message short enough for the cipher's keystream.
pub open spec fn sealable(len: nat) -> bool {
    len <= MAX_MESSAGE_LEN
}

/// `ciphertext` is `plaintext` sealed under `key` and `nonce`: the plaintext's
/// length plus the tag.
pub open spec fn seals_to(key: Seq<u8>, nonce: Seq<u8>, plaintext: Seq<u8>, ciphertext: Seq<u8>) -> bool {
    &&& sealable(plaintext.len())
    &&& ciphertext.len() == plaintext.len() + TAG_LEN
    &&& xchacha_seal(key, nonce, plaintext) == ciphertext
}

/// What decrypting `ciphertext` under `key` and `nonce` gives: the plaintext that
/// seals to it, if there is one.
pub open spec fn opens_to(key: Seq<u8>, nonce: Seq<u8>, ciphertext: Seq<u8>) -> Option<Seq<u8>> {
    if exists|p: Seq<u8>| seals_to(key, nonce, p, ciphertext) {
        Some(choose|p: Seq<u8>| seals_to(key, nonce, p, ciphertext))
    } else {
        None
    }
}

/// Cost parameters that Argon2 accepts (`argon2::Params::new`).
pub open spec fn argon2_params_valid(m_cost: u32, t_cost: u32, p_cost: u32) -> bool {
    &&& 1 <= p_cost <= 0xFF_FFFF
    &&& m_cost >= 8
    &&& m_cost >= 8 * p_cost
    &&& t_cost >= 1
}

/// Inputs for which Argon2id hashing succeeds.
pub open spec fn argon2_accepts(m_cost: u32, t_cost: u32, p_cost: u32, password_len: nat, salt_len: nat) -> bool {
    &&& argon2_params_valid(m_cost, t_cost, p_cost)
    &&& password_len <= 0xFFFF_FFFF
    &&& 8 <= salt_len <= 0xFFFF_FFFF
}

/// Relies on chacha20poly1305's `XChaCha20Poly1305::encrypt` (through `aead::Aead`):
/// it is a function of key, nonce and plaintext and appends a 16-byte tag. A
/// message longer than `MAX_MESSAGE_LEN` exhausts the keystream (an error, or a
/// panic in cipher's `apply_keystream`), so it is excluded. Under one key and
/// nonce the keystream is fixed, so no other plaintext gives the same
/// ciphertext.
#[verifier::external_body]
pub(crate) fn seal(key: &[u8; 32], nonce: &[u8; 24], plaintext: &[u8]) -> (r: Vec<u8>)
    requires
        sealable(plaintext@.len()),
    ensures
        seals_to(key@, nonce@, plaintext@, r@),
        forall|p: Seq<u8>| r@ == #[trigger] xchacha_seal(key@, nonce@, p) && sealable(p.len()) ==> p == plaintext@,
{
    let cipher = chacha20poly1305::XChaCha20Poly1305::new(&(*key).into());
    cipher.encrypt(&(*nonce).into(), plaintext).unwrap()
}

/// Relies on chacha20poly1305's `XChaCha20Poly1305::decrypt` (through `aead::Aead`):
/// it checks the tag and returns the plaintext exactly when the ciphertext is
/// that plaintext sealed under the same key and nonce. A ciphertext whose
/// message part is longer than `MAX_MESSAGE_LEN` can exhaust the keystream
/// after the tag checks, so it is excluded.
#[verifier::external_body]
pub(crate) fn open(key: &[u8; 32], nonce: &[u8; 24], ciphertext: &[u8]) -> (r: Option<Vec<u8>>)
    requires
        ciphertext@.len() <= MAX_MESSAGE_LEN + TAG_LEN,
    ensures
        r is Some ==> seals_to(key@, nonce@, r->Some_0@, ciphertext@),
        forall|p: Seq<u8>| #[trigger] seals_to(key@, nonce@, p, ciphertext@) ==> r is Some && r->Some_0@ == p,
{
    let cipher = chacha20poly1305::XChaCha20Poly1305::new(&(*key).into());
    cipher.decrypt(&(*nonce).into(), ciphertext).ok()
}

/// Relies on argon2's `Params::new`, `Argon2::new` and `Argon2::hash_password_into`
/// (Argon2id, version 0x13, 32-byte output): the first and the last fail
/// exactly on the inputs that `argon2_accepts` leaves out. `Params::new` computes `8 * p_cost` in `u32`
/// before it checks the upper bound of `p_cost`, so that bound is required.
#[verifier::external_body]
pub(crate) fn argon2id(m_cost: u32, t_cost: u32, p_cost: u32, password: &[u8], salt: &[u8]) -> (r: Option<[u8; 32]>)
    requires
        p_cost <= 0xFF_FFFF,
    ensures
        r is Some <==> argon2_accepts(m_cost, t_cost, p_cost, password@.len(), salt@.len()),
        r is Some ==> r->Some_0@ == argon2id_of(m_cost, t_cost, p_cost, password@, salt@),
{
    let params = argon2::Params::new(m_cost, t_cost, p_cost, Some(32)).ok()?;
    let kdf = argon2::Argon2::new(argon2::Algorithm::Argon2id, argon2::Version::V0x13, params);
    let mut out = [0u8; 32];
    kdf.hash_password_into(password, salt, &mut out).ok()?;
    Some(out)
}

/// Relies on sha2's `Sha256::digest`.
#[verifier::external_body]
pub(crate) fn sha256(data: &[u8]) -> (r: [u8; 32])
    ensures
        r@ == sha256_of(data@),
{
    sha2::Sha256::digest(data).into()
}

/// Relies on zeroize's `Zeroize` for `[u8; 32]` (re-exported by secrecy):
/// volatile writes of zero to every byte.
#[verifier::external_body]
pub(crate) fn wipe_key(key: &mut [u8; 32])
    ensures
        final(key)@ == Seq::new(32, |i: int| 0u8),
    opens_invariants none
    no_unwind
{
    secrecy::zeroize::Zeroize::zeroize(key)
}

/// Relies on zeroize's `Zeroize` for `Vec<u8>` (re-exported by secrecy): zeroes
/// the contents and the spare capacity, then clears the vector.
#[verifier::external_body]
pub(crate) fn wipe_bytes(bytes: &mut Vec<u8>)
    ensures
        final(bytes)@.len() == 0,
    opens_invariants none
    no_unwind
{
    secrecy::zeroize::Zeroize::zeroize(bytes)
}

/// Relies on zeroize's `Zeroize` for `String` (re-exported by secrecy): zeroes
/// the bytes and the spare capacity, then clears the string.
#[verifier::external_body]
pub(crate) fn wipe_text(text: &mut String)
    ensures
        final(text)@.len() == 0,
    opens_invariants none
    no_unwind
{
    secrecy::zeroize::Zeroize::zeroize(text)
}

/// Relies on rand's `RngCore::fill_bytes` on `OsRng`: `n` bytes from the
/// operating system's secure random source. Nothing is known of their values.
#[verifier::external_body]
pub(crate) fn random_bytes(n: usize) -> (r: Vec<u8>)
    ensures
        r@.len() == n,
{
    let mut buf = vec![0u8; n];
    rand::rngs::OsRng.fill_bytes(&mut buf);
    buf
}

/// Relies on rand's `Rng::gen_range` on `OsRng`: a uniform draw from `lo..hi`,
/// which panics on an empty range.
#[verifier::external_body]
pub(crate) fn random_in_range(lo: usize, hi: usize) -> (r: usize)
    requires
        lo < hi,
    ensures
        lo <= r < hi,
{
    rand::rngs::OsRng.gen_range(lo..hi)
}

} // verus!
