//! The key-encrypting key, and sealing the keyfile and the key-encrypting key
//! with XChaCha20-Poly1305 under a fresh random nonce.
use vstd::prelude::*;
use crate::params::{AuthError, EncryptedKek, EncryptedKeyfile};
use crate::primitives::{open, opens_to, random_bytes, seal, sealable, seals_to, wipe_bytes, wipe_key, MAX_MESSAGE_LEN, TAG_LEN};

verus! {

/// `ciphertext` is `plaintext` sealed under `key` and `nonce`, and no other
/// plaintext seals to it.
pub open spec fn seals_exactly(key: Seq<u8>, nonce: Seq<u8>, ciphertext: Seq<u8>, plaintext: Seq<u8>) -> bool {
    &&& seals_to(key, nonce, plaintext, ciphertext)
    &&& forall|q: Seq<u8>| #[trigger] seals_to(key, nonce, q, ciphertext) ==> q == plaintext
}

/// Decrypting what was sealed gives back the plaintext.
pub proof fn lemma_open_after_seal(key: Seq<u8>, nonce: Seq<u8>, ciphertext: Seq<u8>, plaintext: Seq<u8>)
    requires
        seals_exactly(key, nonce, ciphertext, plaintext),
    ensures
        opens_to(key, nonce, ciphertext) == Some(plaintext),
{
    assert(seals_to(key, nonce, plaintext, ciphertext));
}

/// Copies `v` into an array of its length.
pub(crate) fn to_array<const N: usize>(v: &[u8]) -> (r: [u8; N])
    requires
        v@.len() == N,
    ensures
        r@ == v@,
{
    let mut a: [u8; N] = [0u8; N];
    let mut i: usize = 0;
    while i < N
        invariant
            i <= N,
            v@.len() == N,
            forall|j: int| 0 <= j < i ==> a@[j] == v@[j],
        decreases N - i,
    {
        a[i] = v[i];
        i = i + 1;
    }
    assert(a@ =~= v@);
    a
}

/// A fresh random XChaCha20 nonce.
pub(crate) fn random_nonce() -> (r: [u8; 24]) {
    let v = random_bytes(24);
    to_array::<24>(v.as_slice())
}

/// The key that decrypts the keyfile. Each factor holds a sealed copy of it.
/// It is overwritten with zeros when dropped.
pub struct KeyEncryptionKey {
    pub key: [u8; 32],
}

impl Drop for KeyEncryptionKey {
    fn drop(&mut self)
        opens_invariants none
        no_unwind
    {
        wipe_key(&mut self.key);
    }
}

impl View for KeyEncryptionKey {
    type V = Seq<u8>;

    open spec fn view(&self) -> Seq<u8> {
        self.key@
    }
}

/// What unwrapping a sealed key-encrypting key gives: the 32 bytes sealed in it,
/// or `AuthenticationFailed`.
pub open spec fn unwrap_kek_spec(key: Seq<u8>, nonce: Seq<u8>, ciphertext: Seq<u8>) -> Result<Seq<u8>, AuthError> {
    match opens_to(key, nonce, ciphertext) {
        Some(p) => if p.len() == 32 {
            Ok(p)
        } else {
            Err(AuthError::AuthenticationFailed)
        },
        None => Err(AuthError::AuthenticationFailed),
    }
}

/// The view of an unlock result: the key's bytes, or the error.
pub open spec fn kek_result(r: Result<KeyEncryptionKey, AuthError>) -> Result<Seq<u8>, AuthError> {
    match r {
        Ok(k) => Ok(k@),
        Err(e) => Err(e),
    }
}

/// Decrypts `ciphertext` and states exactly what came back.
fn open_exact(key: &[u8; 32], nonce: &[u8; 24], ciphertext: &[u8]) -> (r: Option<Vec<u8>>)
    ensures
        match opens_to(key@, nonce@, ciphertext@) {
            Some(p) => r is Some && r->Some_0@ == p,
            None => r is None,
        },
{
    if ciphertext.len() as u64 > MAX_MESSAGE_LEN + TAG_LEN as u64 {
        // No message the cipher can seal is this long.
        return None;
    }
    let r = open(key, nonce, ciphertext);
    if r.is_some() {
        assert(seals_to(key@, nonce@, r->Some_0@, ciphertext@));
    }
    r
}

impl EncryptedKeyfile {
    /// Seals `plain_keyfile_content` under a freshly generated key-encrypting
    /// key and nonce, and returns both. The plaintext is overwritten once sealed.
    pub fn new(plain_keyfile_content: Vec<u8>) -> (r: (Self, KeyEncryptionKey))
        requires
            sealable(plain_keyfile_content@.len()),
        ensures
            seals_exactly(r.1@, r.0.nonce@, r.0.encrypted_keyfile_content@, plain_keyfile_content@),
            r.0.encrypted_keyfile_content@.len() == plain_keyfile_content@.len() + TAG_LEN,
    {
        let key_bytes = random_bytes(32);
        let kek = KeyEncryptionKey { key: to_array::<32>(key_bytes.as_slice()) };
        let mut plain = plain_keyfile_content;
        let encrypted = Self::seal_under(&plain, &kek);
        wipe_bytes(&mut plain);
        (encrypted, kek)
    }

    /// Seals `plain_keyfile_content` under `kek` with a fresh random nonce.
    pub fn seal_under(plain_keyfile_content: &Vec<u8>, kek: &KeyEncryptionKey) -> (r: Self)
        requires
            sealable(plain_keyfile_content@.len()),
        ensures
            seals_exactly(kek@, r.nonce@, r.encrypted_keyfile_content@, plain_keyfile_content@),
            r.encrypted_keyfile_content@.len() == plain_keyfile_content@.len() + TAG_LEN,
    {
        let nonce = random_nonce();
        let ciphertext = seal(&kek.key, &nonce, plain_keyfile_content.as_slice());
        EncryptedKeyfile { encrypted_keyfile_content: ciphertext, nonce }
    }

    /// What decrypting with a key-encrypting key gives: the sealed keyfile, or
    /// `AuthenticationFailed`.
    pub open spec fn decrypt_spec(&self, kek: Seq<u8>) -> Result<Seq<u8>, AuthError> {
        match opens_to(kek, self.nonce@, self.encrypted_keyfile_content@) {
            Some(p) => Ok(p),
            None => Err(AuthError::AuthenticationFailed),
        }
    }

    /// Decrypts the keyfile with `kek`.
    pub fn decrypt(&self, kek: KeyEncryptionKey) -> (r: Result<Vec<u8>, AuthError>)
        ensures
            match r {
                Ok(v) => self.decrypt_spec(kek@) == Ok::<Seq<u8>, AuthError>(v@),
                Err(e) => self.decrypt_spec(kek@) == Err::<Seq<u8>, AuthError>(e),
            },
    {
        match open_exact(&kek.key, &self.nonce, self.encrypted_keyfile_content.as_slice()) {
            Some(p) => Ok(p),
            None => Err(AuthError::AuthenticationFailed),
        }
    }
}

impl KeyEncryptionKey {
    /// Seals this key under `key` with a fresh random nonce.
    pub fn encrypt(&self, key: [u8; 32]) -> (r: EncryptedKek)
        ensures
            seals_exactly(key@, r.nonce@, r.ciphertext@, self@),
            r.ciphertext@.len() == 32 + TAG_LEN,
    {
        let nonce = random_nonce();
        let ciphertext = seal(&key, &nonce, self.key.as_slice());
        EncryptedKek { ciphertext, nonce }
    }
}

impl EncryptedKek {
    /// Unseals the key-encrypting key with `key`.
    pub fn decrypt(&self, key: [u8; 32]) -> (r: Result<KeyEncryptionKey, AuthError>)
        ensures
            kek_result(r) == unwrap_kek_spec(key@, self.nonce@, self.ciphertext@),
    {
        match open_exact(&key, &self.nonce, self.ciphertext.as_slice()) {
            Some(p) => {
                let mut plaintext = p;
                let r = if plaintext.len() == 32 {
                    Ok(KeyEncryptionKey { key: to_array::<32>(plaintext.as_slice()) })
                } else {
                    Err(AuthError::AuthenticationFailed)
                };
                wipe_bytes(&mut plaintext);
                r
            },
            None => Err(AuthError::AuthenticationFailed),
        }
    }
}

/// A keyfile sealed under a key-encrypting key decrypts, with that key, to
/// the keyfile.
pub proof fn lemma_keyfile_round_trip(encrypted: EncryptedKeyfile, kek: Seq<u8>, keyfile: Seq<u8>)
    requires
        seals_exactly(kek, encrypted.nonce@, encrypted.encrypted_keyfile_content@, keyfile),
    ensures
        encrypted.decrypt_spec(kek) == Ok::<Seq<u8>, AuthError>(keyfile),
{
    lemma_open_after_seal(kek, encrypted.nonce@, encrypted.encrypted_keyfile_content@, keyfile);
}

/// A key-encrypting key sealed under a wrapping key unwraps, with that key,
/// to the same 32 bytes.
pub proof fn lemma_kek_round_trip(encrypted: EncryptedKek, key: Seq<u8>, kek: Seq<u8>)
    requires
        seals_exactly(key, encrypted.nonce@, encrypted.ciphertext@, kek),
        kek.len() == 32,
    ensures
        unwrap_kek_spec(key, encrypted.nonce@, encrypted.ciphertext@) == Ok::<Seq<u8>, AuthError>(kek),
{
    lemma_open_after_seal(key, encrypted.nonce@, encrypted.ciphertext@, kek);
}

} // verus!
