//! The hardware-token factor. Each slot hashes its random seed with the PIN
//! into a challenge, and the token's response to it derives (through Argon2id)
//! the key under which that slot's copy of the key-encrypting key is sealed.
use vstd::prelude::*;
use vstd::utf8::encode_utf8;
use crate::keyfile::{kek_result, seals_exactly, unwrap_kek_spec, KeyEncryptionKey};
use crate::params::{AuthError, YubikeyAuthParams, YubikeyAuthSlot};
use crate::primitives::{argon2_accepts, argon2id, argon2id_of, random_bytes, random_in_range, sha256, sha256_of, wipe_key, wipe_text};
use crate::unlock_password::{DEFAULT_M_COST, DEFAULT_T_COST, RECOMMENDED_SALT_LEN};

verus! {

/// A hardware token that answers a 32-byte challenge with a 20-byte response,
/// or with `None` when it is absent or busy.
pub trait ChallengeResponse {
    fn challenge_response(&mut self, challenge: [u8; 32]) -> Option<[u8; 20]>;
}

/// Shortest challenge seed, in bytes.
pub const MIN_SEED_LEN: usize = 64;

/// One past the longest challenge seed, in bytes.
pub const MAX_SEED_LEN: usize = 128;

/// How many times an unlock asks the token before it gives up.
pub const TOKEN_ATTEMPTS: usize = 3;

/// Argon2 memory cost of a token slot: 64 times Argon2's minimum. The response
/// already carries the entropy, so the slot is cheaper than the password.
pub const TOKEN_M_COST: u32 = 512;

/// Argon2 passes of a token slot: fewer than the password factor's, since a
/// token operation may already wait for a touch.
pub const TOKEN_T_COST: u32 = 1;

/// Argon2 parallelism of a token slot.
pub const TOKEN_P_COST: u32 = 8;

/// The challenge sent to the token: the SHA-256 digest of the seed followed by
/// the PIN.
pub open spec fn challenge_for(seed: Seq<u8>, pin: Seq<u8>) -> Seq<u8> {
    sha256_of(seed + pin)
}

/// The view of a token's answer.
pub open spec fn response_view(r: Option<[u8; 20]>) -> Option<Seq<u8>> {
    match r {
        Some(x) => Some(x@),
        None => None,
    }
}

/// The challenge for `seed` and `pin`.
fn seeded_challenge(seed: &[u8], pin: &str) -> (r: [u8; 32])
    ensures
        r@ == challenge_for(seed@, encode_utf8(pin@)),
{
    let mut raw_challenge: Vec<u8> = Vec::new();
    raw_challenge.extend_from_slice(seed);
    raw_challenge.extend_from_slice(pin.as_bytes());
    assert(raw_challenge@ =~= seed@ + encode_utf8(pin@));
    sha256(raw_challenge.as_slice())
}

impl YubikeyAuthSlot {
    /// The wrapping key that a token response derives under this slot.
    pub open spec fn derived_key(&self, response: Seq<u8>) -> Seq<u8> {
        argon2id_of(self.m_cost, self.t_cost, self.p_cost, response, self.salt@)
    }

    /// This slot was enrolled for `kek` from the token response `response`.
    pub open spec fn enrolled_with(&self, response: Seq<u8>, kek: Seq<u8>) -> bool {
        &&& MIN_SEED_LEN <= self.challenge_seed@.len() < MAX_SEED_LEN
        &&& argon2_accepts(self.m_cost, self.t_cost, self.p_cost, response.len(), self.salt@.len())
        &&& seals_exactly(self.derived_key(response), self.encrypted_kek.nonce@, self.encrypted_kek.ciphertext@, kek)
    }

    /// This slot was enrolled for `kek` from some 20-byte token response.
    pub open spec fn enrolled_for(&self, kek: Seq<u8>) -> bool {
        exists|response: Seq<u8>| response.len() == 20 && self.enrolled_with(response, kek)
    }

    /// What unlocking this slot with a token response gives.
    pub open spec fn decrypt_with_response_spec(&self, response: Seq<u8>) -> Result<Seq<u8>, AuthError> {
        if !argon2_accepts(self.m_cost, self.t_cost, self.p_cost, response.len(), self.salt@.len()) {
            Err(AuthError::InvalidParameters)
        } else {
            unwrap_kek_spec(self.derived_key(response), self.encrypted_kek.nonce@, self.encrypted_kek.ciphertext@)
        }
    }

    /// What unlocking this slot gives when the token answered `response`
    /// (`None`: it never answered).
    pub open spec fn outcome(&self, response: Option<Seq<u8>>) -> Result<Seq<u8>, AuthError> {
        match response {
            Some(x) => self.decrypt_with_response_spec(x),
            None => Err(AuthError::TokenUnavailable),
        }
    }

    /// The challenge for this slot and `pin`.
    pub fn challenge(&self, pin: &str) -> (r: [u8; 32])
        ensures
            r@ == challenge_for(self.challenge_seed@, encode_utf8(pin@)),
    {
        seeded_challenge(self.challenge_seed.as_slice(), pin)
    }

    /// Unlocks this slot with the token's response to its challenge.
    pub fn decrypt_with_response(&self, response: [u8; 20]) -> (r: Result<KeyEncryptionKey, AuthError>)
        ensures
            kek_result(r) == self.decrypt_with_response_spec(response@),
    {
        if self.p_cost > 0xFF_FFFF {
            return Err(AuthError::InvalidParameters);
        }
        match argon2id(self.m_cost, self.t_cost, self.p_cost, response.as_slice(), self.salt.as_slice()) {
            Some(key) => {
                let mut key = key;
                let r = self.encrypted_kek.decrypt(key);
                wipe_key(&mut key);
                r
            },
            None => Err(AuthError::InvalidParameters),
        }
    }

    /// Enrolls a slot for `kek`: a fresh seed and salt, and the key derived from
    /// the token's response to the slot's challenge. Fails with
    /// `EnrollmentFailed` when the token does not answer.
    pub fn new<C: ChallengeResponse>(pin: &String, chalresp: &mut C, kek: &KeyEncryptionKey) -> (r: Result<Self, AuthError>)
        ensures
            r matches Ok(slot) ==> {
                &&& slot.enrolled_for(kek@)
                &&& MIN_SEED_LEN <= slot.challenge_seed@.len() < MAX_SEED_LEN
                &&& slot.salt@.len() == RECOMMENDED_SALT_LEN
                &&& (slot.m_cost, slot.t_cost, slot.p_cost) == (TOKEN_M_COST, TOKEN_T_COST, TOKEN_P_COST)
                &&& slot.t_cost < DEFAULT_T_COST
                &&& slot.m_cost <= DEFAULT_M_COST
            },
            r matches Err(e) ==> e == AuthError::EnrollmentFailed,
    {
        let seed_length = random_in_range(MIN_SEED_LEN, MAX_SEED_LEN);
        let seed = random_bytes(seed_length);
        let challenge = seeded_challenge(seed.as_slice(), pin.as_str());
        let response = match chalresp.challenge_response(challenge) {
            Some(x) => x,
            None => return Err(AuthError::EnrollmentFailed),
        };
        let salt = random_bytes(RECOMMENDED_SALT_LEN);
        Ok(Self::enroll_with_response(seed, salt, response, kek))
    }

    /// Builds the slot for `kek` from its seed, its salt and the token's
    /// response to its challenge, with the token slot's Argon2 costs.
    pub fn enroll_with_response(challenge_seed: Vec<u8>, salt: Vec<u8>, response: [u8; 20], kek: &KeyEncryptionKey) -> (r: Self)
        requires
            MIN_SEED_LEN <= challenge_seed@.len() < MAX_SEED_LEN,
            8 <= salt@.len() <= 0xFFFF_FFFF,
        ensures
            r.challenge_seed@ == challenge_seed@,
            r.salt@ == salt@,
            r.m_cost == TOKEN_M_COST,
            r.t_cost == TOKEN_T_COST,
            r.p_cost == TOKEN_P_COST,
            r.enrolled_with(response@, kek@),
    {
        let key = match argon2id(TOKEN_M_COST, TOKEN_T_COST, TOKEN_P_COST, response.as_slice(), salt.as_slice()) {
            Some(k) => k,
            None => {
                assert(false);
                [0u8; 32]
            },
        };
        let mut key = key;
        let encrypted_kek = kek.encrypt(key);
        wipe_key(&mut key);
        YubikeyAuthSlot {
            challenge_seed,
            m_cost: TOKEN_M_COST,
            t_cost: TOKEN_T_COST,
            p_cost: TOKEN_P_COST,
            salt,
            encrypted_kek,
        }
    }

    /// Unlocks this slot: asks the token up to `TOKEN_ATTEMPTS` times, since
    /// another process may hold it for a moment, and fails with
    /// `TokenUnavailable` if it never answers.
    pub fn decrypt<C: ChallengeResponse>(&self, pin: &String, chalresp: &mut C) -> (r: Result<KeyEncryptionKey, AuthError>)
        ensures
            exists|response: Option<[u8; 20]>| kek_result(r) == self.outcome(response_view(response)),
    {
        let challenge = self.challenge(pin.as_str());
        let mut attempt: usize = 0;
        let mut response: Option<[u8; 20]> = None;
        while attempt < TOKEN_ATTEMPTS && response.is_none()
            invariant
                attempt <= TOKEN_ATTEMPTS,
            decreases TOKEN_ATTEMPTS - attempt,
        {
            response = chalresp.challenge_response(challenge);
            attempt = attempt + 1;
        }
        match response {
            Some(x) => {
                let r = self.decrypt_with_response(x);
                assert(kek_result(r) == self.outcome(response_view(response)));
                r
            },
            None => {
                assert(self.outcome(response_view(response)) == Err::<Seq<u8>, AuthError>(AuthError::TokenUnavailable));
                Err(AuthError::TokenUnavailable)
            },
        }
    }
}

impl YubikeyAuthParams {
    /// Enrolls `how_many` independent slots for `kek` with the same PIN.
    pub fn new_with_slots<C: ChallengeResponse>(
        how_many: usize,
        mut pin: String,
        mut chalresp: C,
        kek: &KeyEncryptionKey,
    ) -> (r: Result<Self, AuthError>)
        ensures
            r matches Ok(params) ==> params.slots@.len() == how_many && forall|i: int|
                0 <= i < how_many ==> #[trigger] params.slots@[i].enrolled_for(kek@),
            r matches Err(e) ==> e == AuthError::EnrollmentFailed,
            how_many == 0 ==> (r matches Ok(params) && params.slots@.len() == 0),
    {
        let mut slots: Vec<YubikeyAuthSlot> = Vec::new();
        let mut i: usize = 0;
        while i < how_many
            invariant
                i <= how_many,
                slots@.len() == i,
                forall|j: int| 0 <= j < i ==> #[trigger] slots@[j].enrolled_for(kek@),
            decreases how_many - i,
        {
            let slot = match YubikeyAuthSlot::new(&pin, &mut chalresp, kek) {
                Ok(slot) => slot,
                Err(e) => {
                    wipe_text(&mut pin);
                    return Err(e);
                },
            };
            slots.push(slot);
            i = i + 1;
        }
        wipe_text(&mut pin);
        Ok(YubikeyAuthParams { slots })
    }

    /// Unlocks with one slot picked uniformly at random. Only that slot is
    /// tried, so that one attempt asks the token once; calling again may pick
    /// another slot.
    pub fn decrypt<C: ChallengeResponse>(&self, pin: String, mut chalresp: C) -> (r: Result<KeyEncryptionKey, AuthError>)
        ensures
            self.slots@.len() == 0 ==> r == Err::<KeyEncryptionKey, AuthError>(AuthError::AuthenticationFailed),
            self.slots@.len() > 0 ==> exists|i: int, response: Option<[u8; 20]>|
                0 <= i < self.slots@.len() && kek_result(r) == #[trigger] self.slots@[i].outcome(response_view(response)),
    {
        if self.slots.len() == 0 {
            return Err(AuthError::AuthenticationFailed);
        }
        let chosen = random_in_range(0, self.slots.len());
        let mut pin = pin;
        let r = self.slots[chosen].decrypt(&pin, &mut chalresp);
        wipe_text(&mut pin);
        r
    }
}

/// Slots enrolled with one key each give back that key when unlocked with the
/// response their token gave at enrollment: whichever slot an unlock picks, a
/// token that answers as it did then yields the same key.
pub proof fn lemma_token_slots_agree(params: YubikeyAuthParams, responses: Seq<Seq<u8>>, kek: Seq<u8>)
    requires
        responses.len() == params.slots@.len(),
        kek.len() == 32,
        forall|i: int| 0 <= i < responses.len() ==> #[trigger] params.slots@[i].enrolled_with(responses[i], kek),
    ensures
        forall|i: int|
            0 <= i < responses.len() ==> #[trigger] params.slots@[i].decrypt_with_response_spec(responses[i])
                == Ok::<Seq<u8>, AuthError>(kek),
{
    assert forall|i: int| 0 <= i < responses.len() implies #[trigger] params.slots@[i].decrypt_with_response_spec(
        responses[i],
    ) == Ok::<Seq<u8>, AuthError>(kek) by {
        let slot = params.slots@[i];
        assert(slot.enrolled_with(responses[i], kek));
        crate::keyfile::lemma_open_after_seal(
            slot.derived_key(responses[i]),
            slot.encrypted_kek.nonce@,
            slot.encrypted_kek.ciphertext@,
            kek,
        );
    }
}

} // verus!
