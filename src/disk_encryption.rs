//! Recovering the keyfile from one credential: the factor gives the
//! key-encrypting key, and that key decrypts the keyfile.
use vstd::prelude::*;
use vstd::utf8::encode_utf8;
use crate::keyfile::kek_result;
use crate::params::{AuthError, EncryptionParams};
use crate::unlock_yubikey::{response_view, ChallengeResponse};

verus! {

/// A credential typed at the login prompt.
pub enum InputCredentials {
    /// The user typed a password.
    Password(String),
    /// The user typed the PIN of the hardware token.
    YkPin(String),
}

impl EncryptionParams {
    /// The keyfile that a factor's result leads to.
    pub open spec fn keyfile_from(&self, kek: Result<Seq<u8>, AuthError>) -> Result<Seq<u8>, AuthError> {
        match kek {
            Ok(k) => self.keyfile.decrypt_spec(k),
            Err(e) => Err(e),
        }
    }

    /// Recovers the keyfile with the password factor.
    pub fn try_keyfile_from_password(&self, pw: String) -> (r: Result<Vec<u8>, AuthError>)
        ensures
            keyfile_result(r) == self.keyfile_from(self.password_auth.decrypt_spec(encode_utf8(pw@))),
    {
        let kek = self.password_auth.decrypt(pw)?;
        self.keyfile.decrypt(kek)
    }

    /// Recovers the keyfile with the token factor, through one randomly chosen
    /// slot.
    pub fn try_keyfile_from_pin<C: ChallengeResponse>(&self, pin: String, chalresp: C) -> (r: Result<Vec<u8>, AuthError>)
        ensures
            self.yubikey_auth.slots@.len() == 0 ==> r == Err::<Vec<u8>, AuthError>(AuthError::AuthenticationFailed),
            self.yubikey_auth.slots@.len() > 0 ==> exists|i: int, response: Option<[u8; 20]>|
                0 <= i < self.yubikey_auth.slots@.len() && keyfile_result(r) == self.keyfile_from(
                    #[trigger] self.yubikey_auth.slots@[i].outcome(response_view(response)),
                ),
    {
        let kek = self.yubikey_auth.decrypt(pin, chalresp);
        match kek {
            Ok(k) => self.keyfile.decrypt(k),
            Err(e) => Err(e),
        }
    }

    /// Recovers the keyfile with whichever factor the credential is for.
    pub fn try_keyfile<C: ChallengeResponse>(&self, credentials: InputCredentials, chalresp: C) -> (r: Result<Vec<u8>, AuthError>)
        ensures
            credentials matches InputCredentials::Password(pw) ==> keyfile_result(r) == self.keyfile_from(
                self.password_auth.decrypt_spec(encode_utf8(pw@)),
            ),
            credentials matches InputCredentials::YkPin(_) ==> {
                ||| self.yubikey_auth.slots@.len() == 0 && r == Err::<Vec<u8>, AuthError>(AuthError::AuthenticationFailed)
                ||| exists|i: int, response: Option<[u8; 20]>|
                    0 <= i < self.yubikey_auth.slots@.len() && keyfile_result(r) == self.keyfile_from(
                        #[trigger] self.yubikey_auth.slots@[i].outcome(response_view(response)),
                    )
            },
    {
        match credentials {
            InputCredentials::Password(pw) => self.try_keyfile_from_password(pw),
            InputCredentials::YkPin(pin) => self.try_keyfile_from_pin(pin, chalresp),
        }
    }
}

/// The view of a keyfile result.
pub open spec fn keyfile_result(r: Result<Vec<u8>, AuthError>) -> Result<Seq<u8>, AuthError> {
    match r {
        Ok(v) => Ok(v@),
        Err(e) => Err(e),
    }
}

} // verus!
