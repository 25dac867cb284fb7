//! The login state machine. The interaction loop owns it; workers only report
//! results, which are applied if they still belong to the attempt in flight.
use vstd::prelude::*;
use crate::disk_encryption::InputCredentials;
use crate::params::AuthError;
use crate::primitives::wipe_bytes;

verus! {

/// Where the login stands.
#[derive(Clone, Copy, Debug, PartialEq, Eq, Structural)]
pub enum LoginState {
    /// A password or PIN prompt is shown.
    WaitingForLogin,
    /// A credential was submitted and is being verified.
    ValidatingLogin,
    /// The keyfile was recovered; the full menu is shown. Final.
    LogInOkay,
    /// Verification failed; the reduced menu is shown.
    LogInFail,
}

impl Default for LoginState {
    fn default() -> (r: Self)
        ensures
            r == LoginState::WaitingForLogin,
    {
        LoginState::WaitingForLogin
    }
}

/// The prompt on screen while waiting for a credential.
#[derive(Clone, Copy, Debug, PartialEq, Eq, Structural)]
pub enum Prompt {
    Password,
    YkPin,
}

/// What the token-presence poller does on one tick.
#[derive(Clone, Copy, Debug, PartialEq, Eq, Structural)]
pub enum PollAction {
    /// Logged in: polling ends.
    Stop,
    /// Not waiting for a credential: sleep and look again.
    Idle,
    /// Waiting for a credential: probe for the token.
    Probe,
}

/// A credential handed to a worker for verification, tagged with its attempt.
pub struct Verification {
    pub attempt: u64,
    pub credentials: InputCredentials,
}

/// The login state, the number of the latest attempt, and the keyfile once
/// recovered. The keyfile is overwritten when the machine is dropped.
pub struct LoginMachine {
    pub state: LoginState,
    pub attempt: u64,
    pub keyfile: Option<Vec<u8>>,
}

impl Drop for LoginMachine {
    fn drop(&mut self)
        opens_invariants none
        no_unwind
    {
        match &mut self.keyfile {
            Some(keyfile) => wipe_bytes(keyfile),
            None => {},
        }
    }
}

/// The attempt number after `a`, wrapping.
pub open spec fn next_attempt(a: u64) -> u64 {
    if a == u64::MAX {
        0
    } else {
        (a + 1) as u64
    }
}

/// State and attempt after a credential is submitted.
pub open spec fn after_submit(state: LoginState, attempt: u64) -> (LoginState, u64) {
    if state == LoginState::WaitingForLogin {
        (LoginState::ValidatingLogin, next_attempt(attempt))
    } else {
        (state, attempt)
    }
}

/// A result for `ticket` belongs to the attempt in flight.
pub open spec fn is_current(state: LoginState, attempt: u64, ticket: u64) -> bool {
    state == LoginState::ValidatingLogin && ticket == attempt
}

/// State and attempt after the result for `ticket` arrives.
pub open spec fn after_finish(state: LoginState, attempt: u64, ticket: u64, unlocked: bool) -> (LoginState, u64) {
    if is_current(state, attempt, ticket) {
        (if unlocked { LoginState::LogInOkay } else { LoginState::LogInFail }, attempt)
    } else {
        (state, attempt)
    }
}

/// State and attempt after the user asks to try again.
pub open spec fn after_try_again(state: LoginState, attempt: u64) -> (LoginState, u64) {
    if state == LoginState::LogInFail {
        (LoginState::WaitingForLogin, attempt)
    } else {
        (state, attempt)
    }
}

/// What the poller does in `state`.
pub open spec fn poll_spec(state: LoginState) -> PollAction {
    match state {
        LoginState::LogInOkay => PollAction::Stop,
        LoginState::WaitingForLogin => PollAction::Probe,
        _ => PollAction::Idle,
    }
}

/// The prompt that the token's presence calls for.
pub open spec fn wanted_prompt(token_present: bool) -> Prompt {
    if token_present {
        Prompt::YkPin
    } else {
        Prompt::Password
    }
}

/// The prompt to swap in, if any, when a poll result is applied.
pub open spec fn swap_spec(state: LoginState, token_present: bool, shown: Prompt) -> Option<Prompt> {
    if state == LoginState::WaitingForLogin && shown != wanted_prompt(token_present) {
        Some(wanted_prompt(token_present))
    } else {
        None
    }
}

/// A message for the interaction loop, from the user or from a worker.
pub enum LoginEvent {
    /// The user typed a credential.
    Submitted(InputCredentials),
    /// A worker finished verifying attempt `attempt`.
    Verified { attempt: u64, outcome: Result<Vec<u8>, AuthError> },
    /// The poller saw the token present or absent.
    TokenPresence(bool),
    /// The user chose to try again after a failure.
    TryAgain,
}

/// What the interaction loop does after an event.
pub enum LoginAction {
    /// Show that the credential is being checked, and hand it to a worker.
    Verify(Verification),
    /// Logged in: show the full menu.
    ShowFullMenu,
    /// The attempt failed: show the reduced menu and the failure.
    ShowFailure,
    /// Replace what is shown by this prompt.
    ShowPrompt(Prompt),
    /// Nothing to do: the event was stale or did not apply.
    Nothing,
}

impl LoginMachine {
    /// A machine waiting for the first credential.
    pub fn new() -> (r: Self)
        ensures
            r.state == LoginState::WaitingForLogin,
            r.attempt == 0,
            r.keyfile is None,
    {
        LoginMachine { state: LoginState::default(), attempt: 0, keyfile: None }
    }

    /// Submits a credential. In `WaitingForLogin` this moves to
    /// `ValidatingLogin` at once, starts a new attempt and returns the work for
    /// a verifier; in any other state the credential is refused.
    pub fn submit(&mut self, credentials: InputCredentials) -> (r: Option<Verification>)
        ensures
            (final(self).state, final(self).attempt) == after_submit(old(self).state, old(self).attempt),
            final(self).keyfile == old(self).keyfile,
            old(self).state == LoginState::WaitingForLogin ==> r == Some(
                Verification { attempt: final(self).attempt, credentials },
            ),
            old(self).state != LoginState::WaitingForLogin ==> r is None,
    {
        if self.state != LoginState::WaitingForLogin {
            return None;
        }
        self.state = LoginState::ValidatingLogin;
        self.attempt = if self.attempt == u64::MAX {
            0
        } else {
            self.attempt + 1
        };
        Some(Verification { attempt: self.attempt, credentials })
    }

    /// Applies the result of attempt `ticket`. A result that does not belong
    /// to the attempt in flight is dropped; returns whether it was applied.
    pub fn finish(&mut self, ticket: u64, outcome: Result<Vec<u8>, AuthError>) -> (applied: bool)
        ensures
            applied == is_current(old(self).state, old(self).attempt, ticket),
            (final(self).state, final(self).attempt) == after_finish(
                old(self).state,
                old(self).attempt,
                ticket,
                outcome is Ok,
            ),
            final(self).keyfile == (if applied && outcome is Ok {
                Some(outcome->Ok_0)
            } else {
                old(self).keyfile
            }),
    {
        if self.state != LoginState::ValidatingLogin || ticket != self.attempt {
            return false;
        }
        match outcome {
            Ok(keyfile) => {
                self.keyfile = Some(keyfile);
                self.state = LoginState::LogInOkay;
            },
            Err(_) => {
                self.state = LoginState::LogInFail;
            },
        }
        true
    }

    /// The user asks to try again: from `LogInFail` back to the prompt.
    /// Returns whether the state changed.
    pub fn try_again(&mut self) -> (r: bool)
        ensures
            r == (old(self).state == LoginState::LogInFail),
            (final(self).state, final(self).attempt) == after_try_again(old(self).state, old(self).attempt),
            final(self).keyfile == old(self).keyfile,
    {
        if self.state != LoginState::LogInFail {
            return false;
        }
        self.state = LoginState::WaitingForLogin;
        true
    }
}

impl LoginMachine {
    /// Applies one event, given the prompt on screen, and says what to show.
    pub fn handle(&mut self, event: LoginEvent, shown: Prompt) -> (r: LoginAction)
        ensures
            match event {
                LoginEvent::Submitted(credentials) => {
                    &&& (final(self).state, final(self).attempt) == after_submit(old(self).state, old(self).attempt)
                    &&& final(self).keyfile == old(self).keyfile
                    &&& old(self).state == LoginState::WaitingForLogin ==> r == LoginAction::Verify(
                        Verification { attempt: final(self).attempt, credentials },
                    )
                    &&& old(self).state != LoginState::WaitingForLogin ==> r == LoginAction::Nothing
                },
                LoginEvent::Verified { attempt, outcome } => {
                    &&& (final(self).state, final(self).attempt) == after_finish(
                        old(self).state,
                        old(self).attempt,
                        attempt,
                        outcome is Ok,
                    )
                    &&& final(self).keyfile == (if is_current(old(self).state, old(self).attempt, attempt)
                        && outcome is Ok {
                        Some(outcome->Ok_0)
                    } else {
                        old(self).keyfile
                    })
                    &&& r == (if !is_current(old(self).state, old(self).attempt, attempt) {
                        LoginAction::Nothing
                    } else if outcome is Ok {
                        LoginAction::ShowFullMenu
                    } else {
                        LoginAction::ShowFailure
                    })
                },
                LoginEvent::TokenPresence(present) => {
                    &&& *final(self) == *old(self)
                    &&& r == match swap_spec(old(self).state, present, shown) {
                        Some(p) => LoginAction::ShowPrompt(p),
                        None => LoginAction::Nothing,
                    }
                },
                LoginEvent::TryAgain => {
                    &&& (final(self).state, final(self).attempt) == after_try_again(old(self).state, old(self).attempt)
                    &&& final(self).keyfile == old(self).keyfile
                    &&& r == (if old(self).state == LoginState::LogInFail {
                        LoginAction::ShowPrompt(Prompt::Password)
                    } else {
                        LoginAction::Nothing
                    })
                },
            },
    {
        match event {
            LoginEvent::Submitted(credentials) => match self.submit(credentials) {
                Some(v) => LoginAction::Verify(v),
                None => LoginAction::Nothing,
            },
            LoginEvent::Verified { attempt, outcome } => {
                let unlocked = outcome.is_ok();
                if !self.finish(attempt, outcome) {
                    LoginAction::Nothing
                } else if unlocked {
                    LoginAction::ShowFullMenu
                } else {
                    LoginAction::ShowFailure
                }
            },
            LoginEvent::TokenPresence(present) => match prompt_swap(self.state, present, shown) {
                Some(p) => LoginAction::ShowPrompt(p),
                None => LoginAction::Nothing,
            },
            LoginEvent::TryAgain => {
                if self.try_again() {
                    LoginAction::ShowPrompt(Prompt::Password)
                } else {
                    LoginAction::Nothing
                }
            },
        }
    }
}

/// What the token-presence poller does in `state`.
pub fn poll_action(state: LoginState) -> (r: PollAction)
    ensures
        r == poll_spec(state),
{
    match state {
        LoginState::LogInOkay => PollAction::Stop,
        LoginState::WaitingForLogin => PollAction::Probe,
        _ => PollAction::Idle,
    }
}

/// Decides, at the moment a poll result is applied, whether the prompt must be
/// swapped: only while still waiting for a credential, and only if the prompt
/// shown is not the one the token's presence calls for.
pub fn prompt_swap(state: LoginState, token_present: bool, shown: Prompt) -> (r: Option<Prompt>)
    ensures
        r == swap_spec(state, token_present, shown),
{
    if state != LoginState::WaitingForLogin {
        return None;
    }
    let wanted = if token_present {
        Prompt::YkPin
    } else {
        Prompt::Password
    };
    if shown == wanted {
        None
    } else {
        Some(wanted)
    }
}

/// Submitting in `WaitingForLogin` moves to `ValidatingLogin` before any
/// result is known, and the result for the attempt handed out then settles
/// the login.
pub proof fn lemma_submit_then_result(attempt: u64, unlocked: bool)
    ensures
        ({
            let (s1, a1) = after_submit(LoginState::WaitingForLogin, attempt);
            &&& s1 == LoginState::ValidatingLogin
            &&& after_finish(s1, a1, a1, unlocked).0 == (if unlocked {
                LoginState::LogInOkay
            } else {
                LoginState::LogInFail
            })
        }),
{
}

/// A result for any attempt but the one in flight changes nothing.
pub proof fn lemma_stale_result_ignored(state: LoginState, attempt: u64, ticket: u64, unlocked: bool)
    requires
        ticket != attempt,
    ensures
        after_finish(state, attempt, ticket, unlocked) == (state, attempt),
{
}

/// After a failed attempt and a retry, a late result of the first attempt is
/// not applied to the second.
pub proof fn lemma_retry_discards_stale_result(attempt: u64, late_unlocked: bool)
    ensures
        ({
            let (s1, first) = after_submit(LoginState::WaitingForLogin, attempt);
            let (s2, a2) = after_finish(s1, first, first, false);
            let (s3, a3) = after_try_again(s2, a2);
            let (s4, second) = after_submit(s3, a3);
            &&& s4 == LoginState::ValidatingLogin
            &&& first != second
            &&& after_finish(s4, second, first, late_unlocked) == (s4, second)
        }),
{
}

} // verus!
