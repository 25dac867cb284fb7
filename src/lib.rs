//! Envelope encryption of a disk keyfile behind independent authentication
//! factors (a password and hardware-token challenge-response slots), and the
//! login state machine that drives an unlock attempt.
use vstd::prelude::*;

pub mod disk_encryption;
pub mod keyfile;
pub mod login;
pub mod menu;
pub mod params;
pub mod primitives;
pub mod token_io;
pub mod unlock_password;
pub mod unlock_yubikey;

verus! {

} // verus!
