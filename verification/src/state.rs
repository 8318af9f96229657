//! What the program keeps between two runs.

use vstd::prelude::*;
use rand::Rng;
use crate::model::{expired_at, AccessToken, Instant, RefreshToken};

verus! {

/// What the program keeps between two runs.
#[derive(Debug)]
pub struct State {
    /// The name of this device, made up once.
    pub device_id: String,
    /// The token of access to the service.
    pub access_token: Option<AccessToken>,
    /// The token that renews the token of access.
    pub refresh_token: Option<RefreshToken>,
    /// The tax number of the taxpayer.
    pub taxpayer_identification_number: Option<String>,
}

/// How many characters the name of a device has.
pub const DEVICE_ID_LENGTH: usize = 21;

/// A Latin letter or a decimal digit of ASCII.
pub open spec fn is_alphanumeric(c: char) -> bool {
    ('a' <= c && c <= 'z') || ('A' <= c && c <= 'Z') || ('0' <= c && c <= '9')
}

/// Whether `id` can be the name of a device: 21 letters and digits.
pub open spec fn is_device_id(id: Seq<char>) -> bool {
    id.len() == DEVICE_ID_LENGTH && forall|i: int|
        0 <= i < id.len() ==> is_alphanumeric(#[trigger] id[i])
}

/// One letter or digit of ASCII, drawn by `Rng::sample` of the `rand` crate
/// from `Alphanumeric` with the generator that `rand::thread_rng` gives. It
/// fails where the system gives the generator no seed.
#[verifier::external_body]
fn random_alphanumeric() -> (drawn: u8)
    ensures
        is_alphanumeric(drawn as char),
{
    rand::thread_rng().sample(rand::distributions::Alphanumeric)
}

/// A name for this device, made up at random.
pub fn generate_device_id() -> (id: String)
    ensures
        is_device_id(id@),
{
    let mut id = String::new();
    let mut i: usize = 0;
    while i < DEVICE_ID_LENGTH
        invariant
            i <= DEVICE_ID_LENGTH,
            id@.len() == i,
            forall|k: int| 0 <= k < i ==> is_alphanumeric(#[trigger] id@[k]),
        decreases DEVICE_ID_LENGTH - i,
    {
        let drawn = random_alphanumeric();
        id.push(drawn as char);
        i += 1;
    }
    id
}

/// Whether the user has to sign in again at `now`: there is no token of
/// access, or the token of renewal has expired.
pub open spec fn sign_in_needed(
    access: Option<AccessToken>,
    refresh: Option<RefreshToken>,
    now: Instant,
) -> bool {
    access is None || (refresh matches Some(token) && expired_at(token.expiry(), now))
}

impl State {
    /// Whether the user has to sign in again at `now`.
    pub fn needs_sign_in(&self, now: &Instant) -> (needed: bool)
        ensures
            needed == sign_in_needed(self.access_token, self.refresh_token, *now),
    {
        let expired = match &self.refresh_token {
            Some(token) => token.is_expired_at(now),
            None => false,
        };
        self.access_token.is_none() || expired
    }
}

impl Default for State {
    /// The state before the first run: a new name for the device, and
    /// nothing else.
    fn default() -> (state: Self)
        ensures
            is_device_id(state.device_id@),
            state.access_token is None,
            state.refresh_token is None,
            state.taxpayer_identification_number is None,
    {
        State {
            device_id: generate_device_id(),
            access_token: None,
            refresh_token: None,
            taxpayer_identification_number: None,
        }
    }
}

} // verus!
