//! Renewal of the Mercury access token.

use vstd::prelude::*;

verus! {

/// The GraphQL mutation that trades credentials for a new access token.
pub struct NewJwtToken;

/// The answer to the token mutation (`authenticate { jwtToken }`).
#[derive(Debug)]
pub struct TokenResponse {
    pub data: Option<TokenData>,
}

#[derive(Debug)]
pub struct TokenData {
    pub authenticate: Option<Authenticate>,
}

#[derive(Debug)]
pub struct Authenticate {
    pub jwt_token: Option<String>,
}

/// Seconds to wait after a renewal: 59 minutes short of seven days
/// (59 * 60 * 24 * 7).
pub const RENEWAL_INTERVAL_SECS: u64 = 594720;

/// Seconds to wait before trying again after a failed request.
pub const RETRY_INTERVAL_SECS: u64 = 10;

/// What the renewal loop does after one request: store the new token (if
/// any), then sleep.
#[derive(Debug, PartialEq, Eq)]
pub struct RenewalStep {
    pub new_token: Option<String>,
    pub sleep_secs: u64,
}

/// The token an answer carries, if it carries one.
pub open spec fn answered_token(body: TokenResponse) -> Option<String> {
    match body.data {
        Some(data) => match data.authenticate {
            Some(auth) => auth.jwt_token,
            None => None,
        },
        None => None,
    }
}

/// One turn of the renewal loop, given the outcome of the token request
/// (the answer, or the request's error text).
///
/// An answer must carry a token (one that does not stops the renewal task).
pub fn renew_jwt_cron_job(outcome: Result<TokenResponse, String>) -> (r: RenewalStep)
    requires
        outcome matches Ok(body) ==> answered_token(body) is Some,
    ensures
        match outcome {
            Ok(body) => r.new_token == answered_token(body) && r.sleep_secs == RENEWAL_INTERVAL_SECS,
            Err(_) => r.new_token is None && r.sleep_secs == RETRY_INTERVAL_SECS,
        },
{
    match outcome {
        Ok(body) => {
            let token = body.data.unwrap().authenticate.unwrap().jwt_token.unwrap();
            RenewalStep { new_token: Some(token), sleep_secs: RENEWAL_INTERVAL_SECS }
        },
        Err(_) => RenewalStep { new_token: None, sleep_secs: RETRY_INTERVAL_SECS },
    }
}


/// Whether an answer carries a token (the precondition of the renewal step).
pub fn answered_token_is_present(body: &TokenResponse) -> (b: bool)
    ensures
        b == (answered_token(*body) is Some),
{
    match &body.data {
        Some(data) => match &data.authenticate {
            Some(auth) => auth.jwt_token.is_some(),
            None => false,
        },
        None => false,
    }
}

} // verus!
