//! The requests and answers of the service.

use vstd::prelude::*;
use crate::repos::results::ScanResult;

verus! {

/// The answer to a health check.
#[derive(Debug)]
pub struct HealthResponse {
    /// The status, which is `ok` whenever there is an answer at all.
    pub status: String,
}

/// The answer to a request for the version.
#[derive(Debug)]
pub struct VersionResponse {
    /// The version of the service.
    pub version: String,
}

/// The answer to a request for the contributions in local repositories.
pub struct ContributionsResponse {
    /// The commit times, in seconds since 1970, by the name of the
    /// repository.
    pub repos: ScanResult,
}

/// What comes with the callback of an authorization.
#[derive(Debug)]
pub struct CallbackParams {
    /// The code that the provider handed out.
    pub code: String,
}

/// What comes with a request to refresh a token.
#[derive(Debug)]
pub struct RefreshParams {
    /// The refresh token that the provider handed out.
    pub refresh_token: String,
}

/// The answer to a callback or a refresh that went well.
#[derive(Debug)]
pub struct OAuthTokenResponse {
    /// The access token.
    pub access_token: String,
    /// The refresh token, where tokens expire.
    pub refresh_token: Option<String>,
    /// The seconds until the access token expires.
    pub expires_in: Option<u64>,
    /// The seconds until the refresh token expires.
    pub refresh_token_expires_in: Option<u64>,
}

/// The answer to a callback that went well, where only the access token is
/// passed on.
#[derive(Debug)]
pub struct CallbackSuccessResponse {
    /// The access token.
    pub access_token: String,
}

impl OAuthTokenResponse {
    /// Keeps the access token only.
    pub fn into_callback_success(self) -> (answer: CallbackSuccessResponse)
        ensures
            answer.access_token == self.access_token,
    {
        CallbackSuccessResponse { access_token: self.access_token }
    }
}

} // verus!
