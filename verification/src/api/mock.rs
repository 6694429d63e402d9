//! A stand-in for the service that answers from what it was set up with.

use vstd::prelude::*;
use vstd::string::StringExecFns;
use super::definition::OAuthTokenResponse;

verus! {

/// The seconds after which the access token of the stand-in expires.
pub const MOCK_EXPIRES_IN: u64 = 28_800;

/// The seconds after which the refresh token of the stand-in expires.
pub const MOCK_REFRESH_EXPIRES_IN: u64 = 15_897_600;

/// A stand-in for the state of the service.
#[derive(Clone, Debug)]
pub struct MockAppState {
    /// The status that a health check gives.
    pub health_status: String,
    /// The access token that a request for a token gives.
    pub mock_access_token: Option<String>,
    /// The refresh token that a request for a token gives.
    pub mock_refresh_token: Option<String>,
    /// The message with which a request for a token fails, if it is to.
    pub mock_oauth_error: Option<String>,
}

impl MockAppState {
    /// A stand-in whose requests go well.
    #[must_use]
    pub fn new() -> (state: MockAppState)
        ensures
            state.health_status@ == "ok"@,
            state.mock_access_token matches Some(token) && token@ == "mock_token_12345"@,
            state.mock_refresh_token matches Some(token) && token@ == "mock_refresh_12345"@,
            state.mock_oauth_error is None,
    {
        MockAppState {
            health_status: String::from_str("ok"),
            mock_access_token: Some(String::from_str("mock_token_12345")),
            mock_refresh_token: Some(String::from_str("mock_refresh_12345")),
            mock_oauth_error: None,
        }
    }

    /// A stand-in whose requests for a token fail with the given message.
    #[must_use]
    pub fn with_oauth_error(error: String) -> (state: MockAppState)
        ensures
            state.health_status@ == "ok"@,
            state.mock_access_token is None,
            state.mock_refresh_token is None,
            state.mock_oauth_error == Some(error),
    {
        MockAppState {
            health_status: String::from_str("ok"),
            mock_access_token: None,
            mock_refresh_token: None,
            mock_oauth_error: Some(error),
        }
    }

    /// The status that a health check gives.
    pub fn check_health(&self) -> (status: String)
        ensures
            status == self.health_status,
    {
        self.health_status.clone()
    }

    /// `result` is what the exchange of a code for a token gives: the
    /// error, where one is set; else the access token with the refresh
    /// token, if any; without an access token, the message that none is
    /// there.
    pub open spec fn exchanged(self, result: Result<OAuthTokenResponse, String>) -> bool {
        match self.mock_oauth_error {
            Some(error) => result == Result::<OAuthTokenResponse, String>::Err(error),
            None => match self.mock_access_token {
                Some(token) => result == Result::<OAuthTokenResponse, String>::Ok(
                    OAuthTokenResponse {
                        access_token: token,
                        refresh_token: self.mock_refresh_token,
                        expires_in: Some(MOCK_EXPIRES_IN),
                        refresh_token_expires_in: Some(MOCK_REFRESH_EXPIRES_IN),
                    },
                ),
                None => result matches Err(message) && message@ == "No token configured"@,
            },
        }
    }

    /// `result` is what the refresh of a token gives: as the exchange of a
    /// code, but that a refresh token has to be there too.
    pub open spec fn refreshed(self, result: Result<OAuthTokenResponse, String>) -> bool {
        match self.mock_oauth_error {
            Some(error) => result == Result::<OAuthTokenResponse, String>::Err(error),
            None => match self.mock_access_token {
                Some(token) => match self.mock_refresh_token {
                    Some(refresh) => result == Result::<OAuthTokenResponse, String>::Ok(
                        OAuthTokenResponse {
                            access_token: token,
                            refresh_token: Some(refresh),
                            expires_in: Some(MOCK_EXPIRES_IN),
                            refresh_token_expires_in: Some(MOCK_REFRESH_EXPIRES_IN),
                        },
                    ),
                    None => result matches Err(message) && message@
                        == "No refresh token configured"@,
                },
                None => result matches Err(message) && message@ == "No token configured"@,
            },
        }
    }

    /// Answers the exchange of a code for a token. The code is not looked
    /// at.
    pub fn exchange_oauth_token(&self, _code: &str) -> (result: Result<OAuthTokenResponse, String>)
        ensures
            self.exchanged(result),
    {
        match &self.mock_oauth_error {
            Some(error) => Err(error.clone()),
            None => match &self.mock_access_token {
                Some(token) => Ok(
                    OAuthTokenResponse {
                        access_token: token.clone(),
                        refresh_token: clone_text(&self.mock_refresh_token),
                        expires_in: Some(MOCK_EXPIRES_IN),
                        refresh_token_expires_in: Some(MOCK_REFRESH_EXPIRES_IN),
                    },
                ),
                None => Err(String::from_str("No token configured")),
            },
        }
    }

    /// Answers the refresh of a token. The token given is not looked at.
    pub fn refresh_oauth_token(&self, _refresh_token: &str) -> (result: Result<
        OAuthTokenResponse,
        String,
    >)
        ensures
            self.refreshed(result),
    {
        match &self.mock_oauth_error {
            Some(error) => Err(error.clone()),
            None => match &self.mock_access_token {
                Some(token) => match &self.mock_refresh_token {
                    Some(refresh) => Ok(
                        OAuthTokenResponse {
                            access_token: token.clone(),
                            refresh_token: Some(refresh.clone()),
                            expires_in: Some(MOCK_EXPIRES_IN),
                            refresh_token_expires_in: Some(MOCK_REFRESH_EXPIRES_IN),
                        },
                    ),
                    None => Err(String::from_str("No refresh token configured")),
                },
                None => Err(String::from_str("No token configured")),
            },
        }
    }
}

/// A copy of an optional text.
fn clone_text(text: &Option<String>) -> (copy: Option<String>)
    ensures
        copy == *text,
{
    match text {
        Some(t) => Some(t.clone()),
        None => None,
    }
}

impl Default for MockAppState {
    fn default() -> (state: MockAppState)
        ensures
            state.health_status@ == "ok"@,
            state.mock_access_token matches Some(token) && token@ == "mock_token_12345"@,
            state.mock_refresh_token matches Some(token) && token@ == "mock_refresh_12345"@,
            state.mock_oauth_error is None,
    {
        MockAppState::new()
    }
}

} // verus!
