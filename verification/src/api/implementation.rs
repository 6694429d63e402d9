//! The reading of what the provider answers to a request for a token.

use vstd::prelude::*;
use vstd::string::StringExecFns;
use super::definition::OAuthTokenResponse;

verus! {

/// What the provider answers to a request for a token.
#[derive(Debug)]
pub struct GitHubTokenResponse {
    /// The access token, where the request went well.
    pub access_token: Option<String>,
    /// The refresh token, where tokens expire.
    pub refresh_token: Option<String>,
    /// The seconds until the access token expires.
    pub expires_in: Option<u64>,
    /// The seconds until the refresh token expires.
    pub refresh_token_expires_in: Option<u64>,
    /// The code of the error, where the request failed.
    pub error: Option<String>,
    /// The description of the error, where the request failed.
    pub error_description: Option<String>,
}

/// How a request for a token ended.
pub enum TokenExchange {
    /// The request did not reach the provider, or no answer came back.
    Unsent,
    /// An answer came back that could not be read.
    Unreadable,
    /// The provider answered.
    Answered(GitHubTokenResponse),
}

/// `result` is what a request for a token comes to when it ended as
/// `exchange`; `context` says in the message what kind of request it was.
///
/// A request that was not sent means that the service is unavailable. An
/// answer that cannot be read, or that holds neither an error nor an access
/// token, is an internal error. An answer with an error gives the
/// description of the error, or, without one, says that the request failed.
pub open spec fn token_result(
    exchange: TokenExchange,
    context: Seq<char>,
    result: Result<OAuthTokenResponse, String>,
) -> bool {
    match exchange {
        TokenExchange::Unsent => result matches Err(message) && message@
            == "Service temporarily unavailable"@,
        TokenExchange::Unreadable => result matches Err(message) && message@
            == "Internal server error"@,
        TokenExchange::Answered(answer) => match answer.error {
            Some(_) => match answer.error_description {
                Some(description) => result == Result::<OAuthTokenResponse, String>::Err(
                    description,
                ),
                None => result matches Err(message) && message@ == context + " failed"@,
            },
            None => match answer.access_token {
                Some(token) => result == Result::<OAuthTokenResponse, String>::Ok(
                    OAuthTokenResponse {
                        access_token: token,
                        refresh_token: answer.refresh_token,
                        expires_in: answer.expires_in,
                        refresh_token_expires_in: answer.refresh_token_expires_in,
                    },
                ),
                None => result matches Err(message) && message@ == "Internal server error"@,
            },
        },
    }
}

/// Reads the result of a request for a token from how the request ended.
pub fn read_token_exchange(exchange: TokenExchange, context: &str) -> (result: Result<
    OAuthTokenResponse,
    String,
>)
    ensures
        token_result(exchange, context@, result),
{
    match exchange {
        TokenExchange::Unsent => Err(String::from_str("Service temporarily unavailable")),
        TokenExchange::Unreadable => Err(String::from_str("Internal server error")),
        TokenExchange::Answered(answer) => {
            if answer.error.is_some() {
                match answer.error_description {
                    Some(description) => Err(description),
                    None => Err(String::from_str(context).concat(" failed")),
                }
            } else {
                match answer.access_token {
                    Some(token) => Ok(
                        OAuthTokenResponse {
                            access_token: token,
                            refresh_token: answer.refresh_token,
                            expires_in: answer.expires_in,
                            refresh_token_expires_in: answer.refresh_token_expires_in,
                        },
                    ),
                    None => Err(String::from_str("Internal server error")),
                }
            }
        },
    }
}

} // verus!
