//! Token data as the provider reports it.

pub mod errors;

use vstd::prelude::*;

use crate::id::{RequestParseError, TwitchTokenResponse};
use crate::scopes::Scope;
use crate::types::{AccessToken, ClientId, RefreshToken};
use errors::{ImplicitUserTokenExchangeError, Never, RefreshTokenError, ValidationError};

verus! {

/// Types of bearer tokens
#[derive(Clone, Debug, PartialEq, Eq, Structural)]
pub enum BearerTokenType {
    /// Token for making requests in the context of an authenticated user.
    UserToken,
    /// Token for server-to-server requests.
    AppAccessToken,
}

/// Token validation data returned by the provider's validation endpoint.
#[derive(Clone)]
pub struct ValidatedToken {
    /// Client ID associated with the token
    pub client_id: ClientId,
    /// Username associated with the token
    pub login: Option<String>,
    /// User ID associated with the token
    pub user_id: Option<String>,
    /// Scopes attached to the token
    pub scopes: Option<Vec<Scope>>,
    /// Lifetime of the token, in seconds
    pub expires_in: Option<u64>,
}

/// The lifetime as the provider sends it: zero seconds stands for a token
/// that does not expire, and is normalized to `None`.
pub fn normalize_expires_in(secs: u64) -> (r: Option<u64>)
    ensures
        r == if secs == 0 {
            None::<u64>
        } else {
            Some(secs)
        },
{
    if secs == 0 {
        None
    } else {
        Some(secs)
    }
}

/// The decision behind accepting a validation response: a provider error
/// with status 401 means the token is not authorized; any other parse error
/// is passed through.
pub fn classify_validation_error(err: RequestParseError) -> (r: ValidationError<Never>)
    ensures
        r == match err {
            RequestParseError::TwitchError(e) => if e.status == 401 {
                ValidationError::<Never>::NotAuthorized
            } else {
                ValidationError::<Never>::RequestParseError(RequestParseError::TwitchError(e))
            },
            other => ValidationError::<Never>::RequestParseError(other),
        },
{
    match err {
        RequestParseError::TwitchError(e) => {
            if e.status == 401 {
                ValidationError::NotAuthorized
            } else {
                ValidationError::RequestParseError(RequestParseError::TwitchError(e))
            }
        }
        other => ValidationError::RequestParseError(other),
    }
}

/// The parts a user token is assembled from: validation data must name the
/// user, else the token is of the wrong kind.
pub fn user_token_parts(validated: ValidatedToken) -> (r: Result<
    (ClientId, String, String, Option<Vec<Scope>>, Option<u64>),
    ValidationError<Never>,
>)
    ensures
        match r {
            Ok((client_id, login, user_id, scopes, expires_in)) => {
                &&& validated.login == Some(login)
                &&& validated.user_id == Some(user_id)
                &&& client_id == validated.client_id
                &&& scopes == validated.scopes
                &&& expires_in == validated.expires_in
            },
            Err(e) => (validated.login is None || validated.user_id is None) && e is InvalidToken,
        },
        r is Ok <==> validated.login is Some && validated.user_id is Some,
{
    let login = match validated.login {
        Some(l) => l,
        None => {
            return Err(
                ValidationError::InvalidToken(
                    "validation did not include a `login`, token might be an app access token".to_owned(),
                ),
            );
        }
    };
    let user_id = match validated.user_id {
        Some(u) => u,
        None => {
            return Err(
                ValidationError::InvalidToken(
                    "validation did not include a `user_id`, token might be an app access token".to_owned(),
                ),
            );
        }
    };
    Ok((validated.client_id, login, user_id, validated.scopes, validated.expires_in))
}

/// The check behind accepting an app access token: validation data that
/// names a user belongs to a user token, not an app token.
pub fn check_app_token_validation(validated: &ValidatedToken) -> (r: Result<
    (),
    ValidationError<Never>,
>)
    ensures
        r is Ok <==> validated.user_id is None,
        r is Err ==> r->Err_0 is InvalidToken,
{
    if validated.user_id.is_some() {
        Err(
            ValidationError::InvalidToken(
                "expected an app access token, got a user access token".to_owned(),
            ),
        )
    } else {
        Ok(())
    }
}

/// What a refresh takes from the provider's response: the new access token,
/// its lifetime in seconds, and the new refresh token. A response without a
/// lifetime cannot refresh a token.
pub fn refresh_token_values(response: TwitchTokenResponse) -> (r: Result<
    (AccessToken, u64, Option<RefreshToken>),
    RefreshTokenError<Never>,
>)
    ensures
        match r {
            Ok((token, secs, refresh)) => {
                &&& response.expires_in == Some(secs)
                &&& token == response.access_token
                &&& refresh == response.refresh_token
            },
            Err(e) => response.expires_in is None && e is NoExpiration,
        },
{
    match response.expires_in {
        Some(secs) => Ok((response.access_token, secs, response.refresh_token)),
        None => Err(RefreshTokenError::NoExpiration),
    }
}

/// The decision behind accepting an implicit-flow redirect: the state must
/// match what was sent, and only a redirect carrying a token and no error is
/// accepted.
pub fn classify_implicit_redirect(
    state_valid: bool,
    access_token: Option<String>,
    error: Option<String>,
    error_description: Option<String>,
) -> (r: Result<AccessToken, ImplicitUserTokenExchangeError<Never>>)
    ensures
        !state_valid ==> r == Err::<AccessToken, ImplicitUserTokenExchangeError<Never>>(
            ImplicitUserTokenExchangeError::StateMismatch,
        ),
        state_valid ==> match (access_token, error, error_description) {
            (Some(t), None, None) => r is Ok && r->Ok_0@ == t@,
            (_, e, d) => r == Err::<AccessToken, ImplicitUserTokenExchangeError<Never>>(
                ImplicitUserTokenExchangeError::TwitchError { error: e, description: d },
            ),
        },
{
    if !state_valid {
        return Err(ImplicitUserTokenExchangeError::StateMismatch);
    }
    match (access_token, error, error_description) {
        (Some(t), None, None) => Ok(AccessToken::new(t)),
        (_, e, d) => Err(
            ImplicitUserTokenExchangeError::TwitchError { error: e, description: d },
        ),
    }
}

} // verus!
