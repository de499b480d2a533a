//! Errors

use vstd::prelude::*;

use crate::id::RequestParseError;
use crate::scopes::str_eq;
use crate::types::{AccessToken, RefreshToken};

verus! {

/// The transport error of a flow that makes no requests: no value of it is
/// ever produced, so an error carrying it as its `Request` payload never
/// actually holds that variant.
#[derive(Debug)]
pub struct Never;

/// General errors when requesting an app access token.
#[derive(Debug)]
#[non_exhaustive]
pub enum AppAccessTokenError<RE> {
    /// request for token failed
    Request(RE),
    /// could not parse response when getting app access token
    RequestParseError(RequestParseError),
}

/// Errors from validating an access token.
#[derive(Debug)]
#[non_exhaustive]
pub enum ValidationError<RE> {
    /// token is not authorized for use
    NotAuthorized,
    /// could not parse response when validating token
    RequestParseError(RequestParseError),
    /// failed to request validation
    Request(RE),
    /// given token is not of the correct token type
    InvalidToken(String),
}

/// How a validation error maps when its transport error type is widened:
/// each variant and its payload carry over unchanged.
pub open spec fn into_other_spec<A, B>(a: ValidationError<A>, b: ValidationError<B>) -> bool {
    match a {
        ValidationError::NotAuthorized => b is NotAuthorized,
        ValidationError::RequestParseError(e) => b == ValidationError::<B>::RequestParseError(e),
        ValidationError::Request(_) => false,
        ValidationError::InvalidToken(s) => b == ValidationError::<B>::InvalidToken(s),
    }
}

impl ValidationError<Never> {
    /// Convert this error, which carries no transport error, into one for
    /// any transport error type.
    pub fn into_other<RE>(self) -> (r: ValidationError<RE>)
        requires
            !(self is Request),
        ensures
            into_other_spec(self, r),
    {
        match self {
            ValidationError::NotAuthorized => ValidationError::NotAuthorized,
            ValidationError::RequestParseError(e) => ValidationError::RequestParseError(e),
            ValidationError::InvalidToken(s) => ValidationError::InvalidToken(s),
            ValidationError::Request(_) => {
                proof {
                    assert(false);
                }
                ValidationError::NotAuthorized
            }
        }
    }
}

/// Errors from assembling a user token out of its parts.
pub struct CreationError<RE> {
    /// Access token passed to the function
    pub access_token: AccessToken,
    /// Refresh token passed to the function
    pub refresh_token: Option<RefreshToken>,
    /// Error validating the token
    pub error: ValidationError<RE>,
}

impl CreationError<Never> {
    /// Convert this error, which carries no transport error, into one for
    /// any transport error type.
    pub fn into_other<RE>(self) -> (r: CreationError<RE>)
        requires
            !(self.error is Request),
        ensures
            r.access_token == self.access_token,
            r.refresh_token == self.refresh_token,
            into_other_spec(self.error, r.error),
    {
        CreationError {
            access_token: self.access_token,
            refresh_token: self.refresh_token,
            error: self.error.into_other(),
        }
    }
}

/// Errors from retrieving a token by validating or refreshing it.
#[non_exhaustive]
pub enum RetrieveTokenError<RE> {
    /// could not validate token
    ValidationError {
        /// Error validating the token
        error: ValidationError<RE>,
        /// Access token passed to the function
        access_token: AccessToken,
        /// Refresh token passed to the function
        refresh_token: Option<RefreshToken>,
    },
    /// could not refresh token
    RefreshTokenError {
        /// Error refreshing the token
        error: RefreshTokenError<RE>,
        /// Refresh token passed to the function
        refresh_token: RefreshToken,
    },
}

/// Errors from revoking a token.
#[derive(Debug)]
#[non_exhaustive]
pub enum RevokeTokenError<RE> {
    /// could not parse response when revoking token
    RequestParseError(RequestParseError),
    /// failed to do revokation
    RequestError(RE),
}

/// Errors from refreshing a token.
#[derive(Debug)]
#[non_exhaustive]
pub enum RefreshTokenError<RE> {
    /// request when refreshing token failed
    RequestError(RE),
    /// could not parse response when refreshing token
    RequestParseError(RequestParseError),
    /// no client secret found
    NoClientSecretFound,
    /// no refresh token found
    NoRefreshToken,
    /// no expiration found on new token
    NoExpiration,
}

/// Errors from the authorization-code exchange of a user token.
#[derive(Debug)]
#[non_exhaustive]
pub enum UserTokenExchangeError<RE> {
    /// request for user token failed
    RequestError(RE),
    /// could not parse response when getting user token
    RequestParseError(RequestParseError),
    /// state CSRF does not match when exchanging user token
    StateMismatch,
    /// could not get validation for user token
    ValidationError(ValidationError<RE>),
}

/// Errors from the implicit-code exchange of a user token.
#[derive(Debug)]
#[non_exhaustive]
pub enum ImplicitUserTokenExchangeError<RE> {
    /// the provider returned an error
    TwitchError {
        /// Error type
        error: Option<String>,
        /// Description of error
        description: Option<String>,
    },
    /// state CSRF does not match
    StateMismatch,
    /// could not get validation for token
    ValidationError(ValidationError<RE>),
}

/// Errors from the device-code exchange of a user token.
#[derive(Debug)]
#[non_exhaustive]
pub enum DeviceUserTokenExchangeError<RE> {
    /// request for exchange token failed
    DeviceExchangeRequestError(RE),
    /// could not parse response when getting exchange token
    DeviceExchangeParseError(RequestParseError),
    /// request for user token failed
    TokenRequestError(RE),
    /// could not parse response when getting user token
    TokenParseError(RequestParseError),
    /// could not get validation for token
    ValidationError(ValidationError<RE>),
    /// no device code found, exchange not started
    NoDeviceCode,
    /// the device code has expired
    Expired,
}

impl<RE> DeviceUserTokenExchangeError<RE> {
    /// Whether the provider said the authorization request is still pending.
    pub open spec fn is_pending_spec(&self) -> bool {
        match self {
            DeviceUserTokenExchangeError::TokenParseError(
                RequestParseError::TwitchError(resp),
            ) => resp.message@ == "authorization_pending"@,
            _ => false,
        }
    }

    /// Check if the error is due to the authorization request being pending.
    pub fn is_pending(&self) -> (r: bool)
        ensures
            r == self.is_pending_spec(),
    {
        match self {
            DeviceUserTokenExchangeError::TokenParseError(
                RequestParseError::TwitchError(resp),
            ) => str_eq(resp.message.as_str(), "authorization_pending"),
            _ => false,
        }
    }
}

} // verus!
