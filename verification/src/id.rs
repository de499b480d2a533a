//! Representation of the provider's token endpoint responses.

use vstd::prelude::*;

use crate::scopes::str_eq;
use crate::scopes::Scope;
use crate::types::{AccessToken, RefreshToken};

verus! {

/// The provider's representation of a token grant.
#[derive(Clone)]
pub struct TwitchTokenResponse {
    /// Access token
    pub access_token: AccessToken,
    /// Time (in seconds) until the token expires
    pub expires_in: Option<u64>,
    /// Token that can be used to refresh
    pub refresh_token: Option<RefreshToken>,
    /// Scopes attached to the token
    pub scopes: Option<Vec<Scope>>,
}

impl TwitchTokenResponse {
    /// Get the access token from this response.
    pub fn access_token(&self) -> (r: &AccessToken)
        ensures
            r == &self.access_token,
    {
        &self.access_token
    }

    /// Get the seconds until expiry from this response.
    pub fn expires_in(&self) -> (r: Option<u64>)
        ensures
            r == self.expires_in,
    {
        self.expires_in
    }

    /// Get the refresh token from this response.
    pub fn refresh_token(&self) -> (r: Option<&RefreshToken>)
        ensures
            match r {
                Some(t) => self.refresh_token is Some && t == &self.refresh_token->0,
                None => self.refresh_token is None,
            },
    {
        self.refresh_token.as_ref()
    }

    /// Get the scopes from this response.
    pub fn scopes(&self) -> (r: Option<&[Scope]>)
        ensures
            match r {
                Some(v) => self.scopes is Some && v@ == self.scopes->0@,
                None => self.scopes is None,
            },
    {
        match &self.scopes {
            Some(v) => Some(v.as_slice()),
            None => None,
        }
    }
}

/// The scope list as the provider sends it: a list holding one empty string
/// stands for no scopes at all, and is normalized to `None`.
pub fn normalize_scopes(scopes: Option<Vec<Scope>>) -> (r: Option<Vec<Scope>>)
    ensures
        r == match scopes {
            None => None::<Vec<Scope>>,
            Some(v) => if v@.len() == 1 && v@[0]@ == ""@ {
                None::<Vec<Scope>>
            } else {
                Some(v)
            },
        },
{
    match scopes {
        None => None,
        Some(v) => {
            if v.len() == 1 && str_eq(v[0].as_str(), "") {
                None
            } else {
                Some(v)
            }
        }
    }
}

/// The provider's representation of an error, with the numeric HTTP status
/// code it came with.
#[derive(Debug, Clone)]
pub struct TwitchTokenErrorResponse {
    /// Status code of the error
    pub status: u16,
    /// Message attached to the error
    pub message: String,
    /// Description of the error message
    pub error: Option<String>,
}

/// What http's status code table says about a numeric code: its canonical
/// reason phrase, if the code has one.
pub uninterp spec fn canonical_reason_of(status: u16) -> Option<Seq<char>>;

/// Relies on http's `StatusCode::canonical_reason` (and `from_u16`): the
/// reason phrase is a fixed table lookup on the numeric code alone.
#[verifier::external_body]
fn canonical_reason(status: u16) -> (r: Option<&'static str>)
    ensures
        match r {
            Some(s) => canonical_reason_of(status) == Some(s@),
            None => canonical_reason_of(status) is None,
        },
{
    http::StatusCode::from_u16(status)
        .ok()
        .and_then(|s| s.canonical_reason())
}

impl TwitchTokenErrorResponse {
    /// The rendering of this error: the error kind (or, in its absence, the
    /// status code's canonical reason, or "Error"), then " - ", then the
    /// message.
    pub open spec fn text_spec(&self) -> Seq<char> {
        (match self.error {
            Some(e) => e@,
            None => match canonical_reason_of(self.status) {
                Some(t) => t,
                None => "Error"@,
            },
        }) + " - "@ + self.message@
    }

    /// The rendering of this error, as [`Self::text_spec`] describes it.
    pub fn to_text(&self) -> (r: String)
        ensures
            r@ == self.text_spec(),
    {
        let kind: &str = match &self.error {
            Some(e) => e.as_str(),
            None => match canonical_reason(self.status) {
                Some(t) => t,
                None => "Error",
            },
        };
        let mut out = kind.to_owned();
        out.append(" - ");
        out.append(self.message.as_str());
        out
    }
}

/// Errors from parsing responses.
#[derive(Debug)]
pub enum RequestParseError {
    /// deserialization failed; carries the parser's message
    DeserializeError(String),
    /// the provider returned an error
    TwitchError(TwitchTokenErrorResponse),
    /// returned content is not `application/json`; carries the content type found
    NotJson(String),
    /// the provider returned an unexpected status code
    Other(u16),
}

/// The decision at the heart of response validation: a body that decodes as
/// a provider error is an error whatever the status says, and otherwise only
/// status 200 is accepted.
pub fn classify_response_status(status: u16, twitch_error: Option<TwitchTokenErrorResponse>) -> (r:
    Result<(), RequestParseError>)
    ensures
        r == match twitch_error {
            Some(e) => Err::<(), RequestParseError>(RequestParseError::TwitchError(e)),
            None => if status == 200 {
                Ok::<(), RequestParseError>(())
            } else {
                Err::<(), RequestParseError>(RequestParseError::Other(status))
            },
        },
{
    match twitch_error {
        Some(e) => Err(RequestParseError::TwitchError(e)),
        None => {
            if status == 200 {
                Ok(())
            } else {
                Err(RequestParseError::Other(status))
            }
        }
    }
}

/// The check on a response's content type: anything but `application/json`
/// (or none at all) is refused, and the offending type is reported.
pub fn check_content_type(found: Option<String>) -> (r: Result<(), RequestParseError>)
    ensures
        r == match found {
            Some(c) => if c@ == "application/json"@ {
                Ok::<(), RequestParseError>(())
            } else {
                Err::<(), RequestParseError>(RequestParseError::NotJson(c))
            },
            None => Ok::<(), RequestParseError>(()),
        },
{
    match found {
        Some(c) => {
            if str_eq(c.as_str(), "application/json") {
                Ok(())
            } else {
                Err(RequestParseError::NotJson(c))
            }
        }
        None => Ok(()),
    }
}

} // verus!
