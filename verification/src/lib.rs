//! OAuth2 credential library for a single identity provider's token flows.
//!
//! The heart of the crate is the scope validator expression engine in
//! [`scopes::validator`]: a boolean-logic evaluator over sets of permission
//! scopes, with a "missing scopes" diagnostic that prunes matched
//! sub-expressions and reports the residual requirement.

pub mod id;
pub mod scopes;
pub mod tokens;
pub mod types;

pub use id::{RequestParseError, TwitchTokenErrorResponse, TwitchTokenResponse};
pub use scopes::Scope;
pub use scopes::validator::Validator;
pub use tokens::{BearerTokenType, ValidatedToken};
pub use types::{AccessToken, ClientId, ClientSecret, CsrfToken, RefreshToken};
