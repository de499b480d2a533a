//! Types used in the token flows.

use base64::Engine;
use vstd::prelude::*;

verus! {

/// A client id.
#[derive(Debug, Clone)]
pub struct ClientId(String);

/// A client secret. It has no `Debug` output, so it cannot leak into logs.
#[derive(Clone)]
pub struct ClientSecret(String);

/// An access token. It has no `Debug` output, so it cannot leak into logs.
#[derive(Clone)]
pub struct AccessToken(String);

/// A refresh token. It has no `Debug` output, so it cannot leak into logs.
#[derive(Clone)]
pub struct RefreshToken(String);

/// A CSRF token. It has no `Debug` output, so it cannot leak into logs.
#[derive(Clone)]
pub struct CsrfToken(String);

impl View for ClientId {
    type V = Seq<char>;

    closed spec fn view(&self) -> Seq<char> {
        self.0@
    }
}

impl View for ClientSecret {
    type V = Seq<char>;

    closed spec fn view(&self) -> Seq<char> {
        self.0@
    }
}

impl View for AccessToken {
    type V = Seq<char>;

    closed spec fn view(&self) -> Seq<char> {
        self.0@
    }
}

impl View for RefreshToken {
    type V = Seq<char>;

    closed spec fn view(&self) -> Seq<char> {
        self.0@
    }
}

impl View for CsrfToken {
    type V = Seq<char>;

    closed spec fn view(&self) -> Seq<char> {
        self.0@
    }
}

impl ClientId {
    /// Wrap a string as a client id.
    pub fn new(s: String) -> (r: Self)
        ensures
            r@ == s@,
    {
        ClientId(s)
    }

    /// Get the client id as a borrowed string.
    pub fn as_str(&self) -> (r: &str)
        ensures
            r@ == self@,
    {
        self.0.as_str()
    }
}

impl ClientSecret {
    /// Wrap a string as a client secret.
    pub fn new(s: String) -> (r: Self)
        ensures
            r@ == s@,
    {
        ClientSecret(s)
    }

    /// Get the secret from this string.
    pub fn secret(&self) -> (r: &str)
        ensures
            r@ == self@,
    {
        self.0.as_str()
    }
}

impl AccessToken {
    /// Wrap a string as an access token.
    pub fn new(s: String) -> (r: Self)
        ensures
            r@ == s@,
    {
        AccessToken(s)
    }

    /// Get the secret from this string.
    pub fn secret(&self) -> (r: &str)
        ensures
            r@ == self@,
    {
        self.0.as_str()
    }
}

impl RefreshToken {
    /// Wrap a string as a refresh token.
    pub fn new(s: String) -> (r: Self)
        ensures
            r@ == s@,
    {
        RefreshToken(s)
    }

    /// Get the secret from this string.
    pub fn secret(&self) -> (r: &str)
        ensures
            r@ == self@,
    {
        self.0.as_str()
    }
}

/// What the standard base64 engine, with padding, encodes a byte string to.
pub uninterp spec fn base64_of(bytes: Seq<u8>) -> Seq<char>;

/// Relies on base64's `Engine::encode` with the `STANDARD` engine: the
/// result is a function of the input bytes alone, and with padding its
/// length is four characters for every started group of three bytes.
#[verifier::external_body]
fn base64_standard(bytes: &Vec<u8>) -> (r: String)
    requires
        4 * ((bytes@.len() + 2) / 3) <= usize::MAX,
    ensures
        r@ == base64_of(bytes@),
        r@.len() == 4 * ((bytes@.len() + 2) / 3),
{
    base64::engine::general_purpose::STANDARD.encode(bytes)
}

/// Relies on rand's `random`: one byte from the thread-local generator.
/// Nothing is promised of its value.
#[verifier::external_body]
fn random_byte() -> u8 {
    rand::random::<u8>()
}

impl CsrfToken {
    /// Wrap a string as a CSRF token.
    pub fn new(s: String) -> (r: Self)
        ensures
            r@ == s@,
    {
        CsrfToken(s)
    }

    /// Get the secret from this string.
    pub fn secret(&self) -> (r: &str)
        ensures
            r@ == self@,
    {
        self.0.as_str()
    }

    /// Make a new random CSRF token.
    pub fn new_random() -> (r: CsrfToken)
        ensures
            r@.len() == 24,
    {
        Self::new_random_len(16)
    }

    /// Make a new random CSRF token from the given amount of random bytes,
    /// encoded as base64.
    pub fn new_random_len(len: u32) -> (r: CsrfToken)
        requires
            4 * (((len as nat) + 2) / 3) <= usize::MAX,
        ensures
            r@.len() == 4 * (((len as nat) + 2) / 3),
    {
        let mut bytes: Vec<u8> = Vec::new();
        let mut i: u32 = 0;
        while i < len
            invariant
                0 <= i <= len,
                bytes@.len() == i,
            decreases len - i,
        {
            bytes.push(random_byte());
            i += 1;
        }
        CsrfToken::new(base64_standard(&bytes))
    }
}

} // verus!
