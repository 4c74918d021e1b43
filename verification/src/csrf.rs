//! Protection against forged requests: a secret kept in a cookie, and
//! tokens derived from it that forms and headers must carry.

use vstd::prelude::*;
use vstd::string::StringExecFns;
use crate::storage::option_str_view;

verus! {

/// The name of the cookie that holds the secret.
pub const COOKIE_NAME: &'static str = "csrf_token";

/// The cost at which tokens are hashed.
pub const BCRYPT_COST: u32 = 8;

/// How the secret is kept.
#[derive(Debug, PartialEq, Eq)]
pub struct CsrfConfig {
    /// The time for which the cookie is kept, in seconds.
    lifespan: i64,
    /// The name of the cookie.
    cookie_name: String,
    /// The least number of bytes of the secret.
    cookie_len: usize,
}

/// The secret of a session, in base64.
#[derive(Debug, PartialEq, Eq)]
pub struct CsrfToken(pub String);

/// A token that was not derived from the secret of the session.
#[derive(Clone, Copy, Debug, PartialEq, Eq, Structural)]
pub struct VerificationFailure;

/// A form that was refused for its token.
#[derive(Clone, Copy, Debug, PartialEq, Eq, Structural)]
pub struct CSRFError {}

/// The proof that a request carries a token of its session in its header.
#[derive(Clone, Copy, Debug, PartialEq, Eq, Structural)]
pub struct HeaderCSRF {}

/// What `bcrypt::verify` makes of a secret and a hash: whether the hash is
/// one of the secret, or `None` where it refuses the hash.
pub uninterp spec fn bcrypt_verified(secret: Seq<char>, hash: Seq<char>) -> Option<bool>;

/// What the standard base64 alphabet without padding makes of bytes.
pub uninterp spec fn base64_encoded(bytes: Seq<u8>) -> Seq<char>;

/// The bytes that a text stands for in the standard base64 alphabet
/// without padding, or `None` where it is no such text.
pub uninterp spec fn base64_decoded(text: Seq<char>) -> Option<Seq<u8>>;

/// The view of optional bytes.
pub open spec fn option_bytes_view(bytes: Option<Vec<u8>>) -> Option<Seq<u8>> {
    match bytes {
        Some(bytes) => Some(bytes@),
        None => None,
    }
}

/// Calls `bcrypt::verify`, which hashes the secret with the cost and the
/// salt of `hash` and compares. The contract only names the result.
#[verifier::external_body]
fn bcrypt_verify(secret: &str, hash: &str) -> (verified: Option<bool>)
    ensures
        verified == bcrypt_verified(secret@, hash@),
{
    bcrypt::verify(secret, hash).ok()
}

/// Calls `bcrypt::hash`, which hashes the secret with a salt that it draws
/// at random and writes cost, salt and hash into one text. Which text comes
/// back is left open, and so is whether one comes back at all. What is
/// claimed holds of every text that does: `bcrypt::verify` reads cost and
/// salt back from it, hashes the secret with them again, and so accepts it
/// for that secret.
#[verifier::external_body]
fn bcrypt_hash(secret: &str, cost: u32) -> (hashed: Option<String>)
    ensures
        hashed matches Some(text) ==> bcrypt_verified(secret@, text@) == Some(true),
{
    bcrypt::hash(secret, cost).ok()
}

/// Calls `encode` of `base64::prelude::BASE64_STANDARD_NO_PAD`. The
/// contract only names the result.
#[verifier::external_body]
fn base64_encode(bytes: &Vec<u8>) -> (text: String)
    ensures
        text@ == base64_encoded(bytes@),
{
    base64::Engine::encode(&base64::prelude::BASE64_STANDARD_NO_PAD, bytes)
}

/// Calls `decode` of `base64::prelude::BASE64_STANDARD_NO_PAD`. The
/// contract only names the result.
#[verifier::external_body]
fn base64_decode(text: &str) -> (bytes: Option<Vec<u8>>)
    ensures
        option_bytes_view(bytes) == base64_decoded(text@),
{
    base64::Engine::decode(&base64::prelude::BASE64_STANDARD_NO_PAD, text).ok()
}

impl CsrfConfig {
    /// The time for which the cookie is kept, in seconds.
    pub closed spec fn spec_lifespan(&self) -> i64 {
        self.lifespan
    }

    /// The name of the cookie.
    pub closed spec fn spec_cookie_name(&self) -> Seq<char> {
        self.cookie_name@
    }

    /// The least number of bytes of the secret.
    pub closed spec fn spec_cookie_len(&self) -> usize {
        self.cookie_len
    }

    /// A secret of 32 bytes, kept for a day in the cookie `csrf_token`.
    pub fn new() -> (config: Self)
        ensures
            config.spec_lifespan() == 86400,
            config.spec_cookie_name() == COOKIE_NAME@,
            config.spec_cookie_len() == 32,
    {
        CsrfConfig { lifespan: 86400, cookie_name: String::from_str(COOKIE_NAME), cookie_len: 32 }
    }

    /// The configuration with the cookie kept for `seconds`.
    pub fn with_lifetime(self, seconds: i64) -> (config: Self)
        ensures
            config.spec_lifespan() == seconds,
            config.spec_cookie_name() == self.spec_cookie_name(),
            config.spec_cookie_len() == self.spec_cookie_len(),
    {
        CsrfConfig { lifespan: seconds, cookie_name: self.cookie_name, cookie_len: self.cookie_len }
    }

    /// The configuration with the cookie named `name`.
    pub fn with_cookie_name(self, name: String) -> (config: Self)
        ensures
            config.spec_lifespan() == self.spec_lifespan(),
            config.spec_cookie_name() == name@,
            config.spec_cookie_len() == self.spec_cookie_len(),
    {
        CsrfConfig { lifespan: self.lifespan, cookie_name: name, cookie_len: self.cookie_len }
    }

    /// The configuration with a secret of at least `length` bytes.
    pub fn with_cookie_len(self, length: usize) -> (config: Self)
        ensures
            config.spec_lifespan() == self.spec_lifespan(),
            config.spec_cookie_name() == self.spec_cookie_name(),
            config.spec_cookie_len() == length,
    {
        CsrfConfig { lifespan: self.lifespan, cookie_name: self.cookie_name, cookie_len: length }
    }

    /// The time for which the cookie is kept, in seconds.
    #[verifier::when_used_as_spec(spec_lifespan)]
    pub fn lifespan(&self) -> (seconds: i64)
        ensures
            seconds == self.spec_lifespan(),
    {
        self.lifespan
    }

    /// The name of the cookie.
    pub fn cookie_name(&self) -> (name: &str)
        ensures
            name@ == self.spec_cookie_name(),
    {
        self.cookie_name.as_str()
    }

    /// The least number of bytes of the secret.
    #[verifier::when_used_as_spec(spec_cookie_len)]
    pub fn cookie_len(&self) -> (length: usize)
        ensures
            length == self.spec_cookie_len(),
    {
        self.cookie_len
    }

    /// The secret that the cookie of a request holds: the bytes that its
    /// value stands for, where there is a cookie, its value is base64 and the
    /// bytes are at least as many as the configuration asks for.
    pub fn valid_csrf_token_from_session(&self, cookie: Option<&str>) -> (secret: Option<Vec<u8>>)
        ensures
            option_bytes_view(secret) == valid_secret(option_str_view(cookie), self.cookie_len()),
    {
        match cookie {
            None => None,
            Some(value) => match base64_decode(value) {
                Some(raw) => if raw.len() >= self.cookie_len {
                    Some(raw)
                } else {
                    None
                },
                None => None,
            },
        }
    }
}

impl Clone for CsrfConfig {
    fn clone(&self) -> (copy: Self)
        ensures
            copy == *self,
    {
        CsrfConfig {
            lifespan: self.lifespan,
            cookie_name: self.cookie_name.clone(),
            cookie_len: self.cookie_len,
        }
    }
}

impl Default for CsrfConfig {
    fn default() -> (config: Self)
        ensures
            config.spec_lifespan() == 86400,
            config.spec_cookie_name() == COOKIE_NAME@,
            config.spec_cookie_len() == 32,
    {
        CsrfConfig::new()
    }
}

/// The secret that a cookie with `cookie` for its value holds, where a
/// secret must have `cookie_len` bytes or more.
pub open spec fn valid_secret(cookie: Option<Seq<char>>, cookie_len: usize) -> Option<Seq<u8>> {
    match cookie {
        None => None,
        Some(value) => match base64_decoded(value) {
            Some(raw) => if raw.len() >= cookie_len {
                Some(raw)
            } else {
                None
            },
            None => None,
        },
    }
}

/// Whether `token` was derived from `secret`.
pub open spec fn token_verifies(secret: Seq<char>, token: Seq<char>) -> bool {
    bcrypt_verified(secret, token) == Some(true)
}

impl CsrfToken {
    /// The token of a session with the secret `raw`.
    pub fn from_secret(raw: &Vec<u8>) -> (token: CsrfToken)
        ensures
            token.0@ == base64_encoded(raw@),
    {
        CsrfToken(base64_encode(raw))
    }

    /// A token to put into a form or a header, or `None` where none could
    /// be made. Each call gives another token, and each of them is one that
    /// [`CsrfToken::verify`] accepts for this session.
    pub fn authenticity_token(&self) -> (token: Option<String>)
        ensures
            token matches Some(text) ==> token_verifies(self.0@, text@),
    {
        bcrypt_hash(self.0.as_str(), BCRYPT_COST)
    }

    /// Whether `form_authenticity_token` was derived from the secret of
    /// the session.
    pub fn verify(&self, form_authenticity_token: &str) -> (result: Result<
        (),
        VerificationFailure,
    >)
        ensures
            result.is_ok() == token_verifies(self.0@, form_authenticity_token@),
    {
        match bcrypt_verify(self.0.as_str(), form_authenticity_token) {
            Some(true) => Ok(()),
            _ => Err(VerificationFailure {  }),
        }
    }
}

/// Something that carries a token and can say whether it is one of a
/// session.
pub trait CheckCSRF {
    /// The token that is carried.
    spec fn carried_token(&self) -> Seq<char>;

    /// Whether the token that is carried was derived from the secret of the
    /// session.
    fn check_csrf(&self, token: &CsrfToken) -> (result: Result<(), VerificationFailure>)
        ensures
            result.is_ok() == token_verifies(token.0@, self.carried_token()),
    ;
}

impl HeaderCSRF {
    /// Lets a request through whose header carries a token derived from
    /// the secret of its session.
    pub fn check(token: &CsrfToken, header: Option<&str>) -> (result: Option<HeaderCSRF>)
        ensures
            result.is_some() == (header matches Some(carried) && token_verifies(
                token.0@,
                carried@,
            )),
    {
        match header {
            Some(carried) => match token.verify(carried) {
                Ok(_) => Some(HeaderCSRF {  }),
                Err(_) => None,
            },
            None => None,
        }
    }
}

} // verus!
