//! Making a credential for one request.
//!
//! A credential is a token that is valid for sixty seconds, bound to one verb
//! and one path, and marked with a nonce of its own. It is made anew for every
//! request and never kept.

use vstd::prelude::*;
use rand::Rng;
use crate::claims::{claims_for, is_alphanumeric, is_nonce, Claims, NONCE_LENGTH};
use crate::error::AuthError;
use crate::key::{from_sec1_pem, normalize_key_secret, pkcs8_pem_of_sec1_pem, unescaped_newlines};
use crate::token::{assemble_token, is_signature, is_token_of, sign, signing_input_of, token};

verus! {

/// The variable of the environment that holds the key identifier.
pub const KEY_NAME_VARIABLE: &'static str = "CBAT_KEY_NAME";

/// The variable of the environment that holds the private key.
pub const KEY_SECRET_VARIABLE: &'static str = "CBAT_KEY_SECRET";

/// The key of an account: its identifier and the private key itself.
pub struct Credentials {
    /// The key identifier.
    pub key_name: String,
    /// The EC private key, as SEC1 in PEM. A line break may be written as the
    /// two characters `\` and `n`.
    pub key_secret: String,
}

impl Credentials {
    /// The credentials with the given identifier and private key.
    pub fn new(key_name: String, key_secret: String) -> (credentials: Credentials)
        ensures
            credentials.key_name == key_name,
            credentials.key_secret == key_secret,
    {
        Credentials { key_name, key_secret }
    }

    /// The credentials from what the configuration holds under the two
    /// variables. The key identifier is looked at first: without it the error
    /// is `MissingKeyName`, whatever else is there; with it and without the
    /// private key the error is `MissingKeySecret`.
    pub fn from_lookup(key_name: Option<String>, key_secret: Option<String>) -> (r: Result<
        Credentials,
        AuthError,
    >)
        ensures
            match r {
                Ok(credentials) => key_name == Some(credentials.key_name) && key_secret == Some(
                    credentials.key_secret,
                ),
                Err(e) => if key_name is None {
                    e == AuthError::MissingKeyName
                } else {
                    key_secret is None && e == AuthError::MissingKeySecret
                },
            },
    {
        match key_name {
            None => Err(AuthError::MissingKeyName),
            Some(name) => match key_secret {
                None => Err(AuthError::MissingKeySecret),
                Some(secret) => Ok(Credentials { key_name: name, key_secret: secret }),
            },
        }
    }

    /// True when the private key can be read: its text, line breaks restored,
    /// is an EC private key in SEC1 form that has a PKCS#8 form.
    pub open spec fn key_is_readable(&self) -> bool {
        pkcs8_pem_of_sec1_pem(unescaped_newlines(self.key_secret@)) is Some
    }
}

/// `Rng::sample` of the crate `rand` on the generator of the current thread,
/// with the distribution `Alphanumeric`: one byte drawn from the ASCII letters
/// and digits. Which one is left to chance. The generator must have been
/// seeded by the operating system; where that fails, the call does not return.
#[verifier::external_body]
fn sample_alphanumeric() -> (b: u8)
    ensures
        is_alphanumeric(b as char),
{
    rand::thread_rng().sample(rand::distributions::Alphanumeric)
}

/// `Utc::now` of the crate `chrono`, as seconds since the epoch. The clock
/// decides the value; a date of `chrono` is always less than 2^48 seconds away
/// from the epoch. The clock of the machine must not stand before the epoch.
#[verifier::external_body]
fn unix_time_now() -> (t: i64)
    ensures
        -0x1_0000_0000_0000 < t < 0x1_0000_0000_0000,
{
    chrono::Utc::now().timestamp()
}

/// Draws a nonce: sixteen letters and digits, each chosen at random.
pub fn generate_nonce() -> (nonce: String)
    ensures
        is_nonce(nonce@),
{
    let mut nonce = String::new();
    let mut i: usize = 0;
    while i < NONCE_LENGTH
        invariant
            i <= NONCE_LENGTH,
            nonce@.len() == i,
            forall|j: int| 0 <= j < nonce@.len() ==> is_alphanumeric(#[trigger] nonce@[j]),
        decreases NONCE_LENGTH - i,
    {
        nonce.push(sample_alphanumeric() as char);
        i += 1;
    }
    nonce
}

/// Makes the token of the key for the request `request_method`
/// `request_path`, with the claims made at `now` with `nonce`.
///
/// The key decides first: where it cannot be read the error is `KeyFormat`
/// and nothing is signed. Otherwise the signer decides. With a signature the
/// result is the token of exactly these claims under that signature; without
/// one the error is `Signing`.
pub fn issue_token(
    credentials: &Credentials,
    request_method: &str,
    request_path: &str,
    now: i64,
    nonce: String,
) -> (r: Result<String, AuthError>)
    requires
        now + 60 <= i64::MAX,
    ensures
        match r {
            Ok(text) => credentials.key_is_readable() && is_token_of(
                text@,
                claims_for(
                    credentials.key_name@,
                    request_method@,
                    request_path@,
                    now as int,
                    nonce@,
                ),
            ),
            Err(e) => if credentials.key_is_readable() {
                e == AuthError::Signing
            } else {
                e == AuthError::KeyFormat
            },
        },
{
    let claims = Claims::new(
        credentials.key_name.as_str(),
        request_method,
        request_path,
        now,
        nonce,
    );
    let secret = normalize_key_secret(credentials.key_secret.as_str());
    let pem = from_sec1_pem(secret.as_str())?;
    let message = signing_input_of(&claims);
    let signature = sign(message.as_str(), pem.as_str())?;
    let text = assemble_token(message, signature.as_str());
    proof {
        assert(is_signature(signature@));
        assert(text@ == token(claims@, signature@));
    }
    Ok(text)
}

/// True when `text` is a token of the key `key_name` for the request
/// `method` `path`: the token of the claims made at some time with some nonce,
/// under some signature.
pub open spec fn is_credential_for(
    text: Seq<char>,
    key_name: Seq<char>,
    method: Seq<char>,
    path: Seq<char>,
) -> bool {
    exists|now: int, nonce: Seq<char>|
        is_nonce(nonce) && is_token_of(
            text,
            #[trigger] claims_for(key_name, method, path, now, nonce),
        )
}

/// Makes a credential for the request `request_method` `request_path`: a
/// token signed with the key, valid from now on for sixty seconds, with a
/// fresh nonce.
///
/// Fails with `KeyFormat` exactly when the key cannot be read. With a
/// readable key the signer decides between a token and `Signing`.
pub fn create_jwt(credentials: &Credentials, request_method: &str, request_path: &str) -> (r:
    Result<String, AuthError>)
    ensures
        match r {
            Ok(text) => credentials.key_is_readable() && is_credential_for(
                text@,
                credentials.key_name@,
                request_method@,
                request_path@,
            ),
            Err(e) => if credentials.key_is_readable() {
                e == AuthError::Signing
            } else {
                e == AuthError::KeyFormat
            },
        },
{
    let nonce = generate_nonce();
    let now = unix_time_now();
    let ghost chosen = nonce@;
    let r = issue_token(credentials, request_method, request_path, now, nonce);
    proof {
        if r is Ok {
            assert(is_token_of(
                r->Ok_0@,
                claims_for(
                    credentials.key_name@,
                    request_method@,
                    request_path@,
                    now as int,
                    chosen,
                ),
            ));
        }
    }
    r
}

} // verus!
