//! The claims of a credential: who asks, for which request, and for how long.

use vstd::prelude::*;
use vstd::string::StringExecFns;
use crate::client::BASE_URL;
use crate::json::{json_string, push_json_string};
use crate::text::{push_signed_decimal, signed_decimal};

verus! {

/// The issuer of every credential.
pub const ISSUER: &'static str = "cdp";

/// For how many seconds a credential is valid.
pub const VALIDITY_SECONDS: i64 = 60;

/// The length of a nonce in characters.
pub const NONCE_LENGTH: usize = 16;

/// True when `c` is an ASCII letter or digit.
pub open spec fn is_alphanumeric(c: char) -> bool {
    ('A' <= c <= 'Z') || ('a' <= c <= 'z') || ('0' <= c <= '9')
}

/// True when `s` is a nonce: sixteen ASCII letters and digits.
pub open spec fn is_nonce(s: Seq<char>) -> bool {
    &&& s.len() == NONCE_LENGTH
    &&& forall|i: int| 0 <= i < s.len() ==> is_alphanumeric(#[trigger] s[i])
}

/// The request that a credential is bound to: the verb, a space, the host and
/// the path.
pub open spec fn request_uri(method: Seq<char>, path: Seq<char>) -> Seq<char> {
    method + seq![' '] + BASE_URL@ + path
}

/// What a set of claims says.
pub struct ClaimSet {
    pub sub: Seq<char>,
    pub iss: Seq<char>,
    pub nbf: int,
    pub exp: int,
    pub uri: Seq<char>,
    pub kid: Seq<char>,
    pub nonce: Seq<char>,
}

/// The claims of the key `key_name` for the request `method` `path`, made at
/// the time `now` with the nonce `nonce`: valid from `now` on for sixty
/// seconds.
pub open spec fn claims_for(
    key_name: Seq<char>,
    method: Seq<char>,
    path: Seq<char>,
    now: int,
    nonce: Seq<char>,
) -> ClaimSet {
    ClaimSet {
        sub: key_name,
        iss: ISSUER@,
        nbf: now,
        exp: now + VALIDITY_SECONDS,
        uri: request_uri(method, path),
        kid: key_name,
        nonce,
    }
}

/// Claims expire exactly sixty seconds after they become valid, whatever the
/// time at which they were made.
pub proof fn lemma_validity_window(
    key_name: Seq<char>,
    method: Seq<char>,
    path: Seq<char>,
    now: int,
    nonce: Seq<char>,
)
    ensures
        claims_for(key_name, method, path, now, nonce).exp == claims_for(
            key_name,
            method,
            path,
            now,
            nonce,
        ).nbf + 60,
        claims_for(key_name, method, path, now, nonce).nbf == now,
{
}

/// The claims as a JSON object, the members in a fixed order and without
/// white space.
pub open spec fn claims_json(c: ClaimSet) -> Seq<char> {
    "{\"sub\":"@ + json_string(c.sub) + ",\"iss\":"@ + json_string(c.iss) + ",\"nbf\":"@
        + signed_decimal(c.nbf) + ",\"exp\":"@ + signed_decimal(c.exp) + ",\"uri\":"@
        + json_string(c.uri) + ",\"kid\":"@ + json_string(c.kid) + ",\"nonce\":"@ + json_string(
        c.nonce,
    ) + seq!['}']
}

/// The claims that are signed into one credential.
pub struct Claims {
    /// The key identifier, as the subject.
    pub sub: String,
    /// The issuer.
    pub iss: String,
    /// The time from which the credential is valid, in seconds since the epoch.
    pub nbf: i64,
    /// The time at which the credential expires.
    pub exp: i64,
    /// The request that the credential is bound to.
    pub uri: String,
    /// The key identifier.
    pub kid: String,
    /// A value that no other credential shares.
    pub nonce: String,
}

impl View for Claims {
    type V = ClaimSet;

    open spec fn view(&self) -> ClaimSet {
        ClaimSet {
            sub: self.sub@,
            iss: self.iss@,
            nbf: self.nbf as int,
            exp: self.exp as int,
            uri: self.uri@,
            kid: self.kid@,
            nonce: self.nonce@,
        }
    }
}

impl Claims {
    /// The claims of the key `key_name` for the request `request_method`
    /// `request_path`, valid from `now` on for sixty seconds.
    pub fn new(
        key_name: &str,
        request_method: &str,
        request_path: &str,
        now: i64,
        nonce: String,
    ) -> (claims: Claims)
        requires
            now + VALIDITY_SECONDS <= i64::MAX,
        ensures
            claims@ == claims_for(key_name@, request_method@, request_path@, now as int, nonce@),
            claims.exp == claims.nbf + 60,
    {
        let mut uri = String::from_str(request_method);
        uri.push(' ');
        uri.append(BASE_URL);
        uri.append(request_path);
        assert(uri@ =~= request_uri(request_method@, request_path@));
        Claims {
            sub: String::from_str(key_name),
            iss: String::from_str(ISSUER),
            nbf: now,
            exp: now + VALIDITY_SECONDS,
            uri,
            kid: String::from_str(key_name),
            nonce,
        }
    }

    /// Writes the claims as a JSON object.
    pub fn to_json(&self) -> (text: String)
        ensures
            text@ == claims_json(self@),
    {
        let mut out = String::from_str("{\"sub\":");
        push_json_string(&mut out, self.sub.as_str());
        out.append(",\"iss\":");
        push_json_string(&mut out, self.iss.as_str());
        out.append(",\"nbf\":");
        push_signed_decimal(&mut out, self.nbf);
        out.append(",\"exp\":");
        push_signed_decimal(&mut out, self.exp);
        out.append(",\"uri\":");
        push_json_string(&mut out, self.uri.as_str());
        out.append(",\"kid\":");
        push_json_string(&mut out, self.kid.as_str());
        out.append(",\"nonce\":");
        push_json_string(&mut out, self.nonce.as_str());
        out.push('}');
        assert(out@ =~= claims_json(self@));
        out
    }
}

} // verus!
