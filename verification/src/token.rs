//! The signed token: header, claims and signature, each in base64url, with a
//! dot between neighbours.

use vstd::prelude::*;
use vstd::string::StringExecFns;
use vstd::string::StringSliceAdditionalSpecFns;
use vstd::utf8::encode_utf8;
use crate::base64url::{
    encode, encode_bytes, is_base64url, lemma_encode_alphabet, lemma_encode_injective,
};
use crate::claims::{claims_json, is_nonce, ClaimSet, Claims};
use crate::error::AuthError;
use crate::json::{json_string, lemma_escaped_plain, push_json_string};

verus! {

/// The length of a signature in characters: sixty-four bytes in base64url.
pub const SIGNATURE_LENGTH: usize = 86;

/// The header of a token as a JSON object: the type `JWT`, the algorithm
/// `ES256` and the key identifier.
pub open spec fn header_json(kid: Seq<char>) -> Seq<char> {
    "{\"typ\":\"JWT\",\"alg\":\"ES256\",\"kid\":"@ + json_string(kid) + seq!['}']
}

/// One segment of a token: the UTF-8 bytes of `text` in base64url.
pub open spec fn segment(text: Seq<char>) -> Seq<char> {
    encode(encode_utf8(text))
}

/// What is signed: the header's segment, a dot, the claims' segment. The
/// header carries the key identifier of the claims.
pub open spec fn signing_input(claims: ClaimSet) -> Seq<char> {
    segment(header_json(claims.kid)) + seq!['.'] + segment(claims_json(claims))
}

/// The token of `claims` under `signature`: what is signed, a dot, the
/// signature.
pub open spec fn token(claims: ClaimSet, signature: Seq<char>) -> Seq<char> {
    signing_input(claims) + seq!['.'] + signature
}

/// True when `s` has the form of a signature: eighty-six characters of the
/// URL-safe alphabet.
pub open spec fn is_signature(s: Seq<char>) -> bool {
    s.len() == SIGNATURE_LENGTH && is_base64url(s)
}

/// True when `text` is the token of `claims` under some signature.
pub open spec fn is_token_of(text: Seq<char>, claims: ClaimSet) -> bool {
    exists|signature: Seq<char>| #[trigger]
        is_signature(signature) && text == token(claims, signature)
}

/// Two texts that are cut at their first dot are equal only if what stands
/// before the dot is equal and what stands behind it is equal.
pub proof fn lemma_first_dot(a: Seq<char>, x: Seq<char>, b: Seq<char>, y: Seq<char>)
    requires
        is_base64url(a),
        is_base64url(b),
        a + seq!['.'] + x == b + seq!['.'] + y,
    ensures
        a == b,
        x == y,
{
    let s = a + seq!['.'] + x;
    let t = b + seq!['.'] + y;
    if a.len() < b.len() {
        assert(s[a.len() as int] == '.');
        assert(t[a.len() as int] == b[a.len() as int]);
    } else if b.len() < a.len() {
        assert(t[b.len() as int] == '.');
        assert(s[b.len() as int] == a[b.len() as int]);
    }
    assert(a.len() == b.len());
    assert(a =~= s.subrange(0, a.len() as int));
    assert(b =~= t.subrange(0, b.len() as int));
    assert(x =~= s.subrange(a.len() as int + 1, s.len() as int));
    assert(y =~= t.subrange(b.len() as int + 1, t.len() as int));
}

/// Different texts have different segments.
pub proof fn lemma_segment_injective(a: Seq<char>, b: Seq<char>)
    requires
        segment(a) == segment(b),
    ensures
        a == b,
{
    lemma_encode_injective(encode_utf8(a), encode_utf8(b));
    vstd::utf8::encode_utf8_decode_utf8(a);
    vstd::utf8::encode_utf8_decode_utf8(b);
}

/// The claims' JSON ends with the nonce between quotation marks and a closing
/// brace.
pub proof fn lemma_claims_json_ends_with_nonce(claims: ClaimSet)
    requires
        is_nonce(claims.nonce),
    ensures
        claims_json(claims).len() >= 19,
        claims_json(claims).subrange(
            claims_json(claims).len() - 18,
            claims_json(claims).len() - 2,
        ) == claims.nonce,
{
    lemma_escaped_plain(claims.nonce);
    let text = claims_json(claims);
    let tail = json_string(claims.nonce) + seq!['}'];
    assert(tail.len() == 19);
    assert(tail.subrange(1, 17) =~= claims.nonce);
    let lead = text.subrange(0, text.len() - 19);
    assert(text =~= lead + tail);
    assert(text.subrange(text.len() - 18, text.len() - 2) =~= tail.subrange(1, 17));
}

/// A token has three segments with a dot between neighbours: the header, the
/// claims and the signature. Each holds characters of the URL-safe alphabet
/// only, so the token holds exactly two dots. The header's segment is that of
/// a JSON object that names the algorithm `ES256` and the key of the claims.
pub proof fn lemma_token_segments(claims: ClaimSet, signature: Seq<char>)
    requires
        is_signature(signature),
    ensures
        ({
            let header = segment(header_json(claims.kid));
            let body = segment(claims_json(claims));
            let text = token(claims, signature);
            &&& is_base64url(header)
            &&& is_base64url(body)
            &&& is_base64url(signature)
            &&& text == header + seq!['.'] + body + seq!['.'] + signature
            &&& text.len() == header.len() + body.len() + signature.len() + 2
            &&& forall|i: int|
                0 <= i < text.len() ==> (#[trigger] text[i] == '.' <==> i == header.len() || i
                    == header.len() + 1 + body.len())
        }),
{
    let header = segment(header_json(claims.kid));
    let body = segment(claims_json(claims));
    let text = token(claims, signature);
    lemma_encode_alphabet(encode_utf8(header_json(claims.kid)));
    lemma_encode_alphabet(encode_utf8(claims_json(claims)));
    assert(text =~= header + seq!['.'] + body + seq!['.'] + signature);
    assert forall|i: int| 0 <= i < text.len() implies (#[trigger] text[i] == '.' <==> i
        == header.len() || i == header.len() + 1 + body.len()) by {
        if i < header.len() {
            assert(text[i] == header[i]);
        } else if header.len() < i < header.len() + 1 + body.len() {
            assert(text[i] == body[i - header.len() - 1]);
        } else if i > header.len() + 1 + body.len() {
            assert(text[i] == signature[i - header.len() - body.len() - 2]);
        }
    }
}

/// Tokens whose claims carry different nonces differ, whatever else the
/// claims say and whatever the signatures are.
pub proof fn lemma_nonce_tells_tokens_apart(
    a: ClaimSet,
    signature_a: Seq<char>,
    b: ClaimSet,
    signature_b: Seq<char>,
)
    requires
        is_nonce(a.nonce),
        is_nonce(b.nonce),
        a.nonce != b.nonce,
    ensures
        token(a, signature_a) != token(b, signature_b),
{
    if token(a, signature_a) == token(b, signature_b) {
        let header_a = segment(header_json(a.kid));
        let header_b = segment(header_json(b.kid));
        let body_a = segment(claims_json(a));
        let body_b = segment(claims_json(b));
        lemma_encode_alphabet(encode_utf8(header_json(a.kid)));
        lemma_encode_alphabet(encode_utf8(header_json(b.kid)));
        lemma_encode_alphabet(encode_utf8(claims_json(a)));
        lemma_encode_alphabet(encode_utf8(claims_json(b)));
        let rest_a = body_a + seq!['.'] + signature_a;
        let rest_b = body_b + seq!['.'] + signature_b;
        assert(token(a, signature_a) =~= header_a + seq!['.'] + rest_a);
        assert(token(b, signature_b) =~= header_b + seq!['.'] + rest_b);
        lemma_first_dot(header_a, rest_a, header_b, rest_b);
        lemma_first_dot(body_a, signature_a, body_b, signature_b);
        lemma_segment_injective(claims_json(a), claims_json(b));
        lemma_claims_json_ends_with_nonce(a);
        lemma_claims_json_ends_with_nonce(b);
        assert(false);
    }
}

/// Writes the header of a token for the key `kid`.
pub fn header_to_json(kid: &str) -> (text: String)
    ensures
        text@ == header_json(kid@),
{
    let mut out = String::from_str("{\"typ\":\"JWT\",\"alg\":\"ES256\",\"kid\":");
    push_json_string(&mut out, kid);
    out.push('}');
    out
}

/// Writes one segment of a token.
pub fn segment_of(text: &str) -> (s: String)
    ensures
        s@ == segment(text@),
{
    encode_bytes(text.as_bytes())
}

/// Writes what is signed for `claims`.
pub fn signing_input_of(claims: &Claims) -> (s: String)
    ensures
        s@ == signing_input(claims@),
{
    let header = header_to_json(claims.kid.as_str());
    let body = claims.to_json();
    let mut out = segment_of(header.as_str());
    out.push('.');
    let tail = segment_of(body.as_str());
    out.append(tail.as_str());
    out
}

/// Puts the signature behind what was signed.
pub fn assemble_token(signing_input: String, signature: &str) -> (text: String)
    ensures
        text@ == signing_input@ + seq!['.'] + signature@,
{
    let mut out = signing_input;
    out.push('.');
    out.append(signature);
    out
}

#[verifier::external_type_specification]
#[verifier::external_body]
pub struct ExEncodingKey(jsonwebtoken::EncodingKey);

#[verifier::external_type_specification]
#[verifier::external_body]
pub struct ExTokenError(jsonwebtoken::errors::Error);

/// `EncodingKey::from_ec_pem` of the crate `jsonwebtoken`: the signing key
/// held by a PKCS#8 PEM text, or an error where the text holds no EC private
/// key. Nothing is claimed of the outcome.
pub assume_specification[ jsonwebtoken::EncodingKey::from_ec_pem ](key: &[u8]) -> (r: Result<
    jsonwebtoken::EncodingKey,
    jsonwebtoken::errors::Error,
>)
;

/// `crypto::sign` of the crate `jsonwebtoken` with the algorithm `ES256`: an
/// ECDSA signature over `message` on the curve P-256 with SHA-256. The
/// signature is drawn with fresh randomness, so two calls on the same message
/// differ. What holds of every signature is its form: the sixty-four bytes of
/// the fixed-length encoding, written in base64url without padding.
#[verifier::external_body]
fn sign_es256(message: &[u8], key: &jsonwebtoken::EncodingKey) -> (r: Result<
    String,
    jsonwebtoken::errors::Error,
>)
    ensures
        r matches Ok(signature) ==> is_signature(signature@),
{
    jsonwebtoken::crypto::sign(message, key, jsonwebtoken::Algorithm::ES256)
}

/// Signs `message` with the key held by `pkcs8_pem`. Whether a signature
/// comes back is for the signer to decide; where none does, the error is
/// `Signing`.
pub fn sign(message: &str, pkcs8_pem: &str) -> (r: Result<String, AuthError>)
    ensures
        match r {
            Ok(signature) => is_signature(signature@),
            Err(e) => e == AuthError::Signing,
        },
{
    match jsonwebtoken::EncodingKey::from_ec_pem(pkcs8_pem.as_bytes()) {
        Ok(key) => match sign_es256(message.as_bytes(), &key) {
            Ok(signature) => Ok(signature),
            Err(_) => Err(AuthError::Signing),
        },
        Err(_) => Err(AuthError::Signing),
    }
}

} // verus!
