use cbat::auth::{create_jwt, generate_nonce, issue_token, Credentials};
use cbat::claims::Claims;
use cbat::error::AuthError;
use cbat::key::{from_sec1_pem, normalize_key_secret};
use cbat::token::{assemble_token, header_to_json, segment_of, sign, signing_input_of};
use jsonwebtoken::{decode, decode_header, Algorithm, DecodingKey, Validation};

const PUBLIC_POINT: [u8; 65] = [
    0x04, 0x51, 0x5c, 0x3d, 0x6e, 0xb9, 0xe3, 0x96, 0xb9, 0x04, 0xd3, 0xfe,
    0xca, 0x7f, 0x54, 0xfd, 0xcd, 0x0c, 0xc1, 0xe9, 0x97, 0xbf, 0x37, 0x5d,
    0xca, 0x51, 0x5a, 0xd0, 0xa6, 0xc3, 0xb4, 0x03, 0x5f, 0x45, 0x36, 0xbe,
    0x3a, 0x50, 0xf3, 0x18, 0xfb, 0xf9, 0xa5, 0x47, 0x59, 0x02, 0xa2, 0x21,
    0x50, 0x2b, 0xef, 0x0d, 0x57, 0xe0, 0x8c, 0x53, 0xb2, 0xcc, 0x0a, 0x56,
    0xf1, 0x7d, 0x9f, 0x93, 0x54,
];

const PUBLIC_POINT_ON_ANOTHER_CURVE: [u8; 97] = [
    0x04, 0xc7, 0x6f, 0x22, 0x83, 0xdd, 0xa9, 0x5c, 0xd4, 0x9b, 0x0e, 0xd9,
    0xe7, 0x33, 0xd2, 0x90, 0x44, 0x74, 0xe3, 0x72, 0x16, 0xf1, 0x24, 0xe1,
    0x3d, 0x2c, 0x9a, 0xb4, 0xcf, 0x01, 0x02, 0x1c, 0x49, 0xad, 0x9c, 0xab,
    0xb3, 0xd0, 0xb9, 0x74, 0x99, 0xae, 0xf2, 0xf0, 0xab, 0x31, 0x3f, 0xa0,
    0x28, 0x26, 0xbc, 0x1f, 0x83, 0x45, 0x1b, 0x5c, 0x89, 0x62, 0xa7, 0x5c,
    0xaf, 0xf7, 0x35, 0x88, 0xd4, 0x40, 0x0a, 0x62, 0x96, 0x43, 0x61, 0x54,
    0xfb, 0x34, 0x3c, 0x39, 0x3e, 0x91, 0x04, 0x8a, 0x6c, 0x7b, 0xcb, 0xad,
    0xc8, 0x3c, 0xd8, 0xa5, 0xf2, 0x6f, 0xea, 0xe8, 0x83, 0x15, 0x6f, 0x92,
    0xa1,
];

const EC_PUBLIC_KEY_OID: [u8; 9] = [0x06, 0x07, 0x2a, 0x86, 0x48, 0xce, 0x3d, 0x02, 0x01];

const P256_OID: [u8; 10] = [0x06, 0x08, 0x2a, 0x86, 0x48, 0xce, 0x3d, 0x03, 0x01, 0x07];

const P384_OID: [u8; 7] = [0x06, 0x05, 0x2b, 0x81, 0x04, 0x00, 0x22];

/// One DER element: the tag, the length, the content.
fn der(tag: u8, content: &[u8]) -> Vec<u8> {
    let mut out = vec![tag];
    if content.len() < 128 {
        out.push(content.len() as u8);
    } else {
        out.push(0x81);
        out.push(content.len() as u8);
    }
    out.extend_from_slice(content);
    out
}

/// A test scalar: the bytes 1, 2, 3 and so on.
fn scalar(len: u8) -> Vec<u8> {
    (1..=len).collect()
}

/// The SEC1 structure of a private key with its curve and its public point.
fn sec1_der(scalar: &[u8], curve: &[u8], point: &[u8]) -> Vec<u8> {
    let mut bits = vec![0u8];
    bits.extend_from_slice(point);
    let mut body = vec![0x02, 0x01, 0x01];
    body.extend(der(0x04, scalar));
    body.extend(der(0xa0, curve));
    body.extend(der(0xa1, &der(0x03, &bits)));
    der(0x30, &body)
}

fn pem(label: &str, der: &[u8]) -> String {
    sec1::pem::encode_string(label, sec1::LineEnding::LF, der).unwrap()
}

fn sec1_key() -> String {
    pem("EC PRIVATE KEY", &sec1_der(&scalar(32), &P256_OID, &PUBLIC_POINT))
}

fn sec1_key_on_one_line() -> String {
    sec1_key().replace('\n', "\\n")
}

fn sec1_key_on_another_curve() -> String {
    pem("EC PRIVATE KEY", &sec1_der(&scalar(48), &P384_OID, &PUBLIC_POINT_ON_ANOTHER_CURVE))
}

/// The PKCS#8 document around the SEC1 structure of the test key.
fn pkcs8_der() -> Vec<u8> {
    let mut algorithm = EC_PUBLIC_KEY_OID.to_vec();
    algorithm.extend_from_slice(&P256_OID);
    let mut body = vec![0x02, 0x01, 0x00];
    body.extend(der(0x30, &algorithm));
    body.extend(der(0x04, &sec1_der(&scalar(32), &P256_OID, &PUBLIC_POINT)));
    der(0x30, &body)
}

fn pkcs8_key() -> String {
    pem("PRIVATE KEY", &pkcs8_der())
}

fn public_key() -> String {
    let mut algorithm = EC_PUBLIC_KEY_OID.to_vec();
    algorithm.extend_from_slice(&P256_OID);
    let mut bits = vec![0u8];
    bits.extend_from_slice(&PUBLIC_POINT);
    let mut body = der(0x30, &algorithm);
    body.extend(der(0x03, &bits));
    pem("PUBLIC KEY", &der(0x30, &body))
}

fn decoding_key() -> DecodingKey {
    DecodingKey::from_ec_der(&PUBLIC_POINT)
}

const HEADER_SEGMENT: &str = "eyJ0eXAiOiJKV1QiLCJhbGciOiJFUzI1NiIsImtpZCI6InRlc3Qta2V5In0";

const CLAIMS_SEGMENT: &str = "eyJzdWIiOiJ0ZXN0LWtleSIsImlzcyI6ImNkcCIsIm5iZiI6MTcwMDAwMDAwMCwiZXhwIjoxNzAwMDAwMDYwLCJ1cmkiOiJHRVQgYXBpLmNvaW5iYXNlLmNvbS9hcGkvdjMvYnJva2VyYWdlL2FjY291bnRzIiwia2lkIjoidGVzdC1rZXkiLCJub25jZSI6ImFiY2RlZmdoaWprbG1ub3AifQ";

const ACCOUNTS: &str = "/api/v3/brokerage/accounts";

fn credentials(secret: &str) -> Credentials {
    Credentials::new(String::from("test-key"), String::from(secret))
}

fn claims_of(token: &str) -> serde_json::Value {
    let mut validation = Validation::new(Algorithm::ES256);
    validation.validate_exp = false;
    validation.required_spec_claims.clear();
    let key = decoding_key();
    decode::<serde_json::Value>(token, &key, &validation).unwrap().claims
}

fn is_base64url(s: &str) -> bool {
    s.chars().all(|c| c.is_ascii_alphanumeric() || c == '-' || c == '_')
}

#[test]
fn token_has_three_segments() {
    let token = create_jwt(&credentials(&sec1_key()), "GET", ACCOUNTS).unwrap();
    let segments: Vec<&str> = token.split('.').collect();
    assert_eq!(segments.len(), 3);
    for segment in &segments {
        assert!(!segment.is_empty());
        assert!(is_base64url(segment));
    }
    assert_eq!(segments[2].len(), 86);
}

#[test]
fn token_header_declares_es256_and_the_key_id() {
    let token = create_jwt(&credentials(&sec1_key()), "GET", ACCOUNTS).unwrap();
    let header = decode_header(&token).unwrap();
    assert_eq!(header.alg, Algorithm::ES256);
    assert_eq!(header.kid.as_deref(), Some("test-key"));
    assert_eq!(header.typ.as_deref(), Some("JWT"));
    assert_eq!(token.split('.').next().unwrap(), HEADER_SEGMENT);
}

#[test]
fn token_signature_verifies_under_the_public_key() {
    let token = create_jwt(&credentials(&sec1_key()), "GET", ACCOUNTS).unwrap();
    let mut validation = Validation::new(Algorithm::ES256);
    validation.leeway = 0;
    let key = decoding_key();
    assert!(decode::<serde_json::Value>(&token, &key, &validation).is_ok());
}

#[test]
fn token_claims_carry_every_field() {
    let token = create_jwt(&credentials(&sec1_key()), "GET", ACCOUNTS).unwrap();
    let claims = claims_of(&token);
    let object = claims.as_object().unwrap();
    assert_eq!(object.len(), 7);
    assert_eq!(claims["sub"], "test-key");
    assert_eq!(claims["iss"], "cdp");
    assert_eq!(claims["kid"], "test-key");
    assert_eq!(claims["uri"], "GET api.coinbase.com/api/v3/brokerage/accounts");
    assert!(claims["nbf"].is_i64());
    assert!(claims["exp"].is_i64());
    let nonce = claims["nonce"].as_str().unwrap();
    assert_eq!(nonce.len(), 16);
    assert!(nonce.chars().all(|c| c.is_ascii_alphanumeric()));
}

#[test]
fn token_expires_sixty_seconds_after_it_becomes_valid() {
    let token = create_jwt(&credentials(&sec1_key()), "GET", ACCOUNTS).unwrap();
    let claims = claims_of(&token);
    let nbf = claims["nbf"].as_i64().unwrap();
    let exp = claims["exp"].as_i64().unwrap();
    assert_eq!(exp, nbf + 60);
}

#[test]
fn token_is_valid_from_now() {
    let before = jsonwebtoken::get_current_timestamp() as i64;
    let token = create_jwt(&credentials(&sec1_key()), "GET", ACCOUNTS).unwrap();
    let after = jsonwebtoken::get_current_timestamp() as i64;
    let nbf = claims_of(&token)["nbf"].as_i64().unwrap();
    assert!(before <= nbf && nbf <= after);
}

#[test]
fn two_tokens_for_the_same_request_differ() {
    let credentials = credentials(&sec1_key());
    let first = create_jwt(&credentials, "GET", ACCOUNTS).unwrap();
    let second = create_jwt(&credentials, "GET", ACCOUNTS).unwrap();
    assert_ne!(first, second);
    assert_ne!(claims_of(&first)["nonce"], claims_of(&second)["nonce"]);
}

#[test]
fn token_accepts_a_key_written_on_one_line() {
    let token = create_jwt(&credentials(&sec1_key_on_one_line()), "GET", ACCOUNTS).unwrap();
    assert_eq!(claims_of(&token)["sub"], "test-key");
}

#[test]
fn invalid_key_is_a_key_format_error() {
    let r = create_jwt(&credentials("not a key"), "GET", ACCOUNTS);
    assert_eq!(r, Err(AuthError::KeyFormat));
}

#[test]
fn empty_key_is_a_key_format_error() {
    let r = create_jwt(&credentials(""), "GET", ACCOUNTS);
    assert_eq!(r, Err(AuthError::KeyFormat));
}

#[test]
fn pkcs8_key_is_a_key_format_error() {
    let r = create_jwt(&credentials(&pkcs8_key()), "GET", ACCOUNTS);
    assert_eq!(r, Err(AuthError::KeyFormat));
}

#[test]
fn public_key_is_a_key_format_error() {
    let r = create_jwt(&credentials(&public_key()), "GET", ACCOUNTS);
    assert_eq!(r, Err(AuthError::KeyFormat));
}

#[test]
fn damaged_key_is_a_key_format_error() {
    let mut bytes = sec1_der(&scalar(32), &P256_OID, &PUBLIC_POINT);
    bytes[0] = 0x04;
    let damaged = pem("EC PRIVATE KEY", &bytes);
    let r = issue_token(&credentials(&damaged), "GET", ACCOUNTS, 1700000000, String::from("abcdefghijklmnop"));
    assert_eq!(r, Err(AuthError::KeyFormat));
}

#[test]
fn key_on_another_curve_is_a_signing_error() {
    let r = create_jwt(&credentials(&sec1_key_on_another_curve()), "GET", ACCOUNTS);
    assert_eq!(r, Err(AuthError::Signing));
}

#[test]
fn issued_token_has_the_expected_segments() {
    let token = issue_token(&credentials(&sec1_key()), "GET", ACCOUNTS, 1700000000, String::from("abcdefghijklmnop")).unwrap();
    let segments: Vec<&str> = token.split('.').collect();
    assert_eq!(segments.len(), 3);
    assert_eq!(segments[0], HEADER_SEGMENT);
    assert_eq!(segments[1], CLAIMS_SEGMENT);
    assert_eq!(segments[2].len(), 86);
    assert!(is_base64url(segments[2]));
}

#[test]
fn issued_token_carries_the_given_time_and_nonce() {
    let token = issue_token(&credentials(&sec1_key()), "GET", ACCOUNTS, 1700000000, String::from("abcdefghijklmnop")).unwrap();
    let claims = claims_of(&token);
    assert_eq!(claims["nbf"], 1700000000i64);
    assert_eq!(claims["exp"], 1700000060i64);
    assert_eq!(claims["nonce"], "abcdefghijklmnop");
    assert_eq!(claims["uri"], "GET api.coinbase.com/api/v3/brokerage/accounts");
}

#[test]
fn issued_tokens_share_what_is_signed_and_differ_in_the_signature() {
    let credentials = credentials(&sec1_key());
    let first = issue_token(&credentials, "GET", ACCOUNTS, 1700000000, String::from("abcdefghijklmnop")).unwrap();
    let second = issue_token(&credentials, "GET", ACCOUNTS, 1700000000, String::from("abcdefghijklmnop")).unwrap();
    assert_eq!(first.rsplit_once('.').unwrap().0, second.rsplit_once('.').unwrap().0);
    assert_eq!(claims_of(&first), claims_of(&second));
}

#[test]
fn issued_tokens_with_different_nonces_differ_in_the_claims() {
    let credentials = credentials(&sec1_key());
    let first = issue_token(&credentials, "GET", ACCOUNTS, 1700000000, String::from("abcdefghijklmnop")).unwrap();
    let second = issue_token(&credentials, "GET", ACCOUNTS, 1700000000, String::from("abcdefghijklmnoq")).unwrap();
    let a: Vec<&str> = first.split('.').collect();
    let b: Vec<&str> = second.split('.').collect();
    assert_eq!(a[0], b[0]);
    assert_ne!(a[1], b[1]);
}

#[test]
fn issued_token_before_the_epoch() {
    let token = issue_token(&credentials(&sec1_key()), "GET", ACCOUNTS, -30, String::from("abcdefghijklmnop")).unwrap();
    let claims = claims_of(&token);
    assert_eq!(claims["nbf"], -30i64);
    assert_eq!(claims["exp"], 30i64);
}

#[test]
fn issued_token_at_the_latest_time() {
    let token = issue_token(&credentials(&sec1_key()), "GET", ACCOUNTS, i64::MAX - 60, String::from("abcdefghijklmnop")).unwrap();
    let claims = claims_of(&token);
    assert_eq!(claims["nbf"], i64::MAX - 60);
    assert_eq!(claims["exp"], i64::MAX);
}

#[test]
fn claims_uri_is_verb_host_and_path() {
    let claims = Claims::new("test-key", "GET", ACCOUNTS, 1700000000, String::from("abcdefghijklmnop"));
    assert_eq!(claims.uri, "GET api.coinbase.com/api/v3/brokerage/accounts");
}

#[test]
fn claims_fields_follow_the_arguments() {
    let claims = Claims::new("organizations/a/apiKeys/b", "POST", "/api/v3/brokerage/orders/edit", 5, String::from("0123456789ABCDEF"));
    assert_eq!(claims.sub, "organizations/a/apiKeys/b");
    assert_eq!(claims.kid, "organizations/a/apiKeys/b");
    assert_eq!(claims.iss, "cdp");
    assert_eq!(claims.nbf, 5);
    assert_eq!(claims.exp, 65);
    assert_eq!(claims.uri, "POST api.coinbase.com/api/v3/brokerage/orders/edit");
    assert_eq!(claims.nonce, "0123456789ABCDEF");
}

#[test]
fn claims_json_has_the_members_in_order() {
    let claims = Claims::new("test-key", "GET", ACCOUNTS, 1700000000, String::from("abcdefghijklmnop"));
    assert_eq!(
        claims.to_json(),
        "{\"sub\":\"test-key\",\"iss\":\"cdp\",\"nbf\":1700000000,\"exp\":1700000060,\"uri\":\"GET api.coinbase.com/api/v3/brokerage/accounts\",\"kid\":\"test-key\",\"nonce\":\"abcdefghijklmnop\"}"
    );
}

#[test]
fn claims_json_escapes_its_strings() {
    let claims = Claims::new("a\"b", "GET", "/x\\y", -7, String::from("n\n"));
    let text = claims.to_json();
    let value: serde_json::Value = serde_json::from_str(&text).unwrap();
    assert_eq!(value["sub"], "a\"b");
    assert_eq!(value["kid"], "a\"b");
    assert_eq!(value["uri"], "GET api.coinbase.com/x\\y");
    assert_eq!(value["nbf"], -7);
    assert_eq!(value["exp"], 53);
    assert_eq!(value["nonce"], "n\n");
}

#[test]
fn header_json_is_type_algorithm_and_key_id() {
    assert_eq!(header_to_json("test-key"), "{\"typ\":\"JWT\",\"alg\":\"ES256\",\"kid\":\"test-key\"}");
}

#[test]
fn header_json_escapes_the_key_id() {
    assert_eq!(header_to_json("9a\"b"), "{\"typ\":\"JWT\",\"alg\":\"ES256\",\"kid\":\"9a\\\"b\"}");
}

#[test]
fn header_agrees_with_the_signer_s_own_header() {
    let mut header = jsonwebtoken::Header::new(Algorithm::ES256);
    header.kid = Some(String::from("organizations/1f2e/apiKeys/9a\"b"));
    let key = jsonwebtoken::EncodingKey::from_ec_pem(pkcs8_key().as_bytes()).unwrap();
    let theirs = jsonwebtoken::encode(&header, &serde_json::Value::Null, &key).unwrap();
    let ours = segment_of(&header_to_json("organizations/1f2e/apiKeys/9a\"b"));
    assert_eq!(theirs.split('.').next().unwrap(), ours);
}

#[test]
fn segment_is_base64url_of_the_utf8_bytes() {
    assert_eq!(segment_of("{\"typ\":\"JWT\",\"alg\":\"ES256\",\"kid\":\"test-key\"}"), HEADER_SEGMENT);
    assert_eq!(segment_of("\u{e9}"), "w6k");
}

#[test]
fn signing_input_is_header_dot_claims() {
    let claims = Claims::new("test-key", "GET", ACCOUNTS, 1700000000, String::from("abcdefghijklmnop"));
    assert_eq!(signing_input_of(&claims), format!("{}.{}", HEADER_SEGMENT, CLAIMS_SEGMENT));
}

#[test]
fn assembled_token_is_input_dot_signature() {
    assert_eq!(assemble_token(String::from("aa.bb"), "cc"), "aa.bb.cc");
}

#[test]
fn signature_has_86_characters_and_verifies() {
    let signature = sign("aa.bb", &pkcs8_key()).unwrap();
    assert_eq!(signature.len(), 86);
    assert!(is_base64url(&signature));
    let key = decoding_key();
    assert!(jsonwebtoken::crypto::verify(&signature, b"aa.bb", &key, Algorithm::ES256).unwrap());
    assert!(!jsonwebtoken::crypto::verify(&signature, b"aa.bc", &key, Algorithm::ES256).unwrap());
}

#[test]
fn signing_with_a_text_that_is_no_key_fails() {
    assert_eq!(sign("aa.bb", "not a key"), Err(AuthError::Signing));
    assert_eq!(sign("aa.bb", &sec1_key()), Err(AuthError::Signing));
    assert_eq!(sign("aa.bb", &public_key()), Err(AuthError::Signing));
}

#[test]
fn sec1_key_becomes_a_pkcs8_key() {
    let text = from_sec1_pem(&sec1_key()).unwrap();
    assert_eq!(text, pkcs8_key());
    let (label, document) = sec1::pem::decode_vec(text.as_bytes()).unwrap();
    assert_eq!(label, "PRIVATE KEY");
    assert_eq!(document, pkcs8_der());
    assert!(text.ends_with('\n'));
    assert!(text.lines().all(|line| line.len() <= 64));
    assert_eq!(text.lines().count(), 6);
}

#[test]
fn sec1_conversion_rejects_other_texts() {
    assert_eq!(from_sec1_pem(""), Err(AuthError::KeyFormat));
    assert_eq!(from_sec1_pem("hello"), Err(AuthError::KeyFormat));
    assert_eq!(from_sec1_pem(&pkcs8_key()), Err(AuthError::KeyFormat));
    assert_eq!(from_sec1_pem(&sec1_key_on_one_line()), Err(AuthError::KeyFormat));
}

#[test]
fn normalizing_restores_line_breaks() {
    assert_eq!(normalize_key_secret(&sec1_key_on_one_line()), sec1_key());
    assert!(sec1_key().contains('\n'));
    assert!(!sec1_key_on_one_line().contains('\n'));
    assert_eq!(normalize_key_secret("a\\nb"), "a\nb");
}

#[test]
fn normalizing_leaves_other_text_alone() {
    assert_eq!(normalize_key_secret(""), "");
    assert_eq!(normalize_key_secret(&sec1_key()), sec1_key());
    assert_eq!(normalize_key_secret("a\\tb\\"), "a\\tb\\");
    assert_eq!(normalize_key_secret("\\"), "\\");
    assert_eq!(normalize_key_secret("n\\"), "n\\");
}

#[test]
fn normalizing_reads_from_left_to_right() {
    assert_eq!(normalize_key_secret("\\\\n"), "\\\n");
    assert_eq!(normalize_key_secret("\\n\\n"), "\n\n");
    assert_eq!(normalize_key_secret("\\\\\\n"), "\\\\\n");
    assert_eq!(normalize_key_secret("\\nn"), "\nn");
}

#[test]
fn normalizing_agrees_with_the_standard_library() {
    for s in ["", "\\", "\\n", "\\\\n", "a\\nb\\nc", "\\\\\\\\", "n\\n\\", "\\n\\\\n\\nn\\", "\u{e9}\\n\u{e9}"] {
        assert_eq!(normalize_key_secret(s), s.replace("\\n", "\n"));
    }
}

#[test]
fn nonce_is_sixteen_letters_and_digits() {
    for _ in 0..50 {
        let nonce = generate_nonce();
        assert_eq!(nonce.len(), 16);
        assert!(nonce.chars().all(|c| c.is_ascii_alphanumeric()));
    }
}

#[test]
fn nonces_differ() {
    assert_ne!(generate_nonce(), generate_nonce());
}

#[test]
fn credentials_from_both_values() {
    let credentials = Credentials::from_lookup(Some(String::from("k")), Some(String::from("s"))).unwrap();
    assert_eq!(credentials.key_name, "k");
    assert_eq!(credentials.key_secret, "s");
}

#[test]
fn credentials_without_the_key_name() {
    assert!(matches!(Credentials::from_lookup(None, Some(String::from("s"))), Err(AuthError::MissingKeyName)));
    assert!(matches!(Credentials::from_lookup(None, None), Err(AuthError::MissingKeyName)));
}

#[test]
fn credentials_without_the_key_secret() {
    assert!(matches!(Credentials::from_lookup(Some(String::from("k")), None), Err(AuthError::MissingKeySecret)));
}

#[test]
fn variables_of_the_environment() {
    assert_eq!(cbat::auth::KEY_NAME_VARIABLE, "CBAT_KEY_NAME");
    assert_eq!(cbat::auth::KEY_SECRET_VARIABLE, "CBAT_KEY_SECRET");
}
