//! The private key: from the text of the configuration to PKCS#8 PEM.
//!
//! The key comes as an EC private key in SEC1 form inside a PEM container,
//! possibly on a single line with the two characters `\` and `n` in place of
//! each line break. Signing wants the same key as a PKCS#8 document in PEM.

use vstd::prelude::*;
use vstd::std_specs::iter::IteratorSpec;
use sec1::DecodeEcPrivateKey;
use crate::error::AuthError;

verus! {

/// The label of a PKCS#8 private key in PEM.
pub const PKCS8_LABEL: &'static str = "PRIVATE KEY";

/// `s` with every backslash that is followed by `n` replaced, together with
/// that `n`, by a line feed. The text is read from left to right, and what has
/// been replaced is not read again.
pub open spec fn unescaped_newlines(s: Seq<char>) -> Seq<char>
    decreases s.len(),
{
    if s.len() == 0 {
        Seq::empty()
    } else if s.len() >= 2 && s[0] == '\\' && s[1] == 'n' {
        seq!['\n'] + unescaped_newlines(s.skip(2))
    } else {
        seq![s[0]] + unescaped_newlines(s.skip(1))
    }
}

/// Replaces each two-character sequence `\n` in `secret` by a line feed.
pub fn normalize_key_secret(secret: &str) -> (normal: String)
    ensures
        normal@ == unescaped_newlines(secret@),
{
    let ghost s = secret@;
    let mut out = String::new();
    let mut pending = false;
    assert(s.skip(0) =~= s);
    for c in it: secret.chars()
        invariant
            it.seq() == s,
            pending ==> it.index() >= 1 && s[it.index() - 1] == '\\',
            out@ + unescaped_newlines(s.skip(it.index() - if pending { 1int } else { 0int }))
                == unescaped_newlines(s),
    {
        let ghost i = it.index();
        let ghost before = out@;
        if pending {
            let ghost rest = s.skip(i - 1);
            assert(rest[0] == '\\' && rest[1] == c);
            if c == 'n' {
                out.push('\n');
                pending = false;
                proof {
                    assert(rest.skip(2) =~= s.skip(i + 1));
                    assert(out@ + unescaped_newlines(s.skip(i + 1)) =~= before
                        + unescaped_newlines(rest));
                }
            } else {
                out.push('\\');
                proof {
                    assert(rest.skip(1) =~= s.skip(i));
                    assert(out@ + unescaped_newlines(s.skip(i)) =~= before + unescaped_newlines(
                        rest,
                    ));
                }
                if c != '\\' {
                    let ghost middle = out@;
                    out.push(c);
                    pending = false;
                    proof {
                        assert(s.skip(i)[0] == c);
                        assert(s.skip(i).skip(1) =~= s.skip(i + 1));
                        assert(out@ + unescaped_newlines(s.skip(i + 1)) =~= middle
                            + unescaped_newlines(s.skip(i)));
                    }
                }
            }
        } else if c == '\\' {
            pending = true;
        } else {
            out.push(c);
            proof {
                assert(s.skip(i)[0] == c);
                assert(s.skip(i).skip(1) =~= s.skip(i + 1));
                assert(out@ + unescaped_newlines(s.skip(i + 1)) =~= before + unescaped_newlines(
                    s.skip(i),
                ));
            }
        }
    }
    if pending {
        let ghost before = out@;
        let ghost rest = s.skip(s.len() - 1);
        out.push('\\');
        proof {
            assert(rest.len() == 1 && rest[0] == '\\');
            assert(rest.skip(1) =~= Seq::<char>::empty());
            assert(unescaped_newlines(rest.skip(1)) =~= Seq::<char>::empty());
            assert(out@ =~= before + unescaped_newlines(rest));
        }
    } else {
        assert(s.skip(s.len() as int) =~= Seq::<char>::empty());
        assert(out@ =~= out@ + unescaped_newlines(s.skip(s.len() as int)));
    }
    out
}

#[verifier::external_type_specification]
#[verifier::external_body]
pub struct ExSec1Error(sec1::Error);

#[verifier::external_type_specification]
#[verifier::external_body]
pub struct ExPemError(sec1::pem::Error);

/// The PKCS#8 document, in DER, that the crate `sec1` makes of an EC private
/// key given as SEC1 in PEM; `None` for a text that it does not accept.
pub uninterp spec fn pkcs8_der_of_sec1_pem(pem: Seq<char>) -> Option<Seq<u8>>;

/// The PEM text that the crate `sec1` writes for a DER document under a label,
/// with line feeds as line endings; `None` where it cannot write one.
pub uninterp spec fn pem_document(label: Seq<char>, der: Seq<u8>) -> Option<Seq<char>>;

/// `SecretDocument::from_sec1_pem` of the crate `sec1`, followed by a copy of
/// the document's bytes. The text must be a PEM container labelled
/// `EC PRIVATE KEY` around a SEC1 private key; the outcome is the same key as
/// a PKCS#8 document. The contract claims only that the outcome, the error
/// included, is a function of the text.
#[verifier::external_body]
fn sec1_pem_to_pkcs8_der(pem: &str) -> (r: Result<Vec<u8>, sec1::Error>)
    ensures
        match r {
            Ok(der) => pkcs8_der_of_sec1_pem(pem@) == Some(der@),
            Err(_) => pkcs8_der_of_sec1_pem(pem@) is None,
        },
{
    let document = sec1::pkcs8::SecretDocument::from_sec1_pem(pem)?;
    Ok(document.as_bytes().to_vec())
}

/// `pem::encode_string` of the crate `sec1`, with `LineEnding::LF`: the PEM
/// container that holds `der` under `label`. The contract claims only that
/// the outcome, the error included, is a function of the label and the bytes.
#[verifier::external_body]
fn der_to_pem(label: &str, der: &[u8]) -> (r: Result<String, sec1::pem::Error>)
    ensures
        match r {
            Ok(text) => pem_document(label@, der@) == Some(text@),
            Err(_) => pem_document(label@, der@) is None,
        },
{
    sec1::pem::encode_string(label, sec1::LineEnding::LF, der)
}

/// The PKCS#8 PEM text of an EC private key given as SEC1 in PEM; `None` where
/// the text is no such key or the document cannot be written.
pub open spec fn pkcs8_pem_of_sec1_pem(pem: Seq<char>) -> Option<Seq<char>> {
    match pkcs8_der_of_sec1_pem(pem) {
        Some(der) => pem_document(PKCS8_LABEL@, der),
        None => None,
    }
}

/// Converts an EC private key from SEC1 in PEM to PKCS#8 in PEM. Fails with
/// `KeyFormat` exactly when the text is no SEC1 private key or the PKCS#8
/// document cannot be written.
pub fn from_sec1_pem(pem: &str) -> (r: Result<String, AuthError>)
    ensures
        match r {
            Ok(text) => pkcs8_pem_of_sec1_pem(pem@) == Some(text@),
            Err(e) => e == AuthError::KeyFormat && pkcs8_pem_of_sec1_pem(pem@) is None,
        },
{
    match sec1_pem_to_pkcs8_der(pem) {
        Ok(der) => match der_to_pem(PKCS8_LABEL, der.as_slice()) {
            Ok(text) => Ok(text),
            Err(_) => Err(AuthError::KeyFormat),
        },
        Err(_) => Err(AuthError::KeyFormat),
    }
}

} // verus!
