//! The ways in which a request can fail before and after it is sent.

use vstd::prelude::*;

verus! {

/// Why no credential could be made.
#[derive(Clone, Copy, Debug, PartialEq, Eq, Structural)]
pub enum AuthError {
    /// The key identifier is not configured.
    MissingKeyName,
    /// The private key is not configured.
    MissingKeySecret,
    /// The private key is not an EC private key in SEC1 form, or it could not
    /// be brought into PKCS#8 form.
    KeyFormat,
    /// The key was read, but no signature could be made with it.
    Signing,
}

/// Why a request gave no record.
#[derive(Debug)]
pub enum ClientError {
    /// No credential could be made, so nothing was sent.
    Auth(AuthError),
    /// The exchange could not be reached.
    Transport { message: String },
    /// The exchange answered with a status that is no success. The status and
    /// the body of the answer are kept.
    HttpStatus { status: u16, body: Vec<u8> },
    /// The body of the answer is not the record that was asked for.
    Decode { message: String },
}

} // verus!
