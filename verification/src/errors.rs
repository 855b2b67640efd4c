//! The failure causes the library meets and the coarse categories it reports.
//!
//! Every parse, decode, cryptographic or allocation failure collapses to the
//! single `Decoding` category before it crosses the library boundary, so a
//! caller — or an attacker driving one — cannot tell why a cryptographic
//! operation failed. `NotFound` and `IoError` are reserved for extension and
//! raised by no operation here.

use vstd::prelude::*;

verus! {

/// The externally visible failure categories.
#[derive(Clone, Copy, Debug, PartialEq, Eq, Structural)]
pub enum ErrorCategory {
    Decoding,
    NotFound,
    IoError,
}

/// The internal failure causes, one per source: PKCS#8 parsing, base64
/// decoding, the RSA operation, and output-buffer allocation. The cause may
/// be logged by a host; only its category crosses the boundary.
pub enum CryptoError {
    PKCS8Err(rsa::pkcs8::Error),
    DecodeError(base64::DecodeError),
    RsaErr(rsa::Error),
    AllocErr,
}

/// The category reported for a failure cause: every cause collapses to
/// `Decoding`.
pub open spec fn category_of(err: CryptoError) -> ErrorCategory {
    match err {
        CryptoError::PKCS8Err(_) => ErrorCategory::Decoding,
        CryptoError::DecodeError(_) => ErrorCategory::Decoding,
        CryptoError::RsaErr(_) => ErrorCategory::Decoding,
        CryptoError::AllocErr => ErrorCategory::Decoding,
    }
}

impl CryptoError {
    /// Collapses this failure cause to the category reported across the
    /// library boundary.
    pub fn category(&self) -> (c: ErrorCategory)
        ensures
            c == category_of(*self),
    {
        match self {
            CryptoError::PKCS8Err(_) => ErrorCategory::Decoding,
            CryptoError::DecodeError(_) => ErrorCategory::Decoding,
            CryptoError::RsaErr(_) => ErrorCategory::Decoding,
            CryptoError::AllocErr => ErrorCategory::Decoding,
        }
    }
}

/// Law: reported categories carry no oracle. Any two failure causes, whatever
/// their sources, are reported under the same category.
pub proof fn lemma_failures_indistinguishable(e1: CryptoError, e2: CryptoError)
    ensures
        category_of(e1) == category_of(e2),
{
}

impl From<rsa::pkcs8::Error> for CryptoError {
    fn from(err: rsa::pkcs8::Error) -> (r: CryptoError) {
        CryptoError::PKCS8Err(err)
    }
}

impl vstd::std_specs::convert::FromSpecImpl<rsa::pkcs8::Error> for CryptoError {
    open spec fn obeys_from_spec() -> bool {
        true
    }

    open spec fn from_spec(err: rsa::pkcs8::Error) -> CryptoError {
        CryptoError::PKCS8Err(err)
    }
}

impl From<base64::DecodeError> for CryptoError {
    fn from(err: base64::DecodeError) -> (r: CryptoError) {
        CryptoError::DecodeError(err)
    }
}

impl vstd::std_specs::convert::FromSpecImpl<base64::DecodeError> for CryptoError {
    open spec fn obeys_from_spec() -> bool {
        true
    }

    open spec fn from_spec(err: base64::DecodeError) -> CryptoError {
        CryptoError::DecodeError(err)
    }
}

impl From<rsa::Error> for CryptoError {
    fn from(err: rsa::Error) -> (r: CryptoError) {
        CryptoError::RsaErr(err)
    }
}

impl vstd::std_specs::convert::FromSpecImpl<rsa::Error> for CryptoError {
    open spec fn obeys_from_spec() -> bool {
        true
    }

    open spec fn from_spec(err: rsa::Error) -> CryptoError {
        CryptoError::RsaErr(err)
    }
}

} // verus!
