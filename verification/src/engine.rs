//! The two entry points: loading a private key and unwrapping a symmetric key.

use vstd::prelude::*;
use crate::backend;
use crate::errors::{category_of, CryptoError, ErrorCategory};
use crate::handle::PrivateKeyHandle;

verus! {

/// The plaintext that unwrapping recovers from a base64 text under a key:
/// `None` when the text is no valid standard base64 or the decoded bytes fail
/// OAEP-SHA256 decryption, otherwise the recovered bytes. A function of the
/// key material and the text alone, so repeated or concurrent calls on the
/// same handle and text agree.
pub open spec fn unwrapped_key(key: Seq<u8>, text: Seq<char>) -> Option<Seq<u8>> {
    match backend::base64_decoded(text) {
        Option::None => Option::None,
        Option::Some(raw) => backend::oaep_sha256_decrypted(key, raw),
    }
}

/// Loads an RSA private key from PKCS#8 PEM text, with the encrypted-PKCS#8
/// path when a passphrase is given and the unencrypted path otherwise.
///
/// Succeeds exactly on the inputs the chosen path parses; every failure is
/// reported under the `Decoding` category. The two paths accept disjoint
/// texts, so a valid unencrypted key loaded with a passphrase fails, and a
/// passphrase-protected key loaded without one fails. Nothing of the
/// passphrase is retained past the parse call.
pub fn load_private_key(pem: &str, passphrase: Option<&str>) -> (r: Result<
    PrivateKeyHandle,
    CryptoError,
>)
    ensures
        passphrase matches Some(pass) ==> (r is Ok <==> backend::pkcs8_encrypted_key(
            pem@,
            pass@,
        ) is Some),
        passphrase matches Some(pass) ==> (r matches Ok(h) ==> Some(h@)
            == backend::pkcs8_encrypted_key(pem@, pass@)),
        passphrase is None ==> (r is Ok <==> backend::pkcs8_key(pem@) is Some),
        passphrase is None ==> (r matches Ok(h) ==> Some(h@) == backend::pkcs8_key(pem@)),
        r matches Err(e) ==> e is PKCS8Err && category_of(e) == ErrorCategory::Decoding,
        passphrase is Some && backend::pkcs8_key(pem@) is Some ==> r is Err,
        passphrase is None && (exists|p: Seq<char>|
            #[trigger] backend::pkcs8_encrypted_key(pem@, p) is Some) ==> r is Err,
{
    match passphrase {
        Some(pass) => match backend::parse_pkcs8_encrypted_pem(pem, pass) {
            Ok(key) => Ok(PrivateKeyHandle::wrap(key)),
            Err(e) => Err(CryptoError::from(e)),
        },
        None => match backend::parse_pkcs8_pem(pem) {
            Ok(key) => Ok(PrivateKeyHandle::wrap(key)),
            Err(e) => Err(CryptoError::from(e)),
        },
    }
}

/// Unwraps a symmetric key: decodes the base64 text, then decrypts the bytes
/// with RSA-OAEP-SHA256 under the handle's key.
///
/// Returns exactly the recovered plaintext, of whatever length OAEP recovers;
/// succeeds exactly when both steps do. Malformed base64 fails at the first
/// step whatever the handle; a ciphertext the key's OAEP check rejects fails
/// at the second. Every failure is reported under the `Decoding` category.
pub fn decrypt_wrapped_key(handle: &PrivateKeyHandle, wrapped: &str) -> (r: Result<
    Vec<u8>,
    CryptoError,
>)
    ensures
        r is Ok <==> unwrapped_key(handle@, wrapped@) is Some,
        r matches Ok(plain) ==> Some(plain@) == unwrapped_key(handle@, wrapped@),
        r matches Err(e) ==> category_of(e) == ErrorCategory::Decoding,
        backend::base64_decoded(wrapped@) is None ==> (r matches Err(e) && e is DecodeError),
        (backend::base64_decoded(wrapped@) matches Some(raw) && backend::oaep_sha256_decrypted(
            handle@,
            raw,
        ) is None) ==> (r matches Err(e) && e is RsaErr),
{
    let raw = match backend::decode_base64(wrapped) {
        Ok(bytes) => bytes,
        Err(e) => {
            return Err(CryptoError::from(e));
        },
    };
    match backend::oaep_decrypt(handle.key(), raw.as_slice()) {
        Ok(plain) => Ok(plain),
        Err(e) => Err(CryptoError::from(e)),
    }
}

/// Law: malformed base64 is rejected independently of the key. Whatever key a
/// handle holds, a text that standard base64 does not decode unwraps to
/// nothing.
pub proof fn lemma_malformed_base64_rejected(key: Seq<u8>, text: Seq<char>)
    requires
        backend::base64_decoded(text) is None,
    ensures
        unwrapped_key(key, text) is None,
{
}

/// Law: unwrapping reads nothing but the key material and the text. Handles
/// over the same key — the same handle used twice, a clone of it, or the same
/// handle shared by concurrent callers — recover the same plaintext from the
/// same text.
pub proof fn lemma_unwrap_agrees(key1: Seq<u8>, key2: Seq<u8>, text: Seq<char>)
    requires
        key1 == key2,
    ensures
        unwrapped_key(key1, text) == unwrapped_key(key2, text),
{
}

} // verus!
