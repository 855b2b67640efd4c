//! Trusted bindings to the `rsa` and `base64` crates.
//!
//! Nothing in this module is proved: each wrapper's contract states what the
//! outside function it calls does, as that crate's source shows, and the rest
//! of the library is verified against these contracts.

use vstd::prelude::*;
use rsa::pkcs8::DecodePrivateKey;
use base64::Engine;

verus! {

#[verifier::external_type_specification]
#[verifier::external_body]
pub struct ExRsaPrivateKey(rsa::RsaPrivateKey);

#[verifier::external_type_specification]
#[verifier::external_body]
pub struct ExPkcs8Error(rsa::pkcs8::Error);

#[verifier::external_type_specification]
#[verifier::external_body]
pub struct ExRsaError(rsa::Error);

#[verifier::external_type_specification]
#[verifier::external_body]
pub struct ExDecodeError(base64::DecodeError);

/// The key material that a parsed `rsa::RsaPrivateKey` holds, as an abstract
/// byte sequence. The value itself is opaque; this name is how the contracts
/// below tie the key that parsing returned to the key that decryption uses.
pub uninterp spec fn key_bytes(key: rsa::RsaPrivateKey) -> Seq<u8>;

/// What `rsa::RsaPrivateKey::from_pkcs8_pem` returns on a text: `None` when
/// the text is not a valid unencrypted PKCS#8 PEM private key, otherwise the
/// material of the parsed key. Parsing is deterministic in the text.
pub uninterp spec fn pkcs8_key(pem: Seq<char>) -> Option<Seq<u8>>;

/// What `rsa::RsaPrivateKey::from_pkcs8_encrypted_pem` returns on a text and
/// a passphrase: `None` when the text is not an encrypted PKCS#8 PEM private
/// key or the passphrase does not decrypt it, otherwise the material of the
/// parsed key. Parsing is deterministic in the text and the passphrase.
pub uninterp spec fn pkcs8_encrypted_key(pem: Seq<char>, passphrase: Seq<char>) -> Option<Seq<u8>>;

/// What base64's standard-alphabet, padded engine decodes a text to: `None`
/// on any character outside the alphabet, wrong padding, or a length that is
/// not a whole number of blocks, otherwise the decoded bytes.
pub uninterp spec fn base64_decoded(text: Seq<char>) -> Option<Seq<u8>>;

/// What RSA-OAEP decryption with SHA-256 (as both hash and MGF1 hash, default
/// label) recovers from a ciphertext under a key: `None` when the ciphertext
/// length does not match the key's modulus size or the OAEP padding check
/// fails, otherwise the plaintext. The `rsa` crate's unblinded decryption is
/// deterministic in the key and the ciphertext.
pub uninterp spec fn oaep_sha256_decrypted(key: Seq<u8>, ciphertext: Seq<u8>) -> Option<Seq<u8>>;

/// Relies on `rsa::RsaPrivateKey::from_pkcs8_pem`: parses an unencrypted
/// PKCS#8 PEM private key. Its source accepts only the PEM label
/// `PRIVATE KEY`, while the encrypted path accepts only
/// `ENCRYPTED PRIVATE KEY`; a text that parses here therefore parses on the
/// encrypted path under no passphrase.
#[verifier::external_body]
pub(crate) fn parse_pkcs8_pem(pem: &str) -> (r: Result<rsa::RsaPrivateKey, rsa::pkcs8::Error>)
    ensures
        r matches Ok(key) ==> pkcs8_key(pem@) == Some(key_bytes(key)),
        r is Err <==> pkcs8_key(pem@) is None,
        r is Ok ==> forall|p: Seq<char>| #[trigger] pkcs8_encrypted_key(pem@, p) is None,
{
    rsa::RsaPrivateKey::from_pkcs8_pem(pem)
}

/// Relies on `rsa::RsaPrivateKey::from_pkcs8_encrypted_pem`: parses an
/// encrypted PKCS#8 PEM private key, deriving the decryption key from the
/// passphrase. Its source accepts only the PEM label `ENCRYPTED PRIVATE KEY`,
/// so a text that parses here is no unencrypted PKCS#8 PEM private key.
#[verifier::external_body]
pub(crate) fn parse_pkcs8_encrypted_pem(pem: &str, passphrase: &str) -> (r: Result<
    rsa::RsaPrivateKey,
    rsa::pkcs8::Error,
>)
    ensures
        r matches Ok(key) ==> pkcs8_encrypted_key(pem@, passphrase@) == Some(key_bytes(key)),
        r is Err <==> pkcs8_encrypted_key(pem@, passphrase@) is None,
        r is Ok ==> pkcs8_key(pem@) is None,
{
    rsa::RsaPrivateKey::from_pkcs8_encrypted_pem(pem, passphrase)
}

/// Relies on `base64::engine::general_purpose::STANDARD.decode`: decodes the
/// standard alphabet with mandatory canonical padding, rejecting any other
/// input.
#[verifier::external_body]
pub(crate) fn decode_base64(text: &str) -> (r: Result<Vec<u8>, base64::DecodeError>)
    ensures
        r matches Ok(bytes) ==> base64_decoded(text@) == Some(bytes@),
        r is Err <==> base64_decoded(text@) is None,
{
    base64::engine::general_purpose::STANDARD.decode(text)
}

/// Relies on `rsa::RsaPrivateKey::decrypt` with `Oaep::new::<Sha256>()`: its
/// source passes no blinding rng, so the call is a deterministic function of
/// the key and the ciphertext.
#[verifier::external_body]
pub(crate) fn oaep_decrypt(key: &rsa::RsaPrivateKey, ciphertext: &[u8]) -> (r: Result<
    Vec<u8>,
    rsa::Error,
>)
    ensures
        r matches Ok(plain) ==> oaep_sha256_decrypted(key_bytes(*key), ciphertext@) == Some(plain@),
        r is Err <==> oaep_sha256_decrypted(key_bytes(*key), ciphertext@) is None,
{
    let padding = rsa::Oaep::new::<rsa::sha2::Sha256>();
    key.decrypt(padding, ciphertext)
}

/// Relies on `std::sync::Arc::clone`: the clone is a new reference to the
/// same allocation, so it carries the same key.
#[verifier::external_body]
pub(crate) fn share_key(key: &std::sync::Arc<rsa::RsaPrivateKey>) -> (r: std::sync::Arc<
    rsa::RsaPrivateKey,
>)
    ensures
        r == *key,
{
    std::sync::Arc::clone(key)
}

} // verus!
