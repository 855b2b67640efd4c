use rcrypto::{load_private_key, CryptoError, ErrorCategory, PrivateKeyHandle};
use rsa::pkcs8::{EncodePrivateKey, LineEnding};

const PASSPHRASE: &str = "orchard-gate";

// Key material is generated afresh at run time: the loader's inputs are a
// 1024-bit key pair as unencrypted PKCS#8 PEM and the same pair as encrypted
// PKCS#8 PEM (PBES2) under a passphrase.
fn fresh_key() -> rsa::RsaPrivateKey {
    let mut rng = rand::thread_rng();
    match rsa::RsaPrivateKey::new(&mut rng, 1024) {
        Ok(k) => k,
        Err(_) => panic!("generating a test key should succeed"),
    }
}

fn plain_pem(key: &rsa::RsaPrivateKey) -> String {
    match key.to_pkcs8_pem(LineEnding::LF) {
        Ok(p) => p.to_string(),
        Err(_) => panic!("encoding the test key should succeed"),
    }
}

// Wraps the key as encrypted PKCS#8 (PBES2: PBKDF2-HMAC-SHA256, AES-256-CBC)
// under the passphrase.
fn encrypted_pem(key: &rsa::RsaPrivateKey, passphrase: &str) -> String {
    let doc = match key.to_pkcs8_der() {
        Ok(d) => d,
        Err(_) => panic!("encoding the test key should succeed"),
    };
    let mut rng = rand::thread_rng();
    let mut salt = [0u8; 16];
    let mut iv = [0u8; 16];
    rand::RngCore::fill_bytes(&mut rng, &mut salt);
    rand::RngCore::fill_bytes(&mut rng, &mut iv);
    let params =
        match rsa::pkcs8::pkcs5::pbes2::Parameters::pbkdf2_sha256_aes256cbc(2048, &salt, &iv) {
            Ok(p) => p,
            Err(_) => panic!("building the encryption parameters should succeed"),
        };
    let encrypted = match params.encrypt(passphrase.as_bytes(), doc.as_bytes()) {
        Ok(c) => c,
        Err(_) => panic!("encrypting the test key should succeed"),
    };
    let info = rsa::pkcs8::EncryptedPrivateKeyInfo {
        encryption_algorithm: params.into(),
        encrypted_data: &encrypted,
    };
    let secret = match rsa::pkcs8::SecretDocument::try_from(info) {
        Ok(d) => d,
        Err(_) => panic!("assembling the encrypted key should succeed"),
    };
    match secret.to_pem("ENCRYPTED PRIVATE KEY", LineEnding::LF) {
        Ok(p) => p.to_string(),
        Err(_) => panic!("encoding the encrypted key should succeed"),
    }
}

fn expect_decoding_failure(r: Result<PrivateKeyHandle, CryptoError>) {
    match r {
        Ok(_) => panic!("loading should have failed"),
        Err(e) => {
            assert_eq!(e.category(), ErrorCategory::Decoding);
            assert!(matches!(e, CryptoError::PKCS8Err(_)));
        }
    }
}

#[test]
fn loads_unencrypted_key_without_passphrase() {
    let pem = plain_pem(&fresh_key());
    assert!(load_private_key(&pem, None).is_ok());
}

#[test]
fn unencrypted_key_with_passphrase_fails_decoding() {
    let pem = plain_pem(&fresh_key());
    expect_decoding_failure(load_private_key(&pem, Some(PASSPHRASE)));
}

#[test]
fn loads_encrypted_key_with_correct_passphrase() {
    let pem = encrypted_pem(&fresh_key(), PASSPHRASE);
    assert!(load_private_key(&pem, Some(PASSPHRASE)).is_ok());
}

#[test]
fn encrypted_key_with_wrong_passphrase_fails_decoding() {
    let pem = encrypted_pem(&fresh_key(), PASSPHRASE);
    expect_decoding_failure(load_private_key(&pem, Some("orchard-gates")));
}

#[test]
fn encrypted_key_without_passphrase_fails_decoding() {
    let pem = encrypted_pem(&fresh_key(), PASSPHRASE);
    expect_decoding_failure(load_private_key(&pem, None));
}

#[test]
fn garbage_text_fails_decoding() {
    expect_decoding_failure(load_private_key("not a pem at all", None));
    expect_decoding_failure(load_private_key("", None));
    expect_decoding_failure(load_private_key("not a pem at all", Some(PASSPHRASE)));
}

#[test]
fn alloc_failure_reports_decoding() {
    assert_eq!(CryptoError::AllocErr.category(), ErrorCategory::Decoding);
}

#[test]
fn conversions_keep_the_cause_and_collapse_to_decoding() {
    let parsed = <rsa::RsaPrivateKey as rsa::pkcs8::DecodePrivateKey>::from_pkcs8_pem("nope");
    let pkcs8_err = match parsed {
        Err(e) => e,
        Ok(_) => panic!("parsing garbage should fail"),
    };
    let e = CryptoError::from(pkcs8_err);
    assert!(matches!(e, CryptoError::PKCS8Err(_)));
    assert_eq!(e.category(), ErrorCategory::Decoding);

    let b64_err = match base64::Engine::decode(&base64::engine::general_purpose::STANDARD, "!!") {
        Err(e) => e,
        Ok(_) => panic!("decoding garbage should fail"),
    };
    let e = CryptoError::from(b64_err);
    assert!(matches!(e, CryptoError::DecodeError(_)));
    assert_eq!(e.category(), ErrorCategory::Decoding);
}
