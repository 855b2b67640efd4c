//! Key-unwrapping primitive: loads an RSA private key from PKCS#8 PEM text
//! (optionally passphrase-protected) and uses it to decrypt a small symmetric
//! key that was wrapped with RSA-OAEP-SHA256 and carried as standard base64.

pub mod backend;
pub mod engine;
pub mod errors;
pub mod handle;

pub use engine::{decrypt_wrapped_key, load_private_key};
pub use errors::{CryptoError, ErrorCategory};
pub use handle::PrivateKeyHandle;
