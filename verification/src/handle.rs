//! The opaque, shareable reference to a loaded private key.

use vstd::prelude::*;
use crate::backend;

verus! {

/// A successfully parsed RSA private key, ready for decryption.
///
/// The key behind the handle is reference-counted and immutable for its whole
/// lifetime: clones share the same key object, concurrent readers need no
/// locking, and the key is freed only when the last handle is dropped. No
/// operation of the library hands the raw key material back out; in contracts
/// the handle appears only as its view, the abstract key material
/// [`backend::key_bytes`].
pub struct PrivateKeyHandle {
    key: std::sync::Arc<rsa::RsaPrivateKey>,
}

impl View for PrivateKeyHandle {
    type V = Seq<u8>;

    closed spec fn view(&self) -> Seq<u8> {
        backend::key_bytes(*self.key)
    }
}

impl PrivateKeyHandle {
    /// Wraps a freshly parsed key. Only the key loader constructs handles.
    pub(crate) fn wrap(key: rsa::RsaPrivateKey) -> (h: PrivateKeyHandle)
        ensures
            h@ == backend::key_bytes(key),
    {
        PrivateKeyHandle { key: std::sync::Arc::new(key) }
    }

    /// Shared, read-only access to the wrapped key for the decryption engine.
    pub(crate) fn key(&self) -> (k: &rsa::RsaPrivateKey)
        ensures
            backend::key_bytes(*k) == self@,
    {
        &self.key
    }
}

impl Clone for PrivateKeyHandle {
    /// A clone refers to the same key object: no key material is copied.
    fn clone(&self) -> (r: Self)
        ensures
            r@ == self@,
    {
        PrivateKeyHandle { key: backend::share_key(&self.key) }
    }
}

} // verus!
