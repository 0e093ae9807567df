use vstd::prelude::*;

verus! {

/// Why a login password could not be checked.
#[derive(Copy, Clone, Debug, PartialEq, Eq, Structural)]
pub enum LoginError {
    /// No key pair has been stored yet.
    MissingKeys,
    /// The stored login hash is not an encoded Argon2 hash.
    MalformedHash,
}

/// Why the password database could not be sealed or opened.
#[derive(Copy, Clone, Debug, PartialEq, Eq, Structural)]
pub enum StoreError {
    /// No key pair (and so no nonce) has been stored yet.
    MissingKeys,
    /// The database does not decrypt under the key and the stored nonce.
    DecryptionFailed,
}

} // verus!
