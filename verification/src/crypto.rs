use aes::cipher::generic_array::GenericArray;
use aes_gcm::aead::{Aead, KeyInit};
use aes_gcm::{Aes256Gcm, Nonce};
use rand::Rng;
use vstd::prelude::*;
use vstd::utf8::{encode_utf8, is_ascii_chars, is_ascii_chars_encode_utf8};

verus! {

/// Number of UTF-8 bytes that encode `s`.
pub open spec fn utf8_len(s: Seq<char>) -> nat {
    encode_utf8(s).len()
}

/// The encoded hash string that `argon2::hash_encoded` produces for a
/// password and a salt under `argon2::Config::default()`.
pub uninterp spec fn argon2_encoded(pwd: Seq<char>, salt: Seq<char>) -> Seq<char>;

/// What `argon2::verify_encoded` answers for an encoded hash and a password:
/// `Some(matches)`, or `None` where it returns an error.
pub uninterp spec fn argon2_verdict(encoded: Seq<char>, pwd: Seq<char>) -> Option<bool>;

/// The ciphertext (with its 16-byte tag appended) that AES-256-GCM produces
/// for a key, a 12-byte nonce and a plaintext, with no associated data.
pub uninterp spec fn aes256gcm_sealed(key: Seq<u8>, nonce: Seq<u8>, plaintext: Seq<u8>) -> Seq<u8>;

/// What AES-256-GCM decryption yields for a key, a nonce and a ciphertext:
/// `Some(plaintext)` when the tag checks, `None` otherwise.
pub uninterp spec fn aes256gcm_opened(key: Seq<u8>, nonce: Seq<u8>, ciphertext: Seq<u8>) -> Option<Seq<u8>>;

/// The lengths `argon2::hash_encoded` accepts under the default configuration:
/// a salt of 8 to 2^32 - 1 bytes and a password of at most 2^32 - 1 bytes.
pub open spec fn argon2_accepts(pwd: Seq<char>, salt: Seq<char>) -> bool {
    &&& 8 <= utf8_len(salt) <= 0xFFFF_FFFF
    &&& utf8_len(pwd) <= 0xFFFF_FFFF
}

/// The shape of an encoded hash under the default configuration (the
/// `format!` of `encode_string`): the ASCII text `$argon2i$v=19$m=4096,t=3,p=1$`,
/// then the base64 salt (at least 11 characters for at least 8 bytes), `$` and
/// the base64 32-byte hash (43 characters), so at least 84 characters.
pub open spec fn argon2_encoded_form(h: Seq<char>) -> bool {
    &&& is_ascii_chars(h)
    &&& h.len() >= 84
    &&& h.subrange(0, 29) == "$argon2i$v=19$m=4096,t=3,p=1$"@
}

/// An encoded hash is as long in bytes as in characters, so at least 84 bytes.
pub proof fn lemma_encoded_form_len(h: Seq<char>)
    requires
        argon2_encoded_form(h),
    ensures
        utf8_len(h) == h.len(),
        utf8_len(h) >= 84,
{
    is_ascii_chars_encode_utf8(h);
}

/// Largest plaintext, in bytes, that AES-GCM encrypts (2^36).
pub open spec fn aes_gcm_max_plaintext() -> nat {
    0x10_0000_0000
}

/// Calls `argon2::hash_encoded(pwd, salt, &Config::default())`. Claimed: it
/// succeeds exactly on the lengths of `argon2_accepts` (the checks of
/// `Context::new`, the only error source), its result is a function of the
/// password and the salt, has the shape `encode_string` gives it, and
/// `argon2::verify_encoded` accepts that result for the same password, as the
/// crate's documentation shows.
#[verifier::external_body]
pub(crate) fn argon2_hash_encoded(pwd: &str, salt: &str) -> (res: Option<String>)
    ensures
        res is Some <==> argon2_accepts(pwd@, salt@),
        res matches Some(h) ==> h@ == argon2_encoded(pwd@, salt@),
        res matches Some(h) ==> argon2_encoded_form(h@),
        res matches Some(h) ==> argon2_verdict(h@, pwd@) == Some(true),
{
    argon2::hash_encoded(pwd.as_bytes(), salt.as_bytes(), &argon2::Config::default()).ok()
}

/// Calls `argon2::verify_encoded(encoded, pwd)`. Claimed: its answer (an
/// error mapped to `None`) is a function of the encoded hash and the password.
#[verifier::external_body]
pub(crate) fn argon2_verify_encoded(encoded: &str, pwd: &str) -> (res: Option<bool>)
    ensures
        res == argon2_verdict(encoded@, pwd@),
{
    argon2::verify_encoded(encoded, pwd.as_bytes()).ok()
}

/// Calls `Aes256Gcm::encrypt` with the key and nonce given and no associated
/// data. Claimed: it succeeds exactly when the plaintext is at most 2^36 bytes
/// (`P_MAX` in the crate's source), the ciphertext is a function of key, nonce
/// and plaintext, it is the plaintext's length plus the 16-byte tag, and
/// decrypting it with the same key and nonce gives the plaintext back, as the
/// crate's documentation shows.
#[verifier::external_body]
pub(crate) fn aes256gcm_encrypt(key: &[u8], nonce: &[u8], plaintext: &[u8]) -> (res: Option<Vec<u8>>)
    requires
        key@.len() == 32,
        nonce@.len() == 12,
    ensures
        res is Some <==> plaintext@.len() <= aes_gcm_max_plaintext(),
        res matches Some(c) ==> c@ == aes256gcm_sealed(key@, nonce@, plaintext@),
        res matches Some(c) ==> c@.len() == plaintext@.len() + 16,
        res matches Some(c) ==> aes256gcm_opened(key@, nonce@, c@) == Some(plaintext@),
{
    let cipher = Aes256Gcm::new(GenericArray::from_slice(key));
    cipher.encrypt(Nonce::from_slice(nonce), plaintext).ok()
}

/// Calls `Aes256Gcm::decrypt` with the key and nonce given and no associated
/// data. Claimed: its answer (an error mapped to `None`) is a function of key,
/// nonce and ciphertext.
#[verifier::external_body]
pub(crate) fn aes256gcm_decrypt(key: &[u8], nonce: &[u8], ciphertext: &[u8]) -> (res: Option<Vec<u8>>)
    requires
        key@.len() == 32,
        nonce@.len() == 12,
    ensures
        match res {
            Some(p) => aes256gcm_opened(key@, nonce@, ciphertext@) == Some(p@),
            None => aes256gcm_opened(key@, nonce@, ciphertext@) is None,
        },
{
    let cipher = Aes256Gcm::new(GenericArray::from_slice(key));
    cipher.decrypt(Nonce::from_slice(nonce), ciphertext).ok()
}

/// Calls `rand::thread_rng().gen::<[u8; 12]>()`. Nothing is claimed of the
/// bytes: they come from the thread's random generator.
#[verifier::external_body]
pub(crate) fn random_nonce() -> (res: [u8; 12]) {
    rand::thread_rng().gen::<[u8; 12]>()
}

} // verus!
