use crate::crypto::{argon2_encoded, argon2_hash_encoded, argon2_verdict, argon2_verify_encoded, utf8_len};
use crate::database::{lemma_salts_accepted, LOGIN_SALT};
use crate::error::LoginError;
use vstd::prelude::*;

verus! {

/// Keeps the login password's hash in a key file.
pub struct SecurityManager {
    pub key_file: String,
}

/// What the key file holds: the login-password hash and the data key.
pub struct KeyPair {
    pub login_key: String,
    pub data_key: String,
}

/// The answer to a login attempt with password `pwd` against what the key
/// file holds.
pub open spec fn login_check(stored: Option<KeyPair>, pwd: Seq<char>) -> Result<bool, LoginError> {
    match stored {
        None => Err(LoginError::MissingKeys),
        Some(kp) => match argon2_verdict(kp.login_key@, pwd) {
            Some(b) => Ok(b),
            None => Err(LoginError::MalformedHash),
        },
    }
}

impl SecurityManager {
    /// A manager whose key file is `keys.json` in the directory `path`.
    pub fn new(path: String) -> (res: SecurityManager)
        ensures
            res.key_file@ == path@ + "/keys.json"@,
    {
        let mut path = path;
        path.append("/keys.json");
        SecurityManager { key_file: path }
    }

    /// The Argon2 hash of a login password under the fixed login salt.
    pub fn encrypt_login_pw(&self, pw: &str) -> (res: String)
        requires
            utf8_len(pw@) <= 0xFFFF_FFFF,
        ensures
            res@ == argon2_encoded(pw@, LOGIN_SALT@),
            argon2_verdict(res@, pw@) == Some(true),
    {
        proof {
            lemma_salts_accepted(pw@);
        }
        match argon2_hash_encoded(pw, LOGIN_SALT) {
            Some(h) => h,
            None => {
                assert(false);
                String::new()
            },
        }
    }

    /// Checks a login password against the key file's contents (`None`
    /// where the key file is empty).
    pub fn verify_login_pw(&self, raw_pw: &String, stored: &Option<KeyPair>) -> (res: Result<bool, LoginError>)
        ensures
            res == login_check(*stored, raw_pw@),
    {
        match stored {
            None => Err(LoginError::MissingKeys),
            Some(kp) => match argon2_verify_encoded(kp.login_key.as_str(), raw_pw.as_str()) {
                Some(b) => Ok(b),
                None => Err(LoginError::MalformedHash),
            },
        }
    }

    /// The key pair to store after choosing a new login password: its hash,
    /// and the data key of the key pair stored before (empty where there was
    /// none). A login attempt with the same password then succeeds.
    pub fn save_login_pw(&self, raw_pw: &str, existing: Option<KeyPair>) -> (res: KeyPair)
        requires
            utf8_len(raw_pw@) <= 0xFFFF_FFFF,
        ensures
            res.login_key@ == argon2_encoded(raw_pw@, LOGIN_SALT@),
            res.data_key@ == match existing {
                Some(kp) => kp.data_key@,
                None => Seq::<char>::empty(),
            },
            login_check(Some(res), raw_pw@) == Ok::<bool, LoginError>(true),
    {
        let en_pw_string = self.encrypt_login_pw(raw_pw);
        let mut k = KeyPair { login_key: en_pw_string, data_key: String::new() };
        if let Some(existing_kp) = existing {
            k.data_key = existing_kp.data_key;
        }
        k
    }
}

} // verus!
