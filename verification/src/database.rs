use crate::clock::{today, Date};
use crate::crypto::{
    aes256gcm_decrypt, aes256gcm_encrypt, aes256gcm_opened, aes256gcm_sealed, aes_gcm_max_plaintext,
    argon2_accepts, argon2_encoded, argon2_encoded_form, argon2_hash_encoded, lemma_encoded_form_len, argon2_verdict, argon2_verify_encoded,
    random_nonce, utf8_len,
};
use crate::entry::PasswordEntry;
use crate::error::{LoginError, StoreError};
use vstd::prelude::*;
use vstd::utf8::{encode_utf8, is_ascii_chars, is_ascii_chars_encode_utf8};

verus! {

/// Salt of the login-password hash.
pub const LOGIN_SALT: &'static str = "harcodedsalthatshouldprobablybechangedtosomethingelseatonepoint1";

/// Salt of the hash from which the database key is taken.
pub const DB_KEY_SALT: &'static str = "hardcodedsaltfordbkeythatcouldbechangedinthefuture123";

/// The vault's storage: where its key file and its encrypted database live,
/// and the password entries currently loaded.
pub struct DatabaseManager {
    pub key_file: String,
    pub db_file: String,
    pub pw_vec: Vec<PasswordEntry>,
}

/// What the key file holds: the login-password hash and the nonce under
/// which the database was last encrypted.
pub struct KeyPair {
    pub login_key: String,
    pub nonce: [u8; 12],
}

/// The AES-256 key taken from a database key string: the first 32 bytes of
/// its UTF-8 encoding.
pub open spec fn cipher_key_of(db_key: Seq<char>) -> Seq<u8> {
    encode_utf8(db_key).subrange(0, 32)
}

/// The AES key is the first 32 bytes of the database key's UTF-8 encoding,
/// byte for byte. For a key derived by Argon2 these begin with the bytes of
/// the encoded hash's fixed head `$argon2i$v=19$m=4096,t=3,p=1$`.
pub proof fn lemma_cipher_key_is_prefix(db_key: Seq<char>)
    requires
        utf8_len(db_key) >= 32,
    ensures
        cipher_key_of(db_key).len() == 32,
        forall|i: int| 0 <= i < 32 ==> #[trigger] cipher_key_of(db_key)[i] == encode_utf8(db_key)[i],
        argon2_encoded_form(db_key) ==> forall|i: int|
            0 <= i < 29 ==> #[trigger] cipher_key_of(db_key)[i] == ("$argon2i$v=19$m=4096,t=3,p=1$"@)[i] as u8,
{
    if argon2_encoded_form(db_key) {
        is_ascii_chars_encode_utf8(db_key);
        assert forall|i: int| 0 <= i < 29 implies #[trigger] cipher_key_of(db_key)[i] == ("$argon2i$v=19$m=4096,t=3,p=1$"@)[i] as u8 by {
            assert(db_key.subrange(0, 29)[i] == db_key[i]);
        }
    }
}

/// The answer to a login attempt with password `pwd` against what the key
/// file holds.
pub open spec fn login_check(stored: Option<KeyPair>, pwd: Seq<char>) -> Result<bool, LoginError> {
    match stored {
        None => Err(LoginError::MissingKeys),
        Some(kp) => match argon2_verdict(kp.login_key@, pwd) {
            Some(b) => Ok(b),
            None => Err(LoginError::MalformedHash),
        },
    }
}

/// What opening the database file's bytes `raw` yields: `Ok(None)` for an
/// empty file (no entries yet), the decrypted JSON bytes otherwise.
pub open spec fn opened_database(db_key: Seq<char>, raw: Seq<u8>, stored: Option<KeyPair>) -> Result<Option<Seq<u8>>, StoreError> {
    if raw.len() == 0 {
        Ok(None)
    } else {
        match stored {
            None => Err(StoreError::MissingKeys),
            Some(kp) => match aes256gcm_opened(cipher_key_of(db_key), kp.nonce@, raw) {
                Some(p) => Ok(Some(p)),
                None => Err(StoreError::DecryptionFailed),
            },
        }
    }
}

/// Text made of ASCII characters is as long in bytes as in characters.
proof fn lemma_ascii_utf8_len(s: Seq<char>)
    requires
        is_ascii_chars(s),
    ensures
        utf8_len(s) == s.len(),
{
    is_ascii_chars_encode_utf8(s);
}

/// Both salts are long enough for Argon2, so a password of at most 2^32 - 1
/// bytes is hashed under either.
pub(crate) proof fn lemma_salts_accepted(pwd: Seq<char>)
    requires
        utf8_len(pwd) <= 0xFFFF_FFFF,
    ensures
        argon2_accepts(pwd, LOGIN_SALT@),
        argon2_accepts(pwd, DB_KEY_SALT@),
{
    reveal_strlit("harcodedsalthatshouldprobablybechangedtosomethingelseatonepoint1");
    reveal_strlit("hardcodedsaltfordbkeythatcouldbechangedinthefuture123");
    assert(is_ascii_chars(LOGIN_SALT@));
    assert(is_ascii_chars(DB_KEY_SALT@));
    lemma_ascii_utf8_len(LOGIN_SALT@);
    lemma_ascii_utf8_len(DB_KEY_SALT@);
}

impl DatabaseManager {
    /// A manager with no entries loaded, whose key file is `keys.json` and
    /// whose database is `data.json` in the configuration directory.
    pub fn new(config_dir: String) -> (res: DatabaseManager)
        ensures
            res.key_file@ == config_dir@ + "/keys.json"@,
            res.db_file@ == config_dir@ + "/data.json"@,
            res.pw_vec@.len() == 0,
    {
        let mut dir_path = config_dir;
        let mut db_file = dir_path.clone();
        db_file.append("/data.json");
        dir_path.append("/keys.json");
        DatabaseManager { key_file: dir_path, db_file, pw_vec: Vec::new() }
    }

    /// The Argon2 encoded hash of `pw` under `salt` with the default
    /// configuration.
    pub fn argon2_pw(&self, pw: &str, salt: &str) -> (res: String)
        requires
            argon2_accepts(pw@, salt@),
        ensures
            res@ == argon2_encoded(pw@, salt@),
            argon2_encoded_form(res@),
            utf8_len(res@) >= 84,
            argon2_verdict(res@, pw@) == Some(true),
    {
        match argon2_hash_encoded(pw, salt) {
            Some(h) => {
                proof {
                    lemma_encoded_form_len(h@);
                }
                h
            },
            None => {
                assert(false);
                String::new()
            },
        }
    }

    /// Checks a login password against the key file's contents (`None`
    /// where the key file is empty).
    pub fn verify_login_pw(&self, raw_pw: &String, stored: &Option<KeyPair>) -> (res: Result<bool, LoginError>)
        ensures
            res == login_check(*stored, raw_pw@),
    {
        match stored {
            None => Err(LoginError::MissingKeys),
            Some(kp) => match argon2_verify_encoded(kp.login_key.as_str(), raw_pw.as_str()) {
                Some(b) => Ok(b),
                None => Err(LoginError::MalformedHash),
            },
        }
    }

    /// The key pair to store after choosing a new login password: its hash
    /// under the login salt, and the nonce of the key pair stored before (all
    /// zeros where there was none). A login attempt with the same password
    /// then succeeds.
    pub fn save_login_pw(&self, raw_pw: &str, existing: Option<KeyPair>) -> (res: KeyPair)
        requires
            utf8_len(raw_pw@) <= 0xFFFF_FFFF,
        ensures
            res.login_key@ == argon2_encoded(raw_pw@, LOGIN_SALT@),
            res.nonce@ == match existing {
                Some(kp) => kp.nonce@,
                None => Seq::new(12, |i: int| 0u8),
            },
            login_check(Some(res), raw_pw@) == Ok::<bool, LoginError>(true),
    {
        proof {
            lemma_salts_accepted(raw_pw@);
        }
        let en_pw_string = self.argon2_pw(raw_pw, LOGIN_SALT);
        let mut k = KeyPair { login_key: en_pw_string, nonce: [0u8; 12] };
        assert(k.nonce@ =~= Seq::new(12, |i: int| 0u8));
        if let Some(existing_kp) = existing {
            k.nonce = existing_kp.nonce;
        }
        k
    }

    /// The database key derived from the login password: its Argon2 hash
    /// under the database-key salt.
    pub fn get_db_key(&self, pw: &String) -> (res: String)
        requires
            utf8_len(pw@) <= 0xFFFF_FFFF,
        ensures
            res@ == argon2_encoded(pw@, DB_KEY_SALT@),
            utf8_len(res@) >= 84,
    {
        proof {
            lemma_salts_accepted(pw@);
        }
        self.argon2_pw(pw.as_str(), DB_KEY_SALT)
    }

    /// The AES-256 key taken from a database key string.
    fn cipher_key(key: &String) -> (res: Vec<u8>)
        requires
            utf8_len(key@) >= 32,
        ensures
            res@ == cipher_key_of(key@),
            res@.len() == 32,
            forall|i: int| 0 <= i < 32 ==> #[trigger] res@[i] == encode_utf8(key@)[i],
    {
        let bytes = key.as_str().as_bytes();
        let mut res: Vec<u8> = Vec::new();
        let mut i: usize = 0;
        while i < 32
            invariant
                bytes@ == encode_utf8(key@),
                bytes@.len() >= 32,
                i <= 32,
                res@ == bytes@.subrange(0, i as int),
            decreases 32 - i,
        {
            res.push(bytes[i]);
            i = i + 1;
            assert(res@ =~= bytes@.subrange(0, i as int));
        }
        res
    }

    /// Encrypts the database's JSON text under the key taken from `key`.
    fn aes_encrypt(&self, key: &String, json_plaintext: String, nonce: &[u8]) -> (res: Vec<u8>)
        requires
            utf8_len(key@) >= 32,
            nonce@.len() == 12,
            utf8_len(json_plaintext@) <= aes_gcm_max_plaintext(),
        ensures
            res@ == aes256gcm_sealed(cipher_key_of(key@), nonce@, encode_utf8(json_plaintext@)),
            res@.len() == utf8_len(json_plaintext@) + 16,
            aes256gcm_opened(cipher_key_of(key@), nonce@, res@) == Some(encode_utf8(json_plaintext@)),
    {
        let k = Self::cipher_key(key);
        match aes256gcm_encrypt(k.as_slice(), nonce, json_plaintext.as_str().as_bytes()) {
            Some(c) => c,
            None => {
                assert(false);
                Vec::new()
            },
        }
    }

    /// Decrypts the database file's bytes under the key taken from `key` and
    /// the nonce of the stored key pair.
    fn aes_decrypt(&self, key: &String, enc_json: &Vec<u8>, stored: &Option<KeyPair>) -> (res: Result<Vec<u8>, StoreError>)
        requires
            stored is Some ==> utf8_len(key@) >= 32,
        ensures
            match res {
                Ok(p) => stored matches Some(kp) && aes256gcm_opened(cipher_key_of(key@), kp.nonce@, enc_json@) == Some(p@),
                Err(e) => match stored {
                    None => e == StoreError::MissingKeys,
                    Some(kp) => e == StoreError::DecryptionFailed
                        && aes256gcm_opened(cipher_key_of(key@), kp.nonce@, enc_json@) is None,
                },
            },
    {
        match stored {
            None => Err(StoreError::MissingKeys),
            Some(kp) => {
                let k = Self::cipher_key(key);
                match aes256gcm_decrypt(k.as_slice(), kp.nonce.as_slice(), enc_json.as_slice()) {
                    Some(p) => Ok(p),
                    None => Err(StoreError::DecryptionFailed),
                }
            },
        }
    }

    /// Opens the database file's bytes `raw`. An empty file means no entries:
    /// the loaded entries are cleared and `Ok(None)` returned. Otherwise the
    /// decrypted JSON text is returned, for the caller to turn into entries.
    pub fn populate_data(&mut self, db_key: &String, raw: &Vec<u8>, stored: &Option<KeyPair>) -> (res: Result<Option<Vec<u8>>, StoreError>)
        requires
            raw@.len() > 0 && stored is Some ==> utf8_len(db_key@) >= 32,
        ensures
            match res {
                Ok(Some(p)) => opened_database(db_key@, raw@, *stored) == Ok::<Option<Seq<u8>>, StoreError>(Some(p@)),
                Ok(None) => opened_database(db_key@, raw@, *stored) == Ok::<Option<Seq<u8>>, StoreError>(None),
                Err(e) => opened_database(db_key@, raw@, *stored) == Err::<Option<Seq<u8>>, StoreError>(e),
            },
            raw@.len() == 0 ==> final(self).pw_vec@.len() == 0,
            raw@.len() != 0 ==> final(self).pw_vec@ == old(self).pw_vec@,
            final(self).key_file == old(self).key_file,
            final(self).db_file == old(self).db_file,
    {
        if raw.len() == 0 {
            self.pw_vec = Vec::new();
            return Ok(None);
        }
        match self.aes_decrypt(db_key, raw, stored) {
            Ok(p) => Ok(Some(p)),
            Err(e) => Err(e),
        }
    }

    /// Seals the database's JSON text under a fresh random nonce: the
    /// encrypted bytes to write and the key pair, with that nonce, to store.
    /// Opening the written bytes with that key pair gives the JSON back.
    pub fn save_pw_vec(&self, db_key: &String, json: String, stored: Option<KeyPair>) -> (res: Result<(Vec<u8>, KeyPair), StoreError>)
        requires
            utf8_len(db_key@) >= 32,
            utf8_len(json@) <= aes_gcm_max_plaintext(),
        ensures
            res is Err <==> stored is None,
            res matches Err(e) ==> e == StoreError::MissingKeys,
            res matches Ok((ct, kp)) ==> stored matches Some(old_kp) && kp.login_key == old_kp.login_key
                && ct@ == aes256gcm_sealed(cipher_key_of(db_key@), kp.nonce@, encode_utf8(json@)),
            res matches Ok((ct, kp)) ==> opened_database(db_key@, ct@, Some(kp)) == Ok::<Option<Seq<u8>>, StoreError>(Some(encode_utf8(json@))),
    {
        let nonce = random_nonce();
        self.seal_pw_vec(db_key, json, stored, nonce)
    }

    /// Seals the database's JSON text under the nonce given: the encrypted
    /// bytes to write and the stored key pair with its nonce replaced.
    pub fn seal_pw_vec(&self, db_key: &String, json: String, stored: Option<KeyPair>, nonce: [u8; 12]) -> (res: Result<(Vec<u8>, KeyPair), StoreError>)
        requires
            utf8_len(db_key@) >= 32,
            utf8_len(json@) <= aes_gcm_max_plaintext(),
        ensures
            res is Err <==> stored is None,
            res matches Err(e) ==> e == StoreError::MissingKeys,
            res matches Ok((ct, kp)) ==> stored matches Some(old_kp) && kp.login_key == old_kp.login_key
                && kp.nonce == nonce
                && ct@ == aes256gcm_sealed(cipher_key_of(db_key@), nonce@, encode_utf8(json@)),
            res matches Ok((ct, kp)) ==> opened_database(db_key@, ct@, Some(kp)) == Ok::<Option<Seq<u8>>, StoreError>(Some(encode_utf8(json@))),
    {
        let encrypted_json = self.aes_encrypt(db_key, json, nonce.as_slice());
        match stored {
            None => Err(StoreError::MissingKeys),
            Some(kp) => {
                let mut kp = kp;
                kp.nonce = nonce;
                Ok((encrypted_json, kp))
            },
        }
    }

    /// Adds an entry, created today, at the end of the loaded entries.
    pub fn add_pw(&mut self, sitename: String, username: String, raw_pw: String)
        ensures
            final(self).pw_vec@.len() == old(self).pw_vec@.len() + 1,
            final(self).pw_vec@.drop_last() == old(self).pw_vec@,
            final(self).pw_vec@.last().site == sitename,
            final(self).pw_vec@.last().username == username,
            final(self).pw_vec@.last().password == raw_pw,
            final(self).pw_vec@.last().created.is_valid(),
            final(self).pw_vec@.last().last_updated.is_valid(),
            final(self).key_file == old(self).key_file,
            final(self).db_file == old(self).db_file,
    {
        let created = today();
        let last_updated = today();
        self.add_pw_on(sitename, username, raw_pw, created, last_updated);
    }

    /// Adds an entry with the dates given at the end of the loaded entries.
    pub fn add_pw_on(&mut self, sitename: String, username: String, raw_pw: String, created: Date, last_updated: Date)
        ensures
            final(self).pw_vec@.len() == old(self).pw_vec@.len() + 1,
            final(self).pw_vec@.drop_last() == old(self).pw_vec@,
            final(self).pw_vec@.last().site == sitename,
            final(self).pw_vec@.last().username == username,
            final(self).pw_vec@.last().password == raw_pw,
            final(self).pw_vec@.last().created == created,
            final(self).pw_vec@.last().last_updated == last_updated,
            final(self).key_file == old(self).key_file,
            final(self).db_file == old(self).db_file,
    {
        let new_pw = PasswordEntry::from_parts(sitename, username, raw_pw, created, last_updated);
        self.pw_vec.push(new_pw);
        assert(self.pw_vec@.drop_last() =~= old(self).pw_vec@);
    }

    /// Removes the entry at `index`; the entries after it move up by one.
    pub fn delete_site(&mut self, index: usize)
        requires
            index < old(self).pw_vec@.len(),
        ensures
            final(self).pw_vec@ == old(self).pw_vec@.remove(index as int),
            final(self).key_file == old(self).key_file,
            final(self).db_file == old(self).db_file,
    {
        self.pw_vec.remove(index);
    }

    /// Replaces the password of the entry at `index`, dating the change today.
    pub fn update_password(&mut self, index: usize, new_pw: String)
        requires
            index < old(self).pw_vec@.len(),
        ensures
            final(self).pw_vec@.len() == old(self).pw_vec@.len(),
            forall|j: int| 0 <= j < old(self).pw_vec@.len() && j != index ==> #[trigger] final(self).pw_vec@[j] == old(self).pw_vec@[j],
            final(self).pw_vec@[index as int].password == new_pw,
            final(self).pw_vec@[index as int].last_updated.is_valid(),
            final(self).pw_vec@[index as int].site == old(self).pw_vec@[index as int].site,
            final(self).pw_vec@[index as int].username == old(self).pw_vec@[index as int].username,
            final(self).pw_vec@[index as int].created == old(self).pw_vec@[index as int].created,
            final(self).key_file == old(self).key_file,
            final(self).db_file == old(self).db_file,
    {
        let date = today();
        self.update_password_on(index, new_pw, date);
    }

    /// Replaces the password of the entry at `index`, dating the change `date`.
    pub fn update_password_on(&mut self, index: usize, new_pw: String, date: Date)
        requires
            index < old(self).pw_vec@.len(),
        ensures
            final(self).pw_vec@.len() == old(self).pw_vec@.len(),
            forall|j: int| 0 <= j < old(self).pw_vec@.len() && j != index ==> #[trigger] final(self).pw_vec@[j] == old(self).pw_vec@[j],
            final(self).pw_vec@[index as int].password == new_pw,
            final(self).pw_vec@[index as int].last_updated == date,
            final(self).pw_vec@[index as int].site == old(self).pw_vec@[index as int].site,
            final(self).pw_vec@[index as int].username == old(self).pw_vec@[index as int].username,
            final(self).pw_vec@[index as int].created == old(self).pw_vec@[index as int].created,
            final(self).key_file == old(self).key_file,
            final(self).db_file == old(self).db_file,
    {
        let mut entry = self.pw_vec.remove(index);
        entry.password = new_pw;
        entry.last_updated = date;
        self.pw_vec.insert(index, entry);
    }
}

/// Deleting the entry that `add_pw` just added (the last one) restores the
/// entries as they were before.
pub proof fn lemma_delete_undoes_add(before: Seq<PasswordEntry>, after_add: Seq<PasswordEntry>)
    requires
        after_add.len() == before.len() + 1,
        after_add.drop_last() == before,
    ensures
        after_add.remove(before.len() as int) == before,
{
    assert(after_add.remove(before.len() as int) =~= after_add.drop_last());
}

} // verus!
