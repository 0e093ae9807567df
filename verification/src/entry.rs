use crate::clock::{today, Date};
use crate::crypto::utf8_len;
use vstd::prelude::*;

verus! {

/// One saved login: the site, the user name on it, its password and the
/// dates the entry was created and its password last changed.
pub struct PasswordEntry {
    pub username: String,
    pub password: String,
    pub site: String,
    pub created: Date,
    pub last_updated: Date,
}

/// What the password column shows for a password that is hidden: one `*`
/// for each byte of its UTF-8 encoding.
pub open spec fn masked(password: Seq<char>) -> Seq<char> {
    Seq::new(utf8_len(password), |i: int| '*')
}

impl PasswordEntry {
    /// A new entry created today.
    pub fn new(site: String, username: String, enc_pw: String) -> (res: PasswordEntry)
        ensures
            res.site@ == site@,
            res.username@ == username@,
            res.password@ == enc_pw@,
            res.created.is_valid(),
            res.last_updated.is_valid(),
    {
        let created = today();
        let last_updated = today();
        PasswordEntry::from_parts(site, username, enc_pw, created, last_updated)
    }

    /// An entry with all of its fields given.
    pub fn from_parts(site: String, username: String, password: String, created: Date, last_updated: Date) -> (res: PasswordEntry)
        ensures
            res.site == site,
            res.username == username,
            res.password == password,
            res.created == created,
            res.last_updated == last_updated,
    {
        PasswordEntry { username, password, site, created, last_updated }
    }

    /// The text of the password column for this entry: the password itself
    /// when the entry is the selected one and passwords are revealed, else
    /// the mask.
    pub fn shown_password(&self, is_selected: bool, reveal: bool) -> (res: String)
        ensures
            is_selected && reveal ==> res@ == self.password@,
            !(is_selected && reveal) ==> res@ == masked(self.password@),
    {
        if is_selected && reveal {
            self.password.clone()
        } else {
            let n = self.password.as_str().as_bytes().len();
            let mut res = String::new();
            let mut i: usize = 0;
            while i < n
                invariant
                    n == utf8_len(self.password@),
                    i <= n,
                    res@ == Seq::new(i as nat, |k: int| '*'),
                decreases n - i,
            {
                proof {
                    reveal_strlit("*");
                }
                res.append("*");
                i = i + 1;
                assert(res@ =~= Seq::new(i as nat, |k: int| '*'));
            }
            res
        }
    }
}

} // verus!
