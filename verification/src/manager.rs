use crate::clock::Date;
use crate::crypto::{aes256gcm_sealed, aes_gcm_max_plaintext, argon2_encoded, argon2_verdict, utf8_len};
use crate::database::{cipher_key_of, login_check, opened_database, DatabaseManager, KeyPair, DB_KEY_SALT, LOGIN_SALT};
use crate::entry::{masked, PasswordEntry};
use crate::error::{LoginError, StoreError};
use crate::page::{InputResult, Key, Page};
use vstd::prelude::*;
use vstd::utf8::encode_utf8;

verus! {

/// The prompt shown before the password list is unlocked.
#[derive(Copy, Clone, Debug, PartialEq, Eq, Structural)]
pub enum LoginPrompt {
    /// "Enter Password to See Passwords List"
    EnterPassword,
    /// "Incorrect Password. Try Again"
    IncorrectPassword,
}

/// What the vault does next for the page it is on.
#[derive(Copy, Clone, Debug, PartialEq, Eq, Structural)]
pub enum ShowAction {
    /// Run the first-use screen.
    InitScreen,
    /// Run the home screen.
    HomeScreen,
    /// Ask for the login password with this prompt.
    AskLoginPassword(LoginPrompt),
    /// Run the password-list screen.
    PasswordListScreen,
    /// Restore the terminal and stop.
    Exit,
}

/// How a login attempt ended.
#[derive(Copy, Clone, Debug, PartialEq, Eq, Structural)]
pub enum LoginOutcome {
    /// The prompt was cancelled; the vault went home.
    Cancelled,
    /// The password did not match; the prompt will ask again.
    Rejected,
    /// The password matched; the database key was derived and the list is
    /// unlocked. The database is to be loaded with that key.
    Accepted,
}

/// What the first-use screen does with a key press.
#[derive(Copy, Clone, Debug, PartialEq, Eq, Structural)]
pub enum InitAction {
    /// Keep waiting for keys.
    Stay,
    /// Ask for the new login password.
    AskNewLoginPassword,
    /// Leave the screen for this page.
    Leave(Page),
}

/// What must be done to the files before the vault can be used.
#[derive(Copy, Clone, Debug, PartialEq, Eq, Structural)]
pub enum StorageSetup {
    /// Both files exist and a key pair is stored: the vault is initialized.
    Ready,
    /// A file is missing: create both files empty.
    CreateBothFiles,
    /// The key file is empty: empty the database file too.
    ResetDataFile,
}

/// The password-list screen's own state: the selected row and whether the
/// selected row's password is revealed.
pub struct PwListState {
    pub selected: usize,
    pub reveal: bool,
}

/// What the password-list screen does after a key press.
pub enum PwListAction {
    /// Keep showing the list.
    Stay,
    /// Leave the screen for this page.
    Leave(Page),
    /// Run the add-site prompts.
    AddSite,
    /// Ask the user to type `DELETE` to confirm deleting the selected entry.
    ConfirmDelete,
    /// Ask for the selected entry's new password.
    AskNewPassword,
    /// Put this password on the clipboard.
    CopyPassword(String),
}

/// The prompts of the add-site dialogue, in order.
#[derive(Copy, Clone, Debug, PartialEq, Eq, Structural)]
pub enum AddSitePrompt {
    SiteName,
    UserName,
    Password,
    ConfirmPassword,
}

/// The add-site dialogue's answers so far and the prompt it is waiting on.
pub struct AddSiteForm {
    pub stage: AddSitePrompt,
    pub site: String,
    pub username: String,
    pub password: String,
}

/// What the add-site dialogue does after an answer.
#[derive(Copy, Clone, Debug, PartialEq, Eq, Structural)]
pub enum AddSiteStep {
    /// Show this prompt next.
    Ask(AddSitePrompt),
    /// The dialogue is over; go to this page.
    Done(Page),
}

/// The row selected after `up` in a list of `len` rows: the one above,
/// wrapping from the first to the last.
pub open spec fn select_up(selected: int, len: int) -> int {
    if selected == 0 { len - 1 } else { selected - 1 }
}

/// The row selected after `down` in a list of `len` rows: the one below,
/// wrapping from the last to the first.
pub open spec fn select_down(selected: int, len: int) -> int {
    (selected + 1) % len
}

/// In a non-empty list, `down` undoes `up` and `up` undoes `down`.
pub proof fn lemma_up_down_inverse(selected: int, len: int)
    requires
        0 <= selected < len,
    ensures
        select_down(select_up(selected, len), len) == selected,
        select_up(select_down(selected, len), len) == selected,
        0 <= select_up(selected, len) < len,
        0 <= select_down(selected, len) < len,
{
    if selected + 1 < len {
        vstd::arithmetic::div_mod::lemma_small_mod((selected + 1) as nat, len as nat);
    } else {
        vstd::arithmetic::div_mod::lemma_mod_self_0(len);
    }
    if selected == 0 {
        vstd::arithmetic::div_mod::lemma_mod_self_0(len);
    } else {
        vstd::arithmetic::div_mod::lemma_small_mod(selected as nat, len as nat);
    }
}

/// In a non-empty list, `down` selects the next row, wrapping from the last
/// row to the first, and `up` selects the previous row, wrapping from the
/// first row to the last.
pub proof fn lemma_selection_moves_by_one(selected: int, len: int)
    requires
        0 <= selected < len,
    ensures
        selected + 1 < len ==> select_down(selected, len) == selected + 1,
        selected == len - 1 ==> select_down(selected, len) == 0,
        selected > 0 ==> select_up(selected, len) == selected - 1,
        selected == 0 ==> select_up(selected, len) == len - 1,
{
    lemma_up_down_inverse(selected, len);
    if selected + 1 < len {
        vstd::arithmetic::div_mod::lemma_small_mod((selected + 1) as nat, len as nat);
    } else {
        vstd::arithmetic::div_mod::lemma_mod_self_0(len);
    }
}

/// The row selected after pressing `down` `k` times from row `start`.
pub open spec fn after_downs(start: int, len: int, k: nat) -> int
    decreases k,
{
    if k == 0 {
        start
    } else {
        select_down(after_downs(start, len, (k - 1) as nat), len)
    }
}

/// The row selected after pressing `up` `k` times from row `start`.
pub open spec fn after_ups(start: int, len: int, k: nat) -> int
    decreases k,
{
    if k == 0 {
        start
    } else {
        select_up(after_ups(start, len, (k - 1) as nat), len)
    }
}

/// Every row of a non-empty list is reachable: pressing `down` `k` times from
/// the first row selects row `k`, and pressing `up` `k + 1` times from the
/// first row selects row `len - 1 - k`.
pub proof fn lemma_every_row_reachable(len: int, k: nat)
    requires
        0 <= k < len,
    ensures
        after_downs(0, len, k) == k,
        after_ups(0, len, k + 1) == len - 1 - k,
    decreases k,
{
    if k == 0 {
        lemma_selection_moves_by_one(0, len);
        assert(after_ups(0, len, 1) == select_up(after_ups(0, len, 0), len));
    } else {
        lemma_every_row_reachable(len, (k - 1) as nat);
        lemma_selection_moves_by_one(k - 1, len);
        lemma_selection_moves_by_one(len - k, len);
        assert(after_ups(0, len, k + 1) == select_up(after_ups(0, len, k), len));
    }
}

/// Typing a character appends exactly that character to the text, whatever
/// the character.
pub proof fn lemma_typing_appends(buf: Seq<char>, c: char)
    ensures
        edited(buf, Key::Char(c)).len() == buf.len() + 1,
        edited(buf, Key::Char(c)).last() == c,
        edited(buf, Key::Char(c)).drop_last() == buf,
        forall|i: int| 0 <= i < buf.len() ==> edited(buf, Key::Char(c))[i] == buf[i],
{
    assert(buf.push(c).drop_last() =~= buf);
}

/// Backspace removes exactly the last character, and does nothing to empty
/// text; keys other than characters and backspace leave the text alone.
pub proof fn lemma_backspace_removes_last(buf: Seq<char>)
    ensures
        buf.len() == 0 ==> edited(buf, Key::Backspace) == buf,
        buf.len() > 0 ==> edited(buf, Key::Backspace).len() == buf.len() - 1,
        buf.len() > 0 ==> edited(buf, Key::Backspace).push(buf.last()) == buf,
        edited(buf, Key::Enter) == buf,
        edited(buf, Key::Esc) == buf,
        edited(buf, Key::Up) == buf,
        edited(buf, Key::Down) == buf,
        edited(buf, Key::Other) == buf,
{
    if buf.len() > 0 {
        assert(buf.drop_last().push(buf.last()) =~= buf);
    }
}

impl PwListState {
    /// The state the screen starts in: first row selected, passwords hidden.
    pub fn new() -> (res: PwListState)
        ensures
            res.selected == 0,
            !res.reveal,
    {
        PwListState { selected: 0, reveal: false }
    }

    /// The selection points at a row, or at 0 in an empty list.
    pub open spec fn wf(self, len: nat) -> bool {
        self.selected < len || self.selected == 0
    }
}

impl AddSiteForm {
    /// The dialogue before its first answer.
    pub fn new() -> (res: AddSiteForm)
        ensures
            res.stage == AddSitePrompt::SiteName,
            res.site@.len() == 0,
            res.username@.len() == 0,
            res.password@.len() == 0,
    {
        AddSiteForm { stage: AddSitePrompt::SiteName, site: String::new(), username: String::new(), password: String::new() }
    }
}
/// One row of the password table: its number, whether it is the selected
/// row, and the texts of its columns.
pub struct ListRow {
    pub id: usize,
    pub highlighted: bool,
    pub site: String,
    pub username: String,
    pub password: String,
    pub created: Date,
    pub last_updated: Date,
}

/// The password manager's state between screens. Its fields are private: the
/// page changes only through the screens' decisions, and the list is unlocked
/// only through a passed login check and the loading of the database.
pub struct PasswordManager {
    page: Page,
    db: DatabaseManager,
    db_key: String,
    authenticated: bool,
    loading: bool,
    login_prompt: LoginPrompt,
    /// The stored login hash and the password that passed the check against
    /// it at the last successful login.
    unlocked_by: Ghost<(Seq<char>, Seq<char>)>,
}

/// What a password manager holds, as contracts speak of it.
pub struct ManagerView {
    pub page: Page,
    pub db: DatabaseManager,
    pub db_key: Seq<char>,
    /// The password list is unlocked and its entries loaded.
    pub authenticated: bool,
    /// A login passed and the database is being loaded.
    pub loading: bool,
    pub login_prompt: LoginPrompt,
    pub unlocked_by: (Seq<char>, Seq<char>),
}

impl View for PasswordManager {
    type V = ManagerView;

    closed spec fn view(&self) -> ManagerView {
        ManagerView {
            page: self.page,
            db: self.db,
            db_key: self.db_key@,
            authenticated: self.authenticated,
            loading: self.loading,
            login_prompt: self.login_prompt,
            unlocked_by: self.unlocked_by@,
        }
    }
}

/// Password `pwd` passed the login check against the stored hash
/// `login_key`, and `db_key` is the database key derived from it.
pub open spec fn unlocked(login_key: Seq<char>, pwd: Seq<char>, db_key: Seq<char>) -> bool {
    &&& argon2_verdict(login_key, pwd) == Some(true)
    &&& db_key == argon2_encoded(pwd, DB_KEY_SALT@)
    &&& utf8_len(db_key) >= 32
}

impl ManagerView {
    /// The list is unlocked (or being loaded) only by a passed login, whose
    /// password the database key was derived from.
    pub open spec fn unlock_justified(self) -> bool {
        (self.authenticated || self.loading) ==> unlocked(self.unlocked_by.0, self.unlocked_by.1, self.db_key)
    }

    /// Everything but the page stays as it was.
    pub open spec fn same_but_page(self, other: ManagerView) -> bool {
        &&& self.db == other.db
        &&& self.db_key == other.db_key
        &&& self.authenticated == other.authenticated
        &&& self.loading == other.loading
        &&& self.login_prompt == other.login_prompt
        &&& self.unlocked_by == other.unlocked_by
    }

    /// Everything but the page and the loaded entries stays as it was.
    pub open spec fn same_but_page_and_entries(self, other: ManagerView) -> bool {
        &&& self.db.key_file == other.db.key_file
        &&& self.db.db_file == other.db.db_file
        &&& self.db_key == other.db_key
        &&& self.authenticated == other.authenticated
        &&& self.loading == other.loading
        &&& self.login_prompt == other.login_prompt
        &&& self.unlocked_by == other.unlocked_by
    }
}

/// A text buffer after one key press of a text prompt.
pub open spec fn edited(buf: Seq<char>, key: Key) -> Seq<char> {
    match key {
        Key::Backspace => if buf.len() == 0 { buf } else { buf.drop_last() },
        Key::Char(c) => buf.push(c),
        _ => buf,
    }
}

/// Typing a character and then deleting it leaves the text as it was.
pub proof fn lemma_backspace_undoes_char(buf: Seq<char>, c: char)
    ensures
        edited(edited(buf, Key::Char(c)), Key::Backspace) == buf,
{
    assert(buf.push(c).drop_last() =~= buf);
}

/// Appends a character to a string (`String::push`).
#[verifier::external_body]
fn string_push(s: &mut String, c: char)
    ensures
        final(s)@ == old(s)@.push(c),
{
    s.push(c)
}

/// Removes the last character of a string (`String::pop`): `None`, with the
/// string unchanged, when it is empty.
#[verifier::external_body]
fn string_pop(s: &mut String) -> (res: Option<char>)
    ensures
        old(s)@.len() == 0 ==> res is None && final(s)@ == old(s)@,
        old(s)@.len() > 0 ==> res == Some(old(s)@.last()) && final(s)@ == old(s)@.drop_last(),
{
    s.pop()
}

/// How the manager moves from `pre` to `post` on the login check's answer
/// `verdict` for password `pwd` against the key file's contents `stored`.
pub open spec fn login_handled(
    pre: ManagerView,
    post: ManagerView,
    pwd: Seq<char>,
    stored: Option<KeyPair>,
    verdict: Result<bool, LoginError>,
    res: Result<LoginOutcome, LoginError>,
) -> bool {
    &&& post.page == pre.page
    &&& post.db == pre.db
    &&& match verdict {
        Err(e) => res == Err::<LoginOutcome, LoginError>(e) && post == pre,
        Ok(false) => res == Ok::<LoginOutcome, LoginError>(LoginOutcome::Rejected)
            && post == ManagerView { login_prompt: LoginPrompt::IncorrectPassword, ..pre },
        Ok(true) => res == Ok::<LoginOutcome, LoginError>(LoginOutcome::Accepted)
            && !post.authenticated
            && post.loading
            && post.login_prompt == pre.login_prompt
            && post.db_key == argon2_encoded(pwd, DB_KEY_SALT@)
            && (stored matches Some(kp) && post.unlocked_by == (kp.login_key@, pwd)),
    }
}

impl PasswordManager {
    #[verifier::type_invariant]
    spec fn inv(self) -> bool {
        &&& self@.unlock_justified()
        &&& !(self.authenticated && self.loading)
    }

    /// Moves the storage out, leaving an empty one in its place, so that it
    /// can be changed and put back.
    fn take_db(&mut self) -> (res: DatabaseManager)
        ensures
            res == old(self)@.db,
            final(self)@ == (ManagerView { db: final(self)@.db, ..old(self)@ }),
    {
        proof {
            use_type_invariant(&*self);
        }
        let mut db = DatabaseManager::new(String::new());
        std::mem::swap(&mut db, &mut self.db);
        db
    }

    /// A manager over `db` that starts on the first-use screen, locked.
    pub fn new(db: DatabaseManager) -> (res: PasswordManager)
        ensures
            res@.page == Page::Initialize,
            res@.db == db,
            res@.db_key.len() == 0,
            !res@.authenticated,
            !res@.loading,
            res@.login_prompt == LoginPrompt::EnterPassword,
    {
        PasswordManager {
            page: Page::Initialize,
            db,
            db_key: String::new(),
            authenticated: false,
            loading: false,
            login_prompt: LoginPrompt::EnterPassword,
            unlocked_by: Ghost((Seq::empty(), Seq::empty())),
        }
    }

    /// The page the vault is on.
    pub fn page(&self) -> (res: Page)
        ensures
            res == self@.page,
    {
        self.page
    }

    /// The vault's storage and loaded entries.
    pub fn db(&self) -> (res: &DatabaseManager)
        ensures
            *res == self@.db,
    {
        &self.db
    }

    /// The database key derived at the last successful login (empty before).
    pub fn db_key(&self) -> (res: &String)
        ensures
            res@ == self@.db_key,
    {
        &self.db_key
    }

    /// Whether the password list is unlocked.
    pub fn authenticated(&self) -> (res: bool)
        ensures
            res == self@.authenticated,
    {
        self.authenticated
    }

    /// Whether a login passed and the database is still to be loaded.
    pub fn loading(&self) -> (res: bool)
        ensures
            res == self@.loading,
    {
        self.loading
    }

    /// The prompt the login will show.
    pub fn login_prompt(&self) -> (res: LoginPrompt)
        ensures
            res == self@.login_prompt,
    {
        self.login_prompt
    }

    /// Decides what the vault does on its current page. Going home locks the
    /// list and resets the login prompt. The list is shown only when it is
    /// unlocked, and then a login check passed for the password from which
    /// the database key was derived. The vault stops exactly on `Quit`.
    pub fn show(&mut self) -> (res: ShowAction)
        ensures
            final(self)@.page == old(self)@.page,
            final(self)@.db == old(self)@.db,
            final(self)@.db_key == old(self)@.db_key,
            final(self)@.unlocked_by == old(self)@.unlocked_by,
            old(self)@.page == Page::Home ==> !final(self)@.authenticated && !final(self)@.loading
                && final(self)@.login_prompt == LoginPrompt::EnterPassword,
            old(self)@.page != Page::Home ==> final(self)@ == old(self)@,
            res == match old(self)@.page {
                Page::Initialize => ShowAction::InitScreen,
                Page::Home => ShowAction::HomeScreen,
                Page::Quit => ShowAction::Exit,
                Page::PasswordList => if old(self)@.authenticated {
                    ShowAction::PasswordListScreen
                } else {
                    ShowAction::AskLoginPassword(old(self)@.login_prompt)
                },
            },
            (res == ShowAction::Exit) == (old(self)@.page == Page::Quit),
            res == ShowAction::PasswordListScreen ==> final(self)@.authenticated
                && unlocked(final(self)@.unlocked_by.0, final(self)@.unlocked_by.1, final(self)@.db_key),
    {
        proof {
            use_type_invariant(&*self);
        }
        match self.page {
            Page::Initialize => ShowAction::InitScreen,
            Page::Home => {
                self.authenticated = false;
                self.loading = false;
                self.login_prompt = LoginPrompt::EnterPassword;
                ShowAction::HomeScreen
            },
            Page::Quit => ShowAction::Exit,
            Page::PasswordList => {
                if self.authenticated {
                    ShowAction::PasswordListScreen
                } else {
                    ShowAction::AskLoginPassword(self.login_prompt)
                }
            },
        }
    }

    /// Handles the answer to the login prompt, checked against the key
    /// file's contents. A cancelled prompt goes home; otherwise the password
    /// is checked and the check's answer handled by `finish_login`.
    pub fn login_attempt(&mut self, answer: InputResult, stored: &Option<KeyPair>) -> (res: Result<LoginOutcome, LoginError>)
        requires
            utf8_len(answer.input@) <= 0xFFFF_FFFF,
        ensures
            answer.page == Page::Home ==> res == Ok::<LoginOutcome, LoginError>(LoginOutcome::Cancelled)
                && final(self)@.page == Page::Home
                && final(self)@.same_but_page(old(self)@),
            answer.page != Page::Home ==> login_handled(
                old(self)@,
                final(self)@,
                answer.input@,
                *stored,
                login_check(*stored, answer.input@),
                res,
            ),
    {
        proof {
            use_type_invariant(&*self);
        }
        if answer.page == Page::Home {
            self.page = Page::Home;
            return Ok(LoginOutcome::Cancelled);
        }
        let verdict = self.db.verify_login_pw(&answer.input, stored);
        self.finish_login(answer, stored, verdict)
    }

    /// Handles the answer `verdict` of the login check of the password
    /// `answer` against the key file's contents: an error is passed on, a
    /// mismatch makes the prompt say so, a match derives the database key from
    /// the password and starts loading the database.
    pub fn finish_login(&mut self, answer: InputResult, stored: &Option<KeyPair>, verdict: Result<bool, LoginError>) -> (res: Result<LoginOutcome, LoginError>)
        requires
            utf8_len(answer.input@) <= 0xFFFF_FFFF,
            verdict == login_check(*stored, answer.input@),
        ensures
            login_handled(old(self)@, final(self)@, answer.input@, *stored, verdict, res),
    {
        proof {
            use_type_invariant(&*self);
        }
        match verdict {
            Err(e) => Err(e),
            Ok(false) => {
                self.login_prompt = LoginPrompt::IncorrectPassword;
                Ok(LoginOutcome::Rejected)
            },
            Ok(true) => {
                self.authenticated = false;
                self.loading = false;
                let key = self.db.get_db_key(&answer.input);
                self.db_key = key;
                let ghost login_key = match stored {
                    Some(kp) => kp.login_key@,
                    None => Seq::empty(),
                };
                self.unlocked_by = Ghost((login_key, answer.input@));
                self.loading = true;
                Ok(LoginOutcome::Accepted)
            },
        }
    }

    /// Opens the database file's bytes with the key derived at login. An
    /// empty file means no entries: the list is unlocked with none. Otherwise
    /// the decrypted JSON text is returned, for the caller to turn into
    /// entries and hand to `finish_loading`.
    pub fn load_database(&mut self, raw: &Vec<u8>, stored: &Option<KeyPair>) -> (res: Result<Option<Vec<u8>>, StoreError>)
        requires
            old(self)@.loading,
        ensures
            match res {
                Ok(Some(p)) => opened_database(old(self)@.db_key, raw@, *stored) == Ok::<Option<Seq<u8>>, StoreError>(Some(p@)),
                Ok(None) => opened_database(old(self)@.db_key, raw@, *stored) == Ok::<Option<Seq<u8>>, StoreError>(None),
                Err(e) => opened_database(old(self)@.db_key, raw@, *stored) == Err::<Option<Seq<u8>>, StoreError>(e),
            },
            res matches Ok(None) ==> final(self)@.authenticated && !final(self)@.loading
                && final(self)@.db.pw_vec@.len() == 0,
            !(res matches Ok(None)) ==> final(self)@.loading && !final(self)@.authenticated
                && final(self)@.db.pw_vec@ == old(self)@.db.pw_vec@,
            final(self)@.db.key_file == old(self)@.db.key_file,
            final(self)@.db.db_file == old(self)@.db.db_file,
            final(self)@.page == old(self)@.page,
            final(self)@.db_key == old(self)@.db_key,
            final(self)@.login_prompt == old(self)@.login_prompt,
            final(self)@.unlocked_by == old(self)@.unlocked_by,
    {
        proof {
            use_type_invariant(&*self);
        }
        let mut db = self.take_db();
        let opened = db.populate_data(&self.db_key, raw, stored);
        self.db = db;
        if let Ok(None) = opened {
            self.loading = false;
            self.authenticated = true;
        }
        opened
    }

    /// Takes the entries read from the decrypted database and unlocks the
    /// list.
    pub fn finish_loading(&mut self, entries: Vec<PasswordEntry>)
        requires
            old(self)@.loading,
        ensures
            final(self)@.db.pw_vec == entries,
            final(self)@.authenticated,
            !final(self)@.loading,
            final(self)@.db.key_file == old(self)@.db.key_file,
            final(self)@.db.db_file == old(self)@.db.db_file,
            final(self)@.page == old(self)@.page,
            final(self)@.db_key == old(self)@.db_key,
            final(self)@.login_prompt == old(self)@.login_prompt,
            final(self)@.unlocked_by == old(self)@.unlocked_by,
    {
        proof {
            use_type_invariant(&*self);
        }
        self.db.pw_vec = entries;
        self.loading = false;
        self.authenticated = true;
    }

    /// Seals the database's JSON text with the key derived at login, under a
    /// fresh random nonce: the encrypted bytes to write and the key pair, with
    /// that nonce, to store. Opening the written bytes with that key pair and
    /// the same key gives the JSON back.
    pub fn save_entries(&self, json: String, stored: Option<KeyPair>) -> (res: Result<(Vec<u8>, KeyPair), StoreError>)
        requires
            self@.authenticated,
            utf8_len(json@) <= aes_gcm_max_plaintext(),
        ensures
            res is Err <==> stored is None,
            res matches Err(e) ==> e == StoreError::MissingKeys,
            res matches Ok((ct, kp)) ==> stored matches Some(old_kp) && kp.login_key == old_kp.login_key
                && ct@ == aes256gcm_sealed(cipher_key_of(self@.db_key), kp.nonce@, encode_utf8(json@)),
            res matches Ok((ct, kp)) ==> opened_database(self@.db_key, ct@, Some(kp)) == Ok::<Option<Seq<u8>>, StoreError>(Some(encode_utf8(json@))),
    {
        proof {
            use_type_invariant(self);
        }
        self.db.save_pw_vec(&self.db_key, json, stored)
    }

    /// The home screen's answer to a key: `q` quits, `p` opens the password
    /// list, any other key is ignored. The page becomes the one answered.
    pub fn home_screen(&mut self, key: Key) -> (res: Option<Page>)
        ensures
            res == match key {
                Key::Char('q') => Some(Page::Quit),
                Key::Char('p') => Some(Page::PasswordList),
                _ => None::<Page>,
            },
            final(self)@.page == match res {
                Some(p) => p,
                None => old(self)@.page,
            },
            final(self)@.same_but_page(old(self)@),
    {
        proof {
            use_type_invariant(&*self);
        }
        let res = match key {
            Key::Char('q') => Some(Page::Quit),
            Key::Char('p') => Some(Page::PasswordList),
            _ => None,
        };
        if let Some(p) = res {
            self.page = p;
        }
        res
    }

    /// What must be done to the files before use, given which exist and
    /// whether the key file is empty.
    pub fn is_initialized(keys_exists: bool, data_exists: bool, keys_blank: bool) -> (res: StorageSetup)
        ensures
            res == if !keys_exists || !data_exists {
                StorageSetup::CreateBothFiles
            } else if keys_blank {
                StorageSetup::ResetDataFile
            } else {
                StorageSetup::Ready
            },
    {
        if !keys_exists || !data_exists {
            return StorageSetup::CreateBothFiles;
        }
        if keys_blank {
            return StorageSetup::ResetDataFile;
        }
        StorageSetup::Ready
    }

    /// Entering the first-use screen after the files were set up: a vault
    /// that is already initialized goes home at once; otherwise the screen
    /// is shown and waits for keys.
    pub fn start_init_screen(&mut self, setup: StorageSetup) -> (res: InitAction)
        ensures
            setup == StorageSetup::Ready ==> res == InitAction::Leave(Page::Home) && final(self)@.page == Page::Home,
            setup != StorageSetup::Ready ==> res == InitAction::Stay && final(self)@.page == old(self)@.page,
            final(self)@.same_but_page(old(self)@),
    {
        proof {
            use_type_invariant(&*self);
        }
        if setup == StorageSetup::Ready {
            self.page = Page::Home;
            InitAction::Leave(Page::Home)
        } else {
            InitAction::Stay
        }
    }

    /// The first-use screen's answer to a key: `q` quits, `enter` asks for
    /// the new login password, any other key is ignored.
    pub fn init_screen(&mut self, key: Key) -> (res: InitAction)
        ensures
            res == match key {
                Key::Char('q') => InitAction::Leave(Page::Quit),
                Key::Enter => InitAction::AskNewLoginPassword,
                _ => InitAction::Stay,
            },
            final(self)@.page == match res {
                InitAction::Leave(p) => p,
                _ => old(self)@.page,
            },
            final(self)@.same_but_page(old(self)@),
    {
        proof {
            use_type_invariant(&*self);
        }
        match key {
            Key::Char('q') => {
                self.page = Page::Quit;
                InitAction::Leave(Page::Quit)
            },
            Key::Enter => InitAction::AskNewLoginPassword,
            _ => InitAction::Stay,
        }
    }

    /// Handles the new login password: one shorter than 5 bytes is refused
    /// and the first-use screen shown again; otherwise the key pair to store
    /// is returned and the vault goes home. The stored password then passes
    /// the login check. The page becomes the one returned.
    pub fn create_login(&mut self, answer: &InputResult, existing: Option<KeyPair>) -> (res: (Page, Option<KeyPair>))
        requires
            utf8_len(answer.input@) <= 0xFFFF_FFFF,
        ensures
            final(self)@.page == res.0,
            final(self)@.same_but_page(old(self)@),
            utf8_len(answer.input@) < 5 ==> res.0 == Page::Initialize && res.1 is None,
            utf8_len(answer.input@) >= 5 ==> res.0 == Page::Home && (res.1 matches Some(kp)
                && kp.login_key@ == argon2_encoded(answer.input@, LOGIN_SALT@)
                && kp.nonce@ == match existing {
                    Some(e) => e.nonce@,
                    None => Seq::new(12, |i: int| 0u8),
                }
                && login_check(Some(kp), answer.input@) == Ok::<bool, LoginError>(true)),
    {
        proof {
            use_type_invariant(&*self);
        }
        if answer.input.as_str().as_bytes().len() < 5 {
            self.page = Page::Initialize;
            return (Page::Initialize, None);
        }
        let kp = self.db.save_login_pw(answer.input.as_str(), existing);
        self.page = Page::Home;
        (Page::Home, Some(kp))
    }

    /// One key press in a text prompt editing `input`: `esc` cancels (going
    /// home with no text), `enter` hands back the text unless it is empty,
    /// `backspace` deletes the last character and a character key types it.
    pub fn user_input(&self, input: &mut String, key: Key) -> (res: Option<InputResult>)
        ensures
            final(input)@ == edited(old(input)@, key),
            key matches Key::Char(c) ==> final(input)@.len() == old(input)@.len() + 1
                && final(input)@.last() == c && final(input)@.drop_last() == old(input)@,
            key == Key::Backspace && old(input)@.len() > 0 ==> final(input)@.len() == old(input)@.len() - 1
                && final(input)@.push(old(input)@.last()) == old(input)@,
            !(key is Char) && !(key == Key::Backspace && old(input)@.len() > 0) ==> final(input)@ == old(input)@,
            key == Key::Esc ==> (res matches Some(r) && r.page == Page::Home && r.input@.len() == 0),
            key == Key::Enter && old(input)@.len() == 0 ==> res is None,
            key == Key::Enter && old(input)@.len() > 0 ==> (res matches Some(r) && r.page == Page::PasswordList
                && r.input@ == old(input)@),
            key != Key::Esc && key != Key::Enter ==> res is None,
    {
        match key {
            Key::Esc => Some(InputResult { page: Page::Home, input: String::new() }),
            Key::Enter => {
                if input.as_str().is_empty() {
                    None
                } else {
                    Some(InputResult { page: Page::PasswordList, input: input.clone() })
                }
            },
            Key::Backspace => {
                let _ = string_pop(input);
                proof {
                    lemma_backspace_removes_last(old(input)@);
                }
                None
            },
            Key::Char(c) => {
                string_push(input, c);
                proof {
                    lemma_typing_appends(old(input)@, c);
                }
                None
            },
            _ => None,
        }
    }

    /// The password-list screen's answer to a key, over the loaded entries:
    /// `q` quits, `h` goes home, `a` adds a site, `d` and `e` ask to delete
    /// or re-password the selected entry, `c` copies its password, `up` and
    /// `down` move the selection with wrap-around, and `enter` toggles
    /// revealing the selected password. Moving, deleting and editing hide
    /// the password again; on an empty list they do nothing else. Leaving
    /// sets the page.
    pub fn pw_list_screen(&mut self, state: &mut PwListState, key: Key) -> (res: PwListAction)
        requires
            old(state).wf(old(self)@.db.pw_vec@.len()),
        ensures
            final(state).wf(final(self)@.db.pw_vec@.len()),
            final(self)@.same_but_page(old(self)@),
            final(self)@.page == match res {
                PwListAction::Leave(p) => p,
                _ => old(self)@.page,
            },
            key == Key::Down && old(self)@.db.pw_vec@.len() > 0 ==> final(state).selected == (
                if old(state).selected + 1 < old(self)@.db.pw_vec@.len() { old(state).selected + 1 } else { 0 }),
            key == Key::Up && old(self)@.db.pw_vec@.len() > 0 ==> final(state).selected == (
                if old(state).selected > 0 { old(state).selected - 1 } else { old(self)@.db.pw_vec@.len() - 1 }),
            ({
                let entries = old(self)@.db.pw_vec@;
                let len = entries.len() as int;
                let sel = old(state).selected as int;
                match key {
                    Key::Char('q') => res == PwListAction::Leave(Page::Quit) && *final(state) == *old(state),
                    Key::Char('h') => res == PwListAction::Leave(Page::Home) && *final(state) == *old(state),
                    Key::Char('a') => res == PwListAction::AddSite && *final(state) == *old(state),
                    Key::Char('d') => !final(state).reveal && final(state).selected == sel
                        && (if len == 0 { res == PwListAction::Stay } else { res == PwListAction::ConfirmDelete }),
                    Key::Char('e') => !final(state).reveal && final(state).selected == sel
                        && (if len == 0 { res == PwListAction::Stay } else { res == PwListAction::AskNewPassword }),
                    Key::Char('c') => *final(state) == *old(state)
                        && (if len == 0 { res == PwListAction::Stay } else {
                            res matches PwListAction::CopyPassword(p) && p == entries[sel].password
                        }),
                    Key::Up => res == PwListAction::Stay && !final(state).reveal
                        && final(state).selected == (if len == 0 { sel } else { select_up(sel, len) }),
                    Key::Down => res == PwListAction::Stay && !final(state).reveal
                        && final(state).selected == (if len == 0 { sel } else { select_down(sel, len) }),
                    Key::Enter => res == PwListAction::Stay && final(state).selected == sel
                        && final(state).reveal == !old(state).reveal,
                    _ => res == PwListAction::Stay && *final(state) == *old(state),
                }
            }),
    {
        proof {
            use_type_invariant(&*self);
        }
        let len = self.db.pw_vec.len();
        match key {
            Key::Char('q') => {
                self.page = Page::Quit;
                PwListAction::Leave(Page::Quit)
            },
            Key::Char('h') => {
                self.page = Page::Home;
                PwListAction::Leave(Page::Home)
            },
            Key::Char('a') => PwListAction::AddSite,
            Key::Char('d') => {
                state.reveal = false;
                if len == 0 {
                    PwListAction::Stay
                } else {
                    PwListAction::ConfirmDelete
                }
            },
            Key::Char('e') => {
                state.reveal = false;
                if len == 0 {
                    PwListAction::Stay
                } else {
                    PwListAction::AskNewPassword
                }
            },
            Key::Char('c') => {
                if len == 0 {
                    PwListAction::Stay
                } else {
                    PwListAction::CopyPassword(self.db.pw_vec[state.selected].password.clone())
                }
            },
            Key::Up => {
                state.reveal = false;
                if len > 0 {
                    let prev = state.selected;
                    proof {
                        lemma_selection_moves_by_one(prev as int, len as int);
                    }
                    state.selected = if prev == 0 { len - 1 } else { prev - 1 };
                }
                PwListAction::Stay
            },
            Key::Down => {
                state.reveal = false;
                if len > 0 {
                    let prev = state.selected;
                    proof {
                        lemma_selection_moves_by_one(prev as int, len as int);
                    }
                    state.selected = (prev + 1) % len;
                }
                PwListAction::Stay
            },
            Key::Enter => {
                state.reveal = !state.reveal;
                PwListAction::Stay
            },
            _ => PwListAction::Stay,
        }
    }

    /// The rows of the password table: one per loaded entry, in order,
    /// numbered from 0, the selected one highlighted. Every password is
    /// masked except the selected row's when passwords are revealed, so at
    /// most one password is shown in clear.
    pub fn list_rows(&self, state: &PwListState) -> (rows: Vec<ListRow>)
        ensures
            rows@.len() == self@.db.pw_vec@.len(),
            forall|i: int| #![trigger rows@[i]] 0 <= i < rows@.len() ==> {
                let e = self@.db.pw_vec@[i];
                &&& rows@[i].id == i
                &&& rows@[i].highlighted == (i == state.selected)
                &&& rows@[i].site@ == e.site@
                &&& rows@[i].username@ == e.username@
                &&& rows@[i].password@ == (if i == state.selected && state.reveal { e.password@ } else { masked(e.password@) })
                &&& rows@[i].created == e.created
                &&& rows@[i].last_updated == e.last_updated
            },
            forall|i: int| #![trigger rows@[i]] 0 <= i < rows@.len()
                && rows@[i].password@ != masked(self@.db.pw_vec@[i].password@)
                ==> i == state.selected && state.reveal,
    {
        let entries = &self.db.pw_vec;
        let n = entries.len();
        let mut rows: Vec<ListRow> = Vec::new();
        let mut i: usize = 0;
        while i < n
            invariant
                n == entries@.len(),
                entries == self.db.pw_vec,
                i <= n,
                rows@.len() == i,
                forall|k: int| #![trigger rows@[k]] 0 <= k < i ==> {
                    let e = entries@[k];
                    &&& rows@[k].id == k
                    &&& rows@[k].highlighted == (k == state.selected)
                    &&& rows@[k].site@ == e.site@
                    &&& rows@[k].username@ == e.username@
                    &&& rows@[k].password@ == (if k == state.selected && state.reveal { e.password@ } else { masked(e.password@) })
                    &&& rows@[k].created == e.created
                    &&& rows@[k].last_updated == e.last_updated
                },
            decreases n - i,
        {
            let e = &entries[i];
            let is_selected = i == state.selected;
            let row = ListRow {
                id: i,
                highlighted: is_selected,
                site: e.site.clone(),
                username: e.username.clone(),
                password: e.shown_password(is_selected, state.reveal),
                created: e.created,
                last_updated: e.last_updated,
            };
            rows.push(row);
            i = i + 1;
        }
        rows
    }

    /// Handles the answer to the delete confirmation: only the exact text
    /// `DELETE` deletes the selected entry, after which the first row is
    /// selected. Returns whether an entry was deleted.
    pub fn confirm_delete(&mut self, state: &mut PwListState, answer: &InputResult) -> (res: bool)
        requires
            old(self)@.db.pw_vec@.len() > 0,
            old(state).wf(old(self)@.db.pw_vec@.len()),
        ensures
            res == (answer.input@ == "DELETE"@),
            res ==> final(self)@.db.pw_vec@ == old(self)@.db.pw_vec@.remove(old(state).selected as int)
                && final(state).selected == 0,
            !res ==> final(self)@.db.pw_vec@ == old(self)@.db.pw_vec@ && final(state).selected == old(state).selected,
            final(state).reveal == old(state).reveal,
            final(state).wf(final(self)@.db.pw_vec@.len()),
            final(self)@.page == old(self)@.page,
            final(self)@.same_but_page_and_entries(old(self)@),
    {
        proof {
            use_type_invariant(&*self);
        }
        let target = "DELETE".to_owned();
        if answer.input != target {
            return false;
        }
        let mut db = self.take_db();
        db.delete_site(state.selected);
        self.db = db;
        state.selected = 0;
        true
    }

    /// Handles the answer to the new-password prompt: an empty answer
    /// changes nothing, any other becomes the selected entry's password,
    /// dated today. Returns whether the password was changed.
    pub fn change_password(&mut self, state: &PwListState, answer: InputResult) -> (res: bool)
        requires
            old(self)@.db.pw_vec@.len() > 0,
            state.wf(old(self)@.db.pw_vec@.len()),
        ensures
            res == (answer.input@.len() > 0),
            !res ==> final(self)@.db.pw_vec@ == old(self)@.db.pw_vec@,
            final(self)@.db.pw_vec@.len() == old(self)@.db.pw_vec@.len(),
            forall|j: int| 0 <= j < old(self)@.db.pw_vec@.len() && j != state.selected
                ==> #[trigger] final(self)@.db.pw_vec@[j] == old(self)@.db.pw_vec@[j],
            res ==> final(self)@.db.pw_vec@[state.selected as int].password == answer.input
                && final(self)@.db.pw_vec@[state.selected as int].last_updated.is_valid()
                && final(self)@.db.pw_vec@[state.selected as int].site == old(self)@.db.pw_vec@[state.selected as int].site
                && final(self)@.db.pw_vec@[state.selected as int].username == old(self)@.db.pw_vec@[state.selected as int].username
                && final(self)@.db.pw_vec@[state.selected as int].created == old(self)@.db.pw_vec@[state.selected as int].created,
            final(self)@.page == old(self)@.page,
            final(self)@.same_but_page_and_entries(old(self)@),
    {
        proof {
            use_type_invariant(&*self);
        }
        if answer.input.as_str().is_empty() {
            return false;
        }
        let mut db = self.take_db();
        db.update_password(state.selected, answer.input);
        self.db = db;
        true
    }

    /// Handles one answer of the add-site dialogue. An empty answer cancels
    /// it and goes home. The site name, user name and password are asked in
    /// turn, then the password again: when the two match the entry is added
    /// and the list shown; when they differ both are asked again. When the
    /// dialogue is over the page becomes the one it ends on.
    pub fn add_site(&mut self, form: &mut AddSiteForm, answer: InputResult) -> (res: AddSiteStep)
        ensures
            final(self)@.same_but_page_and_entries(old(self)@),
            final(self)@.page == match res {
                AddSiteStep::Done(p) => p,
                _ => old(self)@.page,
            },
            res != AddSiteStep::Done(Page::PasswordList) ==> final(self)@.db.pw_vec@ == old(self)@.db.pw_vec@,
            answer.input@.len() == 0 ==> res == AddSiteStep::Done(Page::Home) && *final(form) == *old(form),
            answer.input@.len() > 0 ==> match old(form).stage {
                AddSitePrompt::SiteName => res == AddSiteStep::Ask(AddSitePrompt::UserName)
                    && final(form).stage == AddSitePrompt::UserName
                    && final(form).site@ == answer.input@
                    && final(form).username@ == old(form).username@
                    && final(form).password@ == old(form).password@,
                AddSitePrompt::UserName => res == AddSiteStep::Ask(AddSitePrompt::Password)
                    && final(form).stage == AddSitePrompt::Password
                    && final(form).site@ == old(form).site@
                    && final(form).username@ == answer.input@
                    && final(form).password@ == old(form).password@,
                AddSitePrompt::Password => res == AddSiteStep::Ask(AddSitePrompt::ConfirmPassword)
                    && final(form).stage == AddSitePrompt::ConfirmPassword
                    && final(form).site@ == old(form).site@
                    && final(form).username@ == old(form).username@
                    && final(form).password@ == answer.input@,
                AddSitePrompt::ConfirmPassword => if answer.input@ == old(form).password@ {
                    res == AddSiteStep::Done(Page::PasswordList)
                        && final(self)@.db.pw_vec@.len() == old(self)@.db.pw_vec@.len() + 1
                        && final(self)@.db.pw_vec@.drop_last() == old(self)@.db.pw_vec@
                        && final(self)@.db.pw_vec@.last().site@ == old(form).site@
                        && final(self)@.db.pw_vec@.last().username@ == old(form).username@
                        && final(self)@.db.pw_vec@.last().password@ == old(form).password@
                        && final(self)@.db.pw_vec@.last().created.is_valid()
                        && final(self)@.db.pw_vec@.last().last_updated.is_valid()
                } else {
                    res == AddSiteStep::Ask(AddSitePrompt::Password)
                        && final(form).stage == AddSitePrompt::Password
                        && final(form).site@ == old(form).site@
                        && final(form).username@ == old(form).username@
                        && final(form).password@.len() == 0
                },
            },
    {
        proof {
            use_type_invariant(&*self);
        }
        if answer.input.as_str().is_empty() {
            self.page = Page::Home;
            return AddSiteStep::Done(Page::Home);
        }
        match form.stage {
            AddSitePrompt::SiteName => {
                form.site = answer.input;
                form.stage = AddSitePrompt::UserName;
                AddSiteStep::Ask(AddSitePrompt::UserName)
            },
            AddSitePrompt::UserName => {
                form.username = answer.input;
                form.stage = AddSitePrompt::Password;
                AddSiteStep::Ask(AddSitePrompt::Password)
            },
            AddSitePrompt::Password => {
                form.password = answer.input;
                form.stage = AddSitePrompt::ConfirmPassword;
                AddSiteStep::Ask(AddSitePrompt::ConfirmPassword)
            },
            AddSitePrompt::ConfirmPassword => {
                if answer.input == form.password {
                    let mut db = self.take_db();
                    db.add_pw(form.site.clone(), form.username.clone(), form.password.clone());
                    self.db = db;
                    self.page = Page::PasswordList;
                    AddSiteStep::Done(Page::PasswordList)
                } else {
                    form.password = String::new();
                    form.stage = AddSitePrompt::Password;
                    AddSiteStep::Ask(AddSitePrompt::Password)
                }
            },
        }
    }
}

} // verus!
