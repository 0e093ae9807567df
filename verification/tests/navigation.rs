use rusty_vault::clock::Date;
use rusty_vault::database::{DatabaseManager, KeyPair};
use rusty_vault::entry::PasswordEntry;
use rusty_vault::error::{LoginError, StoreError};
use rusty_vault::manager::{
    AddSiteForm, AddSitePrompt, AddSiteStep, InitAction, LoginOutcome, LoginPrompt, PasswordManager, PwListAction,
    PwListState, ShowAction, StorageSetup,
};
use rusty_vault::page::{InputResult, Key, Page};

const PASSWORD: &str = "opensesame";

fn entry(site: &str, pw: &str) -> PasswordEntry {
    let d = Date { year: 2023, month: 5, day: 6 };
    PasswordEntry::from_parts(site.to_string(), String::from("user"), pw.to_string(), d, d)
}

fn manager_with(sites: &[&str]) -> PasswordManager {
    let mut db = DatabaseManager::new(String::from("/cfg"));
    for s in sites {
        db.pw_vec.push(entry(s, "pw"));
    }
    PasswordManager::new(db)
}

fn answer(page: Page, text: &str) -> InputResult {
    InputResult { page, input: text.to_string() }
}

fn stored_keys(pm: &PasswordManager) -> Option<KeyPair> {
    Some(pm.db().save_login_pw(PASSWORD, None))
}

/// Walks from the first-use screen to the unlocked, empty password list.
fn unlocked_manager() -> (PasswordManager, Option<KeyPair>) {
    let mut pm = manager_with(&[]);
    let stored = stored_keys(&pm);
    pm.start_init_screen(StorageSetup::Ready);
    pm.home_screen(Key::Char('p'));
    assert_eq!(pm.login_attempt(answer(Page::PasswordList, PASSWORD), &stored), Ok(LoginOutcome::Accepted));
    assert_eq!(pm.load_database(&Vec::new(), &stored), Ok(None));
    (pm, stored)
}

#[test]
fn page_tab_positions() {
    assert_eq!(usize::from(Page::Home), 0);
    assert_eq!(usize::from(Page::PasswordList), 1);
    assert_eq!(usize::from(Page::Quit), 2);
    assert_eq!(usize::from(Page::Initialize), 3);
}

#[test]
fn new_manager_starts_locked_on_init() {
    let pm = manager_with(&[]);
    assert_eq!(pm.page(), Page::Initialize);
    assert!(!pm.authenticated());
    assert!(!pm.loading());
    assert_eq!(pm.login_prompt(), LoginPrompt::EnterPassword);
    assert!(pm.db_key().is_empty());
}

#[test]
fn show_picks_the_screen_for_the_page() {
    let mut pm = manager_with(&[]);
    assert_eq!(pm.show(), ShowAction::InitScreen);
    assert_eq!(pm.start_init_screen(StorageSetup::Ready), InitAction::Leave(Page::Home));
    assert_eq!(pm.show(), ShowAction::HomeScreen);
    assert_eq!(pm.home_screen(Key::Char('p')), Some(Page::PasswordList));
    assert_eq!(pm.show(), ShowAction::AskLoginPassword(LoginPrompt::EnterPassword));
    assert_eq!(pm.home_screen(Key::Char('q')), Some(Page::Quit));
    assert_eq!(pm.show(), ShowAction::Exit);
}

#[test]
fn initialized_vault_skips_the_first_use_screen() {
    let mut pm = manager_with(&[]);
    assert_eq!(pm.start_init_screen(StorageSetup::CreateBothFiles), InitAction::Stay);
    assert_eq!(pm.page(), Page::Initialize);
    assert_eq!(pm.start_init_screen(StorageSetup::ResetDataFile), InitAction::Stay);
    assert_eq!(pm.page(), Page::Initialize);
    assert_eq!(pm.start_init_screen(StorageSetup::Ready), InitAction::Leave(Page::Home));
    assert_eq!(pm.page(), Page::Home);
}

#[test]
fn unlocking_and_going_home_locks_again() {
    let (mut pm, stored) = unlocked_manager();
    assert!(pm.authenticated());
    assert_eq!(pm.db_key(), &pm.db().get_db_key(&String::from(PASSWORD)));
    assert_eq!(pm.show(), ShowAction::PasswordListScreen);
    let mut st = PwListState::new();
    assert!(matches!(pm.pw_list_screen(&mut st, Key::Char('h')), PwListAction::Leave(Page::Home)));
    assert_eq!(pm.show(), ShowAction::HomeScreen);
    assert!(!pm.authenticated());
    pm.home_screen(Key::Char('p'));
    assert_eq!(pm.show(), ShowAction::AskLoginPassword(LoginPrompt::EnterPassword));
    assert_eq!(pm.login_attempt(answer(Page::PasswordList, "nope"), &stored), Ok(LoginOutcome::Rejected));
    assert_eq!(pm.show(), ShowAction::AskLoginPassword(LoginPrompt::IncorrectPassword));
}

#[test]
fn login_attempts() {
    let mut pm = manager_with(&[]);
    pm.home_screen(Key::Char('p'));
    let stored = stored_keys(&pm);
    assert_eq!(pm.login_attempt(answer(Page::Home, ""), &stored), Ok(LoginOutcome::Cancelled));
    assert_eq!(pm.page(), Page::Home);
    pm.home_screen(Key::Char('p'));
    assert_eq!(pm.login_attempt(answer(Page::PasswordList, "opensesamf"), &stored), Ok(LoginOutcome::Rejected));
    assert_eq!(pm.login_prompt(), LoginPrompt::IncorrectPassword);
    assert!(!pm.authenticated() && !pm.loading());
    assert_eq!(pm.login_attempt(answer(Page::PasswordList, PASSWORD), &stored), Ok(LoginOutcome::Accepted));
    assert!(pm.loading());
    assert!(!pm.authenticated());
    assert_eq!(pm.show(), ShowAction::AskLoginPassword(LoginPrompt::IncorrectPassword));
    assert_eq!(pm.login_attempt(answer(Page::PasswordList, "x"), &None), Err(LoginError::MissingKeys));
}

#[test]
fn finish_login_on_each_verdict() {
    let mut pm = manager_with(&[]);
    let bad = Some(KeyPair { login_key: String::from("garbage"), nonce: [0u8; 12] });
    assert_eq!(
        pm.finish_login(answer(Page::PasswordList, "pw"), &bad, Err(LoginError::MalformedHash)),
        Err(LoginError::MalformedHash)
    );
    assert!(!pm.loading());
    let stored = stored_keys(&pm);
    assert_eq!(pm.finish_login(answer(Page::PasswordList, "pw"), &stored, Ok(false)), Ok(LoginOutcome::Rejected));
    assert_eq!(pm.login_prompt(), LoginPrompt::IncorrectPassword);
    assert_eq!(pm.finish_login(answer(Page::PasswordList, PASSWORD), &stored, Ok(true)), Ok(LoginOutcome::Accepted));
    assert!(pm.loading());
    assert!(pm.db_key().starts_with("$argon2i$v=19$m=4096,t=3,p=1$"));
    assert!(pm.db_key().len() >= 84);
}

#[test]
fn loading_a_saved_database_unlocks_with_its_entries() {
    let (mut pm, stored) = unlocked_manager();
    let json = String::from("[1,2,3]");
    let (ct, kp) = pm.save_entries(json.clone(), stored).unwrap();
    pm.home_screen(Key::Char('p'));
    let stored2 = Some(kp);
    assert_eq!(pm.login_attempt(answer(Page::PasswordList, PASSWORD), &stored2), Ok(LoginOutcome::Accepted));
    let opened = pm.load_database(&ct, &stored2).unwrap();
    assert_eq!(opened, Some(json.into_bytes()));
    assert!(pm.loading() && !pm.authenticated());
    pm.finish_loading(vec![entry("a", "b")]);
    assert!(pm.authenticated() && !pm.loading());
    assert_eq!(pm.db().pw_vec.len(), 1);
    assert_eq!(pm.show(), ShowAction::PasswordListScreen);
}

#[test]
fn loading_errors() {
    let (mut pm, stored) = unlocked_manager();
    let (ct, _) = pm.save_entries(String::from("[]"), stored.clone_pair()).unwrap();
    pm.home_screen(Key::Char('p'));
    pm.login_attempt(answer(Page::PasswordList, PASSWORD), &stored);
    assert_eq!(pm.load_database(&ct, &None), Err(StoreError::MissingKeys));
    let other = Some(KeyPair { login_key: String::new(), nonce: [1u8; 12] });
    assert_eq!(pm.load_database(&ct, &other), Err(StoreError::DecryptionFailed));
    assert!(!pm.authenticated());
    assert!(pm.save_entries(String::from("[]"), None).is_err());
}

trait ClonePair {
    fn clone_pair(&self) -> Option<KeyPair>;
}

impl ClonePair for Option<KeyPair> {
    fn clone_pair(&self) -> Option<KeyPair> {
        self.as_ref().map(|kp| KeyPair { login_key: kp.login_key.clone(), nonce: kp.nonce })
    }
}

#[test]
fn home_screen_keys() {
    let mut pm = manager_with(&[]);
    assert_eq!(pm.home_screen(Key::Char('x')), None);
    assert_eq!(pm.home_screen(Key::Enter), None);
    assert_eq!(pm.page(), Page::Initialize);
    assert_eq!(pm.home_screen(Key::Char('p')), Some(Page::PasswordList));
    assert_eq!(pm.page(), Page::PasswordList);
    assert_eq!(pm.home_screen(Key::Char('q')), Some(Page::Quit));
    assert_eq!(pm.page(), Page::Quit);
}

#[test]
fn storage_setup_decisions() {
    assert_eq!(PasswordManager::is_initialized(false, true, false), StorageSetup::CreateBothFiles);
    assert_eq!(PasswordManager::is_initialized(true, false, false), StorageSetup::CreateBothFiles);
    assert_eq!(PasswordManager::is_initialized(true, true, true), StorageSetup::ResetDataFile);
    assert_eq!(PasswordManager::is_initialized(true, true, false), StorageSetup::Ready);
}

#[test]
fn init_screen_keys() {
    let mut pm = manager_with(&[]);
    assert_eq!(pm.init_screen(Key::Enter), InitAction::AskNewLoginPassword);
    assert_eq!(pm.init_screen(Key::Esc), InitAction::Stay);
    assert_eq!(pm.page(), Page::Initialize);
    assert_eq!(pm.init_screen(Key::Char('q')), InitAction::Leave(Page::Quit));
    assert_eq!(pm.page(), Page::Quit);
}

#[test]
fn new_login_password_needs_five_bytes() {
    let mut pm = manager_with(&[]);
    let (page, kp) = pm.create_login(&answer(Page::PasswordList, "abcd"), None);
    assert_eq!(page, Page::Initialize);
    assert!(kp.is_none());
    let (page, kp) = pm.create_login(&answer(Page::Home, ""), None);
    assert_eq!(page, Page::Initialize);
    assert!(kp.is_none());
    // four characters, five bytes
    let (page, kp) = pm.create_login(&answer(Page::PasswordList, "abcé"), None);
    assert_eq!(page, Page::Home);
    assert_eq!(pm.page(), Page::Home);
    assert_eq!(pm.db().verify_login_pw(&String::from("abcé"), &kp), Ok(true));
}

#[test]
fn text_prompt_editing() {
    let pm = manager_with(&[]);
    let mut buf = String::new();
    assert!(pm.user_input(&mut buf, Key::Enter).is_none());
    assert!(pm.user_input(&mut buf, Key::Backspace).is_none());
    assert_eq!(buf, "");
    for c in "abc".chars() {
        assert!(pm.user_input(&mut buf, Key::Char(c)).is_none());
    }
    assert!(pm.user_input(&mut buf, Key::Up).is_none());
    assert_eq!(buf, "abc");
    let r = pm.user_input(&mut buf, Key::Enter).unwrap();
    assert_eq!((r.page, r.input.as_str()), (Page::PasswordList, "abc"));
    let r = pm.user_input(&mut buf, Key::Esc).unwrap();
    assert_eq!((r.page, r.input.as_str()), (Page::Home, ""));
}

#[test]
fn backspace_undoes_typing() {
    let pm = manager_with(&[]);
    let mut buf = String::from("pass");
    pm.user_input(&mut buf, Key::Char('ü'));
    assert_eq!(buf, "passü");
    pm.user_input(&mut buf, Key::Backspace);
    assert_eq!(buf, "pass");
}

#[test]
fn list_selection_wraps_around() {
    let mut pm = manager_with(&["a", "b", "c"]);
    let mut st = PwListState::new();
    assert!(matches!(pm.pw_list_screen(&mut st, Key::Up), PwListAction::Stay));
    assert_eq!(st.selected, 2);
    pm.pw_list_screen(&mut st, Key::Down);
    assert_eq!(st.selected, 0);
    pm.pw_list_screen(&mut st, Key::Down);
    pm.pw_list_screen(&mut st, Key::Down);
    assert_eq!(st.selected, 2);
    pm.pw_list_screen(&mut st, Key::Down);
    assert_eq!(st.selected, 0);
}

#[test]
fn up_then_down_returns_to_the_same_row() {
    let mut pm = manager_with(&["a", "b", "c", "d"]);
    for start in 0..4 {
        let mut st = PwListState { selected: start, reveal: false };
        pm.pw_list_screen(&mut st, Key::Up);
        pm.pw_list_screen(&mut st, Key::Down);
        assert_eq!(st.selected, start);
        pm.pw_list_screen(&mut st, Key::Down);
        pm.pw_list_screen(&mut st, Key::Up);
        assert_eq!(st.selected, start);
    }
}

#[test]
fn reveal_toggles_and_moving_hides() {
    let mut pm = manager_with(&["a", "b"]);
    let mut st = PwListState::new();
    pm.pw_list_screen(&mut st, Key::Enter);
    assert!(st.reveal);
    pm.pw_list_screen(&mut st, Key::Char('c'));
    assert!(st.reveal);
    pm.pw_list_screen(&mut st, Key::Down);
    assert!(!st.reveal);
    assert_eq!(st.selected, 1);
    pm.pw_list_screen(&mut st, Key::Enter);
    pm.pw_list_screen(&mut st, Key::Enter);
    assert!(!st.reveal);
}

#[test]
fn list_screen_commands() {
    let mut pm = manager_with(&["a", "b"]);
    let mut st = PwListState { selected: 1, reveal: true };
    assert!(matches!(pm.pw_list_screen(&mut st, Key::Char('a')), PwListAction::AddSite));
    assert!(st.reveal);
    match pm.pw_list_screen(&mut st, Key::Char('c')) {
        PwListAction::CopyPassword(p) => assert_eq!(p, "pw"),
        _ => panic!("expected a copy"),
    }
    assert!(matches!(pm.pw_list_screen(&mut st, Key::Char('d')), PwListAction::ConfirmDelete));
    assert!(!st.reveal);
    assert!(matches!(pm.pw_list_screen(&mut st, Key::Char('e')), PwListAction::AskNewPassword));
    assert!(matches!(pm.pw_list_screen(&mut st, Key::Char('z')), PwListAction::Stay));
    assert_eq!(st.selected, 1);
    assert_eq!(pm.page(), Page::Initialize);
    assert!(matches!(pm.pw_list_screen(&mut st, Key::Char('h')), PwListAction::Leave(Page::Home)));
    assert_eq!(pm.page(), Page::Home);
    assert!(matches!(pm.pw_list_screen(&mut st, Key::Char('q')), PwListAction::Leave(Page::Quit)));
    assert_eq!(pm.page(), Page::Quit);
}

#[test]
fn empty_list_ignores_row_commands() {
    let mut pm = manager_with(&[]);
    let mut st = PwListState { selected: 0, reveal: true };
    assert!(matches!(pm.pw_list_screen(&mut st, Key::Char('c')), PwListAction::Stay));
    assert!(st.reveal);
    assert!(matches!(pm.pw_list_screen(&mut st, Key::Char('d')), PwListAction::Stay));
    assert!(!st.reveal);
    assert!(matches!(pm.pw_list_screen(&mut st, Key::Char('e')), PwListAction::Stay));
    assert!(matches!(pm.pw_list_screen(&mut st, Key::Up), PwListAction::Stay));
    assert!(matches!(pm.pw_list_screen(&mut st, Key::Down), PwListAction::Stay));
    assert_eq!(st.selected, 0);
}

#[test]
fn table_rows_show_at_most_one_password() {
    let mut db = DatabaseManager::new(String::from("/cfg"));
    db.pw_vec.push(entry("a.com", "abc"));
    db.pw_vec.push(entry("b.com", "pä"));
    db.pw_vec.push(entry("c.com", "x"));
    let pm = PasswordManager::new(db);
    let rows = pm.list_rows(&PwListState { selected: 1, reveal: true });
    assert_eq!(rows.len(), 3);
    let shown: Vec<(usize, bool, &str, &str)> =
        rows.iter().map(|r| (r.id, r.highlighted, r.site.as_str(), r.password.as_str())).collect();
    assert_eq!(shown, vec![(0, false, "a.com", "***"), (1, true, "b.com", "pä"), (2, false, "c.com", "*")]);
    assert_eq!(rows[0].username, "user");
    assert_eq!(rows[2].created, Date { year: 2023, month: 5, day: 6 });
    let hidden = pm.list_rows(&PwListState { selected: 1, reveal: false });
    assert_eq!(hidden[1].password, "***");
    assert!(manager_with(&[]).list_rows(&PwListState::new()).is_empty());
}

#[test]
fn delete_needs_the_exact_word() {
    let mut pm = manager_with(&["a", "b", "c"]);
    let mut st = PwListState { selected: 2, reveal: false };
    assert!(!pm.confirm_delete(&mut st, &answer(Page::PasswordList, "delete")));
    assert!(!pm.confirm_delete(&mut st, &answer(Page::Home, "")));
    assert_eq!(pm.db().pw_vec.len(), 3);
    assert_eq!(st.selected, 2);
    assert!(pm.confirm_delete(&mut st, &answer(Page::PasswordList, "DELETE")));
    assert_eq!(st.selected, 0);
    let sites: Vec<&str> = pm.db().pw_vec.iter().map(|e| e.site.as_str()).collect();
    assert_eq!(sites, vec!["a", "b"]);
}

#[test]
fn change_password_of_selected_entry() {
    let mut pm = manager_with(&["a", "b"]);
    let st = PwListState { selected: 1, reveal: false };
    assert!(!pm.change_password(&st, answer(Page::Home, "")));
    assert_eq!(pm.db().pw_vec[1].password, "pw");
    assert!(pm.change_password(&st, answer(Page::PasswordList, "n3w")));
    assert_eq!(pm.db().pw_vec[1].password, "n3w");
    assert_eq!(pm.db().pw_vec[0].password, "pw");
}

#[test]
fn add_site_dialogue_with_a_mismatch() {
    let mut pm = manager_with(&["a"]);
    let mut form = AddSiteForm::new();
    assert_eq!(pm.add_site(&mut form, answer(Page::PasswordList, "site.io")), AddSiteStep::Ask(AddSitePrompt::UserName));
    assert_eq!(pm.add_site(&mut form, answer(Page::PasswordList, "me")), AddSiteStep::Ask(AddSitePrompt::Password));
    assert_eq!(pm.add_site(&mut form, answer(Page::PasswordList, "p1")), AddSiteStep::Ask(AddSitePrompt::ConfirmPassword));
    assert_eq!(pm.add_site(&mut form, answer(Page::PasswordList, "p2")), AddSiteStep::Ask(AddSitePrompt::Password));
    assert_eq!(pm.db().pw_vec.len(), 1);
    assert_eq!(pm.add_site(&mut form, answer(Page::PasswordList, "p3")), AddSiteStep::Ask(AddSitePrompt::ConfirmPassword));
    assert_eq!(pm.page(), Page::Initialize);
    assert_eq!(pm.add_site(&mut form, answer(Page::PasswordList, "p3")), AddSiteStep::Done(Page::PasswordList));
    assert_eq!(pm.page(), Page::PasswordList);
    assert_eq!(pm.db().pw_vec.len(), 2);
    let e = &pm.db().pw_vec[1];
    assert_eq!((e.site.as_str(), e.username.as_str(), e.password.as_str()), ("site.io", "me", "p3"));
}

#[test]
fn add_site_cancelled_by_an_empty_answer() {
    let mut pm = manager_with(&[]);
    let mut form = AddSiteForm::new();
    assert_eq!(pm.add_site(&mut form, answer(Page::PasswordList, "s")), AddSiteStep::Ask(AddSitePrompt::UserName));
    assert_eq!(pm.add_site(&mut form, answer(Page::Home, "")), AddSiteStep::Done(Page::Home));
    assert_eq!(pm.page(), Page::Home);
    assert!(pm.db().pw_vec.is_empty());
    let mut form = AddSiteForm::new();
    pm.add_site(&mut form, answer(Page::PasswordList, "s"));
    pm.add_site(&mut form, answer(Page::PasswordList, "u"));
    pm.add_site(&mut form, answer(Page::PasswordList, "p"));
    assert_eq!(pm.add_site(&mut form, answer(Page::Home, "")), AddSiteStep::Done(Page::Home));
    assert!(pm.db().pw_vec.is_empty());
}
