use vstd::prelude::*;

verus! {

/// The screens the vault can show.
#[derive(Copy, Clone, Debug, PartialEq, Eq, Structural)]
pub enum Page {
    Quit,
    Home,
    PasswordList,
    Initialize,
}

/// Position of a page in the header's tab bar.
pub open spec fn page_index(page: Page) -> usize {
    match page {
        Page::Home => 0,
        Page::PasswordList => 1,
        Page::Quit => 2,
        Page::Initialize => 3,
    }
}

impl From<Page> for usize {
    fn from(input: Page) -> (res: usize) {
        match input {
            Page::Home => 0,
            Page::PasswordList => 1,
            Page::Quit => 2,
            Page::Initialize => 3,
        }
    }
}

impl vstd::std_specs::convert::FromSpecImpl<Page> for usize {
    open spec fn obeys_from_spec() -> bool {
        true
    }

    open spec fn from_spec(v: Page) -> usize {
        page_index(v)
    }
}

/// What a text prompt hands back: the page to go to (`Home` when the prompt
/// was cancelled, `PasswordList` when text was entered) and the text.
pub struct InputResult {
    pub page: Page,
    pub input: String,
}

/// A key press, as far as the screens tell keys apart.
#[derive(Copy, Clone, Debug, PartialEq, Eq, Structural)]
pub enum Key {
    Char(char),
    Enter,
    Esc,
    Backspace,
    Up,
    Down,
    Other,
}

/// Distinct pages sit at distinct tab positions.
pub proof fn lemma_page_index_injective(a: Page, b: Page)
    ensures
        page_index(a) == page_index(b) ==> a == b,
{
}

} // verus!
