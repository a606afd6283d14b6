use vstd::prelude::*;
use crate::ui::{ActivePopup, InputActive};

verus! {

/// A key press, as far as the browser tells keys apart.
#[derive(Debug, Clone, Copy, PartialEq, Eq, Structural)]
pub enum Key {
    Esc,
    Enter,
    Tab,
    BackTab,
    Up,
    Down,
    Left,
    Right,
    Backspace,
    Char(char),
    Other,
}

/// What a key press asks the browser to do.
#[derive(Debug, Clone, Copy, PartialEq, Eq, Structural)]
pub enum Action {
    Nothing,
    ClosePopup,
    ExecuteCommand,
    NextCommand,
    PrevCommand,
    StopSearch,
    MoveUp,
    MoveDown,
    /// Hand the key to the search input and reload.
    EditSearch,
    OpenList,
    GoBack,
    OpenFile,
    StartSearch,
    BrowserSearch,
    ToggleFavoritesMode,
    ToggleFavorite,
    FirstItem,
    LastItem,
    RandomItem,
    Quit,
}

/// The action of a key in the download popup.
pub open spec fn popup_action(key: Key) -> Action {
    match key {
        Key::Esc => Action::ClosePopup,
        Key::Enter => Action::ExecuteCommand,
        Key::Tab => Action::NextCommand,
        Key::BackTab => Action::PrevCommand,
        _ => Action::Nothing,
    }
}

/// The action of a key while the search text is being typed.
pub open spec fn search_action(key: Key) -> Action {
    match key {
        Key::Esc => Action::StopSearch,
        Key::Enter => Action::StopSearch,
        Key::Up => Action::MoveUp,
        Key::Down => Action::MoveDown,
        _ => Action::EditSearch,
    }
}

/// The action of a key while browsing.
pub open spec fn browse_action(key: Key) -> Action {
    match key {
        Key::Up => Action::MoveUp,
        Key::Down => Action::MoveDown,
        Key::Right => Action::OpenList,
        Key::Left => Action::GoBack,
        Key::Enter => Action::OpenFile,
        Key::Backspace => Action::GoBack,
        Key::Tab => Action::NextCommand,
        Key::BackTab => Action::PrevCommand,
        Key::Char(c) => if c == '/' {
            Action::StartSearch
        } else if c == 'b' {
            Action::BrowserSearch
        } else if c == 'F' {
            Action::ToggleFavoritesMode
        } else if c == 'f' {
            Action::ToggleFavorite
        } else if c == 'g' {
            Action::FirstItem
        } else if c == 'G' {
            Action::LastItem
        } else if c == 'x' {
            Action::RandomItem
        } else if c == 'q' {
            Action::Quit
        } else {
            Action::Nothing
        },
        _ => Action::Nothing,
    }
}

/// What a key press does: the download popup takes the keys first, then
/// the search input while it is being typed into, else the browser.
pub fn key_action(popup: ActivePopup, input: InputActive, key: Key) -> (r: Action)
    ensures
        popup == ActivePopup::Downloading ==> r == popup_action(key),
        popup != ActivePopup::Downloading && input == InputActive::Search ==> r == search_action(
            key,
        ),
        popup != ActivePopup::Downloading && input != InputActive::Search ==> r == browse_action(
            key,
        ),
{
    if popup == ActivePopup::Downloading {
        return match key {
            Key::Esc => Action::ClosePopup,
            Key::Enter => Action::ExecuteCommand,
            Key::Tab => Action::NextCommand,
            Key::BackTab => Action::PrevCommand,
            _ => Action::Nothing,
        };
    }
    if input == InputActive::Search {
        return match key {
            Key::Esc => Action::StopSearch,
            Key::Enter => Action::StopSearch,
            Key::Up => Action::MoveUp,
            Key::Down => Action::MoveDown,
            _ => Action::EditSearch,
        };
    }
    match key {
        Key::Up => Action::MoveUp,
        Key::Down => Action::MoveDown,
        Key::Right => Action::OpenList,
        Key::Left => Action::GoBack,
        Key::Enter => Action::OpenFile,
        Key::Backspace => Action::GoBack,
        Key::Tab => Action::NextCommand,
        Key::BackTab => Action::PrevCommand,
        Key::Char(c) => {
            if c == '/' {
                Action::StartSearch
            } else if c == 'b' {
                Action::BrowserSearch
            } else if c == 'F' {
                Action::ToggleFavoritesMode
            } else if c == 'f' {
                Action::ToggleFavorite
            } else if c == 'g' {
                Action::FirstItem
            } else if c == 'G' {
                Action::LastItem
            } else if c == 'x' {
                Action::RandomItem
            } else if c == 'q' {
                Action::Quit
            } else {
                Action::Nothing
            }
        },
        _ => Action::Nothing,
    }
}

/// While the download popup is open no key quits, moves or edits; while
/// the search text is typed into, no key quits and every character goes
/// to the search; `q` quits only while browsing.
pub proof fn lemma_quit_only_while_browsing(popup: ActivePopup, input: InputActive, key: Key)
    ensures
        popup == ActivePopup::Downloading ==> popup_action(key) != Action::Quit && popup_action(
            key,
        ) != Action::EditSearch && popup_action(key) != Action::MoveUp && popup_action(key)
            != Action::MoveDown,
        search_action(key) != Action::Quit,
        (key matches Key::Char(_)) ==> search_action(key) == Action::EditSearch,
        browse_action(key) == Action::Quit <==> key == Key::Char('q'),
{
}

} // verus!
