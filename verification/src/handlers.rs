//! Keystroke-to-action mapping.  A key press is modelled as plain
//! values (a code plus modifier flags) so the mapping is pure; the
//! terminal layer converts its own key events into this shape.

use vstd::prelude::*;

verus! {

/// A decoded key, reduced to what the bindings distinguish.
#[derive(Debug, Clone, Copy, PartialEq, Eq)]
pub enum KeyPress {
    Char(char),
    Up,
    Down,
    Left,
    Right,
    Enter,
    Esc,
    Backspace,
    Delete,
    Home,
    End,
    Other,
}

/// One keystroke: the key and the modifiers held with it.
#[derive(Debug, Clone, Copy, PartialEq, Eq)]
pub struct KeyInput {
    pub code: KeyPress,
    pub shift: bool,
    pub control: bool,
}

#[derive(Debug, PartialEq, Eq)]
pub enum NormalModeAction {
    NoOp,
    Quit,
    HandleEscape,
    MoveSelectionUp,
    MoveSelectionDown,
    MoveItemUp,
    MoveItemDown,
    IndentItem,
    UnindentItem,
    ToggleSelectedItem,
    EnterEditMode,
    AddNewTodo,
    AddNewTodoAtTop,
    HandleN,
    HandleShiftN,
    ToggleItemSelection,
    MoveSelectedItemsToCursor,
    ToggleHelpMode,
    Undo,
    EnterSearchMode,
    DeleteItem,
}

#[derive(Debug, PartialEq, Eq)]
pub enum HelpModeAction {
    NoOp,
    ExitHelpMode,
}

#[derive(Debug, PartialEq, Eq)]
pub enum SearchModeAction {
    NoOp,
    CancelSearch,
    ConfirmSearch,
    Backspace,
    InsertChar(char),
}

#[derive(Debug, PartialEq, Eq)]
pub enum EditModeAction {
    NoOp,
    CancelEdit,
    ConfirmEdit,
    Backspace,
    Delete,
    MoveCursorLeft,
    MoveCursorRight,
    MoveCursorHome,
    MoveCursorEnd,
    InsertChar(char),
}

/// The normal-mode binding table as a function.
pub open spec fn spec_normal_action(key: KeyInput) -> NormalModeAction {
    match key.code {
        KeyPress::Char('q') => NormalModeAction::Quit,
        KeyPress::Esc => NormalModeAction::HandleEscape,
        KeyPress::Char('c') if key.control => NormalModeAction::Quit,
        KeyPress::Up | KeyPress::Char('k') | KeyPress::Char('K') => if key.shift {
            NormalModeAction::MoveItemUp
        } else {
            NormalModeAction::MoveSelectionUp
        },
        KeyPress::Down | KeyPress::Char('j') | KeyPress::Char('J') => if key.shift {
            NormalModeAction::MoveItemDown
        } else {
            NormalModeAction::MoveSelectionDown
        },
        KeyPress::Left | KeyPress::Char('h') | KeyPress::Char('H') => if key.shift {
            NormalModeAction::UnindentItem
        } else {
            NormalModeAction::NoOp
        },
        KeyPress::Right | KeyPress::Char('l') | KeyPress::Char('L') => if key.shift {
            NormalModeAction::IndentItem
        } else {
            NormalModeAction::NoOp
        },
        KeyPress::Enter => NormalModeAction::ToggleSelectedItem,
        KeyPress::Char('e') => NormalModeAction::EnterEditMode,
        KeyPress::Char('a') => NormalModeAction::AddNewTodo,
        KeyPress::Char('A') => NormalModeAction::AddNewTodoAtTop,
        KeyPress::Char('n') => NormalModeAction::HandleN,
        KeyPress::Char('N') => NormalModeAction::HandleShiftN,
        KeyPress::Char(' ') => NormalModeAction::ToggleItemSelection,
        KeyPress::Char('m') => NormalModeAction::MoveSelectedItemsToCursor,
        KeyPress::Char('?') => NormalModeAction::ToggleHelpMode,
        KeyPress::Char('u') => NormalModeAction::Undo,
        KeyPress::Char('/') => NormalModeAction::EnterSearchMode,
        KeyPress::Char('d') => NormalModeAction::DeleteItem,
        _ => NormalModeAction::NoOp,
    }
}

/// The help-mode binding table as a function.
pub open spec fn spec_help_action(key: KeyInput) -> HelpModeAction {
    match key.code {
        KeyPress::Char('q') | KeyPress::Esc | KeyPress::Char('?') => HelpModeAction::ExitHelpMode,
        _ => HelpModeAction::NoOp,
    }
}

/// The search-mode binding table as a function.
pub open spec fn spec_search_action(key: KeyInput) -> SearchModeAction {
    match key.code {
        KeyPress::Esc => SearchModeAction::CancelSearch,
        KeyPress::Enter => SearchModeAction::ConfirmSearch,
        KeyPress::Backspace => SearchModeAction::Backspace,
        KeyPress::Char(c) => SearchModeAction::InsertChar(c),
        _ => SearchModeAction::NoOp,
    }
}

/// The edit-mode binding table as a function.
pub open spec fn spec_edit_action(key: KeyInput) -> EditModeAction {
    match key.code {
        KeyPress::Esc => EditModeAction::CancelEdit,
        KeyPress::Enter => EditModeAction::ConfirmEdit,
        KeyPress::Backspace => EditModeAction::Backspace,
        KeyPress::Delete => EditModeAction::Delete,
        KeyPress::Left => EditModeAction::MoveCursorLeft,
        KeyPress::Right => EditModeAction::MoveCursorRight,
        KeyPress::Home => EditModeAction::MoveCursorHome,
        KeyPress::End => EditModeAction::MoveCursorEnd,
        KeyPress::Char(c) => EditModeAction::InsertChar(c),
        _ => EditModeAction::NoOp,
    }
}

/// The keystroke-to-action tables, one per mode.
pub struct KeyHandler;

impl KeyHandler {
    pub fn handle_normal_mode_key(key_event: KeyInput) -> (r: NormalModeAction)
        ensures
            r == spec_normal_action(key_event),
    {
        match key_event.code {
            KeyPress::Char('q') => NormalModeAction::Quit,
            KeyPress::Esc => NormalModeAction::HandleEscape,
            KeyPress::Char('c') if key_event.control => NormalModeAction::Quit,
            KeyPress::Up | KeyPress::Char('k') | KeyPress::Char('K') => if key_event.shift {
                NormalModeAction::MoveItemUp
            } else {
                NormalModeAction::MoveSelectionUp
            },
            KeyPress::Down | KeyPress::Char('j') | KeyPress::Char('J') => if key_event.shift {
                NormalModeAction::MoveItemDown
            } else {
                NormalModeAction::MoveSelectionDown
            },
            KeyPress::Left | KeyPress::Char('h') | KeyPress::Char('H') => if key_event.shift {
                NormalModeAction::UnindentItem
            } else {
                NormalModeAction::NoOp
            },
            KeyPress::Right | KeyPress::Char('l') | KeyPress::Char('L') => if key_event.shift {
                NormalModeAction::IndentItem
            } else {
                NormalModeAction::NoOp
            },
            KeyPress::Enter => NormalModeAction::ToggleSelectedItem,
            KeyPress::Char('e') => NormalModeAction::EnterEditMode,
            KeyPress::Char('a') => NormalModeAction::AddNewTodo,
            KeyPress::Char('A') => NormalModeAction::AddNewTodoAtTop,
            KeyPress::Char('n') => NormalModeAction::HandleN,
            KeyPress::Char('N') => NormalModeAction::HandleShiftN,
            KeyPress::Char(' ') => NormalModeAction::ToggleItemSelection,
            KeyPress::Char('m') => NormalModeAction::MoveSelectedItemsToCursor,
            KeyPress::Char('?') => NormalModeAction::ToggleHelpMode,
            KeyPress::Char('u') => NormalModeAction::Undo,
            KeyPress::Char('/') => NormalModeAction::EnterSearchMode,
            KeyPress::Char('d') => NormalModeAction::DeleteItem,
            _ => NormalModeAction::NoOp,
        }
    }

    pub fn handle_help_mode_key(key_event: KeyInput) -> (r: HelpModeAction)
        ensures
            r == spec_help_action(key_event),
    {
        match key_event.code {
            KeyPress::Char('q') | KeyPress::Esc | KeyPress::Char('?') => {
                HelpModeAction::ExitHelpMode
            },
            _ => HelpModeAction::NoOp,
        }
    }

    pub fn handle_search_mode_key(key_event: KeyInput) -> (r: SearchModeAction)
        ensures
            r == spec_search_action(key_event),
    {
        match key_event.code {
            KeyPress::Esc => SearchModeAction::CancelSearch,
            KeyPress::Enter => SearchModeAction::ConfirmSearch,
            KeyPress::Backspace => SearchModeAction::Backspace,
            KeyPress::Char(c) => SearchModeAction::InsertChar(c),
            _ => SearchModeAction::NoOp,
        }
    }

    pub fn handle_edit_mode_key(key_event: KeyInput) -> (r: EditModeAction)
        ensures
            r == spec_edit_action(key_event),
    {
        match key_event.code {
            KeyPress::Esc => EditModeAction::CancelEdit,
            KeyPress::Enter => EditModeAction::ConfirmEdit,
            KeyPress::Backspace => EditModeAction::Backspace,
            KeyPress::Delete => EditModeAction::Delete,
            KeyPress::Left => EditModeAction::MoveCursorLeft,
            KeyPress::Right => EditModeAction::MoveCursorRight,
            KeyPress::Home => EditModeAction::MoveCursorHome,
            KeyPress::End => EditModeAction::MoveCursorEnd,
            KeyPress::Char(c) => EditModeAction::InsertChar(c),
            _ => EditModeAction::NoOp,
        }
    }
}

/// The keystroke entry point a session offers: one event in, and out
/// comes whether the document changed and should be persisted.
pub trait KeyEventHandler {
    fn handle_key_event(&mut self, key_event: KeyInput) -> bool;
}

} // verus!
