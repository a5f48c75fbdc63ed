use todo_tui::handlers::{
    EditModeAction, HelpModeAction, KeyHandler, KeyInput, KeyPress, NormalModeAction,
    SearchModeAction,
};

fn key(code: KeyPress) -> KeyInput {
    KeyInput { code, shift: false, control: false }
}

fn shift_key(code: KeyPress) -> KeyInput {
    KeyInput { code, shift: true, control: false }
}

fn ctrl_key(code: KeyPress) -> KeyInput {
    KeyInput { code, shift: false, control: true }
}

#[test]
fn test_normal_mode_basic_keys() {
    let key_event = key(KeyPress::Char('q'));
    assert_eq!(KeyHandler::handle_normal_mode_key(key_event), NormalModeAction::Quit);

    let key_event = key(KeyPress::Esc);
    assert_eq!(KeyHandler::handle_normal_mode_key(key_event), NormalModeAction::HandleEscape);

    let key_event = key(KeyPress::Enter);
    assert_eq!(KeyHandler::handle_normal_mode_key(key_event), NormalModeAction::ToggleSelectedItem);

    let key_event = key(KeyPress::Char('e'));
    assert_eq!(KeyHandler::handle_normal_mode_key(key_event), NormalModeAction::EnterEditMode);
}

#[test]
fn test_normal_mode_navigation_keys() {
    let key_event = key(KeyPress::Up);
    assert_eq!(KeyHandler::handle_normal_mode_key(key_event), NormalModeAction::MoveSelectionUp);

    let key_event = key(KeyPress::Char('j'));
    assert_eq!(KeyHandler::handle_normal_mode_key(key_event), NormalModeAction::MoveSelectionDown);

    let key_event = key(KeyPress::Char('k'));
    assert_eq!(KeyHandler::handle_normal_mode_key(key_event), NormalModeAction::MoveSelectionUp);
}

#[test]
fn test_normal_mode_shift_keys() {
    let key_event = shift_key(KeyPress::Up);
    assert_eq!(KeyHandler::handle_normal_mode_key(key_event), NormalModeAction::MoveItemUp);

    let key_event = shift_key(KeyPress::Down);
    assert_eq!(KeyHandler::handle_normal_mode_key(key_event), NormalModeAction::MoveItemDown);

    let key_event = shift_key(KeyPress::Left);
    assert_eq!(KeyHandler::handle_normal_mode_key(key_event), NormalModeAction::UnindentItem);

    let key_event = shift_key(KeyPress::Right);
    assert_eq!(KeyHandler::handle_normal_mode_key(key_event), NormalModeAction::IndentItem);
}

#[test]
fn test_normal_mode_ctrl_keys() {
    let key_event = ctrl_key(KeyPress::Char('c'));
    assert_eq!(KeyHandler::handle_normal_mode_key(key_event), NormalModeAction::Quit);
}

#[test]
fn test_help_mode_keys() {
    let key_event = key(KeyPress::Esc);
    assert_eq!(KeyHandler::handle_help_mode_key(key_event), HelpModeAction::ExitHelpMode);

    let key_event = key(KeyPress::Char('?'));
    assert_eq!(KeyHandler::handle_help_mode_key(key_event), HelpModeAction::ExitHelpMode);

    let key_event = key(KeyPress::Char('q'));
    assert_eq!(KeyHandler::handle_help_mode_key(key_event), HelpModeAction::ExitHelpMode);

    let key_event = key(KeyPress::Char('x'));
    assert_eq!(KeyHandler::handle_help_mode_key(key_event), HelpModeAction::NoOp);
}

#[test]
fn test_search_mode_keys() {
    let key_event = key(KeyPress::Esc);
    assert_eq!(KeyHandler::handle_search_mode_key(key_event), SearchModeAction::CancelSearch);

    let key_event = key(KeyPress::Enter);
    assert_eq!(KeyHandler::handle_search_mode_key(key_event), SearchModeAction::ConfirmSearch);

    let key_event = key(KeyPress::Backspace);
    assert_eq!(KeyHandler::handle_search_mode_key(key_event), SearchModeAction::Backspace);

    let key_event = key(KeyPress::Char('a'));
    assert_eq!(KeyHandler::handle_search_mode_key(key_event), SearchModeAction::InsertChar('a'));
}

#[test]
fn test_edit_mode_keys() {
    let key_event = key(KeyPress::Esc);
    assert_eq!(KeyHandler::handle_edit_mode_key(key_event), EditModeAction::CancelEdit);

    let key_event = key(KeyPress::Enter);
    assert_eq!(KeyHandler::handle_edit_mode_key(key_event), EditModeAction::ConfirmEdit);

    let key_event = key(KeyPress::Backspace);
    assert_eq!(KeyHandler::handle_edit_mode_key(key_event), EditModeAction::Backspace);

    let key_event = key(KeyPress::Delete);
    assert_eq!(KeyHandler::handle_edit_mode_key(key_event), EditModeAction::Delete);

    let key_event = key(KeyPress::Left);
    assert_eq!(KeyHandler::handle_edit_mode_key(key_event), EditModeAction::MoveCursorLeft);

    let key_event = key(KeyPress::Right);
    assert_eq!(KeyHandler::handle_edit_mode_key(key_event), EditModeAction::MoveCursorRight);

    let key_event = key(KeyPress::Home);
    assert_eq!(KeyHandler::handle_edit_mode_key(key_event), EditModeAction::MoveCursorHome);

    let key_event = key(KeyPress::End);
    assert_eq!(KeyHandler::handle_edit_mode_key(key_event), EditModeAction::MoveCursorEnd);

    let key_event = key(KeyPress::Char('x'));
    assert_eq!(KeyHandler::handle_edit_mode_key(key_event), EditModeAction::InsertChar('x'));
}

#[test]
fn test_normal_mode_delete_key() {
    let key_event = key(KeyPress::Char('d'));
    assert_eq!(KeyHandler::handle_normal_mode_key(key_event), NormalModeAction::DeleteItem);
}
