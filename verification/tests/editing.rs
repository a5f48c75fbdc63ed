use todo_tui::edit::EditState;

#[test]
fn test_edit_state_new() {
    let edit_state = EditState::new();
    assert!(!edit_state.edit_mode);
    assert!(edit_state.edit_buffer.is_empty());
    assert_eq!(edit_state.edit_cursor_position, 0);
    assert!(!edit_state.adding_new_todo);
}

#[test]
fn test_enter_edit_mode() {
    let mut edit_state = EditState::new();
    edit_state.enter_edit_mode("Hello World".to_string());

    assert!(edit_state.edit_mode);
    assert_eq!(edit_state.edit_buffer, "Hello World");
    assert_eq!(edit_state.edit_cursor_position, "Hello World".len());
}

#[test]
fn test_exit_edit_mode() {
    let mut edit_state = EditState::new();
    edit_state.enter_edit_mode("Hello World".to_string());
    edit_state.exit_edit_mode();

    assert!(!edit_state.edit_mode);
    assert!(edit_state.edit_buffer.is_empty());
    assert_eq!(edit_state.edit_cursor_position, 0);
    assert!(!edit_state.adding_new_todo);
}

#[test]
fn test_insert_char() {
    let mut edit_state = EditState::new();
    edit_state.enter_edit_mode("Hello".to_string());
    edit_state.edit_cursor_position = 5;
    edit_state.insert_char('!');

    assert_eq!(edit_state.edit_buffer, "Hello!");
    assert_eq!(edit_state.edit_cursor_position, 6);
}

#[test]
fn edit_test_backspace() {
    let mut edit_state = EditState::new();
    edit_state.enter_edit_mode("Hello".to_string());
    edit_state.backspace();

    assert_eq!(edit_state.edit_buffer, "Hell");
    assert_eq!(edit_state.edit_cursor_position, 4);
}

#[test]
fn test_delete() {
    let mut edit_state = EditState::new();
    edit_state.enter_edit_mode("Hello".to_string());
    edit_state.edit_cursor_position = 0;
    edit_state.delete();

    assert_eq!(edit_state.edit_buffer, "ello");
    assert_eq!(edit_state.edit_cursor_position, 0);
}

#[test]
fn test_cursor_movement() {
    let mut edit_state = EditState::new();
    edit_state.enter_edit_mode("Hello".to_string());

    edit_state.move_cursor_left();
    assert_eq!(edit_state.edit_cursor_position, 4);

    edit_state.move_cursor_right();
    assert_eq!(edit_state.edit_cursor_position, 5);

    edit_state.move_cursor_home();
    assert_eq!(edit_state.edit_cursor_position, 0);

    edit_state.move_cursor_end();
    assert_eq!(edit_state.edit_cursor_position, 5);
}

#[test]
fn test_delete_word_backward() {
    let mut edit_state = EditState::new();

    edit_state.enter_edit_mode("Hello world".to_string());
    edit_state.delete_word_backward();
    assert_eq!(edit_state.edit_buffer, "Hello ");
    assert_eq!(edit_state.edit_cursor_position, 6);

    edit_state.delete_word_backward();
    assert_eq!(edit_state.edit_buffer, "");
    assert_eq!(edit_state.edit_cursor_position, 0);

    edit_state.enter_edit_mode("foo bar baz".to_string());
    edit_state.edit_cursor_position = 7;
    edit_state.delete_word_backward();
    assert_eq!(edit_state.edit_buffer, "foo  baz");
    assert_eq!(edit_state.edit_cursor_position, 4);

    edit_state.enter_edit_mode("word   test".to_string());
    edit_state.delete_word_backward();
    assert_eq!(edit_state.edit_buffer, "word   ");
    assert_eq!(edit_state.edit_cursor_position, 7);

    edit_state.enter_edit_mode("test".to_string());
    edit_state.edit_cursor_position = 0;
    edit_state.delete_word_backward();
    assert_eq!(edit_state.edit_buffer, "test");
    assert_eq!(edit_state.edit_cursor_position, 0);
}

#[test]
fn test_move_to_previous_word() {
    let mut edit_state = EditState::new();

    edit_state.enter_edit_mode("hello world test".to_string());
    edit_state.move_to_previous_word();
    assert_eq!(edit_state.edit_cursor_position, 12);

    edit_state.move_to_previous_word();
    assert_eq!(edit_state.edit_cursor_position, 6);

    edit_state.move_to_previous_word();
    assert_eq!(edit_state.edit_cursor_position, 0);

    edit_state.move_to_previous_word();
    assert_eq!(edit_state.edit_cursor_position, 0);

    edit_state.enter_edit_mode("foo bar baz".to_string());
    edit_state.edit_cursor_position = 6;
    edit_state.move_to_previous_word();
    assert_eq!(edit_state.edit_cursor_position, 4);

    edit_state.enter_edit_mode("word   test".to_string());
    edit_state.move_to_previous_word();
    assert_eq!(edit_state.edit_cursor_position, 7);
}

#[test]
fn test_move_to_next_word() {
    let mut edit_state = EditState::new();

    edit_state.enter_edit_mode("hello world test".to_string());
    edit_state.edit_cursor_position = 0;
    edit_state.move_to_next_word();
    assert_eq!(edit_state.edit_cursor_position, 6);

    edit_state.move_to_next_word();
    assert_eq!(edit_state.edit_cursor_position, 12);

    edit_state.move_to_next_word();
    assert_eq!(edit_state.edit_cursor_position, 16);

    edit_state.move_to_next_word();
    assert_eq!(edit_state.edit_cursor_position, 16);

    edit_state.enter_edit_mode("foo bar baz".to_string());
    edit_state.edit_cursor_position = 1;
    edit_state.move_to_next_word();
    assert_eq!(edit_state.edit_cursor_position, 4);

    edit_state.enter_edit_mode("word   test".to_string());
    edit_state.edit_cursor_position = 0;
    edit_state.move_to_next_word();
    assert_eq!(edit_state.edit_cursor_position, 7);
}

#[test]
fn multibyte_characters_keep_cursor_on_boundaries() {
    let mut edit_state = EditState::new();
    edit_state.enter_edit_mode(String::new());

    // 'é' encodes in two bytes: the cursor advances by two.
    edit_state.insert_char('é');
    assert_eq!(edit_state.edit_buffer, "é");
    assert_eq!(edit_state.edit_cursor_position, 2);

    edit_state.insert_char('漢');
    assert_eq!(edit_state.edit_buffer, "é漢");
    assert_eq!(edit_state.edit_cursor_position, 5);

    // Stepping left lands on the boundary before the three-byte char.
    edit_state.move_cursor_left();
    assert_eq!(edit_state.edit_cursor_position, 2);

    edit_state.insert_char('a');
    assert_eq!(edit_state.edit_buffer, "éa漢");
    assert_eq!(edit_state.edit_cursor_position, 3);

    // Backspace removes the whole character before the cursor.
    edit_state.backspace();
    assert_eq!(edit_state.edit_buffer, "é漢");
    assert_eq!(edit_state.edit_cursor_position, 2);

    edit_state.backspace();
    assert_eq!(edit_state.edit_buffer, "漢");
    assert_eq!(edit_state.edit_cursor_position, 0);

    edit_state.delete();
    assert_eq!(edit_state.edit_buffer, "");
    assert_eq!(edit_state.edit_cursor_position, 0);
}
