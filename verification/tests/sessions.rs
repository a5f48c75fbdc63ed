use std::collections::HashSet;
use todo_tui::app::App;
use todo_tui::handlers::{KeyInput, KeyPress};
use todo_tui::models::{ListItem, TodoList};
use todo_tui::state::AppState;
use todo_tui::undo::UndoManager;

fn key(code: KeyPress) -> KeyInput {
    KeyInput { code, shift: false, control: false }
}

fn list_of(names: &[&str]) -> TodoList {
    let mut list = TodoList::new("session.md".to_string());
    for (i, name) in names.iter().enumerate() {
        list.add_item(ListItem::new_todo(name.to_string(), false, 0, i));
    }
    list
}

fn snapshot(tag: usize) -> AppState {
    AppState::new(list_of(&[&format!("item {}", tag)]), 0, HashSet::new())
}

#[test]
fn undo_stack_never_exceeds_twenty() {
    let mut undo = UndoManager::new();
    for i in 0..21 {
        undo.save_state(snapshot(i));
        assert!(undo.undo_stack.len() <= 20);
    }
    assert_eq!(undo.undo_stack.len(), 20);

    // The oldest of the 21 snapshots is gone; the most recent 20 come
    // back in reverse chronological order.
    for expected in (1..21).rev() {
        let state = undo.undo().expect("snapshot should be retrievable");
        match &state.todo_list.items[0] {
            ListItem::Todo { content, .. } => {
                assert_eq!(content, &format!("item {}", expected));
            }
            _ => panic!("Expected Todo item"),
        }
    }
    assert!(undo.undo().is_none());
}

#[test]
fn undo_restores_document_and_selection() {
    let mut app = App::new(list_of(&["alpha", "beta", "gamma"]));

    // Select beta, then toggle gamma's completion (which snapshots).
    app.navigation.selected_index = 1;
    app.handle_key_event(key(KeyPress::Char(' ')));
    app.navigation.selected_index = 2;
    let changed = app.handle_key_event(key(KeyPress::Enter));
    assert!(changed);
    assert_eq!(app.completed_items(), 1);
    assert!(app.selected_items().contains(&1));

    // Undo brings back the unmodified document and the old focus.
    let changed = app.handle_key_event(key(KeyPress::Char('u')));
    assert!(changed);
    assert_eq!(app.completed_items(), 0);
    assert_eq!(app.selected_index(), 2);
    assert!(app.selected_items().contains(&1));
}

#[test]
fn failed_operations_leave_no_undo_step() {
    let mut app = App::new(list_of(&["solo"]));
    // Moving the only item up is a no-op: no snapshot is pushed, so a
    // following undo finds nothing to restore.
    let changed = app.handle_key_event(KeyInput { code: KeyPress::Up, shift: true, control: false });
    assert!(!changed);
    assert!(app.undo_manager.undo_stack.is_empty());
    let changed = app.handle_key_event(key(KeyPress::Char('u')));
    assert!(!changed);
    assert_eq!(app.todo_list.items.len(), 1);
}

#[test]
fn quit_key_sets_flag() {
    let mut app = App::new(list_of(&["only"]));
    assert!(!app.should_quit);
    let changed = app.handle_key_event(key(KeyPress::Char('q')));
    assert!(!changed);
    assert!(app.should_quit);
}

#[test]
fn rename_confirm_writes_content() {
    let mut app = App::new(list_of(&["old name"]));
    app.handle_key_event(key(KeyPress::Char('e')));
    assert!(app.edit_mode());
    assert_eq!(app.edit_buffer(), "old name");

    for _ in 0.."old name".len() {
        app.handle_key_event(key(KeyPress::Backspace));
    }
    for c in "new name".chars() {
        app.handle_key_event(key(KeyPress::Char(c)));
    }
    let changed = app.handle_key_event(key(KeyPress::Enter));
    assert!(changed);
    assert!(!app.edit_mode());
    match &app.todo_list.items[0] {
        ListItem::Todo { content, .. } => assert_eq!(content, "new name"),
        _ => panic!("Expected Todo item"),
    }
}

#[test]
fn rename_to_empty_removes_task_but_not_heading() {
    let mut list = TodoList::new("mixed.md".to_string());
    list.add_item(ListItem::new_heading("Kept".to_string(), 1, 0));
    list.add_item(ListItem::new_todo("Dropped".to_string(), false, 0, 1));
    let mut app = App::new(list);

    // Renaming the task to blank text deletes it.
    app.navigation.selected_index = 1;
    app.handle_key_event(key(KeyPress::Char('e')));
    for _ in 0.."Dropped".len() {
        app.handle_key_event(key(KeyPress::Backspace));
    }
    app.handle_key_event(key(KeyPress::Enter));
    assert_eq!(app.todo_list.items.len(), 1);

    // Renaming the heading to blank text keeps it.
    app.navigation.selected_index = 0;
    app.handle_key_event(key(KeyPress::Char('e')));
    for _ in 0.."Kept".len() {
        app.handle_key_event(key(KeyPress::Backspace));
    }
    app.handle_key_event(key(KeyPress::Enter));
    assert_eq!(app.todo_list.items.len(), 1);
    assert!(matches!(app.todo_list.items[0], ListItem::Heading { .. }));
}

#[test]
fn delete_key_removes_task_and_skips_heading() {
    let mut list = TodoList::new("del.md".to_string());
    list.add_item(ListItem::new_heading("Section".to_string(), 1, 0));
    list.add_item(ListItem::new_todo("Task".to_string(), false, 0, 1));
    let mut app = App::new(list);

    // Deleting on a heading is a no-op.
    let changed = app.handle_key_event(key(KeyPress::Char('d')));
    assert!(!changed);
    assert_eq!(app.todo_list.items.len(), 2);

    app.navigation.selected_index = 1;
    let changed = app.handle_key_event(key(KeyPress::Char('d')));
    assert!(changed);
    assert_eq!(app.todo_list.items.len(), 1);
    assert_eq!(app.selected_index(), 0);
}

#[test]
fn bulk_move_through_key_events() {
    let mut app = App::new(list_of(&["A", "B", "C", "D"]));
    // Select A and C, focus B, then move the selection below it.
    app.handle_key_event(key(KeyPress::Char(' ')));
    app.navigation.selected_index = 2;
    app.handle_key_event(key(KeyPress::Char(' ')));
    app.navigation.selected_index = 1;
    let changed = app.handle_key_event(key(KeyPress::Char('m')));
    assert!(changed);
    let contents: Vec<&str> = app.todo_list.items.iter().map(|it| it.content()).collect();
    assert_eq!(contents, vec!["B", "A", "C", "D"]);
    assert_eq!(app.selected_index(), 1);
    assert!(!app.navigation.has_selection());
}

#[test]
fn search_keys_drive_matches_and_focus() {
    let mut app = App::new(list_of(&["Buy groceries", "Walk the dog", "Remember to buy milk"]));
    app.handle_key_event(key(KeyPress::Char('/')));
    assert!(app.search_mode());
    app.handle_key_event(key(KeyPress::Char('b')));
    app.handle_key_event(key(KeyPress::Char('u')));
    app.handle_key_event(key(KeyPress::Char('y')));
    assert_eq!(app.search_matches(), &[0, 2]);
    app.handle_key_event(key(KeyPress::Enter));
    assert!(!app.search_mode());
    assert_eq!(app.selected_index(), 0);
    // 'n' now cycles through the matches.
    app.handle_key_event(key(KeyPress::Char('n')));
    assert_eq!(app.selected_index(), 2);
    app.handle_key_event(key(KeyPress::Char('n')));
    assert_eq!(app.selected_index(), 0);
}

#[test]
fn adding_task_inserts_empty_item_in_edit_mode() {
    let mut app = App::new(list_of(&["first"]));
    app.handle_key_event(key(KeyPress::Char('a')));
    assert!(app.edit_mode());
    assert_eq!(app.todo_list.items.len(), 2);
    assert_eq!(app.selected_index(), 1);
    assert_eq!(app.edit_buffer(), "");
    // Cancelling the rename drops the freshly inserted empty task.
    app.handle_key_event(key(KeyPress::Esc));
    assert_eq!(app.todo_list.items.len(), 1);
}

#[test]
fn counts_reflect_completion() {
    let mut list = TodoList::new("counts.md".to_string());
    list.add_item(ListItem::new_heading("Head".to_string(), 1, 0));
    list.add_item(ListItem::new_todo("a".to_string(), false, 0, 1));
    list.add_item(ListItem::new_todo("b".to_string(), true, 0, 2));
    list.add_item(ListItem::new_note("c".to_string(), 0, 3));
    let app = App::new(list);
    assert_eq!(app.total_items(), 2);
    assert_eq!(app.completed_items(), 1);
    assert!(!app.todo_list.items[0].is_completed());
    assert!(app.todo_list.items[2].is_completed());
    assert_eq!(app.todo_list.items[3].content(), "c");
}
