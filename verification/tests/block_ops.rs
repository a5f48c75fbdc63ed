use std::collections::HashSet;
use todo_tui::actions::ItemActions;
use todo_tui::models::ListItem;

fn create_test_items() -> Vec<ListItem> {
    vec![
        ListItem::new_todo("Task A".to_string(), false, 0, 0),
        ListItem::new_todo("Task B".to_string(), false, 0, 0),
        ListItem::new_todo("Task C".to_string(), false, 1, 0),
        ListItem::new_todo("Task D".to_string(), false, 0, 0),
    ]
}

#[test]
fn test_toggle_todo_completion() {
    let mut items = create_test_items();

    let result = ItemActions::toggle_todo_completion(&mut items, 0);
    assert!(result);

    if let ListItem::Todo { completed, .. } = &items[0] {
        assert!(*completed);
    } else {
        panic!("Expected Todo item");
    }

    let result = ItemActions::toggle_todo_completion(&mut items, 0);
    assert!(result);

    if let ListItem::Todo { completed, .. } = &items[0] {
        assert!(!*completed);
    } else {
        panic!("Expected Todo item");
    }

    let result = ItemActions::toggle_todo_completion(&mut items, 10);
    assert!(!result);
}

#[test]
fn test_move_single_item_up() {
    let mut items = create_test_items();

    let new_index = ItemActions::move_single_item_up(&mut items, 1);
    assert_eq!(new_index, Some(0));

    if let ListItem::Todo { content, .. } = &items[0] {
        assert_eq!(content, "Task B");
    }
    if let ListItem::Todo { content, .. } = &items[1] {
        assert_eq!(content, "Task A");
    }

    let new_index = ItemActions::move_single_item_up(&mut items, 0);
    assert_eq!(new_index, None);
}

#[test]
fn test_move_single_item_down() {
    let mut items = create_test_items();

    let new_index = ItemActions::move_single_item_down(&mut items, 0);
    assert_eq!(new_index, Some(1));

    if let ListItem::Todo { content, .. } = &items[0] {
        assert_eq!(content, "Task B");
    }
    if let ListItem::Todo { content, .. } = &items[1] {
        assert_eq!(content, "Task A");
    }

    let items_len = items.len();
    let new_index = ItemActions::move_single_item_down(&mut items, items_len - 1);
    assert_eq!(new_index, None);
}

#[test]
fn test_indent_block() {
    let mut items = vec![
        ListItem::new_todo("Parent".to_string(), false, 0, 0),
        ListItem::new_todo("Child".to_string(), false, 0, 0),
    ];

    let result = ItemActions::indent_block(&mut items, 1);
    assert!(result);

    if let ListItem::Todo { indent_level, .. } = &items[1] {
        assert_eq!(*indent_level, 1);
    }

    let result = ItemActions::indent_block(&mut items, 0);
    assert!(!result);
}

#[test]
fn test_unindent_block() {
    let mut items = vec![
        ListItem::new_todo("Parent".to_string(), false, 0, 0),
        ListItem::new_todo("Child".to_string(), false, 1, 0),
    ];

    let result = ItemActions::unindent_block(&mut items, 1);
    assert!(result);

    if let ListItem::Todo { indent_level, .. } = &items[1] {
        assert_eq!(*indent_level, 0);
    }

    let result = ItemActions::unindent_block(&mut items, 1);
    assert!(!result);
}

#[test]
fn test_move_selected_items_to_position() {
    let mut items = create_test_items();
    let mut selected = HashSet::new();
    selected.insert(0);
    selected.insert(2);

    let result = ItemActions::move_selected_items_to_position(&mut items, &selected, 1);
    assert!(result.is_some());

    if let ListItem::Todo { content, .. } = &items[0] {
        assert_eq!(content, "Task B");
    }
    if let ListItem::Todo { content, .. } = &items[1] {
        assert_eq!(content, "Task A");
    }
    if let ListItem::Todo { content, .. } = &items[2] {
        assert_eq!(content, "Task C");
    }
    if let ListItem::Todo { content, .. } = &items[3] {
        assert_eq!(content, "Task D");
    }
}

#[test]
fn test_move_selected_items_empty_selection() {
    let mut items = create_test_items();
    let selected = HashSet::new();

    let result = ItemActions::move_selected_items_to_position(&mut items, &selected, 1);
    assert!(result.is_none());

    assert_eq!(items.len(), 4);
}

#[test]
fn test_delete_todo_item() {
    let mut items = create_test_items();

    let result = ItemActions::delete_item(&mut items, 0);
    assert!(result);
    assert_eq!(items.len(), 3);

    if let ListItem::Todo { content, .. } = &items[0] {
        assert_eq!(content, "Task B");
    }
}

#[test]
fn test_delete_note_item() {
    let mut items = vec![
        ListItem::new_todo("Task A".to_string(), false, 0, 0),
        ListItem::new_note("Note B".to_string(), 0, 0),
        ListItem::new_todo("Task C".to_string(), false, 0, 0),
    ];

    let result = ItemActions::delete_item(&mut items, 1);
    assert!(result);
    assert_eq!(items.len(), 2);

    if let ListItem::Todo { content, .. } = &items[0] {
        assert_eq!(content, "Task A");
    }
    if let ListItem::Todo { content, .. } = &items[1] {
        assert_eq!(content, "Task C");
    }
}

#[test]
fn test_delete_heading_item_should_fail() {
    let mut items = vec![
        ListItem::new_heading("Heading".to_string(), 1, 0),
        ListItem::new_todo("Task A".to_string(), false, 0, 0),
    ];

    let result = ItemActions::delete_item(&mut items, 0);
    assert!(!result);
    assert_eq!(items.len(), 2);

    if let ListItem::Heading { content, .. } = &items[0] {
        assert_eq!(content, "Heading");
    }
}

#[test]
fn test_delete_invalid_index() {
    let mut items = create_test_items();

    let result = ItemActions::delete_item(&mut items, 10);
    assert!(!result);
    assert_eq!(items.len(), 4);
}

#[test]
fn test_delete_selected_items() {
    let mut items = vec![
        ListItem::new_todo("Task A".to_string(), false, 0, 0),
        ListItem::new_note("Note B".to_string(), 0, 0),
        ListItem::new_todo("Task C".to_string(), false, 0, 0),
        ListItem::new_heading("Heading D".to_string(), 1, 0),
        ListItem::new_todo("Task E".to_string(), false, 0, 0),
    ];

    let mut selected = HashSet::new();
    selected.insert(0);
    selected.insert(1);
    selected.insert(2);
    selected.insert(3);
    selected.insert(4);

    let deleted_count = ItemActions::delete_selected_items(&mut items, &selected);

    assert_eq!(deleted_count, 4);
    assert_eq!(items.len(), 1);

    if let ListItem::Heading { content, .. } = &items[0] {
        assert_eq!(content, "Heading D");
    } else {
        panic!("Expected Heading item to remain");
    }
}

#[test]
fn test_delete_selected_items_mixed() {
    let mut items = vec![
        ListItem::new_todo("Task A".to_string(), false, 0, 0),
        ListItem::new_heading("Heading B".to_string(), 1, 0),
        ListItem::new_note("Note C".to_string(), 0, 0),
        ListItem::new_todo("Task D".to_string(), false, 0, 0),
    ];

    let mut selected = HashSet::new();
    selected.insert(0);
    selected.insert(1);
    selected.insert(2);

    let deleted_count = ItemActions::delete_selected_items(&mut items, &selected);

    assert_eq!(deleted_count, 2);
    assert_eq!(items.len(), 2);

    if let ListItem::Heading { content, .. } = &items[0] {
        assert_eq!(content, "Heading B");
    } else {
        panic!("Expected Heading item");
    }

    if let ListItem::Todo { content, .. } = &items[1] {
        assert_eq!(content, "Task D");
    } else {
        panic!("Expected Todo item");
    }
}

#[test]
fn test_delete_selected_items_empty_selection() {
    let mut items = create_test_items();
    let selected = HashSet::new();

    let deleted_count = ItemActions::delete_selected_items(&mut items, &selected);

    assert_eq!(deleted_count, 0);
    assert_eq!(items.len(), 4);
}

#[test]
fn test_delete_selected_items_invalid_indices() {
    let mut items = create_test_items();
    let mut selected = HashSet::new();
    selected.insert(0);
    selected.insert(10);
    selected.insert(15);

    let deleted_count = ItemActions::delete_selected_items(&mut items, &selected);

    assert_eq!(deleted_count, 1);
    assert_eq!(items.len(), 3);

    if let ListItem::Todo { content, .. } = &items[0] {
        assert_eq!(content, "Task B");
    }
}

#[test]
fn test_delete_selected_items_only_headings() {
    let mut items = vec![
        ListItem::new_heading("Heading A".to_string(), 1, 0),
        ListItem::new_heading("Heading B".to_string(), 2, 0),
        ListItem::new_todo("Task C".to_string(), false, 0, 0),
    ];

    let mut selected = HashSet::new();
    selected.insert(0);
    selected.insert(1);

    let deleted_count = ItemActions::delete_selected_items(&mut items, &selected);

    assert_eq!(deleted_count, 0);
    assert_eq!(items.len(), 3);
}

fn depth_of(item: &ListItem) -> usize {
    match item {
        ListItem::Todo { indent_level, .. } => *indent_level,
        ListItem::Note { indent_level, .. } => *indent_level,
        ListItem::Heading { .. } => 0,
    }
}

#[test]
fn indent_scenario_under_sibling() {
    // Document [A(0), B(0), C(1), D(0)]: indenting at the first item
    // fails (nothing above to nest under); indenting at B succeeds
    // because its ceiling, one past A's depth, exceeds B's depth.
    let mut items = vec![
        ListItem::new_todo("A".to_string(), false, 0, 0),
        ListItem::new_todo("B".to_string(), false, 0, 0),
        ListItem::new_todo("C".to_string(), false, 1, 0),
        ListItem::new_todo("D".to_string(), false, 0, 0),
    ];
    assert!(!ItemActions::indent_block(&mut items, 0));
    assert!(ItemActions::indent_block(&mut items, 1));
    assert_eq!(depth_of(&items[1]), 1);
    // C belonged to B's block, so it went one level deeper too.
    assert_eq!(depth_of(&items[2]), 2);
    assert_eq!(depth_of(&items[0]), 0);
    assert_eq!(depth_of(&items[3]), 0);
}

#[test]
fn indent_then_unindent_restores_depths() {
    let mut items = vec![
        ListItem::new_todo("Parent".to_string(), false, 0, 0),
        ListItem::new_todo("Root".to_string(), false, 0, 0),
        ListItem::new_note("Child".to_string(), 1, 0),
        ListItem::new_todo("Grandchild".to_string(), false, 2, 0),
        ListItem::new_todo("After".to_string(), false, 0, 0),
    ];
    let before: Vec<usize> = items.iter().map(depth_of).collect();
    assert!(ItemActions::indent_block(&mut items, 1));
    assert!(ItemActions::unindent_block(&mut items, 1));
    let after: Vec<usize> = items.iter().map(depth_of).collect();
    assert_eq!(before, after);
}

#[test]
fn move_up_then_down_restores_order() {
    let mut items = create_test_items();
    let up = ItemActions::move_single_item_up(&mut items, 2).unwrap();
    assert_eq!(up, 1);
    let down = ItemActions::move_single_item_down(&mut items, up).unwrap();
    assert_eq!(down, 2);
    let contents: Vec<&str> = items.iter().map(|it| match it {
        ListItem::Todo { content, .. } => content.as_str(),
        ListItem::Note { content, .. } => content.as_str(),
        ListItem::Heading { content, .. } => content.as_str(),
    }).collect();
    assert_eq!(contents, vec!["Task A", "Task B", "Task C", "Task D"]);
}

#[test]
fn bulk_relocate_scenario_returns_insertion_point() {
    // Selecting {0, 2} from [A, B, C, D] and relocating to target 1 (B)
    // yields [B, A, C, D], with the run starting at index 1.
    let mut items = create_test_items();
    let mut selected = HashSet::new();
    selected.insert(0);
    selected.insert(2);
    let result = ItemActions::move_selected_items_to_position(&mut items, &selected, 1);
    assert_eq!(result, Some(1));
    let contents: Vec<&str> = items.iter().map(|it| match it {
        ListItem::Todo { content, .. } => content.as_str(),
        ListItem::Note { content, .. } => content.as_str(),
        ListItem::Heading { content, .. } => content.as_str(),
    }).collect();
    assert_eq!(contents, vec!["Task B", "Task A", "Task C", "Task D"]);
}
