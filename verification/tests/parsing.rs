use todo_tui::models::ListItem;
use todo_tui::parser::{calculate_indent_level, parse_line, parse_todo_content};

#[test]
fn test_parse_uncompleted_checkbox() {
    let item = parse_line("- [ ] Buy groceries", 0);
    assert!(item.is_some());
    let item = item.unwrap();
    match item {
        ListItem::Todo { content, completed, indent_level, .. } => {
            assert_eq!(content, "Buy groceries");
            assert!(!completed);
            assert_eq!(indent_level, 0);
        }
        _ => panic!("Expected Todo item"),
    }
}

#[test]
fn test_parse_completed_checkbox() {
    let item = parse_line("- [x] Finish project", 1);
    assert!(item.is_some());
    let item = item.unwrap();
    match item {
        ListItem::Todo { content, completed, indent_level, .. } => {
            assert_eq!(content, "Finish project");
            assert!(completed);
            assert_eq!(indent_level, 0);
        }
        _ => panic!("Expected Todo item"),
    }
}

#[test]
fn test_parse_indented_checkbox() {
    let item = parse_line("  - [ ] Subtask", 2);
    assert!(item.is_some());
    let item = item.unwrap();
    match item {
        ListItem::Todo { content, completed, indent_level, .. } => {
            assert_eq!(content, "Subtask");
            assert!(!completed);
            assert_eq!(indent_level, 1);
        }
        _ => panic!("Expected Todo item"),
    }
}

#[test]
fn test_parse_heading() {
    let item = parse_line("# Main Section", 0);
    assert!(item.is_some());
    let item = item.unwrap();
    match item {
        ListItem::Heading { content, level, .. } => {
            assert_eq!(content, "Main Section");
            assert_eq!(level, 1);
        }
        _ => panic!("Expected Heading item"),
    }
}

#[test]
fn test_parse_nested_heading() {
    let item = parse_line("## Subsection", 0);
    assert!(item.is_some());
    let item = item.unwrap();
    match item {
        ListItem::Heading { content, level, .. } => {
            assert_eq!(content, "Subsection");
            assert_eq!(level, 2);
        }
        _ => panic!("Expected Heading item"),
    }
}

#[test]
fn test_parse_bullet_note() {
    let item = parse_line("- This is a bullet note", 0);
    assert!(item.is_some());
    let item = item.unwrap();
    match item {
        ListItem::Note { content, indent_level, .. } => {
            assert_eq!(content, "This is a bullet note");
            assert_eq!(indent_level, 0);
        }
        _ => panic!("Expected Note item"),
    }
}

#[test]
fn test_parse_indented_bullet_note() {
    let item = parse_line("  - This is an indented note", 0);
    assert!(item.is_some());
    let item = item.unwrap();
    match item {
        ListItem::Note { content, indent_level, .. } => {
            assert_eq!(content, "This is an indented note");
            assert_eq!(indent_level, 1);
        }
        _ => panic!("Expected Note item"),
    }
}

#[test]
fn test_parse_non_checkbox_line() {
    let item = parse_line("This is just a note", 0);
    assert!(item.is_none());
}

#[test]
fn test_parse_invalid_checkbox() {
    let item = parse_line("- [invalid] content", 0);
    assert!(item.is_none());
}

#[test]
fn test_parse_tab_indented_checkbox() {
    let item = parse_line("\t- [ ] Tab indented task", 0);
    assert!(item.is_some());
    let item = item.unwrap();
    match item {
        ListItem::Todo { content, completed, indent_level, .. } => {
            assert_eq!(content, "Tab indented task");
            assert!(!completed);
            assert_eq!(indent_level, 1);
        }
        _ => panic!("Expected Todo item"),
    }
}

#[test]
fn test_parse_double_tab_indented_checkbox() {
    let item = parse_line("\t\t- [ ] Double tab indented task", 0);
    assert!(item.is_some());
    let item = item.unwrap();
    match item {
        ListItem::Todo { content, completed, indent_level, .. } => {
            assert_eq!(content, "Double tab indented task");
            assert!(!completed);
            assert_eq!(indent_level, 2);
        }
        _ => panic!("Expected Todo item"),
    }
}

#[test]
fn test_calculate_indent_level() {
    assert_eq!(calculate_indent_level("- [ ] No indent"), 0);
    assert_eq!(calculate_indent_level("  - [ ] Two spaces"), 1);
    assert_eq!(calculate_indent_level("    - [ ] Four spaces"), 2);
    assert_eq!(calculate_indent_level("\t- [ ] One tab"), 1);
    assert_eq!(calculate_indent_level("\t\t- [ ] Two tabs"), 2);
}

#[test]
fn test_parse_content_with_notes() {
    let original_content = "# Test Project\n\n- [ ] First task\n- This is a note\n  - Nested note\n- [x] Completed task\n  - [ ] Subtask\n  - Another note under task\n";
    let todo_list = parse_todo_content("notes.md".to_string(), original_content);
    assert_eq!(todo_list.items.len(), 7);
    assert!(matches!(todo_list.items[0], ListItem::Heading { .. }));
    assert!(matches!(todo_list.items[1], ListItem::Todo { .. }));
    assert!(matches!(todo_list.items[2], ListItem::Note { .. }));
    assert!(matches!(todo_list.items[3], ListItem::Note { .. }));
    assert!(matches!(todo_list.items[4], ListItem::Todo { .. }));
    assert!(matches!(todo_list.items[5], ListItem::Todo { .. }));
    assert!(matches!(todo_list.items[6], ListItem::Note { .. }));
}

#[test]
fn test_parse_content_skips_front_matter() {
    let content = "---\ntitle: things\n- [ ] not an item\n---\n- [ ] Real task\n";
    let todo_list = parse_todo_content("fm.md".to_string(), content);
    assert_eq!(todo_list.items.len(), 1);
    match &todo_list.items[0] {
        ListItem::Todo { content, line_number, .. } => {
            assert_eq!(content, "Real task");
            assert_eq!(*line_number, 4);
        }
        _ => panic!("Expected Todo item"),
    }
}

#[test]
fn test_parse_content_empty() {
    let todo_list = parse_todo_content("empty.md".to_string(), "");
    assert_eq!(todo_list.items.len(), 0);
    assert_eq!(todo_list.file_path, "empty.md");
}

#[test]
fn test_parse_content_carriage_returns() {
    let content = "# Windows\r\n- [ ] Task one\r\n";
    let todo_list = parse_todo_content("crlf.md".to_string(), content);
    assert_eq!(todo_list.items.len(), 2);
    match &todo_list.items[1] {
        ListItem::Todo { content, .. } => assert_eq!(content, "Task one"),
        _ => panic!("Expected Todo item"),
    }
}
