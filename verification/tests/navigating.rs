use todo_tui::models::ListItem;
use todo_tui::navigation::{ItemCreator, NavigationState};

#[test]
fn test_navigation_state_new() {
    let nav_state = NavigationState::new();
    assert_eq!(nav_state.selected_index, 0);
    assert_eq!(nav_state.scroll_offset, 0);
    assert!(nav_state.selected_items.is_empty());
}

#[test]
fn test_move_selection() {
    let mut nav_state = NavigationState::new();

    nav_state.move_selection_down(5);
    assert_eq!(nav_state.selected_index, 1);

    nav_state.move_selection_up();
    assert_eq!(nav_state.selected_index, 0);

    nav_state.move_selection_up();
    assert_eq!(nav_state.selected_index, 0);

    nav_state.selected_index = 4;
    nav_state.move_selection_down(5);
    assert_eq!(nav_state.selected_index, 4);
}

#[test]
fn test_toggle_item_selection() {
    let mut nav_state = NavigationState::new();

    nav_state.toggle_item_selection(5);
    assert!(nav_state.selected_items.contains(&0));
    assert_eq!(nav_state.selection_count(), 1);

    nav_state.toggle_item_selection(5);
    assert!(!nav_state.selected_items.contains(&0));
    assert_eq!(nav_state.selection_count(), 0);

    nav_state.selected_index = 1;
    nav_state.toggle_item_selection(5);
    nav_state.selected_index = 3;
    nav_state.toggle_item_selection(5);
    assert_eq!(nav_state.selection_count(), 2);
    assert!(nav_state.is_item_selected(1));
    assert!(nav_state.is_item_selected(3));
}

#[test]
fn test_clear_selection() {
    let mut nav_state = NavigationState::new();

    nav_state.toggle_item_selection(5);
    nav_state.selected_index = 2;
    nav_state.toggle_item_selection(5);

    assert_eq!(nav_state.selection_count(), 2);

    nav_state.clear_selection();
    assert_eq!(nav_state.selection_count(), 0);
    assert!(!nav_state.has_selection());
}

#[test]
fn test_find_current_heading_context() {
    let items = vec![
        ListItem::new_todo("Task 1".to_string(), false, 0, 0),
        ListItem::new_heading("Section A".to_string(), 1, 1),
        ListItem::new_todo("Task 2".to_string(), false, 0, 2),
        ListItem::new_heading("Section B".to_string(), 1, 3),
        ListItem::new_todo("Task 3".to_string(), false, 0, 4),
    ];

    let context = ItemCreator::find_current_heading_context(&items, 4);
    assert_eq!(context, 4);

    let context = ItemCreator::find_current_heading_context(&items, 2);
    assert_eq!(context, 2);

    let context = ItemCreator::find_current_heading_context(&items, 0);
    assert_eq!(context, 0);
}

#[test]
fn test_get_block_range() {
    let items = vec![
        ListItem::new_todo("Parent".to_string(), false, 0, 0),
        ListItem::new_todo("Child 1".to_string(), false, 1, 1),
        ListItem::new_todo("Child 2".to_string(), false, 1, 2),
        ListItem::new_todo("Next parent".to_string(), false, 0, 3),
    ];

    let (start, end) = ItemCreator::get_block_range(&items, 0);
    assert_eq!(start, 0);
    assert_eq!(end, 2);

    let (start, end) = ItemCreator::get_block_range(&items, 3);
    assert_eq!(start, 3);
    assert_eq!(end, 3);
}

#[test]
fn test_determine_insert_position_for_new_todo() {
    let items = vec![
        ListItem::new_todo("Parent".to_string(), false, 0, 0),
        ListItem::new_todo("Child".to_string(), false, 1, 1),
        ListItem::new_todo("Sibling".to_string(), false, 0, 2),
    ];

    let (pos, indent) = ItemCreator::determine_insert_position_for_new_todo(&items, 0);
    assert_eq!(pos, 2);
    assert_eq!(indent, 1);

    let (pos, indent) = ItemCreator::determine_insert_position_for_new_todo(&items, 2);
    assert_eq!(pos, 3);
    assert_eq!(indent, 0);
}

#[test]
fn scroll_follows_selection() {
    let mut nav_state = NavigationState::new();
    // Twenty rows are visible: moving far down pulls the window so the
    // focus sits on its last row.
    nav_state.selected_index = 30;
    nav_state.update_scroll();
    assert_eq!(nav_state.scroll_offset, 11);
    // Moving back above the window pulls it up to the focus.
    nav_state.selected_index = 5;
    nav_state.update_scroll();
    assert_eq!(nav_state.scroll_offset, 5);
    // A focus already inside the window leaves it alone.
    nav_state.selected_index = 20;
    nav_state.update_scroll();
    assert_eq!(nav_state.scroll_offset, 5);
}

#[test]
fn block_range_stops_at_heading() {
    let items = vec![
        ListItem::new_todo("Root".to_string(), false, 0, 0),
        ListItem::new_todo("Deep".to_string(), false, 2, 1),
        ListItem::new_heading("Stop".to_string(), 1, 2),
        ListItem::new_todo("Deeper".to_string(), false, 3, 3),
    ];
    // The heading terminates the block even though the item after it is
    // deeper than the root.
    let (start, end) = ItemCreator::get_block_range(&items, 0);
    assert_eq!(start, 0);
    assert_eq!(end, 1);
    // Out-of-range positions give the empty range.
    let (start, end) = ItemCreator::get_block_range(&items, 9);
    assert_eq!((start, end), (9, 9));
}

#[test]
fn block_range_of_heading_is_empty() {
    // A heading has no subtree: querying it yields the empty range even
    // when deeper items follow it.
    let items = vec![
        ListItem::new_heading("Section".to_string(), 1, 0),
        ListItem::new_todo("Task".to_string(), false, 1, 1),
    ];
    let (start, end) = ItemCreator::get_block_range(&items, 0);
    assert_eq!((start, end), (0, 0));
}
