use todo_tui::models::ListItem;
use todo_tui::search::SearchState;

fn create_test_items() -> Vec<ListItem> {
    vec![
        ListItem::new_todo("Buy groceries".to_string(), false, 0, 0),
        ListItem::new_todo("Walk the dog".to_string(), false, 0, 0),
        ListItem::new_note("Remember to buy milk".to_string(), 0, 0),
        ListItem::new_heading("Work Tasks".to_string(), 1, 0),
        ListItem::new_todo("Finish project".to_string(), false, 0, 0),
    ]
}

#[test]
fn test_search_state_new() {
    let search_state = SearchState::new();
    assert!(!search_state.search_mode);
    assert!(search_state.search_query.is_empty());
    assert!(search_state.search_matches.is_empty());
    assert!(search_state.current_match_index.is_none());
}

#[test]
fn test_enter_search_mode() {
    let mut search_state = SearchState::new();
    search_state.enter_search_mode();

    assert!(search_state.search_mode);
    assert!(search_state.search_query.is_empty());
    assert!(search_state.search_matches.is_empty());
    assert!(search_state.current_match_index.is_none());
}

#[test]
fn test_cancel_search() {
    let mut search_state = SearchState::new();
    let items = create_test_items();

    search_state.enter_search_mode();
    search_state.insert_char('b', &items);
    search_state.cancel_search();

    assert!(!search_state.search_mode);
    assert!(search_state.search_query.is_empty());
    assert!(search_state.search_matches.is_empty());
    assert!(search_state.current_match_index.is_none());
}

#[test]
fn test_search_matches() {
    let mut search_state = SearchState::new();
    let items = create_test_items();

    search_state.enter_search_mode();
    search_state.insert_char('b', &items);
    search_state.insert_char('u', &items);
    search_state.insert_char('y', &items);

    assert_eq!(search_state.search_query, "buy");
    assert_eq!(search_state.search_matches, vec![0, 2]);
}

#[test]
fn test_next_and_previous_match() {
    let mut search_state = SearchState::new();
    let items = create_test_items();

    search_state.enter_search_mode();
    search_state.insert_char('t', &items);

    assert_eq!(search_state.search_matches, vec![1, 2, 3, 4]);

    let first_match = search_state.next_match();
    assert_eq!(first_match, Some(1));
    assert_eq!(search_state.current_match_index, Some(0));

    let second_match = search_state.next_match();
    assert_eq!(second_match, Some(2));
    assert_eq!(search_state.current_match_index, Some(1));

    let third_match = search_state.next_match();
    assert_eq!(third_match, Some(3));
    let fourth_match = search_state.next_match();
    assert_eq!(fourth_match, Some(4));
    let wrap_match = search_state.next_match();
    assert_eq!(wrap_match, Some(1));

    let prev_match = search_state.previous_match();
    assert_eq!(prev_match, Some(4));
}

#[test]
fn search_test_backspace() {
    let mut search_state = SearchState::new();
    let items = create_test_items();

    search_state.enter_search_mode();
    search_state.insert_char('b', &items);
    search_state.insert_char('u', &items);
    search_state.insert_char('y', &items);

    assert_eq!(search_state.search_matches.len(), 2);

    search_state.backspace(&items);
    assert_eq!(search_state.search_query, "bu");
    assert_eq!(search_state.search_matches.len(), 2);
}

#[test]
fn test_confirm_search() {
    let mut search_state = SearchState::new();
    let items = create_test_items();

    search_state.enter_search_mode();
    search_state.insert_char('d', &items);

    let result = search_state.confirm_search();
    assert_eq!(result, Some(1));
    assert!(!search_state.search_mode);
    assert_eq!(search_state.current_match_index, Some(0));
}

#[test]
fn search_scenario_cycles_through_matches() {
    // Query "buy" over ["Buy groceries", "Walk the dog", "Remember to
    // buy milk"] matches positions 0 and 2, case-insensitively; cycling
    // with next goes 0, 2 and wraps back to 0.
    let items = vec![
        ListItem::new_todo("Buy groceries".to_string(), false, 0, 0),
        ListItem::new_todo("Walk the dog".to_string(), false, 0, 0),
        ListItem::new_note("Remember to buy milk".to_string(), 0, 0),
    ];
    let mut search_state = SearchState::new();
    search_state.enter_search_mode();
    search_state.insert_char('b', &items);
    search_state.insert_char('u', &items);
    search_state.insert_char('y', &items);
    assert_eq!(search_state.search_matches, vec![0, 2]);

    assert_eq!(search_state.next_match(), Some(0));
    assert_eq!(search_state.next_match(), Some(2));
    assert_eq!(search_state.next_match(), Some(0));
}

#[test]
fn clear_results_keeps_query() {
    let mut search_state = SearchState::new();
    let items = create_test_items();
    search_state.enter_search_mode();
    search_state.insert_char('t', &items);
    assert!(!search_state.search_matches.is_empty());
    search_state.clear_results();
    assert!(search_state.search_matches.is_empty());
    assert!(search_state.current_match_index.is_none());
    assert_eq!(search_state.search_query, "t");
}

#[test]
fn update_matches_empty_query_matches_nothing() {
    let mut search_state = SearchState::new();
    let items = create_test_items();
    search_state.update_search_matches(&items);
    assert!(search_state.search_matches.is_empty());
}
