use kanban::kanban_column::{fit_to_width, KanbanColumn};

#[test]
fn test_new_column_is_empty() {
    let column = KanbanColumn::new("Test".to_string());
    assert_eq!(column.items.len(), 0);
    assert_eq!(column.selected(), None);
    assert_eq!(column.title, "Test");
}

#[test]
fn test_push_item() {
    let mut column = KanbanColumn::new("Test".to_string());
    column.push("Task 1".to_string());
    assert_eq!(column.items.len(), 1);
    assert_eq!(column.items[0], "Task 1");
}

#[test]
fn test_remove_item() {
    let mut column = KanbanColumn::new("Test".to_string());
    column.push("Task 1".to_string());
    column.push("Task 2".to_string());

    let removed = column.remove(0);
    assert_eq!(removed, "Task 1");
    assert_eq!(column.items.len(), 1);
    assert_eq!(column.items[0], "Task 2");
}

#[test]
fn test_selection_navigation() {
    let mut column = KanbanColumn::new("Test".to_string());
    column.push("Task 1".to_string());
    column.push("Task 2".to_string());
    column.push("Task 3".to_string());

    // Test initial selection
    assert_eq!(column.selected(), None);

    // Test select next
    column.select_next();
    assert_eq!(column.selected(), Some(0));

    column.select_next();
    assert_eq!(column.selected(), Some(1));

    // Test select previous
    column.select_previous();
    assert_eq!(column.selected(), Some(0));

    // Test clear selection
    column.clear_select();
    assert_eq!(column.selected(), None);
}

#[test]
fn test_selection_never_leaves_range() {
    let mut column = KanbanColumn::new("Test".to_string());
    column.push("Task 1".to_string());
    column.push("Task 2".to_string());

    // Walking down past the end clamps at the last index.
    column.select_next();
    column.select_next();
    column.select_next();
    column.select_next();
    assert_eq!(column.selected(), Some(1));

    // Walking up past the start clamps at the first index.
    column.select_previous();
    column.select_previous();
    column.select_previous();
    assert_eq!(column.selected(), Some(0));
}

#[test]
fn test_empty_column_rejects_selection() {
    let mut column = KanbanColumn::new("Test".to_string());
    column.select_next();
    assert_eq!(column.selected(), None);
    column.select_previous();
    assert_eq!(column.selected(), None);
}

#[test]
fn test_to_json_copies_items() {
    let mut column = KanbanColumn::new("Test".to_string());
    column.push("a".to_string());
    column.push("b".to_string());
    assert_eq!(column.to_json(), vec!["a".to_string(), "b".to_string()]);
}

#[test]
fn test_well_formed_check_spots_bad_states() {
    let good = KanbanColumn::new("Test".to_string());
    assert!(good.is_well_formed());

    let stale_selection = KanbanColumn {
        items: Vec::new(),
        selection: Some(0),
        title: "Test".to_string(),
    };
    assert!(!stale_selection.is_well_formed());

    let empty_title = KanbanColumn {
        items: Vec::new(),
        selection: None,
        title: String::new(),
    };
    assert!(!empty_title.is_well_formed());
}

#[test]
fn test_fit_to_width_breaks_lines() {
    assert_eq!(fit_to_width("abcdef", 2), "ab\ncd\nef");
    assert_eq!(fit_to_width("abcde", 2), "ab\ncd\ne");
    assert_eq!(fit_to_width("abc", 5), "abc");
    assert_eq!(fit_to_width("", 3), "");
}

#[test]
fn test_fit_to_width_counts_characters_not_bytes() {
    // Two-byte characters still count as one column each.
    assert_eq!(fit_to_width("\u{e9}\u{e9}\u{e9}", 2), "\u{e9}\u{e9}\n\u{e9}");
}
