use kanban::footer::Footer;
use kanban::kanban::{Kanban, SelectedColumn};
use kanban::kanban_column::KanbanColumn;
use kanban::persistence::Persistence;

fn column_with(title: &str, items: &[&str]) -> KanbanColumn {
    let mut column = KanbanColumn::new(title.to_string());
    for item in items {
        column.push(item.to_string());
    }
    column
}

#[test]
fn save_and_load_round_trip() {
    // Todo=["a","b"], Doing=[], Done=["c"]: loading the saved text gives
    // back exactly these lists, unselected, and a fresh board focuses Todo.
    let todo = column_with("TODO", &["a", "b"]);
    let doing = column_with("Doing", &[]);
    let done = column_with("Done", &["c"]);

    let data = Persistence::persist(&todo, &doing, &done);
    let (todo2, doing2, done2) = Persistence::load(&data).expect("saved state must load");

    assert_eq!(todo2.items, vec!["a".to_string(), "b".to_string()]);
    assert!(doing2.items.is_empty());
    assert_eq!(done2.items, vec!["c".to_string()]);
    assert_eq!(todo2.selected(), None);
    assert_eq!(doing2.selected(), None);
    assert_eq!(done2.selected(), None);

    let board = Kanban::new(todo2, doing2, done2);
    assert_eq!(board.selected_column, SelectedColumn::Todo);
}

#[test]
fn round_trip_keeps_unicode_labels() {
    let todo = column_with("TODO", &["caf\u{e9} \"quoted\"", "line\nbreak"]);
    let doing = column_with("Doing", &["\u{1f600}"]);
    let done = column_with("Done", &[]);

    let reloaded = Persistence::persist_round_trip(&todo, &doing, &done)
        .expect("saved state must load");
    assert_eq!(reloaded.0.items, todo.items);
    assert_eq!(reloaded.1.items, doing.items);
    assert_eq!(reloaded.2.items, done.items);
}

#[test]
fn load_rejects_garbage() {
    assert!(Persistence::load("this is not a saved board").is_none());
    assert!(Persistence::load("{\"todo\": []}").is_none());
}

#[test]
fn loaded_columns_carry_standard_titles() {
    let data = Persistence::persist(
        &column_with("TODO", &[]),
        &column_with("Doing", &[]),
        &column_with("Done", &[]),
    );
    let (todo, doing, done) = Persistence::load(&data).expect("saved state must load");
    assert_eq!(todo.title, "TODO");
    assert_eq!(doing.title, "Doing");
    assert_eq!(done.title, "Done");
}

#[test]
fn footer_has_a_help_line() {
    assert!(!Footer::message().is_empty());
}
