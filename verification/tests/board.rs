use kanban::kanban::{Command, InputMode, Kanban, SelectedColumn};
use kanban::kanban_column::KanbanColumn;

fn empty_board() -> Kanban {
    Kanban::new(
        KanbanColumn::new("TODO".to_string()),
        KanbanColumn::new("Doing".to_string()),
        KanbanColumn::new("Done".to_string()),
    )
}

#[test]
fn add_task_end_to_end() {
    // Focus Todo, enter editing mode, type "wash car", confirm, cancel:
    // the Todo column holds the task and the board is back in Normal mode.
    let mut board = empty_board();
    board.handle_key(Command::Focus(SelectedColumn::Todo));
    board.handle_key(Command::ToggleEdit);
    for c in "wash car".chars() {
        board.handle_key(Command::InsertChar(c));
    }
    board.handle_key(Command::Confirm);
    board.handle_key(Command::Cancel);
    assert_eq!(board.todo_list.items, vec!["wash car".to_string()]);
    assert_eq!(board.input_mode, InputMode::Normal);
}

#[test]
fn move_selected_task_end_to_end() {
    // One selected task in Todo; moving it to Doing empties Todo, clears
    // its selection, and appends the task at Doing's end.
    let mut board = empty_board();
    board.todo_list.push("task".to_string());
    board.doing_list.push("older".to_string());
    board.handle_key(Command::MoveDown);
    assert_eq!(board.todo_list.selected(), Some(0));
    board.handle_key(Command::MoveItemTo(SelectedColumn::Doing));
    assert!(board.todo_list.items.is_empty());
    assert_eq!(board.todo_list.selected(), None);
    assert_eq!(
        board.doing_list.items,
        vec!["older".to_string(), "task".to_string()]
    );
}

#[test]
fn move_to_focused_column_changes_nothing() {
    let mut board = empty_board();
    board.todo_list.push("a".to_string());
    board.doing_list.push("b".to_string());
    board.handle_key(Command::MoveDown);
    board.handle_key(Command::MoveItemTo(SelectedColumn::Todo));
    assert_eq!(board.todo_list.items, vec!["a".to_string()]);
    assert_eq!(board.doing_list.items, vec!["b".to_string()]);
    assert_eq!(board.todo_list.selected(), Some(0));
}

#[test]
fn move_without_selection_changes_nothing() {
    let mut board = empty_board();
    board.todo_list.push("a".to_string());
    board.handle_key(Command::MoveItemTo(SelectedColumn::Done));
    assert_eq!(board.todo_list.items, vec!["a".to_string()]);
    assert!(board.done_list.items.is_empty());
}

#[test]
fn delete_selected_task() {
    let mut board = empty_board();
    board.todo_list.push("a".to_string());
    board.todo_list.push("b".to_string());
    board.handle_key(Command::MoveDown);
    board.handle_key(Command::DeleteSelected);
    assert_eq!(board.todo_list.items, vec!["b".to_string()]);
    assert_eq!(board.todo_list.selected(), None);
}

#[test]
fn focus_change_selects_first_item() {
    let mut board = empty_board();
    board.doing_list.push("a".to_string());
    board.handle_key(Command::MoveDown);
    board.handle_key(Command::Focus(SelectedColumn::Doing));
    assert_eq!(board.selected_column, SelectedColumn::Doing);
    assert_eq!(board.todo_list.selected(), None);
    assert_eq!(board.doing_list.selected(), Some(0));
}

#[test]
fn focus_change_to_empty_column_selects_nothing() {
    let mut board = empty_board();
    board.handle_key(Command::Focus(SelectedColumn::Done));
    assert_eq!(board.selected_column, SelectedColumn::Done);
    assert_eq!(board.done_list.selected(), None);
}

#[test]
fn exit_raises_the_flag_only() {
    let mut board = empty_board();
    board.todo_list.push("a".to_string());
    board.handle_key(Command::Exit);
    assert!(board.should_exit);
    assert_eq!(board.todo_list.items, vec!["a".to_string()]);
}

#[test]
fn cancel_keeps_typed_text() {
    let mut board = empty_board();
    board.handle_key(Command::ToggleEdit);
    board.handle_key(Command::InsertChar('h'));
    board.handle_key(Command::InsertChar('i'));
    board.handle_key(Command::Cancel);
    assert_eq!(board.input_mode, InputMode::Normal);
    assert_eq!(board.input_box.text(), "hi");
    assert_eq!(board.input_box.get_char_index(), 2);
}

#[test]
fn confirm_on_empty_editor_adds_nothing() {
    let mut board = empty_board();
    board.handle_key(Command::ToggleEdit);
    board.handle_key(Command::Confirm);
    assert!(board.todo_list.items.is_empty());
    assert_eq!(board.input_mode, InputMode::Editing);
}

#[test]
fn editing_tokens_are_ignored_in_normal_mode() {
    let mut board = empty_board();
    board.handle_key(Command::InsertChar('x'));
    board.handle_key(Command::Backspace);
    assert_eq!(board.input_box.text(), "");
    assert!(board.todo_list.items.is_empty());
    assert_eq!(board.input_mode, InputMode::Normal);
}

#[test]
fn new_tasks_always_enter_at_todo() {
    let mut board = empty_board();
    board.handle_key(Command::Focus(SelectedColumn::Done));
    board.handle_key(Command::ToggleEdit);
    board.handle_key(Command::InsertChar('t'));
    board.handle_key(Command::Confirm);
    assert_eq!(board.todo_list.items, vec!["t".to_string()]);
    assert!(board.done_list.items.is_empty());
}

#[test]
fn new_board_is_well_formed() {
    let board = empty_board();
    assert!(board.is_well_formed());
    assert_eq!(board.selected_column, SelectedColumn::Todo);
    assert_eq!(board.input_mode, InputMode::Normal);
    assert!(!board.should_exit);
}
