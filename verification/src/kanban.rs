//! The board state machine. A `Kanban` owns the three columns, the input
//! focus, the interaction mode and one text editor, and interprets discrete
//! command tokens: navigation and movement in `Normal` mode, text entry in
//! `Editing` mode. Unrecognised tokens are ignored, and no command panics on
//! a well-formed board.

use vstd::prelude::*;

use crate::input_box::{self, InputBox};
use crate::kanban_column::{self, KanbanColumn};

verus! {

/// The mode the user is in: `Editing` while a task label is being typed,
/// `Normal` for navigating and moving tasks.
#[derive(Clone, Copy, Debug, PartialEq, Eq, Structural)]
pub enum InputMode {
    Normal,
    Editing,
}

/// Names one of the three columns; used both as the input focus and as the
/// target of movement commands.
#[derive(Clone, Copy, Debug, PartialEq, Eq, Structural)]
pub enum SelectedColumn {
    Todo,
    Doing,
    Done,
}

/// The closed set of command tokens the board interprets. The first group
/// acts in `Normal` mode, the second in `Editing` mode; a token of the
/// wrong group for the current mode is ignored.
#[derive(Clone, Copy, Debug, PartialEq, Eq, Structural)]
pub enum Command {
    Exit,
    MoveUp,
    MoveDown,
    ToggleEdit,
    Focus(SelectedColumn),
    MoveItemTo(SelectedColumn),
    DeleteSelected,
    InsertChar(char),
    Backspace,
    CursorLeft,
    CursorRight,
    Confirm,
    Cancel,
}

/// The column with its selection dropped.
pub open spec fn unselected(c: KanbanColumn) -> KanbanColumn {
    KanbanColumn { selection: None, ..c }
}

/// The column after one `select_next` step.
pub open spec fn stepped_next(c: KanbanColumn) -> KanbanColumn {
    KanbanColumn {
        selection: kanban_column::next_selection(c.selection, c.items.len()),
        ..c
    }
}

/// The column after one `select_previous` step.
pub open spec fn stepped_prev(c: KanbanColumn) -> KanbanColumn {
    KanbanColumn {
        selection: kanban_column::prev_selection(c.selection, c.items.len()),
        ..c
    }
}

/// The board that the kanban app drives: exactly three columns, the column
/// in focus, the current mode, the editor for a new task label, and the
/// shutdown flag.
#[derive(Debug)]
pub struct Kanban {
    pub should_exit: bool,
    pub todo_list: KanbanColumn,
    pub doing_list: KanbanColumn,
    pub done_list: KanbanColumn,
    pub selected_column: SelectedColumn,
    pub input_mode: InputMode,
    pub input_box: InputBox,
}

impl Kanban {
    /// The column that `which` names.
    pub open spec fn column(&self, which: SelectedColumn) -> KanbanColumn {
        match which {
            SelectedColumn::Todo => self.todo_list,
            SelectedColumn::Doing => self.doing_list,
            SelectedColumn::Done => self.done_list,
        }
    }

    /// The board with the column that `which` names replaced by `c`.
    pub open spec fn with_column(self, which: SelectedColumn, c: KanbanColumn) -> Kanban {
        match which {
            SelectedColumn::Todo => Kanban { todo_list: c, ..self },
            SelectedColumn::Doing => Kanban { doing_list: c, ..self },
            SelectedColumn::Done => Kanban { done_list: c, ..self },
        }
    }

    /// A board is well formed when its three columns and its editor are.
    pub open spec fn wf(&self) -> bool {
        &&& self.todo_list.wf()
        &&& self.doing_list.wf()
        &&& self.done_list.wf()
        &&& self.input_box.wf()
    }
}

/// The board after a focus change: the column that had the focus loses its
/// selection, the focus moves, and the newly focused column takes one
/// `select_next` step, so an unselected column jumps to its first item.
pub open spec fn focus_changed(pre: Kanban, new_focus: SelectedColumn) -> Kanban {
    let unfocused = pre.with_column(
        pre.selected_column,
        unselected(pre.column(pre.selected_column)),
    );
    let refocused = Kanban { selected_column: new_focus, ..unfocused };
    refocused.with_column(new_focus, stepped_next(refocused.column(new_focus)))
}

/// What `move_item` does. Moving into the focused column itself, or with
/// nothing selected, changes nothing at all. Otherwise the selected label
/// leaves the focused column, which ends unselected, and is appended at the
/// destination's end; everything else is untouched.
pub open spec fn moved_item(pre: Kanban, destination: SelectedColumn, post: Kanban) -> bool {
    if destination == pre.selected_column {
        post == pre
    } else {
        match pre.column(pre.selected_column).selection {
            None => post == pre,
            Some(i) => {
                let src = pre.column(pre.selected_column);
                let dst = pre.column(destination);
                &&& post.column(pre.selected_column).items@ == src.items@.remove(i as int)
                &&& post.column(pre.selected_column).selection is None
                &&& post.column(pre.selected_column).title == src.title
                &&& post.column(destination).items@ == dst.items@.push(src.items@[i as int])
                &&& post.column(destination).selection == dst.selection
                &&& post.column(destination).title == dst.title
                &&& forall|w: SelectedColumn|
                    w != pre.selected_column && w != destination
                        ==> #[trigger] post.column(w) == pre.column(w)
                &&& post.selected_column == pre.selected_column
                &&& post.input_mode == pre.input_mode
                &&& post.should_exit == pre.should_exit
                &&& post.input_box == pre.input_box
            },
        }
    }
}

/// What `delete_item` does. With nothing selected, nothing changes;
/// otherwise the selected label leaves the focused column, which ends
/// unselected, and everything else is untouched.
pub open spec fn deleted_item(pre: Kanban, post: Kanban) -> bool {
    match pre.column(pre.selected_column).selection {
        None => post == pre,
        Some(i) => {
            let src = pre.column(pre.selected_column);
            &&& post.column(pre.selected_column).items@ == src.items@.remove(i as int)
            &&& post.column(pre.selected_column).selection is None
            &&& post.column(pre.selected_column).title == src.title
            &&& forall|w: SelectedColumn|
                w != pre.selected_column ==> #[trigger] post.column(w) == pre.column(w)
            &&& post.selected_column == pre.selected_column
            &&& post.input_mode == pre.input_mode
            &&& post.should_exit == pre.should_exit
            &&& post.input_box == pre.input_box
        },
    }
}

/// What `push_message` does. An empty editor submits nothing and changes
/// nothing. Otherwise the editor's text is appended to the Todo column —
/// new tasks always enter at Todo, whatever the focus — and the editor is
/// reset to empty with the cursor at the start.
pub open spec fn pushed_message(pre: Kanban, post: Kanban) -> bool {
    if pre.input_box.input@.len() == 0 {
        post == pre
    } else {
        &&& post.todo_list.items.deep_view() == pre.todo_list.items.deep_view().push(
            pre.input_box.input@)
        &&& post.todo_list.selection == pre.todo_list.selection
        &&& post.todo_list.title == pre.todo_list.title
        &&& post.doing_list == pre.doing_list
        &&& post.done_list == pre.done_list
        &&& post.input_box.input@.len() == 0
        &&& post.input_box.character_index == 0
        &&& post.selected_column == pre.selected_column
        &&& post.input_mode == pre.input_mode
        &&& post.should_exit == pre.should_exit
    }
}

/// The transition relation for `Normal` mode: what each command token does
/// to the board. Tokens of the editing group fall to the final arm and do
/// nothing.
pub open spec fn normal_step(pre: Kanban, cmd: Command, post: Kanban) -> bool {
    match cmd {
        Command::Exit => post == (Kanban { should_exit: true, ..pre }),
        Command::MoveDown => post == pre.with_column(
            pre.selected_column,
            stepped_next(pre.column(pre.selected_column)),
        ),
        Command::MoveUp => post == pre.with_column(
            pre.selected_column,
            stepped_prev(pre.column(pre.selected_column)),
        ),
        Command::ToggleEdit => post == (Kanban { input_mode: InputMode::Editing, ..pre }),
        Command::Focus(new_focus) => post == focus_changed(pre, new_focus),
        Command::MoveItemTo(destination) => moved_item(pre, destination, post),
        Command::DeleteSelected => deleted_item(pre, post),
        _ => post == pre,
    }
}

/// The transition relation for `Editing` mode: command tokens drive the
/// editor, `Confirm` submits, and only `Cancel` returns to `Normal` mode —
/// without clearing the in-progress text. Tokens of the normal group fall
/// to the final arm and do nothing.
pub open spec fn editing_step(pre: Kanban, cmd: Command, post: Kanban) -> bool {
    match cmd {
        Command::Confirm => pushed_message(pre, post),
        Command::InsertChar(c) => {
            &&& input_box::entered_char(pre.input_box, c, post.input_box)
            &&& post == (Kanban { input_box: post.input_box, ..pre })
        },
        Command::Backspace => {
            &&& input_box::deleted_backward(pre.input_box, post.input_box)
            &&& post == (Kanban { input_box: post.input_box, ..pre })
        },
        Command::CursorLeft => post == (Kanban {
            input_box: input_box::moved_left(pre.input_box),
            ..pre
        }),
        Command::CursorRight => post == (Kanban {
            input_box: input_box::moved_right(pre.input_box),
            ..pre
        }),
        Command::Cancel => post == (Kanban { input_mode: InputMode::Normal, ..pre }),
        _ => post == pre,
    }
}

impl Kanban {
    /// Assembles a board from three loaded columns: focus on Todo, `Normal`
    /// mode, an empty editor, and the shutdown flag clear.
    pub fn new(
        todo_list: KanbanColumn,
        doing_list: KanbanColumn,
        done_list: KanbanColumn,
    ) -> (r: Kanban)
        ensures
            r.todo_list == todo_list,
            r.doing_list == doing_list,
            r.done_list == done_list,
            r.selected_column is Todo,
            r.input_mode is Normal,
            !r.should_exit,
            r.input_box.input@.len() == 0,
            r.input_box.character_index == 0,
            todo_list.wf() && doing_list.wf() && done_list.wf() ==> r.wf(),
    {
        Kanban {
            should_exit: false,
            todo_list,
            doing_list,
            done_list,
            selected_column: SelectedColumn::Todo,
            input_mode: InputMode::Normal,
            input_box: InputBox::new(),
        }
    }

    /// Runtime check of `wf`, so unverified callers can guard their calls.
    pub fn is_well_formed(&self) -> (r: bool)
        ensures
            r == self.wf(),
    {
        self.todo_list.is_well_formed() && self.doing_list.is_well_formed()
            && self.done_list.is_well_formed() && self.input_box.is_well_formed()
    }

    /// A read-only view of the column that currently has the focus.
    pub fn current_column(&self) -> (r: &KanbanColumn)
        ensures
            *r == self.column(self.selected_column),
    {
        match self.selected_column {
            SelectedColumn::Todo => &self.todo_list,
            SelectedColumn::Doing => &self.doing_list,
            SelectedColumn::Done => &self.done_list,
        }
    }

    /// Raises the shutdown flag; the surrounding loop persists the state
    /// and stops once it sees the flag.
    pub fn handle_exit(&mut self)
        ensures
            *final(self) == (Kanban { should_exit: true, ..*old(self) }),
    {
        self.should_exit = true;
    }

    /// Forwards one `select_next` step to the focused column.
    pub fn select_next_in_focus(&mut self)
        requires
            old(self).wf(),
        ensures
            *final(self) == old(self).with_column(
                old(self).selected_column,
                stepped_next(old(self).column(old(self).selected_column)),
            ),
            final(self).wf(),
    {
        match self.selected_column {
            SelectedColumn::Todo => self.todo_list.select_next(),
            SelectedColumn::Doing => self.doing_list.select_next(),
            SelectedColumn::Done => self.done_list.select_next(),
        }
    }

    /// Forwards one `select_previous` step to the focused column.
    pub fn select_previous_in_focus(&mut self)
        requires
            old(self).wf(),
        ensures
            *final(self) == old(self).with_column(
                old(self).selected_column,
                stepped_prev(old(self).column(old(self).selected_column)),
            ),
            final(self).wf(),
    {
        match self.selected_column {
            SelectedColumn::Todo => self.todo_list.select_previous(),
            SelectedColumn::Doing => self.doing_list.select_previous(),
            SelectedColumn::Done => self.done_list.select_previous(),
        }
    }

    /// Gives the focus to `new_focus`: the old focus loses its selection
    /// and the new focus takes one `select_next` step.
    pub fn change_focus(&mut self, new_focus: SelectedColumn)
        requires
            old(self).wf(),
        ensures
            *final(self) == focus_changed(*old(self), new_focus),
            final(self).wf(),
    {
        match self.selected_column {
            SelectedColumn::Todo => self.todo_list.clear_select(),
            SelectedColumn::Doing => self.doing_list.clear_select(),
            SelectedColumn::Done => self.done_list.clear_select(),
        }
        self.selected_column = new_focus;
        match self.selected_column {
            SelectedColumn::Todo => self.todo_list.select_next(),
            SelectedColumn::Doing => self.doing_list.select_next(),
            SelectedColumn::Done => self.done_list.select_next(),
        }
    }

    /// Moves the selected task of the focused column to the end of the
    /// destination column. Moving into the focused column itself leaves
    /// every column byte for byte as it was; afterwards the source column
    /// is always left with a legal selection state, namely none.
    pub fn move_item(&mut self, destination_list: SelectedColumn)
        requires
            old(self).wf(),
        ensures
            moved_item(*old(self), destination_list, *final(self)),
            final(self).wf(),
    {
        if self.selected_column == destination_list {
            return;
        }
        if let Some(i) = self.current_column().selected() {
            let item = match self.selected_column {
                SelectedColumn::Todo => self.todo_list.remove(i),
                SelectedColumn::Doing => self.doing_list.remove(i),
                SelectedColumn::Done => self.done_list.remove(i),
            };
            match destination_list {
                SelectedColumn::Todo => self.todo_list.push(item),
                SelectedColumn::Doing => self.doing_list.push(item),
                SelectedColumn::Done => self.done_list.push(item),
            }
            match self.selected_column {
                SelectedColumn::Todo => self.todo_list.clear_select(),
                SelectedColumn::Doing => self.doing_list.clear_select(),
                SelectedColumn::Done => self.done_list.clear_select(),
            }
        }
    }

    /// Removes the selected task of the focused column, which is left
    /// unselected; with no selection this does nothing.
    pub fn delete_item(&mut self)
        requires
            old(self).wf(),
        ensures
            deleted_item(*old(self), *final(self)),
            final(self).wf(),
    {
        if let Some(i) = self.current_column().selected() {
            match self.selected_column {
                SelectedColumn::Todo => {
                    self.todo_list.remove(i);
                    self.todo_list.clear_select();
                },
                SelectedColumn::Doing => {
                    self.doing_list.remove(i);
                    self.doing_list.clear_select();
                },
                SelectedColumn::Done => {
                    self.done_list.remove(i);
                    self.done_list.clear_select();
                },
            }
        }
    }

    /// Switches between `Normal` and `Editing` mode.
    pub fn change_input_mode(&mut self)
        ensures
            *final(self) == (Kanban {
                input_mode: (match old(self).input_mode {
                    InputMode::Normal => InputMode::Editing,
                    InputMode::Editing => InputMode::Normal,
                }),
                ..*old(self)
            }),
    {
        match self.input_mode {
            InputMode::Normal => self.input_mode = InputMode::Editing,
            InputMode::Editing => self.input_mode = InputMode::Normal,
        }
    }

    /// Submits the editor's text: a finished label is appended to the Todo
    /// column, an empty editor submits nothing.
    pub fn push_message(&mut self)
        requires
            old(self).wf(),
        ensures
            pushed_message(*old(self), *final(self)),
            final(self).wf(),
    {
        let message = self.input_box.submit_message();
        if let Some(message) = message {
            let ghost before = self.todo_list.items.deep_view();
            self.todo_list.push(message);
            proof {
                assert(self.todo_list.items.deep_view() =~= before.push(
                    old(self).input_box.input@));
            }
        }
    }

    /// Interprets one command token in `Normal` mode.
    pub fn normal_mode_input(&mut self, cmd: Command)
        requires
            old(self).wf(),
            old(self).input_mode is Normal,
        ensures
            normal_step(*old(self), cmd, *final(self)),
            final(self).wf(),
    {
        match cmd {
            Command::Exit => self.handle_exit(),
            Command::MoveDown => self.select_next_in_focus(),
            Command::MoveUp => self.select_previous_in_focus(),
            Command::ToggleEdit => self.change_input_mode(),
            Command::Focus(new_focus) => self.change_focus(new_focus),
            Command::MoveItemTo(destination) => self.move_item(destination),
            Command::DeleteSelected => self.delete_item(),
            _ => {},
        }
    }

    /// Interprets one command token in `Editing` mode.
    pub fn editing_mode_input(&mut self, cmd: Command)
        requires
            old(self).wf(),
            old(self).input_mode is Editing,
        ensures
            editing_step(*old(self), cmd, *final(self)),
            final(self).wf(),
    {
        match cmd {
            Command::Confirm => self.push_message(),
            Command::InsertChar(c) => self.input_box.enter_char(c),
            Command::Backspace => self.input_box.delete_char(),
            Command::CursorLeft => self.input_box.move_cursor_left(),
            Command::CursorRight => self.input_box.move_cursor_right(),
            Command::Cancel => self.input_mode = InputMode::Normal,
            _ => {},
        }
    }

    /// The board's single entry point: dispatches one command token on the
    /// current mode.
    pub fn handle_key(&mut self, cmd: Command)
        requires
            old(self).wf(),
        ensures
            old(self).input_mode is Normal ==> normal_step(*old(self), cmd, *final(self)),
            old(self).input_mode is Editing ==> editing_step(*old(self), cmd, *final(self)),
            final(self).wf(),
    {
        match self.input_mode {
            InputMode::Normal => self.normal_mode_input(cmd),
            InputMode::Editing => self.editing_mode_input(cmd),
        }
    }
}

} // verus!
