//! The durable form of the board: three named, ordered lists of task labels
//! (`todo`, `doing`, `done`). Selection, focus and mode are never part of
//! this form; every load starts unselected.
//!
//! The encoding itself is done by `serde_json`; this module states the one
//! property the board needs of it: decoding an encoded state restores the
//! three lists exactly.

use vstd::prelude::*;
use vstd::string::*;

use crate::kanban_column::KanbanColumn;

verus! {

/// The text that the JSON encoder produces for a board state of three item
/// lists. Its exact shape is the encoder's business; all that matters here
/// is that it is a function of the lists alone and that decoding it gives
/// the lists back.
pub uninterp spec fn board_json(
    todo: Seq<Seq<char>>,
    doing: Seq<Seq<char>>,
    done: Seq<Seq<char>>,
) -> Seq<char>;

/// Relies on `serde_json::to_string_pretty` applied to an ordered map with
/// the keys `todo`, `doing` and `done`: the output depends on the three item
/// lists alone. Serialization of a string-keyed map of string lists cannot
/// fail, so the unwrap never fires.
#[verifier::external_body]
fn encode_state(todo: &Vec<String>, doing: &Vec<String>, done: &Vec<String>) -> (r: String)
    ensures
        r@ == board_json(todo.deep_view(), doing.deep_view(), done.deep_view()),
{
    let mut record = std::collections::BTreeMap::new();
    record.insert("todo", todo.clone());
    record.insert("doing", doing.clone());
    record.insert("done", done.clone());
    serde_json::to_string_pretty(&record).unwrap()
}

/// Relies on `serde_json::from_str` for a map from strings to string lists:
/// parsing text that `serde_json::to_string_pretty` produced from such a map
/// yields the same map back, so text that encodes a board state decodes to
/// exactly the three item lists it was made from. Of any other input nothing
/// is claimed.
#[verifier::external_body]
fn decode_state(data: &str) -> (r: Option<(Vec<String>, Vec<String>, Vec<String>)>)
    ensures
        r is None ==> forall|t: Seq<Seq<char>>, d: Seq<Seq<char>>, n: Seq<Seq<char>>|
            data@ != #[trigger] board_json(t, d, n),
        r matches Some(lists) ==> forall|t: Seq<Seq<char>>, d: Seq<Seq<char>>, n: Seq<Seq<char>>|
            data@ == #[trigger] board_json(t, d, n) ==> {
                &&& lists.0.deep_view() == t
                &&& lists.1.deep_view() == d
                &&& lists.2.deep_view() == n
            },
{
    let record: std::collections::BTreeMap<String, Vec<String>> =
        match serde_json::from_str(data) {
            Ok(record) => record,
            Err(_) => return None,
        };
    match (record.get("todo"), record.get("doing"), record.get("done")) {
        (Some(t), Some(d), Some(n)) => Some((t.clone(), d.clone(), n.clone())),
        _ => None,
    }
}

/// A board state in its persistent shape: the three item lists, in board
/// order, and nothing else.
#[derive(Debug)]
pub struct Persistence {
    pub todo: Vec<String>,
    pub doing: Vec<String>,
    pub done: Vec<String>,
}

impl Persistence {
    /// Encodes the three columns' item lists as the durable text form.
    pub fn persist(
        todo_list: &KanbanColumn,
        doing_list: &KanbanColumn,
        done_list: &KanbanColumn,
    ) -> (r: String)
        ensures
            r@ == board_json(
                todo_list.items.deep_view(),
                doing_list.items.deep_view(),
                done_list.items.deep_view(),
            ),
    {
        encode_state(&todo_list.items, &doing_list.items, &done_list.items)
    }

    /// Decodes a durable text form into three fresh columns. Whatever comes
    /// back is unselected and carries the standard titles; and text that
    /// `persist` produced decodes to exactly the item lists it encoded.
    pub fn load(data: &str) -> (r: Option<(KanbanColumn, KanbanColumn, KanbanColumn)>)
        ensures
            r matches Some(cols) ==> {
                &&& cols.0.wf() && cols.1.wf() && cols.2.wf()
                &&& cols.0.selection is None
                &&& cols.1.selection is None
                &&& cols.2.selection is None
                &&& cols.0.title@ == "TODO"@
                &&& cols.1.title@ == "Doing"@
                &&& cols.2.title@ == "Done"@
            },
            forall|t: Seq<Seq<char>>, d: Seq<Seq<char>>, n: Seq<Seq<char>>|
                data@ == #[trigger] board_json(t, d, n) ==> {
                    &&& r matches Some(cols)
                    &&& cols.0.items.deep_view() == t
                    &&& cols.1.items.deep_view() == d
                    &&& cols.2.items.deep_view() == n
                },
    {
        let decoded = match decode_state(data) {
            Some(lists) => lists,
            None => {
                return None;
            },
        };
        let record = Persistence { todo: decoded.0, doing: decoded.1, done: decoded.2 };
        proof {
            reveal_strlit("TODO");
            reveal_strlit("Doing");
            reveal_strlit("Done");
        }
        let mut todo_list = KanbanColumn::new(String::from_str("TODO"));
        let mut doing_list = KanbanColumn::new(String::from_str("Doing"));
        let mut done_list = KanbanColumn::new(String::from_str("Done"));
        todo_list.load(record.todo);
        doing_list.load(record.doing);
        done_list.load(record.done);
        Some((todo_list, doing_list, done_list))
    }

    /// Persisting three columns and loading the result restores the same
    /// item lists, in the same order, with no selection anywhere and the
    /// standard titles.
    pub fn persist_round_trip(
        todo_list: &KanbanColumn,
        doing_list: &KanbanColumn,
        done_list: &KanbanColumn,
    ) -> (r: Option<(KanbanColumn, KanbanColumn, KanbanColumn)>)
        ensures
            r matches Some(cols),
            r matches Some(cols) ==> {
                &&& cols.0.items.deep_view() == todo_list.items.deep_view()
                &&& cols.1.items.deep_view() == doing_list.items.deep_view()
                &&& cols.2.items.deep_view() == done_list.items.deep_view()
                &&& cols.0.selection is None
                &&& cols.1.selection is None
                &&& cols.2.selection is None
                &&& cols.0.wf() && cols.1.wf() && cols.2.wf()
            },
    {
        let data = Self::persist(todo_list, doing_list, done_list);
        Self::load(data.as_str())
    }
}

} // verus!
