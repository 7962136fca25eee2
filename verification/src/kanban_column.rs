//! One ordered list of task labels together with an optional selection
//! cursor over it.

use vstd::prelude::*;
use vstd::string::*;

verus! {

/// Selection reached by one `select_next` step: an empty column keeps no
/// selection, an unselected column selects the first item, and otherwise the
/// index advances by one, clamped to the last item.
pub open spec fn next_selection(sel: Option<usize>, len: usize) -> Option<usize> {
    if len == 0 {
        None
    } else {
        match sel {
            None => Some(0usize),
            Some(i) => if i + 1 < len {
                Some((i + 1) as usize)
            } else {
                Some((len - 1) as usize)
            },
        }
    }
}

/// Selection reached by one `select_previous` step: an empty column keeps no
/// selection, an unselected column selects the first item, and otherwise the
/// index moves back by one, clamped at the first item.
pub open spec fn prev_selection(sel: Option<usize>, len: usize) -> Option<usize> {
    if len == 0 {
        None
    } else {
        match sel {
            None => Some(0usize),
            Some(i) => if i == 0 {
                Some(0usize)
            } else {
                Some((i - 1) as usize)
            },
        }
    }
}

/// One of the three task lists of the board: a fixed non-empty title, the
/// ordered task labels, and at most one selected index.
#[derive(Debug, Clone)]
pub struct KanbanColumn {
    pub items: Vec<String>,
    pub selection: Option<usize>,
    pub title: String,
}

impl KanbanColumn {
    /// A column is well formed when its selection, if any, points at an item
    /// and its title is non-empty.
    pub open spec fn wf(&self) -> bool {
        &&& (self.selection matches Some(i) ==> i < self.items.len())
        &&& (self.items.len() == 0 ==> self.selection is None)
        &&& self.title@.len() > 0
    }

    /// Creates an empty, unselected column with the given title.
    pub fn new(title: String) -> (r: Self)
        requires
            title@.len() > 0,
        ensures
            r.items.len() == 0,
            r.selection is None,
            r.title == title,
            r.wf(),
    {
        KanbanColumn { items: Vec::new(), selection: None, title }
    }

    /// Replaces the item list wholesale; selection and title are untouched.
    pub fn load(&mut self, items: Vec<String>)
        ensures
            *final(self) == (KanbanColumn { items, ..*old(self) }),
    {
        self.items = items;
    }

    /// A copy of the item list, in board order, for the persistent form.
    pub fn to_json(&self) -> (r: Vec<String>)
        ensures
            r@ == self.items@,
    {
        let r = self.items.clone();
        proof {
            assert(forall|i: int|
                0 <= i < self.items@.len() ==> r@[i] == self.items@[i]) by {
                assert(forall|i: int| 0 <= i < self.items@.len()
                    ==> #[trigger] cloned::<String>(self.items[i], r[i]));
            }
            assert(r@ =~= self.items@);
        }
        r
    }

    /// The currently selected index, if any.
    pub fn selected(&self) -> (r: Option<usize>)
        ensures
            r == self.selection,
    {
        self.selection
    }

    /// Drops the selection.
    pub fn clear_select(&mut self)
        ensures
            *final(self) == (KanbanColumn { selection: None, ..*old(self) }),
    {
        self.selection = None;
    }

    /// Moves the selection one step toward the end of the list, without
    /// wrapping past the last item.
    pub fn select_next(&mut self)
        requires
            old(self).wf(),
        ensures
            *final(self) == (KanbanColumn {
                selection: next_selection(old(self).selection, old(self).items.len()),
                ..*old(self)
            }),
            final(self).wf(),
    {
        let len = self.items.len();
        if len > 0 {
            self.selection = match self.selection {
                None => Some(0),
                Some(i) => if i + 1 < len {
                    Some(i + 1)
                } else {
                    Some(len - 1)
                },
            };
        }
    }

    /// Moves the selection one step toward the start of the list, without
    /// wrapping below the first item.
    pub fn select_previous(&mut self)
        requires
            old(self).wf(),
        ensures
            *final(self) == (KanbanColumn {
                selection: prev_selection(old(self).selection, old(self).items.len()),
                ..*old(self)
            }),
            final(self).wf(),
    {
        if self.items.len() > 0 {
            self.selection = match self.selection {
                None => Some(0),
                Some(i) => if i == 0 {
                    Some(0)
                } else {
                    Some(i - 1)
                },
            };
        }
    }

    /// Appends a task label at the end of the list; the selection is not
    /// affected.
    pub fn push(&mut self, task: String)
        ensures
            final(self).items@ == old(self).items@.push(task),
            final(self).selection == old(self).selection,
            final(self).title == old(self).title,
            old(self).wf() ==> final(self).wf(),
    {
        self.items.push(task);
    }

    /// Runtime check of `wf`, so unverified callers can guard their calls.
    pub fn is_well_formed(&self) -> (r: bool)
        ensures
            r == self.wf(),
    {
        let selection_ok = match self.selection {
            None => true,
            Some(i) => i < self.items.len(),
        };
        selection_ok && !self.title.as_str().is_empty()
    }

    /// Removes and returns the label at index `i`. The selection is left as
    /// it was, so it may now be out of range: callers must re-derive a legal
    /// selection afterwards.
    pub fn remove(&mut self, i: usize) -> (r: String)
        requires
            i < old(self).items.len(),
        ensures
            r == old(self).items@[i as int],
            final(self).items@ == old(self).items@.remove(i as int),
            final(self).selection == old(self).selection,
            final(self).title == old(self).title,
    {
        self.items.remove(i)
    }
}

/// The text broken into lines of at most `width` characters: after every
/// `width` characters a line break is inserted, and a final shorter piece
/// stands as it is.
pub open spec fn chunked(s: Seq<char>, width: int) -> Seq<char>
    decreases s.len() when width >= 1
{
    if s.len() <= width {
        s
    } else {
        s.take(width) + seq!['\n'] + chunked(s.skip(width), width)
    }
}

/// Breaks a label into display lines of at most `width` characters each,
/// counting characters rather than storage units, with the pieces joined by
/// line breaks.
pub fn fit_to_width(s: &str, width: usize) -> (r: String)
    requires
        width >= 1,
    ensures
        r@ == chunked(s@, width as int),
{
    let n = s.unicode_len();
    let mut out = String::new();
    let mut i: usize = 0;
    proof {
        assert(s@.skip(0) =~= s@);
    }
    while i < n
        invariant
            1 <= width,
            i <= n,
            n == s@.len(),
            chunked(s@, width as int) == out@ + chunked(s@.skip(i as int), width as int),
        decreases n - i,
    {
        let ghost rem = s@.skip(i as int);
        let end = if n - i <= width {
            n
        } else {
            i + width
        };
        let piece = s.substring_char(i, end);
        out.append(piece);
        proof {
            assert(piece@ =~= rem.take(end - i));
        }
        if end < n {
            out.append("\n");
            proof {
                reveal_strlit("\n");
                assert("\n"@ =~= seq!['\n']);
                assert(rem.take(width as int) + seq!['\n'] + chunked(rem.skip(width as int),
                    width as int) == chunked(rem, width as int));
                assert(s@.skip(end as int) =~= rem.skip(width as int));
            }
        } else {
            proof {
                assert(rem.take(end - i) =~= rem);
                assert(s@.skip(end as int) =~= Seq::<char>::empty());
                assert(chunked(s@.skip(end as int), width as int) =~= Seq::<char>::empty());
            }
        }
        i = end;
    }
    proof {
        assert(s@.skip(n as int) =~= Seq::<char>::empty());
        assert(chunked(s@.skip(n as int), width as int) =~= Seq::<char>::empty());
        assert(out@ + Seq::<char>::empty() =~= out@);
    }
    out
}

/// Any single navigation step keeps the selection inside the column: on a
/// column of `len` items the selected index stays within `[0, len - 1]` and
/// never wraps past either end, and an empty column stays unselected.
pub proof fn lemma_selection_navigation_in_bounds(sel: Option<usize>, len: usize)
    requires
        sel matches Some(i) ==> i < len,
    ensures
        next_selection(sel, len) matches Some(j) ==> 0 <= j < len,
        prev_selection(sel, len) matches Some(j) ==> 0 <= j < len,
        len == 0 ==> next_selection(sel, len) is None && prev_selection(sel, len) is None,
{
}

/// The selection reached from `sel` by a whole sequence of navigation
/// steps, on a column of `len` items: `true` stands for a `select_next`
/// step, `false` for a `select_previous` step.
pub open spec fn navigated(sel: Option<usize>, len: usize, steps: Seq<bool>) -> Option<usize>
    decreases steps.len(),
{
    if steps.len() == 0 {
        sel
    } else {
        let before = navigated(sel, len, steps.drop_last());
        if steps.last() {
            next_selection(before, len)
        } else {
            prev_selection(before, len)
        }
    }
}

/// For every sequence of `select_next`/`select_previous` steps on a column
/// of `len` items, the selection index stays within `[0, len - 1]` and
/// never wraps past either end; on an empty column it stays absent.
pub proof fn lemma_selection_navigation_sequence(sel: Option<usize>, len: usize, steps: Seq<bool>)
    requires
        sel matches Some(i) ==> i < len,
    ensures
        navigated(sel, len, steps) matches Some(j) ==> 0 <= j < len,
        len == 0 ==> navigated(sel, len, steps) is None,
    decreases steps.len(),
{
    if steps.len() > 0 {
        lemma_selection_navigation_sequence(sel, len, steps.drop_last());
    }
}

} // verus!
