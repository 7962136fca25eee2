//! A single line of Unicode text under construction, with an addressable
//! character cursor. The buffer is held as a sequence of characters, so
//! cursor movement and deletion always work on whole characters, never on
//! single storage units of a multi-byte encoding.

use vstd::prelude::*;

verus! {

/// Largest number of characters the editor accepts. The bound keeps the
/// byte length of the buffer's UTF-8 form representable in a `usize`; it is
/// far beyond anything a single input line can reach.
pub const MAX_INPUT_CHARS: usize = usize::MAX / 4;

/// Number of bytes the UTF-8 encoding of one character occupies.
pub open spec fn char_utf8_width(c: char) -> int {
    if (c as u32) < 0x80 {
        1
    } else if (c as u32) < 0x800 {
        2
    } else if (c as u32) < 0x10000 {
        3
    } else {
        4
    }
}

/// Number of bytes the UTF-8 encoding of a character sequence occupies.
pub open spec fn utf8_byte_len(s: Seq<char>) -> int
    decreases s.len(),
{
    if s.len() == 0 {
        0
    } else {
        utf8_byte_len(s.drop_last()) + char_utf8_width(s.last())
    }
}

/// What one `enter_char` call does: below the size bound the character goes
/// in at the cursor and the cursor advances past it; at the bound the call
/// is a no-op.
pub open spec fn entered_char(pre: InputBox, c: char, post: InputBox) -> bool {
    if pre.input.len() < MAX_INPUT_CHARS {
        &&& post.input@ == pre.input@.insert(pre.character_index as int, c)
        &&& post.character_index == pre.character_index + 1
    } else {
        post == pre
    }
}

/// The editor after one `move_cursor_left` step: the cursor moves one
/// character back, stopping at the start of the buffer.
pub open spec fn moved_left(b: InputBox) -> InputBox {
    InputBox {
        character_index: if b.character_index > 0 {
            (b.character_index - 1) as usize
        } else {
            0usize
        },
        ..b
    }
}

/// The editor after one `move_cursor_right` step: the cursor moves one
/// character forward, stopping at the end of the buffer.
pub open spec fn moved_right(b: InputBox) -> InputBox {
    InputBox {
        character_index: if b.character_index < b.input.len() {
            (b.character_index + 1) as usize
        } else {
            b.character_index
        },
        ..b
    }
}

/// What one `delete_char` call does: with the cursor at the start nothing
/// changes; otherwise the character left of the cursor goes away and the
/// cursor moves back past where it stood.
pub open spec fn deleted_backward(pre: InputBox, post: InputBox) -> bool {
    if pre.character_index == 0 {
        post == pre
    } else {
        &&& post.input@ == pre.input@.remove(pre.character_index - 1)
        &&& post.character_index == pre.character_index - 1
    }
}

/// The in-progress text for a new task and a cursor position inside it.
/// `input` holds the buffer character by character; `character_index` is the
/// cursor, measured in characters, `0 <= cursor <= len`.
#[derive(Debug)]
pub struct InputBox {
    pub input: Vec<char>,
    pub character_index: usize,
}

impl InputBox {
    /// The cursor sits inside the buffer and the buffer is below the size
    /// bound.
    pub open spec fn wf(&self) -> bool {
        &&& self.character_index <= self.input.len()
        &&& self.input.len() <= MAX_INPUT_CHARS
    }

    /// Creates an empty editor with the cursor at the start.
    pub fn new() -> (r: Self)
        ensures
            r.input@.len() == 0,
            r.character_index == 0,
            r.wf(),
    {
        InputBox { input: Vec::new(), character_index: 0 }
    }

    /// Moves the cursor one character to the left; at the start of the
    /// buffer this is a no-op.
    pub fn move_cursor_left(&mut self)
        ensures
            *final(self) == moved_left(*old(self)),
    {
        if self.character_index > 0 {
            self.character_index = self.character_index - 1;
        }
    }

    /// Moves the cursor one character to the right; at the end of the
    /// buffer this is a no-op.
    pub fn move_cursor_right(&mut self)
        requires
            old(self).wf(),
        ensures
            *final(self) == moved_right(*old(self)),
            final(self).wf(),
    {
        if self.character_index < self.input.len() {
            self.character_index = self.character_index + 1;
        }
    }

    /// Inserts the character at the cursor's character position and advances
    /// the cursor past it. Only a buffer already at the size bound refuses
    /// the character.
    pub fn enter_char(&mut self, new_char: char)
        requires
            old(self).wf(),
        ensures
            entered_char(*old(self), new_char, *final(self)),
            final(self).wf(),
    {
        if self.input.len() < MAX_INPUT_CHARS {
            self.input.insert(self.character_index, new_char);
            self.character_index = self.character_index + 1;
        }
    }

    /// The byte position of the cursor within the UTF-8 form of the buffer.
    /// Characters can span several bytes, so this is the sum of the encoded
    /// widths of the characters left of the cursor.
    pub fn byte_index(&self) -> (r: usize)
        requires
            self.wf(),
        ensures
            r == utf8_byte_len(self.input@.take(self.character_index as int)),
    {
        let mut total: usize = 0;
        let mut i: usize = 0;
        while i < self.character_index
            invariant
                i <= self.character_index <= self.input.len() <= MAX_INPUT_CHARS,
                total == utf8_byte_len(self.input@.take(i as int)),
                total <= 4 * i,
            decreases self.character_index - i,
        {
            let c = self.input[i];
            let u = c as u32;
            let w: usize = if u < 0x80 {
                1
            } else if u < 0x800 {
                2
            } else if u < 0x10000 {
                3
            } else {
                4
            };
            proof {
                assert(self.input@.take(i + 1).drop_last() =~= self.input@.take(i as int));
                assert(self.input@.take(i + 1).last() == c);
            }
            total = total + w;
            i = i + 1;
        }
        total
    }

    /// Removes the character immediately left of the cursor and moves the
    /// cursor back by one character; with the cursor at the start this is a
    /// no-op.
    pub fn delete_char(&mut self)
        requires
            old(self).wf(),
        ensures
            deleted_backward(*old(self), *final(self)),
            final(self).wf(),
    {
        if self.character_index != 0 {
            self.input.remove(self.character_index - 1);
            self.character_index = self.character_index - 1;
        }
    }

    /// Clamps a requested cursor position to the buffer: the result never
    /// exceeds the character count.
    pub fn clamp_cursor(&self, new_cursor_pos: usize) -> (r: usize)
        ensures
            r == if new_cursor_pos <= self.input.len() {
                new_cursor_pos as int
            } else {
                self.input.len() as int
            },
    {
        if new_cursor_pos <= self.input.len() {
            new_cursor_pos
        } else {
            self.input.len()
        }
    }

    /// Puts the cursor back at the start of the buffer.
    pub fn reset_cursor(&mut self)
        ensures
            *final(self) == (InputBox { character_index: 0usize, ..*old(self) }),
    {
        self.character_index = 0;
    }

    /// The buffer contents as a string.
    pub fn text(&self) -> (r: String)
        ensures
            r@ == self.input@,
    {
        let mut s = String::new();
        let mut i: usize = 0;
        proof {
            assert(self.input@.take(0) =~= s@);
        }
        while i < self.input.len()
            invariant
                i <= self.input.len(),
                s@ == self.input@.take(i as int),
            decreases self.input.len() - i,
        {
            let piece = char_string(self.input[i]);
            s.append(piece.as_str());
            proof {
                assert(self.input@.take(i + 1) =~= self.input@.take(i as int) + seq![
                    self.input@[i as int]]);
            }
            i = i + 1;
        }
        proof {
            assert(self.input@.take(self.input.len() as int) =~= self.input@);
        }
        s
    }

    /// Hands out the finished task label: an empty buffer yields nothing and
    /// stays as it is; otherwise the buffer contents are returned and the
    /// editor is reset to empty with the cursor at the start.
    pub fn submit_message(&mut self) -> (r: Option<String>)
        requires
            old(self).wf(),
        ensures
            old(self).input@.len() == 0 ==> r is None && *final(self) == *old(self),
            old(self).input@.len() > 0 ==> {
                &&& r matches Some(message) && message@ == old(self).input@
                &&& final(self).input@.len() == 0
                &&& final(self).character_index == 0
            },
            final(self).wf(),
    {
        if self.input.len() == 0 {
            return None;
        }
        let result = self.text();
        self.input.clear();
        self.reset_cursor();
        Some(result)
    }

    /// Runtime check of `wf`, so unverified callers can guard their calls.
    pub fn is_well_formed(&self) -> (r: bool)
        ensures
            r == self.wf(),
    {
        self.character_index <= self.input.len() && self.input.len() <= MAX_INPUT_CHARS
    }

    /// The cursor's current character position, for placing a visible caret.
    pub fn get_char_index(&self) -> (r: usize)
        ensures
            r == self.character_index,
    {
        self.character_index
    }
}

/// Relies on `String::from` for a single character: the result is the string
/// holding exactly that character.
#[verifier::external_body]
fn char_string(c: char) -> (r: String)
    ensures
        r@ == seq![c],
{
    String::from(c)
}

} // verus!
