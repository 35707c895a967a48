//! A one-line text editor: a buffer of characters and a cursor that stands
//! between them.

use vstd::prelude::*;
use crate::text::{from_chars, to_chars};

verus! {

/// What a [`TextInput`] holds: its characters, and the number of characters
/// that stand left of the cursor.
pub struct TextInputView {
    pub text: Seq<char>,
    pub cursor: int,
}

/// A step of the cursor.
#[derive(Clone, Copy, Debug, PartialEq, Eq)]
pub enum CursorMove {
    Left,
    Right,
}

/// The cursor stands within the text or at one of its ends.
pub open spec fn cursor_in_bounds(v: TextInputView) -> bool {
    0 <= v.cursor <= v.text.len()
}

/// The cursor one character further left, unless it stands at the start.
pub open spec fn moved_left(v: TextInputView) -> TextInputView {
    TextInputView { text: v.text, cursor: if v.cursor > 0 { v.cursor - 1 } else { 0 } }
}

/// The cursor one character further right, unless it stands at the end.
pub open spec fn moved_right(v: TextInputView) -> TextInputView {
    TextInputView {
        text: v.text,
        cursor: if v.cursor < v.text.len() {
            v.cursor + 1
        } else {
            v.text.len() as int
        },
    }
}

/// One step of the cursor.
pub open spec fn moved(v: TextInputView, step: CursorMove) -> TextInputView {
    match step {
        CursorMove::Left => moved_left(v),
        CursorMove::Right => moved_right(v),
    }
}

/// The steps of `moves` made one after the other.
pub open spec fn after_moves(v: TextInputView, moves: Seq<CursorMove>) -> TextInputView
    decreases moves.len(),
{
    if moves.len() == 0 {
        v
    } else {
        moved(after_moves(v, moves.drop_last()), moves.last())
    }
}

/// `c` put in at the cursor, which then stands behind it.
pub open spec fn inserted(v: TextInputView, c: char) -> TextInputView {
    TextInputView { text: v.text.insert(v.cursor, c), cursor: v.cursor + 1 }
}

/// The character left of the cursor taken out, and the cursor moved into
/// its place; nothing changes where the cursor stands at the start.
pub open spec fn deleted_before_cursor(v: TextInputView) -> TextInputView {
    if v.cursor <= 0 {
        v
    } else {
        TextInputView { text: v.text.remove(v.cursor - 1), cursor: v.cursor - 1 }
    }
}

/// The text `text` with the cursor at its end.
pub open spec fn seeded(text: Seq<char>) -> TextInputView {
    TextInputView { text, cursor: text.len() as int }
}

/// No text, and the cursor at position 0.
pub open spec fn blank() -> TextInputView {
    TextInputView { text: Seq::empty(), cursor: 0 }
}

/// However the cursor is moved, the text stays as it is and the cursor
/// stays between position 0 and the length of the text.
pub proof fn lemma_cursor_stays_in_bounds(v: TextInputView, moves: Seq<CursorMove>)
    requires
        cursor_in_bounds(v),
    ensures
        after_moves(v, moves).text == v.text,
        0 <= after_moves(v, moves).cursor <= v.text.len(),
    decreases moves.len(),
{
    if moves.len() > 0 {
        lemma_cursor_stays_in_bounds(v, moves.drop_last());
    }
}

/// Inserting and deleting keep the cursor within the text.
pub proof fn lemma_edits_keep_cursor_in_bounds(v: TextInputView, c: char)
    requires
        cursor_in_bounds(v),
    ensures
        cursor_in_bounds(inserted(v, c)),
        cursor_in_bounds(deleted_before_cursor(v)),
        inserted(v, c).text.len() == v.text.len() + 1,
        deleted_before_cursor(inserted(v, c)) == v,
{
    assert(inserted(v, c).text.remove(v.cursor) =~= v.text);
}

/// The line of text that is being typed.
pub struct TextInput {
    buffer: Vec<char>,
    cursor: usize,
}

impl View for TextInput {
    type V = TextInputView;

    closed spec fn view(&self) -> TextInputView {
        TextInputView { text: self.buffer@, cursor: self.cursor as int }
    }
}

impl TextInput {
    /// The cursor of the editor stands within its text.
    pub open spec fn well_formed(&self) -> bool {
        cursor_in_bounds(self@)
    }

    /// An editor without text.
    pub fn new() -> (input: TextInput)
        ensures
            input@ == blank(),
            input.well_formed(),
    {
        TextInput { buffer: Vec::new(), cursor: 0 }
    }

    /// An editor that holds `text`, with the cursor at its end.
    pub fn with_text(text: &str) -> (input: TextInput)
        ensures
            input@ == seeded(text@),
            input.well_formed(),
    {
        let buffer = to_chars(text);
        let cursor = buffer.len();
        TextInput { buffer, cursor }
    }

    /// The text.
    pub fn text(&self) -> (s: String)
        ensures
            s@ == self@.text,
    {
        from_chars(&self.buffer)
    }

    /// The characters of the text.
    pub fn chars(&self) -> (v: &Vec<char>)
        ensures
            v@ == self@.text,
    {
        &self.buffer
    }

    /// The number of characters left of the cursor.
    pub fn cursor(&self) -> (n: usize)
        ensures
            n == self@.cursor,
    {
        self.cursor
    }

    /// The number of characters of the text.
    pub fn len(&self) -> (n: usize)
        ensures
            n == self@.text.len(),
    {
        self.buffer.len()
    }

    /// Puts `c` in at the cursor and moves the cursor behind it.
    pub fn insert(&mut self, c: char)
        requires
            old(self).well_formed(),
        ensures
            final(self)@ == inserted(old(self)@, c),
            final(self).well_formed(),
    {
        self.buffer.insert(self.cursor, c);
        if self.cursor < self.buffer.len() {
            self.cursor = self.cursor + 1;
        }
    }

    /// Takes out the character left of the cursor and moves the cursor into
    /// its place. At the start of the text nothing happens.
    pub fn delete_before_cursor(&mut self)
        requires
            old(self).well_formed(),
        ensures
            final(self)@ == deleted_before_cursor(old(self)@),
            final(self).well_formed(),
    {
        if self.cursor != 0 {
            self.buffer.remove(self.cursor - 1);
            self.cursor = self.cursor - 1;
        }
    }

    /// Moves the cursor one character to the left, if there is one.
    pub fn move_left(&mut self)
        requires
            old(self).well_formed(),
        ensures
            final(self)@ == moved_left(old(self)@),
            final(self).well_formed(),
    {
        if self.cursor > 0 {
            self.cursor = self.cursor - 1;
        }
    }

    /// Moves the cursor one character to the right, if there is one.
    pub fn move_right(&mut self)
        requires
            old(self).well_formed(),
        ensures
            final(self)@ == moved_right(old(self)@),
            final(self).well_formed(),
    {
        if self.cursor < self.buffer.len() {
            self.cursor = self.cursor + 1;
        }
    }

    /// Moves the cursor to the start of the text.
    pub fn move_to_start(&mut self)
        ensures
            final(self)@ == (TextInputView { text: old(self)@.text, cursor: 0 }),
            final(self).well_formed(),
    {
        self.cursor = 0;
    }

    /// Empties the editor.
    pub fn clear(&mut self)
        ensures
            final(self)@ == blank(),
            final(self).well_formed(),
    {
        self.buffer.clear();
        self.cursor = 0;
    }
}

} // verus!
