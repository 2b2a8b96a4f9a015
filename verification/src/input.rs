//! The filter-text editing buffer: a character line with an editing cursor.
//!
//! `handle_key` applies one key and reports whether the content changed, so
//! the prompt only recomputes its filtered view when the text really moved.

use vstd::prelude::*;

use crate::key::{Key, KeyModifiers};
use crate::text::string_from_chars;

verus! {

/// A character key inserts text only when unmodified or shifted; control and
/// alt chords are ignored by the buffer.
pub open spec fn inserts_text(m: KeyModifiers) -> bool {
    m == KeyModifiers::Plain || m == KeyModifiers::Shift
}

/// Whether applying `key` to a buffer with this content and cursor changes
/// the content.
pub open spec fn key_dirty(content: Seq<char>, cursor: int, key: Key) -> bool {
    match key {
        Key::Char(_, m) => inserts_text(m),
        Key::Backspace => cursor > 0,
        Key::Delete => cursor < content.len(),
        _ => false,
    }
}

/// The buffer content after applying `key`.
pub open spec fn content_after(content: Seq<char>, cursor: int, key: Key) -> Seq<char> {
    match key {
        Key::Char(c, m) => if inserts_text(m) {
            content.insert(cursor, c)
        } else {
            content
        },
        Key::Backspace => if cursor > 0 {
            content.remove(cursor - 1)
        } else {
            content
        },
        Key::Delete => if cursor < content.len() {
            content.remove(cursor)
        } else {
            content
        },
        _ => content,
    }
}

/// The editing cursor after applying `key`.
pub open spec fn cursor_after(content: Seq<char>, cursor: int, key: Key) -> int {
    match key {
        Key::Char(_, m) => if inserts_text(m) {
            cursor + 1
        } else {
            cursor
        },
        Key::Backspace => if cursor > 0 {
            cursor - 1
        } else {
            0
        },
        Key::Left(_) => if cursor > 0 {
            cursor - 1
        } else {
            0
        },
        Key::Right(_) => if cursor < content.len() {
            cursor + 1
        } else {
            cursor
        },
        _ => cursor,
    }
}

/// The live filter-text buffer.
pub struct Input {
    /// The characters of the current filter text.
    pub chars: Vec<char>,
    /// The editing cursor: a position in `0 ..= chars.len()`.
    pub cursor: usize,
}

impl Input {
    /// The cursor never leaves the content.
    pub open spec fn wf(&self) -> bool {
        self.cursor <= self.chars@.len()
    }

    /// An empty buffer with the cursor at the start.
    pub fn new() -> (r: Self)
        ensures
            r.wf(),
            r.chars@ == Seq::<char>::empty(),
            r.cursor == 0,
    {
        Input { chars: Vec::new(), cursor: 0 }
    }

    /// The current content as a string.
    pub fn content(&self) -> (r: String)
        ensures
            r@ == self.chars@,
    {
        string_from_chars(&self.chars)
    }

    /// Whether the buffer holds no text.
    pub fn is_empty(&self) -> (r: bool)
        ensures
            r == (self.chars@.len() == 0),
    {
        self.chars.len() == 0
    }

    /// Drop all text and reset the cursor.
    pub fn clear(&mut self)
        ensures
            final(self).wf(),
            final(self).chars@ == Seq::<char>::empty(),
            final(self).cursor == 0,
    {
        self.chars.clear();
        self.cursor = 0;
        proof {
            assert(self.chars@ =~= Seq::<char>::empty());
        }
    }

    /// Apply one key to the buffer. Returns whether the content changed
    /// (moving the cursor alone does not count).
    pub fn handle_key(&mut self, key: Key) -> (dirty: bool)
        requires
            old(self).wf(),
        ensures
            final(self).wf(),
            final(self).chars@ == content_after(old(self).chars@, old(self).cursor as int, key),
            final(self).cursor == cursor_after(old(self).chars@, old(self).cursor as int, key),
            dirty == key_dirty(old(self).chars@, old(self).cursor as int, key),
    {
        match key {
            Key::Char(c, m) => {
                if matches!(m, KeyModifiers::Plain) || matches!(m, KeyModifiers::Shift) {
                    self.chars.insert(self.cursor, c);
                    let grown = self.chars.len();
                    self.cursor = if self.cursor < grown {
                        self.cursor + 1
                    } else {
                        grown
                    };
                    true
                } else {
                    false
                }
            },
            Key::Backspace => {
                if self.cursor > 0 {
                    self.chars.remove(self.cursor - 1);
                    self.cursor = self.cursor - 1;
                    true
                } else {
                    false
                }
            },
            Key::Delete => {
                if self.cursor < self.chars.len() {
                    self.chars.remove(self.cursor);
                    true
                } else {
                    false
                }
            },
            Key::Left(_) => {
                if self.cursor > 0 {
                    self.cursor = self.cursor - 1;
                }
                false
            },
            Key::Right(_) => {
                if self.cursor < self.chars.len() {
                    self.cursor = self.cursor + 1;
                }
                false
            },
            _ => false,
        }
    }
}

} // verus!
