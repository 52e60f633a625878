//! Input modes of the front end and the line editor for command and search text.

use vstd::prelude::*;
use crate::text::string_of_chars;

verus! {

/// Current input mode of the application.
#[derive(Debug, Clone, Copy, PartialEq, Eq, Structural)]
pub enum InputMode {
    /// Keyboard shortcuts active.
    Normal,
    /// Typing a slash command.
    Command,
    /// Typing a search term.
    Search,
}

impl Default for InputMode {
    fn default() -> (r: Self)
        ensures
            r == InputMode::Normal,
    {
        InputMode::Normal
    }
}

/// Number of bytes that `char::len_utf8` gives for `c`.
pub open spec fn utf8_width(c: char) -> nat {
    let v = c as u32;
    if v < 0x80 {
        1
    } else if v < 0x800 {
        2
    } else if v < 0x10000 {
        3
    } else {
        4
    }
}

/// Number of bytes of the UTF-8 encoding of `s`.
pub open spec fn utf8_len(s: Seq<char>) -> nat
    decreases s.len(),
{
    if s.len() == 0 {
        0
    } else {
        utf8_len(s.drop_last()) + utf8_width(s.last())
    }
}

fn char_width(c: char) -> (r: usize)
    ensures
        r == utf8_width(c),
{
    let v = c as u32;
    if v < 0x80 {
        1
    } else if v < 0x800 {
        2
    } else if v < 0x10000 {
        3
    } else {
        4
    }
}

/// Abstract state of an input buffer: its characters and the cursor's character position.
pub ghost struct InputView {
    pub text: Seq<char>,
    pub pos: nat,
}

/// Input buffer for command/search text entry, with a cursor.
pub struct InputBuffer {
    content: Vec<char>,
    pos: usize,
}

impl View for InputBuffer {
    type V = InputView;

    closed spec fn view(&self) -> InputView {
        InputView { text: self.content@, pos: self.pos as nat }
    }
}

impl InputBuffer {
    pub open spec fn wf(&self) -> bool {
        self@.pos <= self@.text.len()
    }

    /// Creates a new empty input buffer.
    pub fn new() -> (r: Self)
        ensures
            r.wf(),
            r@.text.len() == 0,
            r@.pos == 0,
    {
        InputBuffer { content: Vec::new(), pos: 0 }
    }

    /// Inserts a character at the cursor and moves the cursor past it.
    pub fn insert(&mut self, c: char)
        requires
            old(self).wf(),
        ensures
            final(self).wf(),
            final(self)@.text == old(self)@.text.insert(old(self)@.pos as int, c),
            final(self)@.pos == old(self)@.pos + 1,
    {
        self.content.insert(self.pos, c);
        if self.pos < self.content.len() {
            self.pos = self.pos + 1;
        }
    }

    /// Deletes the character before the cursor, if any.
    pub fn backspace(&mut self)
        requires
            old(self).wf(),
        ensures
            final(self).wf(),
            old(self)@.pos > 0 ==> final(self)@.text == old(self)@.text.remove(
                old(self)@.pos - 1,
            ) && final(self)@.pos == old(self)@.pos - 1,
            old(self)@.pos == 0 ==> final(self)@ == old(self)@,
    {
        if self.pos > 0 {
            self.content.remove(self.pos - 1);
            self.pos = self.pos - 1;
        }
    }

    /// Deletes the character at the cursor, if any.
    pub fn delete(&mut self)
        requires
            old(self).wf(),
        ensures
            final(self).wf(),
            old(self)@.pos < old(self)@.text.len() ==> final(self)@.text == old(self)@.text.remove(
                old(self)@.pos as int,
            ) && final(self)@.pos == old(self)@.pos,
            old(self)@.pos == old(self)@.text.len() ==> final(self)@ == old(self)@,
    {
        if self.pos < self.content.len() {
            self.content.remove(self.pos);
        }
    }

    /// Clears the buffer.
    pub fn clear(&mut self)
        ensures
            final(self).wf(),
            final(self)@.text.len() == 0,
            final(self)@.pos == 0,
    {
        self.content.clear();
        self.pos = 0;
    }

    /// Gets the current content.
    pub fn content(&self) -> (r: String)
        ensures
            r@ == self@.text,
    {
        let r = string_of_chars(&self.content, 0, self.content.len());
        proof {
            assert(self.content@.subrange(0, self.content@.len() as int) =~= self.content@);
        }
        r
    }

    /// Gets the cursor position as a byte offset into the content's UTF-8 encoding
    /// (`usize::MAX` if that does not fit).
    pub fn cursor(&self) -> (r: usize)
        requires
            self.wf(),
        ensures
            r == if utf8_len(self@.text.take(self@.pos as int)) <= usize::MAX {
                utf8_len(self@.text.take(self@.pos as int))
            } else {
                usize::MAX as nat
            },
    {
        let mut total: usize = 0;
        let mut i: usize = 0;
        let mut saturated = false;
        while i < self.pos
            invariant
                self.wf(),
                i <= self.pos,
                saturated ==> total == usize::MAX && utf8_len(self@.text.take(i as int)) > usize::MAX,
                !saturated ==> total == utf8_len(self@.text.take(i as int)),
            decreases self.pos - i,
        {
            let ghost before = self@.text.take(i as int);
            let w = char_width(self.content[i]);
            if !saturated {
                if total <= usize::MAX - w {
                    total = total + w;
                } else {
                    total = usize::MAX;
                    saturated = true;
                }
            }
            i += 1;
            proof {
                assert(self@.text.take(i as int).drop_last() =~= before);
            }
        }
        total
    }

    /// Gets the cursor position as a character count.
    pub fn cursor_char_pos(&self) -> (r: usize)
        ensures
            r == self@.pos,
    {
        self.pos
    }

    /// Moves the cursor left by one character.
    pub fn move_left(&mut self)
        requires
            old(self).wf(),
        ensures
            final(self).wf(),
            final(self)@.text == old(self)@.text,
            final(self)@.pos == if old(self)@.pos > 0 {
                (old(self)@.pos - 1) as nat
            } else {
                0
            },
    {
        if self.pos > 0 {
            self.pos = self.pos - 1;
        }
    }

    /// Moves the cursor right by one character.
    pub fn move_right(&mut self)
        requires
            old(self).wf(),
        ensures
            final(self).wf(),
            final(self)@.text == old(self)@.text,
            final(self)@.pos == if old(self)@.pos < old(self)@.text.len() {
                old(self)@.pos + 1
            } else {
                old(self)@.pos
            },
    {
        if self.pos < self.content.len() {
            self.pos = self.pos + 1;
        }
    }

    /// Moves the cursor to the beginning.
    pub fn move_home(&mut self)
        requires
            old(self).wf(),
        ensures
            final(self).wf(),
            final(self)@ == (InputView { pos: 0, ..old(self)@ }),
    {
        self.pos = 0;
    }

    /// Moves the cursor to the end.
    pub fn move_end(&mut self)
        requires
            old(self).wf(),
        ensures
            final(self).wf(),
            final(self)@ == (InputView { pos: old(self)@.text.len(), ..old(self)@ }),
    {
        self.pos = self.content.len();
    }

    /// Returns true if the buffer is empty.
    pub fn is_empty(&self) -> (r: bool)
        ensures
            r == (self@.text.len() == 0),
    {
        self.content.len() == 0
    }
}

} // verus!
