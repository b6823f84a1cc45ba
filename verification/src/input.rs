//! A line of text under edit: characters with a cursor between them.
//!
//! The text is kept in two halves, what stands before the cursor and what
//! stands behind it, so that typing, deleting and moving the cursor each
//! touch one character. The cursor counts characters, never bytes, so it
//! always stands between two characters.

use vstd::prelude::*;
use vstd::string::StrSliceExecFns;

verus! {

/// Text under edit, with a cursor.
#[derive(Debug)]
pub struct TextBuffer {
    /// The characters before the cursor.
    left: Vec<char>,
    /// The characters behind the cursor, the nearest one last.
    right: Vec<char>,
}

/// The mathematical content of a [`TextBuffer`].
pub struct TextBufferView {
    /// The whole text.
    pub text: Seq<char>,
    /// How many characters stand before the cursor.
    pub cursor: nat,
}

/// A sequence read from its end.
pub open spec fn backwards(s: Seq<char>) -> Seq<char> {
    Seq::new(s.len(), |i: int| s[s.len() - 1 - i])
}

impl View for TextBuffer {
    type V = TextBufferView;

    closed spec fn view(&self) -> TextBufferView {
        TextBufferView { text: self.left@ + backwards(self.right@), cursor: self.left@.len() }
    }
}

impl TextBufferView {
    /// The cursor stands in the text or at one of its ends.
    pub open spec fn wf(self) -> bool {
        self.cursor <= self.text.len()
    }

    /// The text with a character typed at the cursor, which moves behind it.
    pub open spec fn typed(self, c: char) -> TextBufferView {
        TextBufferView { text: self.text.insert(self.cursor as int, c), cursor: self.cursor + 1 }
    }

    /// The text with the character before the cursor deleted; the same
    /// text where the cursor stands at the start.
    pub open spec fn erased(self) -> TextBufferView {
        if self.cursor > 0 {
            TextBufferView {
                text: self.text.remove(self.cursor - 1),
                cursor: (self.cursor - 1) as nat,
            }
        } else {
            self
        }
    }

    /// The text with the cursor one character further left, if it can go.
    pub open spec fn moved_left(self) -> TextBufferView {
        if self.cursor > 0 {
            TextBufferView { cursor: (self.cursor - 1) as nat, ..self }
        } else {
            self
        }
    }

    /// The text with the cursor one character further right, if it can go.
    pub open spec fn moved_right(self) -> TextBufferView {
        if self.cursor < self.text.len() {
            TextBufferView { cursor: self.cursor + 1, ..self }
        } else {
            self
        }
    }
}

/// Trusted: `String::push`, which appends the character to the string.
#[verifier::external_body]
pub(crate) fn push_char(text: &mut String, c: char)
    ensures
        final(text)@ == old(text)@.push(c),
{
    text.push(c);
}

/// The characters as a string.
pub fn string_of(chars: &Vec<char>) -> (text: String)
    ensures
        text@ == chars@,
{
    let mut text = String::new();
    let mut i: usize = 0;
    while i < chars.len()
        invariant
            i <= chars.len(),
            text@ == chars@.take(i as int),
        decreases chars.len() - i,
    {
        push_char(&mut text, chars[i]);
        assert(chars@.take(i + 1) =~= chars@.take(i as int).push(chars@[i as int]));
        i += 1;
    }
    assert(chars@.take(chars@.len() as int) =~= chars@);
    text
}

impl TextBuffer {
    /// An empty text.
    pub fn new() -> (buffer: TextBuffer)
        ensures
            buffer@.text == Seq::<char>::empty(),
            buffer@.cursor == 0,
            buffer@.wf(),
    {
        let buffer = TextBuffer { left: Vec::new(), right: Vec::new() };
        assert(buffer@.text =~= Seq::<char>::empty());
        buffer
    }

    /// The given text, with the cursor at its end.
    pub fn from_text(text: &str) -> (buffer: TextBuffer)
        ensures
            buffer@.text == text@,
            buffer@.cursor == text@.len(),
            buffer@.wf(),
    {
        let mut left: Vec<char> = Vec::new();
        let n = text.unicode_len();
        let mut i: usize = 0;
        while i < n
            invariant
                n == text@.len(),
                i <= n,
                left@ == text@.take(i as int),
            decreases n - i,
        {
            left.push(text.get_char(i));
            assert(text@.take(i + 1) =~= text@.take(i as int).push(text@[i as int]));
            i += 1;
        }
        assert(text@.take(n as int) =~= text@);
        let buffer = TextBuffer { left, right: Vec::new() };
        assert(buffer@.text =~= text@);
        buffer
    }

    /// The cursor of a buffer always stands in its text or at one of its
    /// ends.
    pub proof fn lemma_cursor_in_text(&self)
        ensures
            self@.wf(),
    {
    }

    /// Replaces the text, and puts the cursor at its end.
    pub fn set_text(&mut self, text: &str)
        ensures
            final(self)@.text == text@,
            final(self)@.cursor == text@.len(),
    {
        *self = TextBuffer::from_text(text);
    }

    /// Empties the text.
    pub fn clear(&mut self)
        ensures
            final(self)@.text == Seq::<char>::empty(),
            final(self)@.cursor == 0,
    {
        self.left.clear();
        self.right.clear();
        assert(self@.text =~= Seq::<char>::empty());
    }

    /// Types a character at the cursor.
    pub fn add_char(&mut self, c: char)
        ensures
            final(self)@ == old(self)@.typed(c),
    {
        self.left.push(c);
        assert(self@.text =~= old(self)@.text.insert(old(self)@.cursor as int, c));
    }

    /// Deletes the character before the cursor, and tells whether there
    /// was one.
    pub fn remove_char(&mut self) -> (removed: bool)
        ensures
            final(self)@ == old(self)@.erased(),
            removed == (old(self)@.cursor > 0),
    {
        match self.left.pop() {
            Some(_) => {
                assert(self@.text =~= old(self)@.text.remove(old(self)@.cursor - 1));
                true
            },
            None => false,
        }
    }

    /// Moves the cursor one character to the left, if it can go.
    pub fn move_cursor_left(&mut self)
        ensures
            final(self)@ == old(self)@.moved_left(),
    {
        match self.left.pop() {
            Some(c) => {
                self.right.push(c);
                assert(self@.text =~= old(self)@.text);
            },
            None => {},
        }
    }

    /// Moves the cursor one character to the right, if it can go.
    pub fn move_cursor_right(&mut self)
        ensures
            final(self)@ == old(self)@.moved_right(),
    {
        match self.right.pop() {
            Some(c) => {
                self.left.push(c);
                assert(self@.text =~= old(self)@.text);
            },
            None => {
                assert(self@.text =~= self.left@);
            },
        }
    }

    /// How many characters stand before the cursor.
    pub fn cursor(&self) -> (cursor: usize)
        ensures
            cursor == self@.cursor,
    {
        self.left.len()
    }

    /// How many characters the text has; `usize::MAX` where it has more.
    pub fn char_count(&self) -> (count: usize)
        ensures
            count == if self@.text.len() <= usize::MAX {
                self@.text.len()
            } else {
                usize::MAX as nat
            },
    {
        self.left.len().saturating_add(self.right.len())
    }

    /// Whether the text has no characters.
    pub fn is_empty(&self) -> (empty: bool)
        ensures
            empty == (self@.text.len() == 0),
    {
        self.left.len() == 0 && self.right.len() == 0
    }

    /// The text before the cursor.
    pub fn text_before_cursor(&self) -> (text: String)
        ensures
            text@ == self@.text.take(self@.cursor as int),
    {
        let text = string_of(&self.left);
        assert(self@.text.take(self@.cursor as int) =~= self.left@);
        text
    }

    /// The whole text.
    pub fn text(&self) -> (text: String)
        ensures
            text@ == self@.text,
    {
        let mut text = string_of(&self.left);
        let n = self.right.len();
        let mut i: usize = 0;
        while i < n
            invariant
                n == self.right@.len(),
                i <= n,
                text@ == self.left@ + backwards(self.right@).take(i as int),
            decreases n - i,
        {
            push_char(&mut text, self.right[n - 1 - i]);
            proof {
                let back = backwards(self.right@);
                assert(back.take(i + 1) =~= back.take(i as int).push(back[i as int]));
                assert(self.left@ + back.take(i + 1) =~= (self.left@ + back.take(i as int)).push(
                    back[i as int],
                ));
            }
            i += 1;
        }
        assert(backwards(self.right@).take(n as int) =~= backwards(self.right@));
        text
    }
}

impl Default for TextBuffer {
    fn default() -> (buffer: Self)
        ensures
            buffer@.text == Seq::<char>::empty(),
            buffer@.cursor == 0,
    {
        TextBuffer::new()
    }
}

} // verus!
