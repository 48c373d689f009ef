//! The line that the player is typing.

use vstd::prelude::*;

verus! {

/// The most characters that a line holds.
pub const MAX_LINE_LENGTH: usize = 16;

/// A keystroke, as far as the prompt tells keystrokes apart.
#[derive(Debug, Clone, Copy, PartialEq, Eq, Structural)]
pub enum PromptKey {
    /// A character to add to the line.
    Char(char),
    /// Takes the last character off the line.
    Backspace,
    /// Any other key: the line stays.
    Other,
}

/// A line of at most sixteen characters.
pub struct Prompt {
    line: [char; 16],
    position: usize,
}

/// `String::push` of std: the string afterwards is the string before with
/// `c` at its end.
#[verifier::external_body]
fn push_char(text: &mut String, c: char)
    ensures
        final(text)@ == old(text)@.push(c),
{
    text.push(c)
}

impl Prompt {
    #[verifier::type_invariant]
    closed spec fn inv(self) -> bool {
        self.position <= 16
    }

    /// The characters of the line.
    pub closed spec fn text(self) -> Seq<char> {
        self.line@.subrange(0, self.position as int)
    }

    /// The line after a keystroke: a character is added while there is room,
    /// a backspace takes the last character off if there is one.
    pub open spec fn text_after(text: Seq<char>, key: PromptKey) -> Seq<char> {
        match key {
            PromptKey::Char(c) => if text.len() < 16 {
                text.push(c)
            } else {
                text
            },
            PromptKey::Backspace => if text.len() > 0 {
                text.drop_last()
            } else {
                text
            },
            PromptKey::Other => text,
        }
    }

    /// The empty line.
    pub fn default() -> (r: Prompt)
        ensures
            r.text() == Seq::<char>::empty(),
    {
        let r = Prompt { line: ['\0';16], position: 0 };
        assert(r.text() =~= Seq::<char>::empty());
        r
    }

    /// Takes a keystroke: a character is added, a backspace takes one off.
    pub fn consume_key(&mut self, key: &PromptKey)
        ensures
            final(self).text() == Prompt::text_after(old(self).text(), *key),
            final(self).text().len() <= 16,
    {
        proof {
            use_type_invariant(&*self);
        }
        match key {
            PromptKey::Char(c) => self.add_char(c),
            PromptKey::Backspace => self.remove_last_char(),
            PromptKey::Other => (),
        }
    }

    /// The line as a string.
    pub fn get_line(&self) -> (r: String)
        ensures
            r@ == self.text(),
            r@.len() <= 16,
    {
        proof {
            use_type_invariant(self);
        }
        let mut text = String::new();
        let mut i: usize = 0;
        while i < self.position
            invariant
                i <= self.position <= 16,
                text@ == self.line@.subrange(0, i as int),
            decreases self.position - i,
        {
            push_char(&mut text, self.line[i]);
            assert(text@ =~= self.line@.subrange(0, i + 1));
            i = i + 1;
        }
        text
    }

    /// Empties the line.
    pub fn clear(&mut self)
        ensures
            final(self).text() == Seq::<char>::empty(),
    {
        self.position = 0;
        assert(self.text() =~= Seq::<char>::empty());
    }

    /// Adds a character at the end of the line, unless the line is full.
    pub fn add_char(&mut self, character: &char)
        ensures
            final(self).text() == Prompt::text_after(old(self).text(), PromptKey::Char(*character)),
    {
        proof {
            use_type_invariant(&*self);
        }
        if self.position < MAX_LINE_LENGTH {
            self.line[self.position] = *character;
            self.position += 1;
            assert(self.text() =~= old(self).text().push(*character));
        }
    }

    /// Takes the last character off the line, if there is one.
    pub fn remove_last_char(&mut self)
        ensures
            final(self).text() == Prompt::text_after(old(self).text(), PromptKey::Backspace),
    {
        proof {
            use_type_invariant(&*self);
        }
        if self.position > 0 {
            self.position -= 1;
            assert(self.text() =~= old(self).text().drop_last());
        }
    }
}

} // verus!
