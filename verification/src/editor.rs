//! The query-buffer editor: a state machine over the text the user has
//! typed, driven by discrete key events. Each event appends a character,
//! removes the last character, removes the last word, clears the buffer,
//! ends the loop, or does nothing.

use vstd::prelude::*;

verus! {

/// The control character that clears the whole query buffer.
pub const CLEAR_CHAR: char = '\u{15}';

/// One keystroke, reduced to the edit operation it stands for.
#[derive(Clone, Copy, PartialEq, Eq, Structural)]
pub enum KeyEvent {
    /// A character to append; the clear control character empties the
    /// buffer instead.
    Char(char),
    /// Remove the last character.
    Backspace,
    /// Remove the last space-separated word.
    DeleteWord,
    /// Accept the current buffer and leave the loop.
    Enter,
    /// Abandon the buffer and leave the loop.
    Escape,
    /// Any other key: no effect.
    Other,
}

/// Removing the last space-separated word: everything after and
/// including the last space is kept up to that space; a buffer without a
/// space becomes empty.
pub open spec fn delete_word_spec(s: Seq<char>) -> Seq<char>
    decreases s.len(),
{
    if s.len() == 0 {
        s
    } else if s.last() == ' ' {
        s.drop_last()
    } else {
        delete_word_spec(s.drop_last())
    }
}

/// What one key event does to the buffer contents.
pub open spec fn step_spec(s: Seq<char>, key: KeyEvent) -> Seq<char> {
    match key {
        KeyEvent::Char(c) => if c == CLEAR_CHAR {
            Seq::<char>::empty()
        } else {
            s.push(c)
        },
        KeyEvent::Backspace => if s.len() == 0 {
            s
        } else {
            s.drop_last()
        },
        KeyEvent::DeleteWord => delete_word_spec(s),
        KeyEvent::Enter => s,
        KeyEvent::Escape => s,
        KeyEvent::Other => s,
    }
}

/// Whether the loop continues after this key: every key but Enter and
/// Escape does.
pub open spec fn continues_spec(key: KeyEvent) -> bool {
    !(key is Enter || key is Escape)
}

/// The text the user has typed so far, owned by the input loop.
pub struct QueryBuffer {
    chars: Vec<char>,
}

impl View for QueryBuffer {
    type V = Seq<char>;

    closed spec fn view(&self) -> Seq<char> {
        self.chars@
    }
}

impl QueryBuffer {
    /// An empty buffer, as at loop start.
    pub fn new() -> (r: Self)
        ensures
            r@ == Seq::<char>::empty(),
    {
        QueryBuffer { chars: Vec::new() }
    }

    /// Read access to the characters, for filtering and rendering.
    pub fn chars(&self) -> (r: &Vec<char>)
        ensures
            r@ == self@,
    {
        &self.chars
    }

    /// Applies one key event to the buffer and says whether the input
    /// loop goes on; Enter and Escape end it and change nothing.
    pub fn step(&mut self, key: KeyEvent) -> (cont: bool)
        ensures
            final(self)@ == step_spec(old(self)@, key),
            cont == continues_spec(key),
    {
        match key {
            KeyEvent::Char(c) => {
                if c == CLEAR_CHAR {
                    self.chars.clear();
                } else {
                    self.chars.push(c);
                }
                true
            },
            KeyEvent::Backspace => {
                self.chars.pop();
                proof {
                    if old(self)@.len() > 0 {
                        assert(old(self)@.subrange(0, old(self)@.len() - 1) =~= old(
                            self,
                        )@.drop_last());
                    }
                }
                true
            },
            KeyEvent::DeleteWord => {
                self.delete_word();
                true
            },
            KeyEvent::Enter => false,
            KeyEvent::Escape => false,
            KeyEvent::Other => true,
        }
    }

    /// Removes the last space-separated word, and the space before it.
    fn delete_word(&mut self)
        ensures
            final(self)@ == delete_word_spec(old(self)@),
    {
        let ghost target = delete_word_spec(self@);
        loop
            invariant
                delete_word_spec(self@) == target,
                target == delete_word_spec(old(self)@),
            decreases self@.len(),
        {
            if self.chars.len() == 0 {
                return;
            }
            let c = self.chars[self.chars.len() - 1];
            proof {
                assert(c == self@.last());
                assert(self@.subrange(0, self@.len() - 1) =~= self@.drop_last());
            }
            self.chars.pop();
            if c == ' ' {
                return;
            }
        }
    }
}

/// Law: appending a character and then backspacing restores the prior
/// buffer exactly.
pub proof fn lemma_append_then_backspace(s: Seq<char>, c: char)
    requires
        c != CLEAR_CHAR,
    ensures
        step_spec(step_spec(s, KeyEvent::Char(c)), KeyEvent::Backspace) == s,
{
    assert(s.push(c).drop_last() =~= s);
}

/// Law: the clear control character empties the buffer regardless of its
/// prior content.
pub proof fn lemma_clear_empties(s: Seq<char>)
    ensures
        step_spec(s, KeyEvent::Char(CLEAR_CHAR)) == Seq::<char>::empty(),
{
}

/// Law: Enter and Escape end the loop and leave the buffer untouched;
/// every other key lets it go on.
pub proof fn lemma_terminal_keys(s: Seq<char>)
    ensures
        !continues_spec(KeyEvent::Enter),
        !continues_spec(KeyEvent::Escape),
        step_spec(s, KeyEvent::Enter) == s,
        step_spec(s, KeyEvent::Escape) == s,
        forall|c: char| #[trigger] continues_spec(KeyEvent::Char(c)),
        continues_spec(KeyEvent::Backspace),
        continues_spec(KeyEvent::DeleteWord),
        continues_spec(KeyEvent::Other),
{
}

} // verus!
