use vstd::prelude::*;

use crate::text::string_of_chars;

verus! {

/// The composing text that is not committed yet.
pub struct PreeditBuffer {
    chars: Vec<char>,
}

impl View for PreeditBuffer {
    type V = Seq<char>;

    closed spec fn view(&self) -> Seq<char> {
        self.chars@
    }
}

/// The buffer after appending `c`.
pub open spec fn push_spec(b: Seq<char>, c: char) -> Seq<char> {
    b.push(c)
}

/// The buffer after removing its last character, and that character;
/// an empty buffer stays empty and reports nothing removed.
pub open spec fn pop_spec(b: Seq<char>) -> (Seq<char>, Option<char>) {
    if b.len() == 0 {
        (b, None)
    } else {
        (b.drop_last(), Some(b.last()))
    }
}

impl PreeditBuffer {
    /// An empty buffer.
    pub fn new() -> (r: PreeditBuffer)
        ensures
            r@ == Seq::<char>::empty(),
    {
        PreeditBuffer { chars: Vec::new() }
    }

    /// Appends a character.
    pub fn push(&mut self, c: char)
        ensures
            final(self)@ == push_spec(old(self)@, c),
    {
        self.chars.push(c);
    }

    /// Removes the last character and returns it; `None` when empty.
    pub fn pop(&mut self) -> (r: Option<char>)
        ensures
            (final(self)@, r) == pop_spec(old(self)@),
    {
        self.chars.pop()
    }

    /// Empties the buffer.
    pub fn clear(&mut self)
        ensures
            final(self)@ == Seq::<char>::empty(),
    {
        self.chars.clear();
    }

    /// Whether the buffer is empty.
    pub fn is_empty(&self) -> (r: bool)
        ensures
            r == (self@.len() == 0),
    {
        self.chars.len() == 0
    }

    /// The composing text.
    pub fn to_string(&self) -> (r: String)
        ensures
            r@ == self@,
    {
        string_of_chars(&self.chars)
    }
}

/// Appending a character and then removing the last one gives back the
/// buffer as it was, and the removed character is the appended one.
pub proof fn lemma_push_then_pop(b: Seq<char>, c: char)
    ensures
        pop_spec(push_spec(b, c)) == (b, Some(c)),
{
    assert(b.push(c).drop_last() =~= b);
}

} // verus!
