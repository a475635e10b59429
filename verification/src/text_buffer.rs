use vstd::prelude::*;

verus! {

/// An editable text buffer with the cursor at its end.
///
/// Character input appends at the cursor and backspace removes the
/// character before it, so the buffer is a sequence of characters grown and
/// shrunk at the back. Its view is that sequence.
#[derive(Debug)]
pub struct TextBuffer {
    chars: Vec<char>,
}

impl View for TextBuffer {
    type V = Seq<char>;

    closed spec fn view(&self) -> Seq<char> {
        self.chars@
    }
}

/// Relies on String::push: appends the given char to the end of the string.
#[verifier::external_body]
fn push_char(s: &mut String, c: char)
    ensures
        final(s)@ == old(s)@.push(c),
{
    s.push(c);
}

impl TextBuffer {
    /// An empty buffer.
    pub fn new() -> (r: TextBuffer)
        ensures
            r@ == Seq::<char>::empty(),
    {
        TextBuffer { chars: Vec::new() }
    }

    /// Appends `c` at the cursor.
    pub fn insert_char(&mut self, c: char)
        ensures
            final(self)@ == old(self)@.push(c),
    {
        self.chars.push(c);
    }

    /// Removes the character before the cursor; a no-op on an empty buffer.
    pub fn delete_char(&mut self)
        ensures
            old(self)@.len() == 0 ==> final(self)@ == old(self)@,
            old(self)@.len() > 0 ==> final(self)@ == old(self)@.drop_last(),
    {
        if self.chars.len() > 0 {
            self.chars.pop();
        }
    }

    /// The buffer's contents as one string.
    pub fn text(&self) -> (r: String)
        ensures
            r@ == self@,
    {
        let mut out = String::new();
        let mut i: usize = 0;
        while i < self.chars.len()
            invariant
                i <= self.chars.len(),
                out@ == self.chars@.subrange(0, i as int),
            decreases self.chars.len() - i,
        {
            push_char(&mut out, self.chars[i]);
            i = i + 1;
            proof {
                assert(out@ =~= self.chars@.subrange(0, i as int));
            }
        }
        proof {
            assert(out@ =~= self@);
        }
        out
    }
}

} // verus!
