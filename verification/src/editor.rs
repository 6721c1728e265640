//! Single-line editor buffer: the cursor sits at the end, so the only
//! edits are appending a character and deleting the last one.
use vstd::prelude::*;

verus! {

use vstd::string::StrSliceExecFns;

/// The buffer content after one delete: the last character is dropped;
/// on an empty buffer a delete is a no-op.
pub open spec fn deleted(s: Seq<char>) -> Seq<char> {
    if s.len() == 0 {
        s
    } else {
        s.drop_last()
    }
}

/// A single-line text input whose cursor is always at the end.
pub struct EditorBuffer {
    pub text: String,
}

impl View for EditorBuffer {
    type V = Seq<char>;

    open spec fn view(&self) -> Seq<char> {
        self.text@
    }
}

impl EditorBuffer {
    pub fn empty() -> (b: EditorBuffer)
        ensures
            b@ == Seq::<char>::empty(),
    {
        EditorBuffer { text: String::new() }
    }

    /// A fresh buffer holding a copy of `s`.
    pub fn holding(s: &String) -> (b: EditorBuffer)
        ensures
            b@ == s@,
    {
        EditorBuffer { text: s.clone() }
    }

    pub fn append_char(&mut self, c: char)
        ensures
            final(self)@ == old(self)@.push(c),
    {
        crate::text::push_char(&mut self.text, c);
    }

    pub fn delete_last(&mut self)
        ensures
            final(self)@ == deleted(old(self)@),
    {
        let n: usize = self.text.as_str().unicode_len();
        if n > 0 {
            let shorter = self.text.as_str().substring_char(0, n - 1).to_owned();
            proof {
                assert(old(self)@.subrange(0, n - 1) =~= old(self)@.drop_last());
            }
            self.text = shorter;
        }
    }

    pub fn char_len(&self) -> (n: usize)
        ensures
            n == self@.len(),
    {
        self.text.as_str().unicode_len()
    }

    pub fn clear(&mut self)
        ensures
            final(self)@ == Seq::<char>::empty(),
    {
        self.text = String::new();
    }
}

} // verus!
