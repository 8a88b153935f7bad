//! A text sink that indents every line written after a newline by one level.

use vstd::prelude::*;

verus! {

/// The indentation unit written at the start of each nested line.
pub open spec fn indent_unit() -> Seq<char> {
    seq![' ', ' ', ' ', ' ']
}

/// Whether the writer is at the start of a line after writing `s`,
/// having started in state `nl`.
pub open spec fn pad_state(s: Seq<char>, nl: bool) -> bool {
    if s.len() == 0 {
        nl
    } else {
        s.last() == '\n'
    }
}

/// What the writer forwards for `s` when it starts in state `nl`: each
/// character that starts a line and is not itself a newline gets one
/// indentation unit in front of it.
pub open spec fn pad(s: Seq<char>, nl: bool) -> Seq<char>
    decreases s.len(),
{
    if s.len() == 0 {
        Seq::empty()
    } else {
        let prev = s.drop_last();
        let c = s.last();
        let lead = if pad_state(prev, nl) && c != '\n' {
            indent_unit()
        } else {
            Seq::empty()
        };
        pad(prev, nl) + lead + seq![c]
    }
}

/// Padding a concatenation pads each part in turn, the second one
/// starting in the state that the first one left.
pub proof fn lemma_pad_append(a: Seq<char>, b: Seq<char>, nl: bool)
    ensures
        pad(a + b, nl) == pad(a, nl) + pad(b, pad_state(a, nl)),
        pad_state(a + b, nl) == pad_state(b, pad_state(a, nl)),
    decreases b.len(),
{
    if b.len() == 0 {
        assert(a + b =~= a);
        assert(pad(a, nl) + pad(b, pad_state(a, nl)) =~= pad(a, nl));
    } else {
        let b0 = b.drop_last();
        assert((a + b).drop_last() =~= a + b0);
        lemma_pad_append(a, b0, nl);
        assert((a + b).last() == b.last());
        assert(pad(a + b, nl) =~= pad(a, nl) + pad(b, pad_state(a, nl)));
    }
}

/// An indenting writer over an owned text buffer.
pub struct PadAdapter {
    pub buf: String,
    pub on_newline: bool,
}

impl PadAdapter {
    /// A writer with an empty buffer that does not indent its first line.
    pub fn new() -> (r: PadAdapter)
        ensures
            r.buf@ == Seq::<char>::empty(),
            !r.on_newline,
    {
        PadAdapter { buf: String::new(), on_newline: false }
    }

    /// Writes `s`, indenting each line that begins inside it.
    pub fn write_str(&mut self, s: &str)
        ensures
            final(self).buf@ == old(self).buf@ + pad(s@, old(self).on_newline),
            final(self).on_newline == pad_state(s@, old(self).on_newline),
    {
        let ghost nl0 = self.on_newline;
        let ghost buf0 = self.buf@;
        broadcast use vstd::string::group_string_axioms;
        for c in it: s.chars()
            invariant
                it.seq() == s@,
                self.buf@ == buf0 + pad(it.seq().take(it.index()), nl0),
                self.on_newline == pad_state(it.seq().take(it.index()), nl0),
        {
            let ghost done = it.seq().take(it.index());
            if self.on_newline && c != '\n' {
                self.buf.append("    ");
                proof {
                    reveal_strlit("    ");
                }
            }
            self.buf.push(c);
            self.on_newline = c == '\n';
            proof {
                assert(it.seq().take(it.index() + 1).drop_last() =~= done);
            }
        }
        assert(s@.take(s@.len() as int) =~= s@);
    }
}

} // verus!
