//! Documentation comment lines.

use vstd::prelude::*;

verus! {

/// What `str::trim` returns for a string.
pub uninterp spec fn trim_of(s: Seq<char>) -> Seq<char>;

/// Relies on `str::trim`: leading and trailing whitespace removed.
#[verifier::external_body]
fn trimmed(s: &str) -> (r: String)
    ensures
        r@ == trim_of(s@),
{
    s.trim().to_string()
}

/// The lines finished so far and the line in progress, after scanning `s`.
pub open spec fn split_lines(s: Seq<char>) -> (Seq<Seq<char>>, Seq<char>)
    decreases s.len(),
{
    if s.len() == 0 {
        (Seq::empty(), Seq::empty())
    } else {
        let (done, cur) = split_lines(s.drop_last());
        if s.last() == '\n' {
            (done.push(cur), Seq::empty())
        } else {
            (done, cur.push(s.last()))
        }
    }
}

/// The lines of `s`, split at each newline; a final newline ends the last
/// line rather than starting an empty one.
pub open spec fn lines_of(s: Seq<char>) -> Seq<Seq<char>> {
    let (done, cur) = split_lines(s);
    if cur.len() == 0 {
        done
    } else {
        done.push(cur)
    }
}

/// One comment line for a line whose whitespace was already trimmed.
pub open spec fn doc_line_spec(t: Seq<char>) -> Seq<char> {
    if t.len() == 0 {
        "///\n"@
    } else {
        "/// "@ + t + "\n"@
    }
}

/// The comment lines for a sequence of raw lines.
pub open spec fn doc_lines(ls: Seq<Seq<char>>) -> Seq<char>
    decreases ls.len(),
{
    if ls.len() == 0 {
        Seq::empty()
    } else {
        doc_lines(ls.drop_last()) + doc_line_spec(trim_of(ls.last()))
    }
}

/// The documentation comment written for the text `doc`: one `///` line
/// per line of it, each trimmed.
pub open spec fn doc_comments(doc: Seq<char>) -> Seq<char> {
    doc_lines(lines_of(doc))
}

/// Appends the comment line for an already trimmed line.
pub fn write_doc_line(out: &mut String, trimmed_line: &str)
    ensures
        final(out)@ == old(out)@ + doc_line_spec(trimmed_line@),
{
    if trimmed_line.unicode_len() == 0 {
        out.append("///\n");
    } else {
        out.append("/// ");
        out.append(trimmed_line);
        out.append("\n");
    }
}

/// Appends the documentation comment for `doc`.
pub fn write_doc_comments(out: &mut String, doc: &str)
    ensures
        final(out)@ == old(out)@ + doc_comments(doc@),
{
    let ghost out0 = out@;
    let mut cur = String::new();
    broadcast use vstd::string::group_string_axioms;
    for c in it: doc.chars()
        invariant
            it.seq() == doc@,
            out@ == out0 + doc_lines(split_lines(it.seq().take(it.index())).0),
            cur@ == split_lines(it.seq().take(it.index())).1,
    {
        let ghost done = it.seq().take(it.index());
        proof {
            assert(it.seq().take(it.index() + 1).drop_last() =~= done);
        }
        if c == '\n' {
            let t = trimmed(cur.as_str());
            write_doc_line(out, t.as_str());
            cur = String::new();
            proof {
                let ls = split_lines(done).0.push(split_lines(done).1);
                assert(ls.drop_last() =~= split_lines(done).0);
            }
        } else {
            cur.push(c);
        }
    }
    proof {
        assert(doc@.take(doc@.len() as int) =~= doc@);
    }
    if cur.unicode_len() != 0 {
        let t = trimmed(cur.as_str());
        write_doc_line(out, t.as_str());
        proof {
            let ls = split_lines(doc@).0.push(cur@);
            assert(ls.drop_last() =~= split_lines(doc@).0);
        }
    }
}

} // verus!
