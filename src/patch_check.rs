//! A check on the line numbers of a unified diff's hunk headers.

use vstd::prelude::*;

verus! {

/// The largest line number or line count a hunk header may give: the sum of
/// two of them must fit in `usize`.
pub open spec fn range_limit() -> int {
    usize::MAX as int / 2
}

pub open spec fn is_digit(c: char) -> bool {
    '0' <= c && c <= '9'
}

pub open spec fn digit_value(c: char) -> int {
    c as int - '0' as int
}

/// Scanning `s` from its start: whether the last character ends a line,
/// whether the current line starts with `@` (as every hunk header does), and
/// the value of the run of decimal digits that ends the text.
pub open spec fn scan(s: Seq<char>) -> (bool, bool, int)
    decreases s.len(),
{
    if s.len() == 0 {
        (true, false, 0)
    } else {
        let (at_start, header, run) = scan(s.drop_last());
        let c = s.last();
        if c == '\n' {
            (true, false, 0)
        } else {
            (
                false,
                if at_start {
                    c == '@'
                } else {
                    header
                },
                if is_digit(c) {
                    run * 10 + digit_value(c)
                } else {
                    0
                },
            )
        }
    }
}

/// Whether every number written on a line that starts with `@` is at most
/// `range_limit()`.
pub open spec fn header_numbers_fit(s: Seq<char>) -> bool
    decreases s.len(),
{
    if s.len() == 0 {
        true
    } else {
        header_numbers_fit(s.drop_last()) && (scan(s).1 ==> scan(s).2 <= range_limit())
    }
}

proof fn lemma_fit_prefix(s: Seq<char>, k: int)
    requires
        0 <= k <= s.len(),
        header_numbers_fit(s),
    ensures
        header_numbers_fit(s.take(k)),
    decreases s.len(),
{
    if k < s.len() {
        assert(s.take(k) =~= s.drop_last().take(k));
        lemma_fit_prefix(s.drop_last(), k);
    } else {
        assert(s.take(k) =~= s);
    }
}

pub open spec fn capped(v: int) -> int {
    if v > range_limit() {
        range_limit() + 1
    } else {
        v
    }
}

/// Whether every number in the hunk headers of `patch` is small enough that
/// a start plus a length fits in `usize`.
pub fn patch_numbers_fit(patch: &str) -> (r: bool)
    ensures
        r == header_numbers_fit(patch@),
{
    let limit: u128 = (usize::MAX / 2) as u128;
    let mut at_start = true;
    let mut header = false;
    let mut run: u128 = 0;
    broadcast use vstd::string::group_string_axioms;
    for c in it: patch.chars()
        invariant
            it.seq() == patch@,
            limit == range_limit(),
            header_numbers_fit(it.seq().take(it.index())),
            scan(it.seq().take(it.index())).0 == at_start,
            scan(it.seq().take(it.index())).1 == header,
            capped(scan(it.seq().take(it.index())).2) == run as int,
            scan(it.seq().take(it.index())).2 >= 0,
    {
        let ghost done = it.seq().take(it.index());
        proof {
            assert(it.seq().take(it.index() + 1).drop_last() =~= done);
        }
        if c == '\n' {
            at_start = true;
            header = false;
            run = 0;
        } else {
            if at_start {
                header = c == '@';
            }
            at_start = false;
            if '0' <= c && c <= '9' {
                run = run * 10 + ((c as u32) - ('0' as u32)) as u128;
                if run > limit {
                    run = limit + 1;
                }
            } else {
                run = 0;
            }
            if header && run > limit {
                proof {
                    let k = it.index() + 1;
                    assert(patch@.take(k) == it.seq().take(it.index() + 1));
                    if header_numbers_fit(patch@) {
                        lemma_fit_prefix(patch@, k);
                    }
                }
                return false;
            }
        }
    }
    proof {
        assert(patch@.take(patch@.len() as int) =~= patch@);
    }
    true
}

} // verus!
