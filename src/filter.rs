//! Which tables take part in the output.

use vstd::prelude::*;
use crate::model::{TableData, TableName};

verus! {

#[verifier::external_type_specification]
#[verifier::external_body]
pub struct ExRegex(regex::Regex);

#[verifier::external_type_specification]
#[verifier::external_body]
pub struct ExRegexError(regex::Error);

/// Whether `regex::Regex::new` accepts a pattern.
pub uninterp spec fn regex_compiles(pattern: Seq<char>) -> bool;

/// Whether `regex::Regex::is_match` finds the pattern anywhere in a text.
pub uninterp spec fn regex_finds(pattern: Seq<char>, haystack: Seq<char>) -> bool;

/// Relies on `regex::Regex::new`: it fails exactly on patterns that do not
/// compile.
#[verifier::external_body]
fn compile_regex(pattern: &str) -> (r: Result<regex::Regex, regex::Error>)
    ensures
        r is Ok <==> regex_compiles(pattern@),
{
    regex::Regex::new(pattern)
}

/// Relies on `regex::Regex::is_match`: whether the pattern that `p` was
/// compiled from matches somewhere in `haystack`.
#[verifier::external_body]
fn regex_is_match(p: &TablePattern, haystack: &str) -> (r: bool)
    ensures
        r == regex_finds(p.pattern(), haystack@),
{
    p.regex.is_match(haystack)
}

/// A table-name pattern together with the regular expression compiled from it.
pub struct TablePattern {
    source: String,
    regex: regex::Regex,
}

/// A pattern that does not compile.
#[derive(Debug)]
pub struct InvalidPattern {
    pub pattern: String,
}

impl TablePattern {
    /// The text of the pattern.
    pub closed spec fn pattern(&self) -> Seq<char> {
        self.source@
    }

    /// Compiles a pattern.
    pub fn new(pattern: &str) -> (r: Result<TablePattern, InvalidPattern>)
        ensures
            r is Ok <==> regex_compiles(pattern@),
            r matches Ok(p) ==> p.pattern() == pattern@,
            r matches Err(e) ==> e.pattern@ == pattern@,
    {
        match compile_regex(pattern) {
            Ok(regex) => Ok(TablePattern { source: pattern.to_owned(), regex }),
            Err(_) => Err(InvalidPattern { pattern: pattern.to_owned() }),
        }
    }

    pub fn as_str(&self) -> (r: &str)
        ensures
            r@ == self.pattern(),
    {
        self.source.as_str()
    }

    /// Whether the pattern matches somewhere in `name`.
    pub fn is_match(&self, name: &str) -> (r: bool)
        ensures
            r == regex_finds(self.pattern(), name@),
    {
        regex_is_match(self, name)
    }
}

/// Whether some pattern of `ps` matches `name`.
pub open spec fn any_finds(ps: Seq<TablePattern>, name: Seq<char>) -> bool {
    exists|i: int| 0 <= i < ps.len() && regex_finds(#[trigger] ps[i].pattern(), name)
}

/// Which tables to keep: those some pattern matches, all but those, or all.
pub enum Filtering {
    OnlyTables(Vec<TablePattern>),
    ExceptTables(Vec<TablePattern>),
    NoFilter,
}

impl Default for Filtering {
    fn default() -> (r: Self)
        ensures
            r is NoFilter,
    {
        Filtering::NoFilter
    }
}

fn any_match(ps: &Vec<TablePattern>, name: &str) -> (r: bool)
    ensures
        r == any_finds(ps@, name@),
{
    let mut i: usize = 0;
    while i < ps.len()
        invariant
            i <= ps@.len(),
            forall|j: int| 0 <= j < i ==> !regex_finds(#[trigger] ps@[j].pattern(), name@),
        decreases ps@.len() - i,
    {
        if ps[i].is_match(name) {
            return true;
        }
        i = i + 1;
    }
    false
}

/// The tables of `s` that `f` keeps, in their order.
pub open spec fn kept(f: Filtering, s: Seq<TableName>) -> Seq<TableName>
    decreases s.len(),
{
    if s.len() == 0 {
        Seq::empty()
    } else if f.ignores(s.last().sql_name@) {
        kept(f, s.drop_last())
    } else {
        kept(f, s.drop_last()).push(s.last())
    }
}

/// The tables of `s` that `f` ignores, in their order.
pub open spec fn ignored(f: Filtering, s: Seq<TableName>) -> Seq<TableName>
    decreases s.len(),
{
    if s.len() == 0 {
        Seq::empty()
    } else if f.ignores(s.last().sql_name@) {
        ignored(f, s.drop_last()).push(s.last())
    } else {
        ignored(f, s.drop_last())
    }
}

/// The tables of `s` that `f` keeps, in their order.
pub open spec fn kept_tables(f: Filtering, s: Seq<TableData>) -> Seq<TableData>
    decreases s.len(),
{
    if s.len() == 0 {
        Seq::empty()
    } else if f.ignores(s.last().name.sql_name@) {
        kept_tables(f, s.drop_last())
    } else {
        kept_tables(f, s.drop_last()).push(s.last())
    }
}

impl Filtering {
    /// Whether a table of database name `name` is left out.
    pub open spec fn ignores(self, name: Seq<char>) -> bool {
        match self {
            Filtering::OnlyTables(ps) => !any_finds(ps@, name),
            Filtering::ExceptTables(ps) => any_finds(ps@, name),
            Filtering::NoFilter => false,
        }
    }

    pub fn should_ignore_table(&self, name: &TableName) -> (r: bool)
        ensures
            r == self.ignores(name.sql_name@),
    {
        match self {
            Filtering::OnlyTables(ps) => !any_match(ps, name.sql_name.as_str()),
            Filtering::ExceptTables(ps) => any_match(ps, name.sql_name.as_str()),
            Filtering::NoFilter => false,
        }
    }

    /// The tables that are not left out, in their order.
    pub fn surviving_tables(&self, names: &Vec<TableName>) -> (r: Vec<TableName>)
        ensures
            r@ == kept(*self, names@),
    {
        let mut r: Vec<TableName> = Vec::new();
        let mut i: usize = 0;
        while i < names.len()
            invariant
                i <= names@.len(),
                r@ == kept(*self, names@.take(i as int)),
            decreases names@.len() - i,
        {
            proof {
                assert(names@.take(i + 1).drop_last() =~= names@.take(i as int));
            }
            if !self.should_ignore_table(&names[i]) {
                r.push(names[i].clone());
            }
            i = i + 1;
        }
        assert(names@.take(names@.len() as int) =~= names@);
        r
    }
}

impl Filtering {
    /// The tables that are not left out, in their order.
    pub fn retain_tables(&self, tables: Vec<TableData>) -> (r: Vec<TableData>)
        ensures
            r@ == kept_tables(*self, tables@),
    {
        let ghost all = tables@;
        let n: usize = tables.len();
        let mut rest = tables;
        let mut r: Vec<TableData> = Vec::new();
        let mut i: usize = 0;
        assert(all.skip(0) =~= all);
        while rest.len() > 0
            invariant
                i + rest@.len() == all.len(),
                all.len() == n,
                rest@ == all.skip(i as int),
                r@ == kept_tables(*self, all.take(i as int)),
            decreases rest@.len(),
        {
            let t = rest.remove(0);
            proof {
                assert(t == all[i as int]);
                assert(rest@ =~= all.skip(i + 1));
                assert(all.take(i + 1).drop_last() =~= all.take(i as int));
            }
            if !self.should_ignore_table(&t.name) {
                r.push(t);
            }
            i = i + 1;
        }
        assert(all.take(all.len() as int) =~= all);
        r
    }
}

/// Filtering splits any list of tables in two: the kept ones, which it does
/// not ignore, and the ignored ones; each table lands in exactly one part.
pub proof fn lemma_filter_partitions(f: Filtering, s: Seq<TableName>)
    ensures
        kept(f, s).len() + ignored(f, s).len() == s.len(),
        forall|i: int| 0 <= i < kept(f, s).len() ==> !f.ignores(#[trigger] kept(f, s)[i].sql_name@),
        forall|i: int| 0 <= i < ignored(f, s).len() ==> f.ignores(#[trigger] ignored(f, s)[i].sql_name@),
        forall|i: int|
            0 <= i < s.len() ==> (kept(f, s).contains(#[trigger] s[i]) || ignored(f, s).contains(s[i])),
    decreases s.len(),
{
    if s.len() > 0 {
        let p = s.drop_last();
        lemma_filter_partitions(f, p);
        assert forall|i: int| 0 <= i < s.len() implies (kept(f, s).contains(#[trigger] s[i])
            || ignored(f, s).contains(s[i])) by {
            if i < s.len() - 1 {
                assert(p[i] == s[i]);
                if kept(f, p).contains(p[i]) {
                    let k = choose|k: int| 0 <= k < kept(f, p).len() && kept(f, p)[k] == p[i];
                    assert(kept(f, s)[k] == s[i]);
                } else {
                    let k = choose|k: int| 0 <= k < ignored(f, p).len() && ignored(f, p)[k] == p[i];
                    assert(ignored(f, s)[k] == s[i]);
                }
            } else {
                if f.ignores(s.last().sql_name@) {
                    assert(ignored(f, s).last() == s[i]);
                } else {
                    assert(kept(f, s).last() == s[i]);
                }
            }
        }
    }
}

/// With no pattern, keeping only matching tables keeps none, and excluding
/// matching tables excludes none.
pub proof fn lemma_empty_patterns(ps: Vec<TablePattern>, name: Seq<char>)
    requires
        ps@.len() == 0,
    ensures
        Filtering::OnlyTables(ps).ignores(name),
        !Filtering::ExceptTables(ps).ignores(name),
{
}

} // verus!
