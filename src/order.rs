//! Name order and sorted insertion of type declarations.

use vstd::prelude::*;
use crate::model::ColumnType;

verus! {

/// Lexicographic order of texts by code point, as `str` orders them.
pub open spec fn text_lt(a: Seq<char>, b: Seq<char>) -> bool
    decreases a.len(),
{
    if a.len() == 0 {
        b.len() > 0
    } else if b.len() == 0 {
        false
    } else if a[0] != b[0] {
        (a[0] as int) < (b[0] as int)
    } else {
        text_lt(a.drop_first(), b.drop_first())
    }
}

/// Whether `a` orders before `b`.
pub fn text_less(a: &str, b: &str) -> (r: bool)
    ensures
        r == text_lt(a@, b@),
{
    let la = a.unicode_len();
    let lb = b.unicode_len();
    let mut i: usize = 0;
    assert(a@.skip(0) =~= a@);
    assert(b@.skip(0) =~= b@);
    while i < la && i < lb
        invariant
            la == a@.len(),
            lb == b@.len(),
            i <= la,
            i <= lb,
            text_lt(a@, b@) == text_lt(a@.skip(i as int), b@.skip(i as int)),
        decreases la - i,
    {
        let ca = a.get_char(i);
        let cb = b.get_char(i);
        proof {
            assert(a@.skip(i as int)[0] == ca);
            assert(b@.skip(i as int)[0] == cb);
            assert(a@.skip(i as int).drop_first() =~= a@.skip(i + 1));
            assert(b@.skip(i as int).drop_first() =~= b@.skip(i + 1));
        }
        if ca != cb {
            return ca < cb;
        }
        i = i + 1;
    }
    proof {
        if i == la {
            assert(a@.skip(i as int).len() == 0);
        } else {
            assert(b@.skip(i as int).len() == 0);
        }
    }
    i == la && i < lb
}

proof fn lemma_lt_irreflexive(a: Seq<char>)
    ensures
        !text_lt(a, a),
    decreases a.len(),
{
    if a.len() > 0 {
        lemma_lt_irreflexive(a.drop_first());
    }
}

proof fn lemma_lt_total(a: Seq<char>, b: Seq<char>)
    ensures
        a != b ==> text_lt(a, b) || text_lt(b, a),
        !(text_lt(a, b) && text_lt(b, a)),
    decreases a.len(),
{
    if a.len() > 0 && b.len() > 0 {
        lemma_lt_total(a.drop_first(), b.drop_first());
        if a[0] != b[0] {
            assert((a[0] as int) != (b[0] as int));
        }
        if a[0] == b[0] && a.drop_first() == b.drop_first() {
            assert(a =~= seq![a[0]] + a.drop_first());
            assert(b =~= seq![b[0]] + b.drop_first());
        }
    } else if a.len() == 0 && b.len() == 0 {
        assert(a =~= b);
    }
}

proof fn lemma_lt_transitive(a: Seq<char>, b: Seq<char>, c: Seq<char>)
    requires
        text_lt(a, b),
        text_lt(b, c),
    ensures
        text_lt(a, c),
    decreases a.len(),
{
    if a.len() > 0 && b.len() > 0 && c.len() > 0 && a[0] == b[0] && b[0] == c[0] {
        lemma_lt_transitive(a.drop_first(), b.drop_first(), c.drop_first());
    }
}

/// A type to declare, with the table and column it was synthesized for.
pub struct TypeDecl {
    pub ty: ColumnType,
    pub table: String,
    pub column: String,
}

/// The name a declaration is sorted by.
pub open spec fn key(d: TypeDecl) -> Seq<char> {
    d.ty.rust_name@
}

/// Inserts `x` into the name-sorted `l` before the first entry of a greater
/// name, unless an entry of its name is there already.
pub open spec fn insert_unique(l: Seq<TypeDecl>, x: TypeDecl) -> Seq<TypeDecl>
    decreases l.len(),
{
    if l.len() == 0 {
        seq![x]
    } else if text_lt(key(l.last()), key(x)) {
        l.push(x)
    } else if key(l.last()) == key(x) {
        l
    } else {
        insert_unique(l.drop_last(), x).push(l.last())
    }
}

/// `s` sorted by name, keeping the first declaration of each name.
pub open spec fn sorted_unique(s: Seq<TypeDecl>) -> Seq<TypeDecl>
    decreases s.len(),
{
    if s.len() == 0 {
        Seq::empty()
    } else {
        insert_unique(sorted_unique(s.drop_last()), s.last())
    }
}

/// Whether names strictly increase along `l`.
pub open spec fn strictly_sorted(l: Seq<TypeDecl>) -> bool {
    forall|i: int, j: int| 0 <= i < j < l.len() ==> text_lt(key(#[trigger] l[i]), key(#[trigger] l[j]))
}

/// Whether some entry of `l` has name `k`.
pub open spec fn has_key(l: Seq<TypeDecl>, k: Seq<char>) -> bool {
    exists|i: int| 0 <= i < l.len() && key(#[trigger] l[i]) == k
}

proof fn lemma_insert_unique_sorted(l: Seq<TypeDecl>, x: TypeDecl)
    requires
        strictly_sorted(l),
    ensures
        strictly_sorted(insert_unique(l, x)),
        forall|k: Seq<char>| #[trigger] has_key(insert_unique(l, x), k) <==> (has_key(l, k) || k == key(x)),
    decreases l.len(),
{
    let r = insert_unique(l, x);
    if l.len() == 0 {
        assert(r[0] == x);
    } else if text_lt(key(l.last()), key(x)) {
        assert forall|i: int, j: int| 0 <= i < j < r.len() implies text_lt(key(#[trigger] r[i]), key(#[trigger] r[j])) by {
            if j == l.len() && i < l.len() - 1 {
                lemma_lt_transitive(key(l[i]), key(l.last()), key(x));
            }
        }
        assert forall|k: Seq<char>| has_key(r, k) implies (has_key(l, k) || k == key(x)) by {
            let i = choose|i: int| 0 <= i < r.len() && key(#[trigger] r[i]) == k;
            if i < l.len() {
                assert(key(l[i]) == k);
            }
        }
        assert forall|k: Seq<char>| has_key(l, k) implies has_key(r, k) by {
            let i = choose|i: int| 0 <= i < l.len() && key(#[trigger] l[i]) == k;
            assert(key(r[i]) == k);
        }
        assert(key(r[l.len() as int]) == key(x));
    } else if key(l.last()) == key(x) {
        assert(key(l[l.len() - 1]) == key(x));
    } else {
        let p = l.drop_last();
        let last = l.last();
        assert(strictly_sorted(p)) by {
            assert forall|i: int, j: int| 0 <= i < j < p.len() implies text_lt(key(#[trigger] p[i]), key(#[trigger] p[j])) by {
                assert(p[i] == l[i] && p[j] == l[j]);
            }
        }
        lemma_insert_unique_sorted(p, x);
        let q = insert_unique(p, x);
        assert(r == q.push(last));
        lemma_lt_total(key(last), key(x));
        assert(text_lt(key(x), key(last)));
        assert forall|i: int| 0 <= i < q.len() implies text_lt(key(#[trigger] q[i]), key(last)) by {
            assert(has_key(q, key(q[i])));
            assert(has_key(insert_unique(p, x), key(q[i])));
            assert(has_key(p, key(q[i])) || key(q[i]) == key(x));
            if key(q[i]) != key(x) {
                let m = choose|m: int| 0 <= m < p.len() && key(#[trigger] p[m]) == key(q[i]);
                assert(p[m] == l[m]);
            }
        }
        assert forall|i: int, j: int| 0 <= i < j < r.len() implies text_lt(key(#[trigger] r[i]), key(#[trigger] r[j])) by {
            if j == q.len() {
                assert(r[i] == q[i]);
            } else {
                assert(r[i] == q[i] && r[j] == q[j]);
            }
        }
        assert forall|k: Seq<char>| has_key(r, k) <==> (has_key(l, k) || k == key(x)) by {
            if has_key(r, k) {
                let i = choose|i: int| 0 <= i < r.len() && key(#[trigger] r[i]) == k;
                if i < q.len() {
                    assert(key(q[i]) == k);
                    assert(has_key(insert_unique(p, x), k));
                    if has_key(p, k) {
                        let m = choose|m: int| 0 <= m < p.len() && key(#[trigger] p[m]) == k;
                        assert(l[m] == p[m]);
                    }
                } else {
                    assert(key(l[l.len() - 1]) == k);
                }
            }
            if has_key(l, k) {
                let i = choose|i: int| 0 <= i < l.len() && key(#[trigger] l[i]) == k;
                if i < l.len() - 1 {
                    assert(p[i] == l[i]);
                    assert(has_key(p, k));
                    assert(has_key(insert_unique(p, x), k));
                    let m = choose|m: int| 0 <= m < q.len() && key(#[trigger] q[m]) == k;
                    assert(r[m] == q[m]);
                } else {
                    assert(key(r[q.len() as int]) == k);
                }
            }
            if k == key(x) {
                assert(has_key(insert_unique(p, x), k));
                let m = choose|m: int| 0 <= m < q.len() && key(#[trigger] q[m]) == k;
                assert(r[m] == q[m]);
            }
        }
    }
}

/// The list that keeps one declaration per name is strictly sorted by name
/// and holds exactly the names of `s`.
pub proof fn lemma_sorted_unique(s: Seq<TypeDecl>)
    ensures
        strictly_sorted(sorted_unique(s)),
        forall|k: Seq<char>| has_key(sorted_unique(s), k) <==> has_key(s, k),
    decreases s.len(),
{
    if s.len() > 0 {
        let p = s.drop_last();
        lemma_sorted_unique(p);
        lemma_insert_unique_sorted(sorted_unique(p), s.last());
        assert forall|k: Seq<char>| has_key(sorted_unique(s), k) <==> has_key(s, k) by {
            if has_key(s, k) {
                let i = choose|i: int| 0 <= i < s.len() && key(#[trigger] s[i]) == k;
                if i < s.len() - 1 {
                    assert(p[i] == s[i]);
                    assert(has_key(p, k));
                }
            }
            if has_key(p, k) {
                let i = choose|i: int| 0 <= i < p.len() && key(#[trigger] p[i]) == k;
                assert(s[i] == p[i]);
            }
            if k == key(s.last()) {
                assert(key(s[s.len() - 1]) == k);
            }
        }
    }
}

/// A list strictly sorted by name is its own one-per-name sorted list.
pub proof fn lemma_sorted_unique_fixed(t: Seq<TypeDecl>)
    requires
        strictly_sorted(t),
    ensures
        sorted_unique(t) == t,
    decreases t.len(),
{
    if t.len() > 0 {
        let p = t.drop_last();
        assert(strictly_sorted(p)) by {
            assert forall|i: int, j: int| 0 <= i < j < p.len() implies text_lt(key(#[trigger] p[i]), key(#[trigger] p[j])) by {
                assert(p[i] == t[i] && p[j] == t[j]);
            }
        }
        lemma_sorted_unique_fixed(p);
        if p.len() > 0 {
            assert(text_lt(key(p.last()), key(t.last())));
        }
        assert(p.push(t.last()) =~= t);
    }
}

/// Sorting one-per-name twice gives what sorting once gives.
pub proof fn lemma_sorted_unique_idempotent(s: Seq<TypeDecl>)
    ensures
        sorted_unique(sorted_unique(s)) == sorted_unique(s),
{
    lemma_sorted_unique(s);
    lemma_sorted_unique_fixed(sorted_unique(s));
}

/// In a list strictly sorted by name, each name stands at one place only.
pub proof fn lemma_strictly_sorted_once(l: Seq<TypeDecl>, i: int, j: int)
    requires
        strictly_sorted(l),
        0 <= i < l.len(),
        0 <= j < l.len(),
        key(l[i]) == key(l[j]),
    ensures
        i == j,
{
    if i < j {
        lemma_lt_irreflexive(key(l[i]));
    } else if j < i {
        lemma_lt_irreflexive(key(l[i]));
    }
}

proof fn lemma_insert_unique_split(l: Seq<TypeDecl>, x: TypeDecl, j: int)
    requires
        0 <= j <= l.len(),
        forall|k: int| j <= k < l.len() ==> !text_lt(key(#[trigger] l[k]), key(x)) && key(l[k]) != key(x),
    ensures
        insert_unique(l, x) == insert_unique(l.take(j), x) + l.skip(j),
    decreases l.len() - j,
{
    if j < l.len() {
        lemma_insert_unique_split(l, x, j + 1);
        let t = l.take(j + 1);
        assert(t.drop_last() =~= l.take(j));
        assert(t.last() == l[j]);
        assert(insert_unique(t, x) == insert_unique(l.take(j), x).push(l[j]));
        assert(insert_unique(l.take(j), x).push(l[j]) + l.skip(j + 1) =~= insert_unique(l.take(j), x) + l.skip(j));
    } else {
        assert(l.take(j) =~= l);
        assert(l.skip(j) =~= Seq::<TypeDecl>::empty());
        assert(insert_unique(l, x) + Seq::<TypeDecl>::empty() =~= insert_unique(l, x));
    }
}

/// Inserts a declaration, dropping it when its name is present.
pub fn push_unique(v: &mut Vec<TypeDecl>, x: TypeDecl)
    ensures
        final(v)@ == insert_unique(old(v)@, x),
{
    let ghost l = v@;
    let mut j: usize = v.len();
    while j > 0
        invariant
            j <= l.len(),
            v@ == l,
            l == old(v)@,
            forall|k: int| j <= k < l.len() ==> !text_lt(key(#[trigger] l[k]), key(x)) && key(l[k]) != key(x),
        decreases j,
    {
        let last = &v[j - 1];
        proof {
            let t = l.take(j as int);
            assert(t.last() == l[j - 1]);
            assert(t.drop_last() =~= l.take(j - 1));
        }
        if text_less(last.ty.rust_name.as_str(), x.ty.rust_name.as_str()) {
            proof {
                lemma_insert_unique_split(l, x, j as int);
                let t = l.take(j as int);
                assert(insert_unique(t, x) == t.push(x));
            }
            v.insert(j, x);
            proof {
                assert(l.take(j as int).push(x) + l.skip(j as int) =~= l.insert(j as int, x));
            }
            return;
        }
        if last.ty.rust_name == x.ty.rust_name {
            proof {
                lemma_insert_unique_split(l, x, j as int);
                let t = l.take(j as int);
                assert(insert_unique(t, x) == t);
                assert(l.take(j as int) + l.skip(j as int) =~= l);
            }
            return;
        }
        j = j - 1;
    }
    proof {
        lemma_insert_unique_split(l, x, 0);
        assert(l.take(0) =~= Seq::<TypeDecl>::empty());
    }
    v.insert(0, x);
    proof {
        assert(seq![x] + l.skip(0) =~= l.insert(0, x));
    }
}

} // verus!
