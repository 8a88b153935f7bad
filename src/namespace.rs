//! The `sql_types` namespace that declares the synthesized types.

use vstd::prelude::*;
use crate::config::Backend;
use crate::model::{ColumnType, TableData};
use crate::custom_types::overrides_spec;
use crate::order::{
    has_key, key, lemma_sorted_unique, lemma_sorted_unique_idempotent, lemma_strictly_sorted_once,
    push_unique, sorted_unique, strictly_sorted, TypeDecl,
};
use crate::pad::{pad, PadAdapter};
use crate::render::{opt_ovs_view, table_overrides_fit};
use crate::text::{join_comma, views, write_joined};

verus! {

/// What `char::to_uppercase` yields for a character.
pub uninterp spec fn char_upper_of(c: char) -> Seq<char>;

/// Relies on `char::to_uppercase`, collected into a string.
#[verifier::external_body]
fn uppercase_char(c: char) -> (r: String)
    ensures
        r@ == char_upper_of(c),
{
    c.to_uppercase().collect()
}

/// The declarations of one table's synthesized types, first `n` columns.
pub open spec fn row_decls(t: TableData, row: Seq<Option<ColumnType>>, n: nat) -> Seq<TypeDecl>
    decreases n,
{
    if n == 0 {
        Seq::empty()
    } else {
        let prev = row_decls(t, row, (n - 1) as nat);
        match row[n - 1] {
            Some(ct) => prev.push(TypeDecl { ty: ct, table: t.name.rust_name, column: t.column_data@[n - 1].rust_name }),
            None => prev,
        }
    }
}

/// The declarations of the synthesized types of the first `n` tables, in
/// table and column order.
pub open spec fn all_decls(ts: Seq<TableData>, ovs: Seq<Vec<Option<ColumnType>>>, n: nat) -> Seq<TypeDecl>
    decreases n,
{
    if n == 0 {
        Seq::empty()
    } else {
        all_decls(ts, ovs, (n - 1) as nat) + row_decls(ts[n - 1], ovs[n - 1]@, ovs[n - 1]@.len())
    }
}

/// The declarations a backend emits: sorted by name, one per name, the
/// first declaration of each name kept.
pub open spec fn emitted(b: Backend, s: Seq<TypeDecl>) -> Seq<TypeDecl> {
    sorted_unique(s)
}

/// The type name as MySQL spells it: the first character upper-cased.
pub open spec fn capitalized(s: Seq<char>) -> Seq<char> {
    if s.len() == 0 {
        s
    } else {
        char_upper_of(s[0]) + s.drop_first()
    }
}

pub open spec fn auto_note() -> Seq<char> {
    "///\n/// (Automatically generated by Diesel.)\n"@
}

/// The documentation of one declaration.
pub open spec fn decl_doc(b: Backend, docs: bool, d: TypeDecl) -> Seq<char> {
    let ct = d.ty;
    if !docs {
        Seq::empty()
    } else if b == Backend::Pg {
        match ct.schema {
            Some(s) => "/// The `"@ + s@ + "."@ + ct.sql_name@ + "` SQL type\n"@ + auto_note(),
            None => "/// The `"@ + ct.sql_name@ + "` SQL type\n"@ + auto_note(),
        }
    } else {
        "/// The `"@ + ct.sql_name@ + "` SQL type for the\n/// [`"@ + d.table@ + "::"@ + d.column@
            + "`](super::"@ + d.table@ + "::"@ + d.column@ + ")) column\n"@ + auto_note()
    }
}

/// The attribute naming the database type of one declaration.
pub open spec fn decl_attr(b: Backend, d: TypeDecl) -> Seq<char> {
    let ct = d.ty;
    if b == Backend::Pg {
        match ct.schema {
            Some(s) => "#[diesel(postgres_type(name = \""@ + ct.sql_name@ + "\", schema = \""@ + s@
                + "\"))]\n"@,
            None => "#[diesel(postgres_type(name = \""@ + ct.sql_name@ + "\"))]\n"@,
        }
    } else {
        "#[diesel(mysql_type(name = \""@ + capitalized(ct.sql_name@) + "\"))]\n"@
    }
}

/// One declaration of the namespace.
pub open spec fn decl_text(b: Backend, derives: Seq<char>, docs: bool, d: TypeDecl) -> Seq<char> {
    decl_doc(b, docs, d) + "#[derive("@ + derives + ")]\n"@ + decl_attr(b, d) + "pub struct "@
        + d.ty.rust_name@ + ";\n"@
}

/// The first `n` declarations, separated by blank lines.
pub open spec fn decls_text(b: Backend, derives: Seq<char>, docs: bool, ds: Seq<TypeDecl>, n: nat) -> Seq<char>
    decreases n,
{
    if n == 0 {
        Seq::empty()
    } else {
        decls_text(b, derives, docs, ds, (n - 1) as nat) + (if n > 1 {
            "\n"@
        } else {
            Seq::empty()
        }) + decl_text(b, derives, docs, ds[n - 1])
    }
}

/// The namespace block for the declarations `ds`; nothing when there are none.
pub open spec fn namespace_text(b: Backend, derives: Seq<char>, docs: bool, ds: Seq<TypeDecl>) -> Seq<char> {
    if ds.len() == 0 {
        Seq::empty()
    } else {
        (if docs {
            "/// A module containing custom SQL type definitions\n"@ + auto_note()
        } else {
            Seq::empty()
        }) + pad("pub mod sql_types {\n"@ + decls_text(b, derives, docs, ds, ds.len()), false) + "}\n\n"@
    }
}

proof fn lemma_all_decls_same(ts: Seq<TableData>, o1: Seq<Vec<Option<ColumnType>>>, o2: Seq<Vec<Option<ColumnType>>>, n: nat)
    requires
        n <= ts.len(),
        n <= o1.len(),
        n <= o2.len(),
        forall|i: int| 0 <= i < n ==> (#[trigger] o1[i])@ == o2[i]@,
    ensures
        all_decls(ts, o1, n) == all_decls(ts, o2, n),
    decreases n,
{
    if n > 0 {
        lemma_all_decls_same(ts, o1, o2, (n - 1) as nat);
        assert(o1[n - 1]@ == o2[n - 1]@);
    }
}

proof fn lemma_row_has(t: TableData, row: Seq<Option<ColumnType>>, n: nat, j: int)
    requires
        0 <= j < n <= row.len(),
        row[j] is Some,
    ensures
        has_key(row_decls(t, row, n), row[j]->0.rust_name@),
    decreases n,
{
    let r = row_decls(t, row, n);
    if j == n - 1 {
        assert(key(r[r.len() - 1]) == row[j]->0.rust_name@);
    } else {
        lemma_row_has(t, row, (n - 1) as nat, j);
        let p = row_decls(t, row, (n - 1) as nat);
        let m = choose|m: int| 0 <= m < p.len() && key(#[trigger] p[m]) == row[j]->0.rust_name@;
        assert(r[m] == p[m]);
    }
}

proof fn lemma_all_has(ts: Seq<TableData>, ovs: Seq<Vec<Option<ColumnType>>>, n: nat, i: int, j: int)
    requires
        0 <= i < n <= ts.len(),
        n <= ovs.len(),
        0 <= j < ovs[i]@.len(),
        ovs[i]@[j] is Some,
    ensures
        has_key(all_decls(ts, ovs, n), ovs[i]@[j]->0.rust_name@),
    decreases n,
{
    let k = ovs[i]@[j]->0.rust_name@;
    let a = all_decls(ts, ovs, n);
    let p = all_decls(ts, ovs, (n - 1) as nat);
    let row = row_decls(ts[n - 1], ovs[n - 1]@, ovs[n - 1]@.len());
    assert(a == p + row);
    if i == n - 1 {
        lemma_row_has(ts[i], ovs[i]@, ovs[i]@.len(), j);
        let m = choose|m: int| 0 <= m < row.len() && key(#[trigger] row[m]) == k;
        assert(a[p.len() + m] == row[m]);
    } else {
        lemma_all_has(ts, ovs, (n - 1) as nat, i, j);
        let m = choose|m: int| 0 <= m < p.len() && key(#[trigger] p[m]) == k;
        assert(a[m] == p[m]);
    }
}

/// On PostgreSQL, synthesizing twice from the same tables gives the same
/// declarations and the same namespace text, and sorting and deduplicating
/// the declarations again changes nothing.
pub proof fn lemma_synthesis_idempotent(
    known: Seq<Seq<char>>,
    ts: Seq<TableData>,
    ovs1: Seq<Vec<Option<ColumnType>>>,
    ovs2: Seq<Vec<Option<ColumnType>>>,
    derives: Seq<char>,
    docs: bool,
)
    requires
        overrides_spec(Backend::Pg, known, ts, ovs1),
        overrides_spec(Backend::Pg, known, ts, ovs2),
    ensures
        emitted(Backend::Pg, all_decls(ts, ovs1, ts.len())) == emitted(Backend::Pg, all_decls(ts, ovs2, ts.len())),
        emitted(Backend::Pg, emitted(Backend::Pg, all_decls(ts, ovs1, ts.len()))) == emitted(
            Backend::Pg,
            all_decls(ts, ovs1, ts.len()),
        ),
        namespace_text(Backend::Pg, derives, docs, emitted(Backend::Pg, all_decls(ts, ovs1, ts.len())))
            == namespace_text(Backend::Pg, derives, docs, emitted(Backend::Pg, all_decls(ts, ovs2, ts.len()))),
{
    assert forall|i: int| 0 <= i < ts.len() implies (#[trigger] ovs1[i])@ == ovs2[i]@ by {
        assert(ovs1[i]@ =~= ovs2[i]@);
    }
    lemma_all_decls_same(ts, ovs1, ovs2, ts.len());
    lemma_sorted_unique_idempotent(all_decls(ts, ovs1, ts.len()));
}

/// On every backend, the namespace declares each name exactly once, in
/// strictly increasing order, and declares exactly the names of the
/// synthesized types; sorting again changes nothing.
pub proof fn lemma_emitted_names_unique(b: Backend, s: Seq<TypeDecl>)
    ensures
        strictly_sorted(emitted(b, s)),
        forall|k: Seq<char>| #[trigger] has_key(emitted(b, s), k) <==> has_key(s, k),
        forall|p: int, q: int|
            0 <= p < emitted(b, s).len() && 0 <= q < emitted(b, s).len() && key(
                #[trigger] emitted(b, s)[p],
            ) == key(#[trigger] emitted(b, s)[q]) ==> p == q,
        emitted(b, emitted(b, s)) == emitted(b, s),
{
    lemma_sorted_unique(s);
    lemma_sorted_unique_idempotent(s);
    let ds = emitted(b, s);
    assert forall|p: int, q: int|
        0 <= p < ds.len() && 0 <= q < ds.len() && key(#[trigger] ds[p]) == key(#[trigger] ds[q]) implies p == q by {
        lemma_strictly_sorted_once(ds, p, q);
    }
}

/// On PostgreSQL, columns of different tables that share a type the backend
/// does not know get the same type, and the namespace declares it exactly once.
pub proof fn lemma_shared_type_declared_once(
    known: Seq<Seq<char>>,
    ts: Seq<TableData>,
    ovs: Seq<Vec<Option<ColumnType>>>,
    i1: int,
    j1: int,
    i2: int,
    j2: int,
)
    requires
        overrides_spec(Backend::Pg, known, ts, ovs),
        0 <= i1 < ts.len(),
        0 <= i2 < ts.len(),
        i1 != i2,
        0 <= j1 < ts[i1].column_data@.len(),
        0 <= j2 < ts[i2].column_data@.len(),
        ts[i1].column_data@[j1].ty.rust_name@ == ts[i2].column_data@[j2].ty.rust_name@,
        !known.contains(ts[i1].column_data@[j1].ty.rust_name@),
    ensures
        ({
            let name = ts[i1].column_data@[j1].ty.rust_name@;
            let ds = emitted(Backend::Pg, all_decls(ts, ovs, ts.len()));
            &&& ovs[i1]@[j1] matches Some(a) && a.rust_name@ == name
            &&& ovs[i2]@[j2] matches Some(b) && b.rust_name@ == name
            &&& has_key(ds, name)
            &&& forall|p: int, q: int|
                0 <= p < ds.len() && 0 <= q < ds.len() && key(#[trigger] ds[p]) == name && key(
                    #[trigger] ds[q],
                ) == name ==> p == q
        }),
{
    let name = ts[i1].column_data@[j1].ty.rust_name@;
    let all = all_decls(ts, ovs, ts.len());
    assert(ovs[i1]@[j1] == Some(ts[i1].column_data@[j1].ty));
    assert(ovs[i2]@[j2] == Some(ts[i2].column_data@[j2].ty));
    lemma_all_has(ts, ovs, ts.len(), i1, j1);
    lemma_sorted_unique(all);
    let ds = sorted_unique(all);
    assert forall|p: int, q: int|
        0 <= p < ds.len() && 0 <= q < ds.len() && key(#[trigger] ds[p]) == name && key(#[trigger] ds[q]) == name
        implies p == q by {
        lemma_strictly_sorted_once(ds, p, q);
    }
}

/// Types that the SQLite backend cannot declare, by database name.
#[derive(Debug)]
pub struct UnsupportedTypes {
    pub sql_names: Vec<String>,
}

/// The declarations of all synthesized types, in table and column order.
pub fn collect_decls(tables: &Vec<TableData>, overrides: &Vec<Vec<Option<ColumnType>>>) -> (r: Vec<TypeDecl>)
    requires
        table_overrides_fit(tables@, opt_ovs_view(Some(overrides))),
    ensures
        r@ == all_decls(tables@, overrides@, tables@.len()),
{
    let mut r: Vec<TypeDecl> = Vec::new();
    let mut i: usize = 0;
    while i < tables.len()
        invariant
            i <= tables@.len(),
            table_overrides_fit(tables@, opt_ovs_view(Some(overrides))),
            r@ == all_decls(tables@, overrides@, i as nat),
        decreases tables@.len() - i,
    {
        let t = &tables[i];
        let row = &overrides[i];
        assert(row@.len() == t.column_data@.len());
        let ghost base = r@;
        let mut j: usize = 0;
        while j < row.len()
            invariant
                j <= row@.len(),
                row@.len() == t.column_data@.len(),
                r@ == base + row_decls(*t, row@, j as nat),
            decreases row@.len() - j,
        {
            match &row[j] {
                Some(ct) => {
                    r.push(TypeDecl {
                        ty: ct.clone(),
                        table: t.name.rust_name.clone(),
                        column: t.column_data[j].rust_name.clone(),
                    });
                    proof {
                        assert(r@ =~= base + row_decls(*t, row@, (j + 1) as nat));
                    }
                },
                None => {},
            }
            j = j + 1;
        }
        i = i + 1;
    }
    r
}

/// Sorts declarations as the backend emits them.
pub fn sort_decls(backend: Backend, ds: Vec<TypeDecl>) -> (r: Vec<TypeDecl>)
    ensures
        r@ == emitted(backend, ds@),
{
    let mut r: Vec<TypeDecl> = Vec::new();
    let ghost all = ds@;
    let n: usize = ds.len();
    let mut rest = ds;
    let mut i: usize = 0;
    assert(all.skip(0) =~= all);
    while rest.len() > 0
        invariant
            i + rest@.len() == all.len(),
            all.len() == n,
            rest@ == all.skip(i as int),
            r@ == sorted_unique(all.take(i as int)),
        decreases rest@.len(),
    {
        let x = rest.remove(0);
        proof {
            assert(x == all[i as int]);
            assert(rest@ =~= all.skip(i + 1));
            assert(all.take(i + 1).drop_last() =~= all.take(i as int));
        }
        push_unique(&mut r, x);
        i = i + 1;
    }
    assert(all.take(all.len() as int) =~= all);
    r
}

/// The type name with its first character upper-cased.
pub fn capitalize(s: &str) -> (r: String)
    ensures
        r@ == capitalized(s@),
{
    let n = s.unicode_len();
    if n == 0 {
        return String::new();
    }
    let mut r = uppercase_char(s.get_char(0));
    r.append(s.substring_char(1, n));
    assert(s@.subrange(1, n as int) =~= s@.drop_first());
    r
}

fn write_decl_doc(out: &mut String, backend: Backend, docs: bool, d: &TypeDecl)
    ensures
        final(out)@ == old(out)@ + decl_doc(backend, docs, *d),
{
    let ghost s0 = out@;
    let ct = &d.ty;
    if docs {
        match backend {
            Backend::Pg => {
                out.append("/// The `");
                match &ct.schema {
                    Some(sc) => {
                        out.append(sc.as_str());
                        out.append(".");
                    },
                    None => {},
                }
                out.append(ct.sql_name.as_str());
                out.append("` SQL type\n");
            },
            _ => {
                out.append("/// The `");
                out.append(ct.sql_name.as_str());
                out.append("` SQL type for the\n/// [`");
                out.append(d.table.as_str());
                out.append("::");
                out.append(d.column.as_str());
                out.append("`](super::");
                out.append(d.table.as_str());
                out.append("::");
                out.append(d.column.as_str());
                out.append(")) column\n");
            },
        }
        out.append("///\n/// (Automatically generated by Diesel.)\n");
    }
    proof {
        assert(out@ =~= s0 + decl_doc(backend, docs, *d));
    }
}

fn write_decl_attr(out: &mut String, backend: Backend, d: &TypeDecl)
    ensures
        final(out)@ == old(out)@ + decl_attr(backend, *d),
{
    let ghost s0 = out@;
    let ct = &d.ty;
    match backend {
        Backend::Pg => {
            out.append("#[diesel(postgres_type(name = \"");
            out.append(ct.sql_name.as_str());
            match &ct.schema {
                Some(sc) => {
                    out.append("\", schema = \"");
                    out.append(sc.as_str());
                    out.append("\"))]\n");
                },
                None => {
                    out.append("\"))]\n");
                },
            }
        },
        _ => {
            let name = capitalize(ct.sql_name.as_str());
            out.append("#[diesel(mysql_type(name = \"");
            out.append(name.as_str());
            out.append("\"))]\n");
        },
    }
    proof {
        assert(out@ =~= s0 + decl_attr(backend, *d));
    }
}

fn write_decl(out: &mut String, backend: Backend, derives: &String, docs: bool, d: &TypeDecl)
    ensures
        final(out)@ == old(out)@ + decl_text(backend, derives@, docs, *d),
{
    let ghost s0 = out@;
    write_decl_doc(out, backend, docs, d);
    out.append("#[derive(");
    out.append(derives.as_str());
    out.append(")]\n");
    write_decl_attr(out, backend, d);
    out.append("pub struct ");
    out.append(d.ty.rust_name.as_str());
    out.append(";\n");
    proof {
        assert(out@ =~= s0 + decl_text(backend, derives@, docs, *d));
    }
}

/// The database names of declarations.
pub open spec fn sql_names_of(ds: Seq<TypeDecl>) -> Seq<Seq<char>> {
    ds.map_values(|d: TypeDecl| d.ty.sql_name@)
}

/// Renders the namespace that declares the synthesized types of `tables`.
/// The SQLite vocabulary is closed: any type to declare there is an error.
pub fn custom_types_block(
    backend: Backend,
    with_docs: bool,
    derives: &Vec<String>,
    tables: &Vec<TableData>,
    overrides: &Vec<Vec<Option<ColumnType>>>,
) -> (r: Result<String, UnsupportedTypes>)
    requires
        table_overrides_fit(tables@, opt_ovs_view(Some(overrides))),
    ensures
        ({
            let ds = emitted(backend, all_decls(tables@, overrides@, tables@.len()));
            &&& r is Err <==> (backend == Backend::Sqlite && ds.len() > 0)
            &&& r matches Ok(s) ==> s@ == namespace_text(backend, join_comma(views(derives@)), with_docs, ds)
            &&& r matches Err(e) ==> views(e.sql_names@) == sql_names_of(ds)
        }),
{
    let flat = collect_decls(tables, overrides);
    let ds = sort_decls(backend, flat);
    let ghost dsv = ds@;
    if ds.len() == 0 {
        return Ok(String::new());
    }
    if backend == Backend::Sqlite {
        let mut names: Vec<String> = Vec::new();
        let mut i: usize = 0;
        while i < ds.len()
            invariant
                i <= ds@.len(),
                names@.len() == i,
                forall|k: int| 0 <= k < i ==> (#[trigger] names@[k])@ == ds@[k].ty.sql_name@,
            decreases ds@.len() - i,
        {
            names.push(ds[i].ty.sql_name.clone());
            i = i + 1;
        }
        assert(views(names@) =~= sql_names_of(ds@));
        return Err(UnsupportedTypes { sql_names: names });
    }
    let mut joined = String::new();
    write_joined(&mut joined, derives);
    let mut body = String::from_str("pub mod sql_types {\n");
    let mut i: usize = 0;
    while i < ds.len()
        invariant
            i <= ds@.len(),
            backend != Backend::Sqlite,
            body@ == "pub mod sql_types {\n"@ + decls_text(backend, joined@, with_docs, ds@, i as nat),
        decreases ds@.len() - i,
    {
        if i != 0 {
            body.append("\n");
        }
        write_decl(&mut body, backend, &joined, with_docs, &ds[i]);
        proof {
            assert(body@ =~= "pub mod sql_types {\n"@ + decls_text(backend, joined@, with_docs, ds@, (i + 1) as nat));
        }
        i = i + 1;
    }
    let mut out = String::new();
    if with_docs {
        out.append("/// A module containing custom SQL type definitions\n");
        out.append("///\n/// (Automatically generated by Diesel.)\n");
    }
    let mut w = PadAdapter::new();
    w.write_str(body.as_str());
    out.append(w.buf.as_str());
    out.append("}\n\n");
    proof {
        assert(out@ =~= namespace_text(backend, joined@, with_docs, ds@));
    }
    Ok(out)
}

/// The synthesized types of one run and how to declare them.
pub struct CustomTypesForTables {
    pub backend: Backend,
    /// Per table, per column: the synthesized type, if any.
    pub types_overrides_sorted: Vec<Vec<Option<ColumnType>>>,
    pub with_docs: bool,
    pub derives: Vec<String>,
}

/// The synthesized types of a run together with the tables they belong to.
pub struct CustomTypesForTablesForDisplay<'a> {
    pub custom_types: &'a CustomTypesForTables,
    pub tables: &'a Vec<TableData>,
}

impl<'a> CustomTypesForTablesForDisplay<'a> {
    /// The namespace block that declares the synthesized types.
    pub fn to_text(&self) -> (r: Result<String, UnsupportedTypes>)
        requires
            table_overrides_fit(self.tables@, Some(self.custom_types.types_overrides_sorted@)),
        ensures
            ({
                let b = self.custom_types.backend;
                let ds = emitted(b, all_decls(self.tables@, self.custom_types.types_overrides_sorted@, self.tables@.len()));
                &&& r is Err <==> (b == Backend::Sqlite && ds.len() > 0)
                &&& r matches Ok(s) ==> s@ == namespace_text(
                    b,
                    join_comma(views(self.custom_types.derives@)),
                    self.custom_types.with_docs,
                    ds,
                )
                &&& r matches Err(e) ==> views(e.sql_names@) == sql_names_of(ds)
            }),
    {
        custom_types_block(
            self.custom_types.backend,
            self.custom_types.with_docs,
            &self.custom_types.derives,
            self.tables,
            &self.custom_types.types_overrides_sorted,
        )
    }
}

} // verus!
