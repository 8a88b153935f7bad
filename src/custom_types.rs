//! Declarations for column types outside a backend's vocabulary.

use vstd::prelude::*;
use heck::ToUpperCamelCase;
use crate::config::Backend;
use crate::model::{ColumnDefinition, ColumnType, TableData, TableName};
use crate::config::DocConfig;
use crate::render::{columns_body, override_names, table_text, type_at};
use crate::text::{contains_name, views};

verus! {

/// What `heck::ToUpperCamelCase::to_upper_camel_case` returns for a text.
pub uninterp spec fn upper_camel_of(s: Seq<char>) -> Seq<char>;

/// Relies on `heck::ToUpperCamelCase::to_upper_camel_case` for `str`.
#[verifier::external_body]
fn to_upper_camel(s: &str) -> (r: String)
    ensures
        r@ == upper_camel_of(s@),
{
    s.to_upper_camel_case()
}

/// The column-specific type name that the MySQL backend declares: the
/// table, column and type names, space separated, in upper camel case.
pub open spec fn mysql_type_name(t: TableName, c: ColumnDefinition) -> Seq<char> {
    upper_camel_of(t.rust_name@ + " "@ + c.rust_name@ + " "@ + c.ty.rust_name@)
}

/// Whether `r` is the type synthesized for column `c` of table `t`: none
/// for a known type, the column's own type on PostgreSQL and SQLite, and a
/// type named after the table and column on MySQL.
pub open spec fn synthesized(b: Backend, known: Seq<Seq<char>>, t: TableName, c: ColumnDefinition, r: Option<ColumnType>) -> bool {
    if known.contains(c.ty.rust_name@) {
        r is None
    } else {
        match b {
            Backend::Mysql => r matches Some(x) && x.rust_name@ == mysql_type_name(t, c) && x.sql_name
                == c.ty.sql_name && x.schema == c.ty.schema && x.is_array == c.ty.is_array
                && x.is_nullable == c.ty.is_nullable && x.is_unsigned == c.ty.is_unsigned,
            _ => r == Some(c.ty),
        }
    }
}

/// Whether `ovs` holds, for every column of every table, its synthesized type.
pub open spec fn overrides_spec(b: Backend, known: Seq<Seq<char>>, ts: Seq<TableData>, ovs: Seq<Vec<Option<ColumnType>>>) -> bool {
    &&& ovs.len() == ts.len()
    &&& forall|i: int|
        0 <= i < ts.len() ==> {
            &&& (#[trigger] ovs[i])@.len() == ts[i].column_data@.len()
            &&& forall|j: int|
                0 <= j < ts[i].column_data@.len() ==> synthesized(
                    b,
                    known,
                    ts[i].name,
                    ts[i].column_data@[j],
                    #[trigger] ovs[i]@[j],
                )
        }
}

/// A column whose type the backend knows gets no synthesized type, so the
/// type it is rendered with is its own, unchanged.
pub proof fn lemma_known_type_unchanged(
    b: Backend,
    known: Seq<Seq<char>>,
    ts: Seq<TableData>,
    ovs: Seq<Vec<Option<ColumnType>>>,
    i: int,
    j: int,
)
    requires
        overrides_spec(b, known, ts, ovs),
        0 <= i < ts.len(),
        0 <= j < ts[i].column_data@.len(),
        known.contains(ts[i].column_data@[j].ty.rust_name@),
    ensures
        ovs[i]@[j] is None,
        type_at(ts[i].column_data@, Some(ovs[i]@), j) == ts[i].column_data@[j].ty,
{
    assert(synthesized(b, known, ts[i].name, ts[i].column_data@[j], ovs[i]@[j]));
}

proof fn lemma_no_override_names(o: Seq<Option<ColumnType>>)
    requires
        forall|j: int| 0 <= j < o.len() ==> (#[trigger] o[j]) is None,
    ensures
        override_names(o) =~= Seq::<Seq<char>>::empty(),
    decreases o.len(),
{
    if o.len() > 0 {
        lemma_no_override_names(o.drop_last());
    }
}

proof fn lemma_columns_body_no_override(
    cols: Seq<ColumnDefinition>,
    o: Seq<Option<ColumnType>>,
    mode: DocConfig,
    table_full: Seq<char>,
    n: nat,
)
    requires
        n <= cols.len(),
        n <= o.len(),
        forall|j: int| 0 <= j < n ==> (#[trigger] o[j]) is None,
    ensures
        columns_body(cols, Some(o), mode, table_full, n) == columns_body(cols, None, mode, table_full, n),
    decreases n,
{
    if n > 0 {
        lemma_columns_body_no_override(cols, o, mode, table_full, (n - 1) as nat);
        assert(o[n - 1] is None);
    }
}

/// A table whose column types the backend all knows renders exactly as it
/// would with type synthesis off: same column types, no extra imports.
pub proof fn lemma_known_table_renders_unchanged(
    b: Backend,
    known: Seq<Seq<char>>,
    ts: Seq<TableData>,
    ovs: Seq<Vec<Option<ColumnType>>>,
    i: int,
    mode: DocConfig,
    imports: Option<Seq<String>>,
)
    requires
        overrides_spec(b, known, ts, ovs),
        0 <= i < ts.len(),
        forall|j: int|
            0 <= j < ts[i].column_data@.len() ==> known.contains(
                (#[trigger] ts[i].column_data@[j]).ty.rust_name@,
            ),
    ensures
        table_text(ts[i], mode, imports, Some(ovs[i]@)) == table_text(ts[i], mode, imports, None),
{
    let o = ovs[i]@;
    let cols = ts[i].column_data@;
    assert forall|j: int| 0 <= j < o.len() implies (#[trigger] o[j]) is None by {
        assert(known.contains(cols[j].ty.rust_name@));
        assert(synthesized(b, known, ts[i].name, cols[j], o[j]));
    }
    lemma_no_override_names(o);
    lemma_columns_body_no_override(cols, o, mode, ts[i].name.full_sql_name_spec(), cols.len());
}

/// The type synthesized for one column.
pub fn synthesize_column(backend: Backend, known: &Vec<String>, table: &TableName, column: &ColumnDefinition) -> (r: Option<ColumnType>)
    ensures
        synthesized(backend, views(known@), *table, *column, r),
{
    if contains_name(known, &column.ty.rust_name) {
        return None;
    }
    match backend {
        Backend::Mysql => {
            let mut joined = table.rust_name.clone();
            joined.append(" ");
            joined.append(column.rust_name.as_str());
            joined.append(" ");
            joined.append(column.ty.rust_name.as_str());
            let mut ty = column.ty.clone();
            ty.rust_name = to_upper_camel(joined.as_str());
            Some(ty)
        },
        _ => Some(column.ty.clone()),
    }
}

/// For every column of every table, its synthesized type, if any.
pub fn custom_type_overrides(backend: Backend, known: &Vec<String>, tables: &Vec<TableData>) -> (r: Vec<Vec<Option<ColumnType>>>)
    ensures
        overrides_spec(backend, views(known@), tables@, r@),
{
    let mut r: Vec<Vec<Option<ColumnType>>> = Vec::new();
    let mut i: usize = 0;
    while i < tables.len()
        invariant
            i <= tables@.len(),
            overrides_spec(backend, views(known@), tables@.take(i as int), r@),
        decreases tables@.len() - i,
    {
        let t = &tables[i];
        let mut row: Vec<Option<ColumnType>> = Vec::new();
        let mut j: usize = 0;
        while j < t.column_data.len()
            invariant
                j <= t.column_data@.len(),
                row@.len() == j,
                forall|k: int|
                    0 <= k < j ==> synthesized(
                        backend,
                        views(known@),
                        t.name,
                        t.column_data@[k],
                        #[trigger] row@[k],
                    ),
            decreases t.column_data@.len() - j,
        {
            let o = synthesize_column(backend, known, &t.name, &t.column_data[j]);
            row.push(o);
            j = j + 1;
        }
        r.push(row);
        proof {
            let ts = tables@.take(i + 1);
            assert forall|a: int| 0 <= a < ts.len() implies {
                &&& (#[trigger] r@[a])@.len() == ts[a].column_data@.len()
                &&& forall|b: int|
                    0 <= b < ts[a].column_data@.len() ==> synthesized(
                        backend,
                        views(known@),
                        ts[a].name,
                        ts[a].column_data@[b],
                        #[trigger] r@[a]@[b],
                    )
            } by {
                if a < i {
                    assert(tables@.take(i as int)[a] == ts[a]);
                }
            }
        }
        i = i + 1;
    }
    assert(tables@.take(tables@.len() as int) =~= tables@);
    r
}

} // verus!
