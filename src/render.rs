//! Declaration blocks for tables, columns, joins and the co-appearance list.

use vstd::prelude::*;
use crate::config::DocConfig;
use crate::docs::{doc_comments, write_doc_comments};
use crate::model::{ColumnDefinition, ColumnType, ForeignKeyConstraint, TableData, TableName};
use crate::pad::{pad, PadAdapter};
use crate::text::{contains_name, join_comma, views, write_joined};

verus! {

/// The documentation lines for an item under mode `mode`: its database
/// comment when present, else the generated text `auto` under the fallback
/// mode, else nothing.
pub open spec fn docs_for(mode: DocConfig, comment: Option<String>, auto: Seq<char>) -> Seq<char> {
    match mode {
        DocConfig::NoDocComments => Seq::empty(),
        DocConfig::OnlyDatabaseComments => match comment {
            Some(c) => doc_comments(c@),
            None => Seq::empty(),
        },
        DocConfig::DatabaseCommentsFallbackToAutoGeneratedDocComment => match comment {
            Some(c) => doc_comments(c@),
            None => doc_comments(auto),
        },
    }
}

/// Appends the documentation lines for an item, given its generated text.
fn write_docs(out: &mut String, mode: DocConfig, comment: &Option<String>, auto: &String)
    ensures
        final(out)@ == old(out)@ + docs_for(mode, *comment, auto@),
{
    match mode {
        DocConfig::NoDocComments => {
            assert(old(out)@ + Seq::<char>::empty() =~= old(out)@);
        },
        DocConfig::OnlyDatabaseComments => match comment {
            Some(c) => write_doc_comments(out, c.as_str()),
            None => {
                assert(old(out)@ + Seq::<char>::empty() =~= old(out)@);
            },
        },
        DocConfig::DatabaseCommentsFallbackToAutoGeneratedDocComment => match comment {
            Some(c) => write_doc_comments(out, c.as_str()),
            None => write_doc_comments(out, auto.as_str()),
        },
    }
}

/// The generated description of a column.
pub open spec fn column_auto_doc(col: ColumnDefinition, table_full: Seq<char>, ty: ColumnType) -> Seq<char> {
    "The `"@ + col.sql_name@ + "` column of the `"@ + table_full + "` table.\n\nIts SQL type is `"@
        + ty.text_spec() + "`.\n\n(Automatically generated by Diesel.)"@
}

/// The declaration of one column, with its documentation.
pub open spec fn column_entry(col: ColumnDefinition, ty: ColumnType, mode: DocConfig, table_full: Seq<char>) -> Seq<char> {
    docs_for(mode, col.comment, column_auto_doc(col, table_full, ty)) + if col.rust_name@
        == col.sql_name@ {
        col.sql_name@ + " -> "@ + ty.text_spec() + ",\n"@
    } else {
        "#[sql_name = \""@ + col.sql_name@ + "\"]\n"@ + col.rust_name@ + " -> "@ + ty.text_spec()
            + ",\n"@
    }
}

/// The type rendered for column `i`: its synthesized type when one was
/// given, else its own.
pub open spec fn type_at(cols: Seq<ColumnDefinition>, ov: Option<Seq<Option<ColumnType>>>, i: int) -> ColumnType {
    match ov {
        Some(o) => match o[i] {
            Some(t) => t,
            None => cols[i].ty,
        },
        None => cols[i].ty,
    }
}

/// Whether overrides, when present, give one entry per column.
pub open spec fn overrides_fit(cols: Seq<ColumnDefinition>, ov: Option<Seq<Option<ColumnType>>>) -> bool {
    ov matches Some(o) ==> o.len() == cols.len()
}

/// The declarations of the first `n` columns.
pub open spec fn columns_body(
    cols: Seq<ColumnDefinition>,
    ov: Option<Seq<Option<ColumnType>>>,
    mode: DocConfig,
    table_full: Seq<char>,
    n: nat,
) -> Seq<char>
    decreases n,
{
    if n == 0 {
        Seq::empty()
    } else {
        columns_body(cols, ov, mode, table_full, (n - 1) as nat) + column_entry(
            cols[n - 1],
            type_at(cols, ov, n - 1),
            mode,
            table_full,
        )
    }
}

/// The braced column block of a table.
pub open spec fn column_block(
    cols: Seq<ColumnDefinition>,
    ov: Option<Seq<Option<ColumnType>>>,
    mode: DocConfig,
    table_full: Seq<char>,
) -> Seq<char> {
    pad("{\n"@ + columns_body(cols, ov, mode, table_full, cols.len()), false) + "}\n"@
}

pub open spec fn opt_view(ov: Option<&Vec<Option<ColumnType>>>) -> Option<Seq<Option<ColumnType>>> {
    match ov {
        Some(o) => Some(o@),
        None => None,
    }
}

fn pick_type<'a>(col: &'a ColumnDefinition, ov: Option<&'a Vec<Option<ColumnType>>>, i: usize) -> (r: &'a ColumnType)
    requires
        ov matches Some(o) ==> i < o@.len(),
    ensures
        match ov {
            Some(o) => match o@[i as int] {
                Some(t) => *r == t,
                None => *r == col.ty,
            },
            None => *r == col.ty,
        },
{
    match ov {
        Some(o) => match &o[i] {
            Some(t) => t,
            None => &col.ty,
        },
        None => &col.ty,
    }
}

/// Appends the declaration of one column.
fn write_column(out: &mut String, col: &ColumnDefinition, ty: &ColumnType, mode: DocConfig, table_full: &String)
    ensures
        final(out)@ == old(out)@ + column_entry(*col, *ty, mode, table_full@),
{
    let ghost out0 = out@;
    let ty_text = ty.to_text();
    let mut auto = String::from_str("The `");
    auto.append(col.sql_name.as_str());
    auto.append("` column of the `");
    auto.append(table_full.as_str());
    auto.append("` table.\n\nIts SQL type is `");
    auto.append(ty_text.as_str());
    auto.append("`.\n\n(Automatically generated by Diesel.)");
    write_docs(out, mode, &col.comment, &auto);
    let ghost out1 = out@;
    if col.rust_name == col.sql_name {
        out.append(col.sql_name.as_str());
    } else {
        out.append("#[sql_name = \"");
        out.append(col.sql_name.as_str());
        out.append("\"]\n");
        out.append(col.rust_name.as_str());
    }
    out.append(" -> ");
    out.append(ty_text.as_str());
    out.append(",\n");
    proof {
        assert(auto@ =~= column_auto_doc(*col, table_full@, *ty));
        assert(out@ =~= out0 + column_entry(*col, *ty, mode, table_full@));
    }
}

/// Renders the braced column block of a table.
pub fn column_definitions(
    columns: &Vec<ColumnDefinition>,
    with_docs: DocConfig,
    table_full_sql_name: &String,
    custom_type_overrides: Option<&Vec<Option<ColumnType>>>,
) -> (r: String)
    requires
        overrides_fit(columns@, opt_view(custom_type_overrides)),
    ensures
        r@ == column_block(columns@, opt_view(custom_type_overrides), with_docs, table_full_sql_name@),
{
    let ghost ov = opt_view(custom_type_overrides);
    let mut body = String::from_str("{\n");
    let mut i: usize = 0;
    while i < columns.len()
        invariant
            i <= columns@.len(),
            overrides_fit(columns@, ov),
            ov == opt_view(custom_type_overrides),
            body@ == "{\n"@ + columns_body(columns@, ov, with_docs, table_full_sql_name@, i as nat),
        decreases columns@.len() - i,
    {
        let col = &columns[i];
        let ty = pick_type(col, custom_type_overrides, i);
        write_column(&mut body, col, ty, with_docs, table_full_sql_name);
        proof {
            assert(*ty == type_at(columns@, ov, i as int));
            assert(body@ =~= "{\n"@ + columns_body(columns@, ov, with_docs, table_full_sql_name@, (i + 1) as nat));
        }
        i = i + 1;
    }
    let mut w = PadAdapter::new();
    w.write_str(body.as_str());
    let mut r = w.buf;
    r.append("}\n");
    r
}

/// One `use` line per import path.
pub open spec fn import_lines(v: Seq<Seq<char>>) -> Seq<char>
    decreases v.len(),
{
    if v.len() == 0 {
        Seq::empty()
    } else {
        import_lines(v.drop_last()) + "use "@ + v.last() + ";\n"@
    }
}

/// The names of the synthesized types among a table's overrides, in column order.
pub open spec fn override_names(o: Seq<Option<ColumnType>>) -> Seq<Seq<char>>
    decreases o.len(),
{
    if o.len() == 0 {
        Seq::empty()
    } else {
        match o.last() {
            Some(t) => override_names(o.drop_last()).push(t.rust_name@),
            None => override_names(o.drop_last()),
        }
    }
}

/// Each text of `s` once, at its first occurrence.
pub open spec fn distinct(s: Seq<Seq<char>>) -> Seq<Seq<char>>
    decreases s.len(),
{
    if s.len() == 0 {
        Seq::empty()
    } else {
        let d = distinct(s.drop_last());
        if d.contains(s.last()) {
            d
        } else {
            d.push(s.last())
        }
    }
}

/// One import line per synthesized type name.
pub open spec fn custom_uses(names: Seq<Seq<char>>) -> Seq<char>
    decreases names.len(),
{
    if names.len() == 0 {
        Seq::empty()
    } else {
        custom_uses(names.drop_last()) + "use super::sql_types::"@ + names.last() + ";\n"@
    }
}

/// The imports of the synthesized types, preceded by the import of the
/// built-in types unless other imports came first.
pub open spec fn custom_imports(names: Seq<Seq<char>>, prior: bool) -> Seq<char> {
    if names.len() == 0 {
        Seq::empty()
    } else if prior {
        custom_uses(names)
    } else {
        "use diesel::sql_types::*;\n"@ + custom_uses(names)
    }
}

/// The generated description of a table.
pub open spec fn table_auto_doc(full: Seq<char>) -> Seq<char> {
    "Representation of the `"@ + full + "` table.\n\n(Automatically generated by Diesel.)"@
}

/// The import paths given, if any.
pub open spec fn imports_of(v: Option<Seq<String>>) -> Seq<Seq<char>> {
    match v {
        Some(v) => views(v),
        None => Seq::empty(),
    }
}

/// The synthesized type names that a table imports.
pub open spec fn table_custom_names(ov: Option<Seq<Option<ColumnType>>>) -> Seq<Seq<char>> {
    match ov {
        Some(o) => distinct(override_names(o)),
        None => Seq::empty(),
    }
}

/// A table's import lines, followed by a blank line when there are any.
pub open spec fn table_imports(imports: Option<Seq<String>>, ov: Option<Seq<Option<ColumnType>>>) -> Seq<char> {
    let imps = imports_of(imports);
    let names = table_custom_names(ov);
    import_lines(imps) + custom_imports(names, imps.len() > 0) + (if imps.len() > 0 || names.len()
        > 0 {
        "\n"@
    } else {
        Seq::empty()
    })
}

/// A table's documentation, name annotation, name and primary key.
pub open spec fn table_head(t: TableData, mode: DocConfig) -> Seq<char> {
    let full = t.name.full_sql_name_spec();
    docs_for(mode, t.comment, table_auto_doc(full)) + (if t.name.rust_name@ != t.name.sql_name@ {
        "#[sql_name = \""@ + full + "\"]\n"@
    } else {
        Seq::empty()
    }) + t.name.text_spec() + " ("@ + join_comma(views(t.primary_key@)) + ") "@
}

/// Everything inside a table's `table!` braces, before indentation.
pub open spec fn table_inner(
    t: TableData,
    mode: DocConfig,
    imports: Option<Seq<String>>,
    ov: Option<Seq<Option<ColumnType>>>,
) -> Seq<char> {
    "\n"@ + table_imports(imports, ov) + table_head(t, mode) + column_block(
        t.column_data@,
        ov,
        mode,
        t.name.full_sql_name_spec(),
    )
}

/// The `table!` declaration of one table.
pub open spec fn table_text(
    t: TableData,
    mode: DocConfig,
    imports: Option<Seq<String>>,
    ov: Option<Seq<Option<ColumnType>>>,
) -> Seq<char> {
    "diesel::table! {"@ + pad(table_inner(t, mode, imports, ov), false) + "}"@
}

pub open spec fn opt_vec_view(v: Option<&Vec<String>>) -> Option<Seq<String>> {
    match v {
        Some(v) => Some(v@),
        None => None,
    }
}

/// Appends the imports of the synthesized types among `o`.
fn write_custom_imports(out: &mut String, o: &Vec<Option<ColumnType>>, prior: bool) -> (r: bool)
    ensures
        final(out)@ == old(out)@ + custom_imports(distinct(override_names(o@)), prior),
        r == (distinct(override_names(o@)).len() > 0),
{
    let ghost out0 = out@;
    let mut seen: Vec<String> = Vec::new();
    let mut i: usize = 0;
    while i < o.len()
        invariant
            i <= o@.len(),
            views(seen@) == distinct(override_names(o@.take(i as int))),
            out@ == out0 + custom_imports(views(seen@), prior),
        decreases o@.len() - i,
    {
        proof {
            assert(o@.take(i + 1).drop_last() =~= o@.take(i as int));
        }
        let ghost prev = override_names(o@.take(i as int));
        match &o[i] {
            Some(ct) => {
                proof {
                    let cur = override_names(o@.take(i + 1));
                    assert(cur == prev.push(ct.rust_name@));
                    assert(cur.drop_last() =~= prev);
                }
                if !contains_name(&seen, &ct.rust_name) {
                    let ghost before = views(seen@);
                    if seen.len() == 0 && !prior {
                        out.append("use diesel::sql_types::*;\n");
                    }
                    out.append("use super::sql_types::");
                    out.append(ct.rust_name.as_str());
                    out.append(";\n");
                    seen.push(ct.rust_name.clone());
                    proof {
                        assert(views(seen@) =~= before.push(ct.rust_name@));
                        assert(views(seen@).drop_last() =~= before);
                        let line = "use super::sql_types::"@ + ct.rust_name@ + ";\n"@;
                        assert(custom_uses(views(seen@)) == custom_uses(before) + line);
                        if before.len() == 0 {
                            assert(custom_uses(before) =~= Seq::<char>::empty());
                        }
                        assert(out@ =~= out0 + custom_imports(views(seen@), prior));
                    }
                }
            },
            None => {
                assert(override_names(o@.take(i + 1)) == prev);
            },
        }
        i = i + 1;
    }
    assert(o@.take(o@.len() as int) =~= o@);
    seen.len() > 0
}

/// Appends a table's import lines.
fn write_table_imports(
    out: &mut String,
    import_types: Option<&Vec<String>>,
    custom_type_overrides: Option<&Vec<Option<ColumnType>>>,
)
    ensures
        final(out)@ == old(out)@ + table_imports(opt_vec_view(import_types), opt_view(custom_type_overrides)),
{
    let ghost imps = imports_of(opt_vec_view(import_types));
    let ghost names = table_custom_names(opt_view(custom_type_overrides));
    let ghost s0 = out@;
    let mut n_imports: usize = 0;
    match import_types {
        Some(v) => {
            let mut i: usize = 0;
            while i < v.len()
                invariant
                    i <= v@.len(),
                    out@ == s0 + import_lines(views(v@.take(i as int))),
                decreases v@.len() - i,
            {
                out.append("use ");
                out.append(v[i].as_str());
                out.append(";\n");
                proof {
                    assert(views(v@.take(i + 1)).drop_last() =~= views(v@.take(i as int)));
                    assert(views(v@.take(i + 1)).last() == v@[i as int]@);
                }
                i = i + 1;
            }
            assert(v@.take(v@.len() as int) =~= v@);
            n_imports = v.len();
        },
        None => {
            assert(out@ =~= s0 + import_lines(imps));
        },
    }
    assert(n_imports == imps.len());
    let ghost s1 = out@;
    let has_custom: bool = match custom_type_overrides {
        Some(o) => write_custom_imports(out, o, n_imports > 0),
        None => {
            assert(out@ =~= out@ + custom_imports(names, n_imports > 0));
            false
        },
    };
    let ghost s2 = out@;
    if n_imports > 0 || has_custom {
        out.append("\n");
    }
    proof {
        assert(out@ =~= s0 + table_imports(opt_vec_view(import_types), opt_view(custom_type_overrides)));
    }
}

/// Appends a table's documentation, name annotation, name and primary key.
fn write_table_head(out: &mut String, table: &TableData, with_docs: DocConfig, full: &String)
    requires
        full@ == table.name.full_sql_name_spec(),
    ensures
        final(out)@ == old(out)@ + table_head(*table, with_docs),
{
    let ghost s0 = out@;
    let mut auto = String::from_str("Representation of the `");
    auto.append(full.as_str());
    auto.append("` table.\n\n(Automatically generated by Diesel.)");
    write_docs(out, with_docs, &table.comment, &auto);
    if !(table.name.rust_name == table.name.sql_name) {
        out.append("#[sql_name = \"");
        out.append(full.as_str());
        out.append("\"]\n");
    }
    let name_text = table.name.to_text();
    out.append(name_text.as_str());
    out.append(" (");
    write_joined(out, &table.primary_key);
    out.append(") ");
    proof {
        assert(auto@ =~= table_auto_doc(full@));
        assert(out@ =~= s0 + table_head(*table, with_docs));
    }
}

/// Renders the `table!` declaration of one table.
pub fn table_definition(
    table: &TableData,
    with_docs: DocConfig,
    import_types: Option<&Vec<String>>,
    custom_type_overrides: Option<&Vec<Option<ColumnType>>>,
) -> (r: String)
    requires
        overrides_fit(table.column_data@, opt_view(custom_type_overrides)),
    ensures
        r@ == table_text(*table, with_docs, opt_vec_view(import_types), opt_view(custom_type_overrides)),
{
    let mut inner = String::from_str("\n");
    write_table_imports(&mut inner, import_types, custom_type_overrides);
    let full = table.name.full_sql_name();
    write_table_head(&mut inner, table, with_docs, &full);
    let cols = column_definitions(&table.column_data, with_docs, &full, custom_type_overrides);
    inner.append(cols.as_str());
    proof {
        assert(inner@ =~= table_inner(
            *table,
            with_docs,
            opt_vec_view(import_types),
            opt_view(custom_type_overrides),
        ));
    }
    let mut w = PadAdapter::new();
    w.write_str(inner.as_str());
    let mut r = String::from_str("diesel::table! {");
    r.append(w.buf.as_str());
    r.append("}");
    proof {
        assert(r@ =~= table_text(
            *table,
            with_docs,
            opt_vec_view(import_types),
            opt_view(custom_type_overrides),
        ));
    }
    r
}

/// The join declaration of a foreign key; a key over several columns is
/// declared by its first column alone.
pub open spec fn joinable_text(fk: ForeignKeyConstraint) -> Seq<char> {
    "diesel::joinable!("@ + fk.child_table.rust_name@ + " -> "@ + fk.parent_table.rust_name@ + " ("@
        + fk.foreign_key_columns_rust@[0]@ + "));"@
}

/// Renders the join declaration of a foreign key.
pub fn joinable(fk: &ForeignKeyConstraint) -> (r: String)
    requires
        fk.foreign_key_columns_rust@.len() > 0,
    ensures
        r@ == joinable_text(*fk),
{
    let mut r = String::from_str("diesel::joinable!(");
    r.append(fk.child_table.rust_name.as_str());
    r.append(" -> ");
    r.append(fk.parent_table.rust_name.as_str());
    r.append(" (");
    r.append(fk.foreign_key_columns_rust[0].as_str());
    r.append("));");
    proof {
        assert(r@ =~= joinable_text(*fk));
    }
    r
}

/// The overrides of table `i`, if synthesis ran.
pub open spec fn ov_at(ovs: Option<Seq<Vec<Option<ColumnType>>>>, i: int) -> Option<Seq<Option<ColumnType>>> {
    match ovs {
        Some(o) => Some(o[i]@),
        None => None,
    }
}

/// Whether overrides, when present, give one entry per table and per column.
pub open spec fn table_overrides_fit(ts: Seq<TableData>, ovs: Option<Seq<Vec<Option<ColumnType>>>>) -> bool {
    ovs matches Some(o) ==> {
        &&& o.len() == ts.len()
        &&& forall|i: int| 0 <= i < ts.len() ==> overrides_fit(#[trigger] ts[i].column_data@, Some(o[i]@))
    }
}

/// Whether every foreign key names at least one column.
pub open spec fn keys_fit(fks: Seq<ForeignKeyConstraint>) -> bool {
    forall|i: int| 0 <= i < fks.len() ==> #[trigger] fks[i].foreign_key_columns_rust@.len() > 0
}

/// The declarations of the first `n` tables, separated by blank lines.
pub open spec fn tables_part(
    ts: Seq<TableData>,
    mode: DocConfig,
    imports: Option<Seq<String>>,
    ovs: Option<Seq<Vec<Option<ColumnType>>>>,
    n: nat,
) -> Seq<char>
    decreases n,
{
    if n == 0 {
        Seq::empty()
    } else {
        tables_part(ts, mode, imports, ovs, (n - 1) as nat) + (if n > 1 {
            "\n"@
        } else {
            Seq::empty()
        }) + table_text(ts[n - 1], mode, imports, ov_at(ovs, n - 1)) + "\n"@
    }
}

/// The join declarations of the first `n` foreign keys, one per line.
pub open spec fn joins_part(fks: Seq<ForeignKeyConstraint>, n: nat) -> Seq<char>
    decreases n,
{
    if n == 0 {
        Seq::empty()
    } else {
        joins_part(fks, (n - 1) as nat) + joinable_text(fks[n - 1]) + "\n"@
    }
}

/// The identifier a table is listed under in the co-appearance declaration.
pub open spec fn listed_name(t: TableName) -> Seq<char> {
    if t.rust_name@ == t.sql_name@ {
        t.sql_name@
    } else {
        t.rust_name@
    }
}

/// The co-appearance entries of the first `n` tables.
pub open spec fn co_names(ts: Seq<TableData>, n: nat) -> Seq<char>
    decreases n,
{
    if n == 0 {
        Seq::empty()
    } else {
        co_names(ts, (n - 1) as nat) + listed_name(ts[n - 1].name) + ",\n"@
    }
}

/// The declaration that the tables may appear in one query; only for more
/// than one table.
pub open spec fn co_appearance(ts: Seq<TableData>) -> Seq<char> {
    if ts.len() > 1 {
        "\ndiesel::allow_tables_to_appear_in_same_query!("@ + pad("\n"@ + co_names(ts, ts.len()), false)
            + ");\n"@
    } else {
        Seq::empty()
    }
}

/// All table, join and co-appearance declarations.
pub open spec fn definitions_text(
    ts: Seq<TableData>,
    fks: Seq<ForeignKeyConstraint>,
    mode: DocConfig,
    imports: Option<Seq<String>>,
    ovs: Option<Seq<Vec<Option<ColumnType>>>>,
) -> Seq<char> {
    tables_part(ts, mode, imports, ovs, ts.len()) + (if fks.len() > 0 {
        "\n"@
    } else {
        Seq::empty()
    }) + joins_part(fks, fks.len()) + co_appearance(ts)
}

pub open spec fn opt_ovs_view(v: Option<&Vec<Vec<Option<ColumnType>>>>) -> Option<Seq<Vec<Option<ColumnType>>>> {
    match v {
        Some(v) => Some(v@),
        None => None,
    }
}

fn ov_ref<'a>(ovs: Option<&'a Vec<Vec<Option<ColumnType>>>>, i: usize) -> (r: Option<&'a Vec<Option<ColumnType>>>)
    requires
        ovs matches Some(o) ==> i < o@.len(),
    ensures
        opt_view(r) == ov_at(opt_ovs_view(ovs), i as int),
{
    match ovs {
        Some(o) => Some(&o[i]),
        None => None,
    }
}

/// Appends the co-appearance declaration.
fn write_co_appearance(out: &mut String, tables: &Vec<TableData>)
    ensures
        final(out)@ == old(out)@ + co_appearance(tables@),
{
    if tables.len() > 1 {
        let mut names = String::from_str("\n");
        let mut i: usize = 0;
        while i < tables.len()
            invariant
                i <= tables@.len(),
                names@ == "\n"@ + co_names(tables@, i as nat),
            decreases tables@.len() - i,
        {
            let t = &tables[i].name;
            if t.rust_name == t.sql_name {
                names.append(t.sql_name.as_str());
            } else {
                names.append(t.rust_name.as_str());
            }
            names.append(",\n");
            proof {
                assert(names@ =~= "\n"@ + co_names(tables@, (i + 1) as nat));
            }
            i = i + 1;
        }
        let mut w = PadAdapter::new();
        w.write_str(names.as_str());
        out.append("\ndiesel::allow_tables_to_appear_in_same_query!(");
        out.append(w.buf.as_str());
        out.append(");\n");
        proof {
            assert(out@ =~= old(out)@ + co_appearance(tables@));
        }
    } else {
        assert(out@ =~= old(out)@ + co_appearance(tables@));
    }
}

/// Renders every table declaration, then the join declarations, then the
/// co-appearance declaration.
pub fn table_definitions(
    tables: &Vec<TableData>,
    fk_constraints: &Vec<ForeignKeyConstraint>,
    with_docs: DocConfig,
    import_types: Option<&Vec<String>>,
    custom_types_for_tables: Option<&Vec<Vec<Option<ColumnType>>>>,
) -> (r: String)
    requires
        table_overrides_fit(tables@, opt_ovs_view(custom_types_for_tables)),
        keys_fit(fk_constraints@),
    ensures
        r@ == definitions_text(
            tables@,
            fk_constraints@,
            with_docs,
            opt_vec_view(import_types),
            opt_ovs_view(custom_types_for_tables),
        ),
{
    let ghost ovs = opt_ovs_view(custom_types_for_tables);
    let ghost imps = opt_vec_view(import_types);
    let mut out = String::new();
    let mut i: usize = 0;
    while i < tables.len()
        invariant
            i <= tables@.len(),
            table_overrides_fit(tables@, ovs),
            ovs == opt_ovs_view(custom_types_for_tables),
            imps == opt_vec_view(import_types),
            out@ == tables_part(tables@, with_docs, imps, ovs, i as nat),
        decreases tables@.len() - i,
    {
        if i != 0 {
            out.append("\n");
        }
        let ov = ov_ref(custom_types_for_tables, i);
        proof {
            if ovs is Some {
                assert(overrides_fit(tables@[i as int].column_data@, ov_at(ovs, i as int)));
            }
        }
        let t = table_definition(&tables[i], with_docs, import_types, ov);
        out.append(t.as_str());
        out.append("\n");
        proof {
            assert(out@ =~= tables_part(tables@, with_docs, imps, ovs, (i + 1) as nat));
        }
        i = i + 1;
    }
    let ghost s1 = out@;
    if fk_constraints.len() > 0 {
        out.append("\n");
    }
    let ghost s2 = out@;
    let mut k: usize = 0;
    while k < fk_constraints.len()
        invariant
            k <= fk_constraints@.len(),
            keys_fit(fk_constraints@),
            out@ == s2 + joins_part(fk_constraints@, k as nat),
        decreases fk_constraints@.len() - k,
    {
        let j = joinable(&fk_constraints[k]);
        out.append(j.as_str());
        out.append("\n");
        proof {
            assert(out@ =~= s2 + joins_part(fk_constraints@, (k + 1) as nat));
        }
        k = k + 1;
    }
    write_co_appearance(&mut out, tables);
    proof {
        assert(out@ =~= definitions_text(tables@, fk_constraints@, with_docs, imps, ovs));
    }
    out
}

} // verus!
