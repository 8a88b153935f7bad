//! Assembly of the whole schema text.

use vstd::prelude::*;
use crate::config::{Backend, ColumnSorting, DocConfig};
use crate::custom_types::{custom_type_overrides, overrides_spec};
use crate::filter::{kept_tables, Filtering};
use crate::model::{ColumnType, ForeignKeyConstraint, TableData};
use crate::namespace::{all_decls, custom_types_block, emitted, namespace_text, sql_names_of};
use crate::pad::{pad, PadAdapter};
use crate::patch_check::{header_numbers_fit, patch_numbers_fit};
use crate::render::{definitions_text, keys_fit, opt_ovs_view, table_definitions, table_overrides_fit};
use crate::text::{join_comma, views};
use crate::vocab::{known_names, known_types};

verus! {

/// What applying a unified diff to a text gives with `diffy`: the patched
/// text, or nothing when the diff does not parse or does not apply.
pub uninterp spec fn patched(base: Seq<char>, patch: Seq<char>) -> Option<Seq<char>>;

/// Relies on `diffy::Patch::from_str` to parse `patch` and on `diffy::apply`
/// to apply it to `base`. Parsing adds each hunk's start and length in
/// `usize`, so hunk headers with larger numbers are left out.
#[verifier::external_body]
fn apply_patch(base: &str, patch: &str) -> (r: Result<String, String>)
    requires
        header_numbers_fit(patch@),
    ensures
        r is Ok <==> patched(base@, patch@) is Some,
        r matches Ok(s) ==> patched(base@, patch@) == Some(s@),
{
    match diffy::Patch::from_str(patch) {
        Ok(p) => diffy::apply(base, &p).map_err(|e| e.to_string()),
        Err(e) => Err(e.to_string()),
    }
}

/// The settings of one generation run.
pub struct SchemaConfig {
    /// The schema whose tables are printed, wrapped in a module of its name.
    pub schema: Option<String>,
    pub filter: Filtering,
    pub column_sorting: ColumnSorting,
    pub with_docs: DocConfig,
    /// Whether to declare the types that the backend does not know.
    pub generate_missing_sql_type_definitions: bool,
    /// Extra import paths for every table block.
    pub import_types: Option<Vec<String>>,
    /// The derives of every synthesized type declaration.
    pub custom_type_derives: Vec<String>,
    /// The text of a unified diff to apply to the output.
    pub patch: Option<String>,
}

/// Why a schema could not be printed.
#[derive(Debug)]
pub enum SchemaError {
    /// Columns of the SQLite backend whose types it does not know, by
    /// database type name; its vocabulary is meant to be complete.
    UnsupportedSqliteTypes(Vec<String>),
    /// The patch did not parse, gave a hunk line number too large, or did
    /// not apply.
    Patch(String),
}

pub open spec fn schema_header() -> Seq<char> {
    "// @generated automatically by Diesel CLI.\n"@
}

/// Whether synthesized types get documentation.
pub open spec fn types_documented(mode: DocConfig) -> bool {
    mode == DocConfig::DatabaseCommentsFallbackToAutoGeneratedDocComment
}

/// The declarations to emit for the given overrides.
pub open spec fn decls_for(b: Backend, ts: Seq<TableData>, ovs: Option<Seq<Vec<Option<ColumnType>>>>) -> Seq<crate::order::TypeDecl> {
    match ovs {
        Some(o) => emitted(b, all_decls(ts, o, ts.len())),
        None => Seq::empty(),
    }
}

/// Whether the SQLite backend meets types it cannot declare.
pub open spec fn sqlite_blocked(b: Backend, ts: Seq<TableData>, ovs: Option<Seq<Vec<Option<ColumnType>>>>) -> bool {
    b == Backend::Sqlite && decls_for(b, ts, ovs).len() > 0
}

/// The namespace of synthesized types, when synthesis ran.
pub open spec fn types_text(
    config: SchemaConfig,
    b: Backend,
    ts: Seq<TableData>,
    ovs: Option<Seq<Vec<Option<ColumnType>>>>,
) -> Seq<char> {
    match ovs {
        Some(o) => namespace_text(
            b,
            join_comma(views(config.custom_type_derives@)),
            types_documented(config.with_docs),
            decls_for(b, ts, ovs),
        ),
        None => Seq::empty(),
    }
}

/// The header, then `body`, inside a module when a schema is named.
pub open spec fn wrapped(schema: Option<String>, body: Seq<char>) -> Seq<char> {
    schema_header() + "\n"@ + match schema {
        Some(n) => pad("pub mod "@ + n@ + " {\n"@ + body, false) + "}\n"@,
        None => body,
    }
}

/// The schema text before any patch: the header, then the namespace of
/// synthesized types and the definitions, inside a module when a schema is
/// named.
pub open spec fn unpatched_text(
    config: SchemaConfig,
    b: Backend,
    ts: Seq<TableData>,
    fks: Seq<ForeignKeyConstraint>,
    ovs: Option<Seq<Vec<Option<ColumnType>>>>,
) -> Seq<char> {
    wrapped(
        config.schema,
        types_text(config, b, ts, ovs) + definitions_text(
            ts,
            fks,
            config.with_docs,
            match config.import_types {
                Some(v) => Some(v@),
                None => None,
            },
            ovs,
        ),
    )
}

fn write_wrapped(schema: &Option<String>, body: &String) -> (r: String)
    ensures
        r@ == wrapped(*schema, body@),
{
    let mut out = String::from_str("// @generated automatically by Diesel CLI.\n");
    out.append("\n");
    match schema {
        Some(name) => {
            let mut inner = String::from_str("pub mod ");
            inner.append(name.as_str());
            inner.append(" {\n");
            inner.append(body.as_str());
            let mut w = PadAdapter::new();
            w.write_str(inner.as_str());
            out.append(w.buf.as_str());
            out.append("}\n");
        },
        None => {
            out.append(body.as_str());
        },
    }
    proof {
        assert(out@ =~= wrapped(*schema, body@));
    }
    out
}

fn types_namespace(
    config: &SchemaConfig,
    backend: Backend,
    tables: &Vec<TableData>,
    overrides: Option<&Vec<Vec<Option<ColumnType>>>>,
) -> (r: Result<String, Vec<String>>)
    requires
        table_overrides_fit(tables@, opt_ovs_view(overrides)),
    ensures
        r is Err <==> sqlite_blocked(backend, tables@, opt_ovs_view(overrides)),
        r matches Ok(s) ==> s@ == types_text(*config, backend, tables@, opt_ovs_view(overrides)),
        r matches Err(names) ==> views(names@) == sql_names_of(decls_for(backend, tables@, opt_ovs_view(overrides))),
{
    match overrides {
        Some(o) => match custom_types_block(
            backend,
            config.with_docs == DocConfig::DatabaseCommentsFallbackToAutoGeneratedDocComment,
            &config.custom_type_derives,
            tables,
            o,
        ) {
            Ok(s) => Ok(s),
            Err(e) => Err(e.sql_names),
        },
        None => Ok(String::new()),
    }
}

/// Whether `r` is the result of printing: the SQLite error when that backend
/// meets unknown types, else the text, patched when a patch is given.
pub open spec fn printed(
    config: SchemaConfig,
    b: Backend,
    ts: Seq<TableData>,
    fks: Seq<ForeignKeyConstraint>,
    ovs: Option<Seq<Vec<Option<ColumnType>>>>,
    r: Result<String, SchemaError>,
) -> bool {
    if sqlite_blocked(b, ts, ovs) {
        r matches Err(SchemaError::UnsupportedSqliteTypes(names)) && views(names@) == sql_names_of(
            decls_for(b, ts, ovs),
        )
    } else {
        let text = unpatched_text(config, b, ts, fks, ovs);
        match config.patch {
            None => r matches Ok(s) && s@ == text,
            Some(p) => if !header_numbers_fit(p@) {
                r matches Err(SchemaError::Patch(_))
            } else {
                match patched(text, p@) {
                    Some(t) => r matches Ok(s) && s@ == t,
                    None => r matches Err(SchemaError::Patch(_)),
                }
            },
        }
    }
}

/// Prints the schema of `tables` given the synthesized types `overrides`
/// (none when synthesis is off).
pub fn render_schema(
    config: &SchemaConfig,
    backend: Backend,
    tables: &Vec<TableData>,
    fk_constraints: &Vec<ForeignKeyConstraint>,
    overrides: Option<&Vec<Vec<Option<ColumnType>>>>,
) -> (r: Result<String, SchemaError>)
    requires
        table_overrides_fit(tables@, opt_ovs_view(overrides)),
        keys_fit(fk_constraints@),
    ensures
        printed(*config, backend, tables@, fk_constraints@, opt_ovs_view(overrides), r),
{
    let ns = match types_namespace(config, backend, tables, overrides) {
        Ok(s) => s,
        Err(names) => {
            return Err(SchemaError::UnsupportedSqliteTypes(names));
        },
    };
    let imports: Option<&Vec<String>> = match &config.import_types {
        Some(v) => Some(v),
        None => None,
    };
    let defs = table_definitions(tables, fk_constraints, config.with_docs, imports, overrides);
    let mut body = ns;
    body.append(defs.as_str());
    let out = write_wrapped(&config.schema, &body);
    match &config.patch {
        Some(p) => {
            if !patch_numbers_fit(p.as_str()) {
                return Err(
                    SchemaError::Patch(String::from_str("a hunk header gives a line number too large")),
                );
            }
            match apply_patch(out.as_str(), p.as_str()) {
                Ok(s) => Ok(s),
                Err(e) => Err(SchemaError::Patch(e)),
            }
        },
        None => Ok(out),
    }
}

/// Prints the schema of `tables`, synthesizing declarations for the types
/// that the backend does not know when the configuration asks for them.
pub fn output_schema(
    config: &SchemaConfig,
    backend: Backend,
    tables: &Vec<TableData>,
    fk_constraints: &Vec<ForeignKeyConstraint>,
) -> (r: Result<String, SchemaError>)
    requires
        keys_fit(fk_constraints@),
    ensures
        !config.generate_missing_sql_type_definitions ==> printed(
            *config,
            backend,
            tables@,
            fk_constraints@,
            None,
            r,
        ),
        config.generate_missing_sql_type_definitions ==> exists|ovs: Seq<Vec<Option<ColumnType>>>|
            overrides_spec(backend, known_names(backend), tables@, ovs) && printed(
                *config,
                backend,
                tables@,
                fk_constraints@,
                Some(ovs),
                r,
            ),
{
    if config.generate_missing_sql_type_definitions {
        let known = known_types(backend);
        let ovs = custom_type_overrides(backend, &known, tables);
        proof {
            assert forall|i: int| 0 <= i < tables@.len() implies crate::render::overrides_fit(
                #[trigger] tables@[i].column_data@,
                Some(ovs@[i]@),
            ) by {
                assert(ovs@[i]@.len() == tables@[i].column_data@.len());
            }
        }
        let r = render_schema(config, backend, tables, fk_constraints, Some(&ovs));
        assert(overrides_spec(backend, known_names(backend), tables@, ovs@));
        r
    } else {
        render_schema(config, backend, tables, fk_constraints, None)
    }
}

/// Prints the schema of the tables that the configured filter keeps.
pub fn run_print_schema(
    config: &SchemaConfig,
    backend: Backend,
    tables: Vec<TableData>,
    fk_constraints: &Vec<ForeignKeyConstraint>,
) -> (r: Result<String, SchemaError>)
    requires
        keys_fit(fk_constraints@),
    ensures
        ({
            let ts = kept_tables(config.filter, tables@);
            &&& !config.generate_missing_sql_type_definitions ==> printed(
                *config,
                backend,
                ts,
                fk_constraints@,
                None,
                r,
            )
            &&& config.generate_missing_sql_type_definitions ==> exists|
                ovs: Seq<Vec<Option<ColumnType>>>,
            |
                overrides_spec(backend, known_names(backend), ts, ovs) && printed(
                    *config,
                    backend,
                    ts,
                    fk_constraints@,
                    Some(ovs),
                    r,
                )
        }),
{
    let kept = config.filter.retain_tables(tables);
    output_schema(config, backend, &kept, fk_constraints)
}

} // verus!
