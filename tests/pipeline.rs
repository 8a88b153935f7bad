use print_schema::config::{Backend, ColumnSorting, DocConfig};
use print_schema::custom_types::{custom_type_overrides, synthesize_column};
use print_schema::filter::{Filtering, TablePattern};
use print_schema::model::{ColumnDefinition, ColumnType, ForeignKeyConstraint, TableData, TableName};
use print_schema::namespace::{
    capitalize, custom_types_block, CustomTypesForTables, CustomTypesForTablesForDisplay,
};
use print_schema::schema::{output_schema, render_schema, run_print_schema, SchemaConfig, SchemaError};
use print_schema::patch_check::patch_numbers_fit;
use print_schema::vocab::known_types;

fn ty(name: &str, sql: &str) -> ColumnType {
    ColumnType {
        schema: None,
        rust_name: name.to_string(),
        sql_name: sql.to_string(),
        is_array: false,
        is_nullable: false,
        is_unsigned: false,
    }
}

fn col(name: &str, t: ColumnType) -> ColumnDefinition {
    ColumnDefinition { sql_name: name.to_string(), rust_name: name.to_string(), ty: t, comment: None }
}

fn tname(name: &str) -> TableName {
    TableName { sql_name: name.to_string(), rust_name: name.to_string(), schema: None }
}

fn table(name: &str, cols: Vec<ColumnDefinition>) -> TableData {
    TableData { name: tname(name), primary_key: vec!["id".to_string()], column_data: cols, comment: None }
}

fn derives() -> Vec<String> {
    vec![
        "diesel::query_builder::QueryId".to_string(),
        "Clone".to_string(),
        "diesel::sql_types::SqlType".to_string(),
    ]
}

fn config(generate: bool) -> SchemaConfig {
    SchemaConfig {
        schema: None,
        filter: Filtering::default(),
        column_sorting: ColumnSorting::default(),
        with_docs: DocConfig::NoDocComments,
        generate_missing_sql_type_definitions: generate,
        import_types: None,
        custom_type_derives: derives(),
        patch: None,
    }
}

fn users() -> TableData {
    table("users", vec![col("id", ty("Integer", "int4")), col("name", ty("Text", "text"))])
}

const HEADER: &str = "// @generated automatically by Diesel CLI.\n\n";
const USERS_BLOCK: &str = "diesel::table! {\n    users (id) {\n        id -> Integer,\n        name -> Text,\n    }\n}\n";

fn names(ts: &[&str]) -> Vec<TableName> {
    ts.iter().map(|t| tname(t)).collect()
}

#[test]
fn invalid_pattern_is_rejected() {
    let e = TablePattern::new("users(").err().unwrap();
    assert_eq!(e.pattern, "users(");
    assert!(TablePattern::new("^users$").is_ok());
}

#[test]
fn filter_partitions_tables() {
    let all = names(&["users", "posts", "user_roles", "comments"]);
    let only = Filtering::OnlyTables(vec![TablePattern::new("^user").unwrap()]);
    let kept: Vec<String> = only.surviving_tables(&all).into_iter().map(|t| t.sql_name).collect();
    assert_eq!(kept, vec!["users", "user_roles"]);
    let except = Filtering::ExceptTables(vec![TablePattern::new("^user").unwrap()]);
    let kept2: Vec<String> = except.surviving_tables(&all).into_iter().map(|t| t.sql_name).collect();
    assert_eq!(kept2, vec!["posts", "comments"]);
    for t in &all {
        assert_ne!(only.should_ignore_table(t), except.should_ignore_table(t));
    }
}

#[test]
fn empty_pattern_lists() {
    let all = names(&["users", "posts"]);
    assert!(Filtering::OnlyTables(vec![]).surviving_tables(&all).is_empty());
    assert_eq!(Filtering::ExceptTables(vec![]).surviving_tables(&all).len(), 2);
    assert_eq!(Filtering::default().surviving_tables(&all).len(), 2);
}

#[test]
fn pattern_matches_anywhere() {
    let p = TablePattern::new("rol").unwrap();
    assert!(p.is_match("user_roles"));
    assert!(!p.is_match("users"));
    assert_eq!(p.as_str(), "rol");
}

#[test]
fn known_types_are_not_synthesized() {
    let known = known_types(Backend::Pg);
    let t = users();
    for c in &t.column_data {
        assert!(synthesize_column(Backend::Pg, &known, &t.name, c).is_none());
    }
}

#[test]
fn mysql_names_are_column_specific() {
    let known = known_types(Backend::Mysql);
    let t = users();
    let c = col("mood", ty("Mood", "mood_enum"));
    let r = synthesize_column(Backend::Mysql, &known, &t.name, &c).unwrap();
    assert_eq!(r.rust_name, "UsersMoodMood");
    assert_eq!(r.sql_name, "mood_enum");
}

#[test]
fn capitalize_first_character() {
    assert_eq!(capitalize("mood_enum"), "Mood_enum");
    assert_eq!(capitalize("ßa"), "SSa");
    assert_eq!(capitalize(""), "");
}

fn two_tables_same_unknown() -> Vec<TableData> {
    vec![
        table("users", vec![col("id", ty("Integer", "int4")), col("mood", ty("Mood", "mood_enum"))]),
        table("posts", vec![col("mood", ty("Mood", "mood_enum"))]),
    ]
}

#[test]
fn pg_shares_one_declaration() {
    let ts = two_tables_same_unknown();
    let ovs = custom_type_overrides(Backend::Pg, &known_types(Backend::Pg), &ts);
    let r = custom_types_block(Backend::Pg, false, &derives(), &ts, &ovs).unwrap();
    let expected = "pub mod sql_types {\n    #[derive(diesel::query_builder::QueryId, Clone, diesel::sql_types::SqlType)]\n    #[diesel(postgres_type(name = \"mood_enum\"))]\n    pub struct Mood;\n}\n\n";
    assert_eq!(r, expected);
}

#[test]
fn mysql_declares_one_per_column() {
    let ts = two_tables_same_unknown();
    let ovs = custom_type_overrides(Backend::Mysql, &known_types(Backend::Mysql), &ts);
    let r = custom_types_block(Backend::Mysql, false, &vec!["Clone".to_string()], &ts, &ovs).unwrap();
    let expected = "pub mod sql_types {\n    #[derive(Clone)]\n    #[diesel(mysql_type(name = \"Mood_enum\"))]\n    pub struct PostsMoodMood;\n\n    #[derive(Clone)]\n    #[diesel(mysql_type(name = \"Mood_enum\"))]\n    pub struct UsersMoodMood;\n}\n\n";
    assert_eq!(r, expected);
}

#[test]
fn synthesis_twice_gives_the_same_list() {
    let ts = two_tables_same_unknown();
    let a = custom_type_overrides(Backend::Pg, &known_types(Backend::Pg), &ts);
    let b = custom_type_overrides(Backend::Pg, &known_types(Backend::Pg), &ts);
    let ra = custom_types_block(Backend::Pg, true, &derives(), &ts, &a).unwrap();
    let rb = custom_types_block(Backend::Pg, true, &derives(), &ts, &b).unwrap();
    assert_eq!(ra, rb);
}

#[test]
fn pg_declaration_docs_name_the_schema() {
    let mut t = ty("Mood", "mood_enum");
    t.schema = Some("app".to_string());
    let ts = vec![table("users", vec![col("mood", t)])];
    let ovs = custom_type_overrides(Backend::Pg, &known_types(Backend::Pg), &ts);
    let r = custom_types_block(Backend::Pg, true, &vec!["Clone".to_string()], &ts, &ovs).unwrap();
    let expected = "/// A module containing custom SQL type definitions\n///\n/// (Automatically generated by Diesel.)\npub mod sql_types {\n    /// The `app.mood_enum` SQL type\n    ///\n    /// (Automatically generated by Diesel.)\n    #[derive(Clone)]\n    #[diesel(postgres_type(name = \"mood_enum\", schema = \"app\"))]\n    pub struct Mood;\n}\n\n";
    assert_eq!(r, expected);
}

#[test]
fn sqlite_unknown_type_is_an_error() {
    let ts = vec![table("users", vec![col("x", ty("Weird", "weird"))])];
    let mut c = config(true);
    c.filter = Filtering::NoFilter;
    match output_schema(&c, Backend::Sqlite, &ts, &vec![]) {
        Err(SchemaError::UnsupportedSqliteTypes(n)) => assert_eq!(n, vec!["weird".to_string()]),
        _ => panic!("expected an error"),
    }
}

#[test]
fn sqlite_known_types_print() {
    let r = output_schema(&config(true), Backend::Sqlite, &vec![users()], &vec![]).unwrap();
    assert_eq!(r, format!("{}{}", HEADER, USERS_BLOCK));
}

#[test]
fn round_trip_custom_type() {
    let ts = vec![table("users", vec![col("id", ty("Int4", "int4")), col("bio", ty("CustomText", "custom_text"))])];
    let r = output_schema(&config(true), Backend::Pg, &ts, &vec![]).unwrap();
    let expected = format!(
        "{}pub mod sql_types {{\n    #[derive(diesel::query_builder::QueryId, Clone, diesel::sql_types::SqlType)]\n    #[diesel(postgres_type(name = \"custom_text\"))]\n    pub struct CustomText;\n}}\n\ndiesel::table! {{\n    use diesel::sql_types::*;\n    use super::sql_types::CustomText;\n\n    users (id) {{\n        id -> Int4,\n        bio -> CustomText,\n    }}\n}}\n",
        HEADER
    );
    assert_eq!(r, expected);
    assert_eq!(r.matches("pub struct").count(), 1);
}

#[test]
fn without_synthesis_unknown_types_pass_through() {
    let ts = vec![table("users", vec![col("bio", ty("CustomText", "custom_text"))])];
    let r = output_schema(&config(false), Backend::Pg, &ts, &vec![]).unwrap();
    assert!(!r.contains("sql_types"));
    assert!(r.contains("bio -> CustomText,"));
}

#[test]
fn schema_module_wraps_everything() {
    let mut c = config(false);
    c.schema = Some("app".to_string());
    let r = output_schema(&c, Backend::Pg, &vec![users()], &vec![]).unwrap();
    let expected = format!(
        "{}pub mod app {{\n    diesel::table! {{\n        users (id) {{\n            id -> Integer,\n            name -> Text,\n        }}\n    }}\n}}\n",
        HEADER
    );
    assert_eq!(r, expected);
}

#[test]
fn patch_replaces_a_line() {
    let mut c = config(false);
    c.patch = Some("--- a\n+++ b\n@@ -5,2 +5,2 @@\n         id -> Integer,\n-        name -> Text,\n+        name -> Varchar,\n".to_string());
    let r = output_schema(&c, Backend::Pg, &vec![users()], &vec![]).unwrap();
    let plain = format!("{}{}", HEADER, USERS_BLOCK);
    assert_eq!(r, plain.replace("name -> Text,", "name -> Varchar,"));
}

#[test]
fn patch_that_does_not_apply_fails() {
    let mut c = config(false);
    c.patch = Some("--- a\n+++ b\n@@ -5,2 +5,2 @@\n         id -> Integer,\n-        name -> Bogus,\n+        name -> Varchar,\n".to_string());
    match output_schema(&c, Backend::Pg, &vec![users()], &vec![]) {
        Err(SchemaError::Patch(_)) => {}
        _ => panic!("expected a patch error"),
    }
}

#[test]
fn run_filters_before_printing() {
    let mut c = config(false);
    c.filter = Filtering::ExceptTables(vec![TablePattern::new("^posts$").unwrap()]);
    let ts = vec![users(), table("posts", vec![col("id", ty("Integer", "int4"))])];
    let r = run_print_schema(&c, Backend::Pg, ts, &vec![]).unwrap();
    assert_eq!(r, format!("{}{}", HEADER, USERS_BLOCK));
}

#[test]
fn render_with_given_overrides() {
    let ts = vec![users()];
    let ovs = vec![vec![None, Some(ty("Custom", "custom"))]];
    let r = render_schema(&config(true), Backend::Pg, &ts, &vec![], Some(&ovs)).unwrap();
    assert!(r.contains("name -> Custom,"));
    assert!(r.contains("pub struct Custom;"));
}

#[test]
fn doc_config_names() {
    assert_eq!(DocConfig::from_name("only-database-comments").unwrap(), DocConfig::OnlyDatabaseComments);
    assert_eq!("no-doc-comments".parse::<DocConfig>().unwrap(), DocConfig::NoDocComments);
    assert_eq!(
        DocConfig::from_name("database-comments-fallback-to-auto-generated-doc-comment").unwrap(),
        DocConfig::DatabaseCommentsFallbackToAutoGeneratedDocComment
    );
    assert!(DocConfig::from_name("yes").is_err());
    assert_eq!(DocConfig::default(), DocConfig::NoDocComments);
}

#[test]
fn display_struct_renders_the_namespace() {
    let ts = two_tables_same_unknown();
    let ovs = custom_type_overrides(Backend::Pg, &known_types(Backend::Pg), &ts);
    let cts = CustomTypesForTables { backend: Backend::Pg, types_overrides_sorted: ovs, with_docs: false, derives: vec!["Clone".to_string()] };
    let d = CustomTypesForTablesForDisplay { custom_types: &cts, tables: &ts };
    assert_eq!(
        d.to_text().unwrap(),
        "pub mod sql_types {\n    #[derive(Clone)]\n    #[diesel(postgres_type(name = \"mood_enum\"))]\n    pub struct Mood;\n}\n\n"
    );
}

#[test]
fn sqlite_namespace_lists_unknown_names_sorted() {
    let ts = vec![table("t", vec![col("a", ty("Zeta", "zeta")), col("b", ty("Alpha", "alpha"))])];
    let ovs = custom_type_overrides(Backend::Sqlite, &known_types(Backend::Sqlite), &ts);
    let e = custom_types_block(Backend::Sqlite, false, &vec![], &ts, &ovs).err().unwrap();
    assert_eq!(e.sql_names, vec!["alpha".to_string(), "zeta".to_string()]);
}

#[test]
fn mysql_colliding_names_are_declared_once() {
    let ts = vec![
        table("a_b", vec![col("c", ty("Mood", "mood_enum"))]),
        table("a", vec![col("b_c", ty("Mood", "mood_enum"))]),
    ];
    let ovs = custom_type_overrides(Backend::Mysql, &known_types(Backend::Mysql), &ts);
    assert_eq!(ovs[0][0].as_ref().unwrap().rust_name, ovs[1][0].as_ref().unwrap().rust_name);
    let r = custom_types_block(Backend::Mysql, false, &vec!["Clone".to_string()], &ts, &ovs).unwrap();
    let name = &ovs[0][0].as_ref().unwrap().rust_name;
    assert_eq!(r.matches(&format!("pub struct {};", name)).count(), 1);
    assert_eq!(r.matches("pub struct").count(), 1);
}

#[test]
fn patch_with_overflowing_hunk_range_is_an_error() {
    let mut c = config(false);
    c.patch = Some(
        "--- a\n+++ b\n@@ -18446744073709551615,1 +1,1 @@\n-a\n+b\n@@ -5,1 +5,1 @@\n-x\n+y\n".to_string(),
    );
    match output_schema(&c, Backend::Pg, &vec![users()], &vec![]) {
        Err(SchemaError::Patch(_)) => {}
        _ => panic!("expected a patch error"),
    }
}

#[test]
fn hunk_header_number_check() {
    assert!(patch_numbers_fit("--- a\n+++ b\n@@ -5,2 +5,2 @@\n-99999999999999999999999\n"));
    assert!(!patch_numbers_fit("@@ -18446744073709551615,1 +1,1 @@\n"));
    assert!(!patch_numbers_fit("x\n@@ -1,99999999999999999999 +1,1 @@\n"));
    assert!(patch_numbers_fit(""));
}
