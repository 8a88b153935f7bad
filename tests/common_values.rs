use print_schema::config::{Backend, DocConfig};
use print_schema::docs::write_doc_comments;
use print_schema::model::{ColumnDefinition, ColumnType, ForeignKeyConstraint, TableData, TableName};
use print_schema::order::text_less;
use print_schema::pad::PadAdapter;
use print_schema::render::{column_definitions, joinable, table_definition, table_definitions};
use print_schema::vocab::{known_types, mysql_diesel_types, pg_diesel_types, sqlite_diesel_types};

fn ty(name: &str, sql: &str) -> ColumnType {
    ColumnType {
        schema: None,
        rust_name: name.to_string(),
        sql_name: sql.to_string(),
        is_array: false,
        is_nullable: false,
        is_unsigned: false,
    }
}

fn col(name: &str, t: ColumnType) -> ColumnDefinition {
    ColumnDefinition { sql_name: name.to_string(), rust_name: name.to_string(), ty: t, comment: None }
}

fn tname(name: &str) -> TableName {
    TableName { sql_name: name.to_string(), rust_name: name.to_string(), schema: None }
}

fn users() -> TableData {
    TableData {
        name: tname("users"),
        primary_key: vec!["id".to_string()],
        column_data: vec![col("id", ty("Integer", "int4")), col("name", ty("Text", "text"))],
        comment: None,
    }
}

fn posts() -> TableData {
    TableData {
        name: tname("posts"),
        primary_key: vec!["id".to_string()],
        column_data: vec![col("id", ty("Integer", "int4")), col("user_id", ty("Integer", "int4"))],
        comment: None,
    }
}

const USERS_BLOCK: &str = "diesel::table! {\n    users (id) {\n        id -> Integer,\n        name -> Text,\n    }\n}";

#[test]
fn pad_adapter_indents_lines_after_newlines() {
    let mut w = PadAdapter::new();
    w.write_str("a\nb\n\nc");
    assert_eq!(w.buf, "a\n    b\n\n    c");
    assert!(!w.on_newline);
    w.write_str("\nd\n");
    assert_eq!(w.buf, "a\n    b\n\n    c\n    d\n");
    assert!(w.on_newline);
}

#[test]
fn doc_comments_are_trimmed_per_line() {
    let mut out = String::new();
    write_doc_comments(&mut out, "  hello there \n\n\t world\n");
    assert_eq!(out, "/// hello there\n///\n/// world\n");
}

#[test]
fn doc_comments_of_empty_text_are_empty() {
    let mut out = String::from("x");
    write_doc_comments(&mut out, "");
    assert_eq!(out, "x");
}

#[test]
fn column_type_wrappers() {
    let mut t = ty("Text", "text");
    t.is_nullable = true;
    t.is_array = true;
    assert_eq!(t.to_text(), "Nullable<Array<Nullable<Text>>>");
    let mut u = ty("Integer", "int");
    u.is_unsigned = true;
    assert_eq!(u.to_text(), "Unsigned<Integer>");
}

#[test]
fn table_names_with_schema() {
    let t = TableName { sql_name: "User Data".to_string(), rust_name: "user_data".to_string(), schema: Some("app".to_string()) };
    assert_eq!(t.full_sql_name(), "app.User Data");
    assert_eq!(t.to_text(), "app.user_data");
}

#[test]
fn column_block_renders_one_line_per_column() {
    let t = users();
    let r = column_definitions(&t.column_data, DocConfig::NoDocComments, &"users".to_string(), None);
    assert_eq!(r, "{\n    id -> Integer,\n    name -> Text,\n}\n");
}

#[test]
fn column_block_annotates_renamed_columns() {
    let mut c = col("type", ty("Text", "text"));
    c.rust_name = "type_".to_string();
    let r = column_definitions(&vec![c], DocConfig::NoDocComments, &"t".to_string(), None);
    assert_eq!(r, "{\n    #[sql_name = \"type\"]\n    type_ -> Text,\n}\n");
}

#[test]
fn column_block_uses_overrides() {
    let t = users();
    let ov = vec![None, Some(ty("Custom", "custom"))];
    let r = column_definitions(&t.column_data, DocConfig::NoDocComments, &"users".to_string(), Some(&ov));
    assert_eq!(r, "{\n    id -> Integer,\n    name -> Custom,\n}\n");
}

#[test]
fn table_block_with_two_columns_has_one_indent_level() {
    let r = table_definition(&users(), DocConfig::NoDocComments, None, None);
    assert_eq!(r, USERS_BLOCK);
}

#[test]
fn table_block_with_docs_keeps_nesting() {
    let mut t = users();
    t.comment = Some("All users.".to_string());
    t.column_data[0].comment = Some("Key".to_string());
    let r = table_definition(&t, DocConfig::DatabaseCommentsFallbackToAutoGeneratedDocComment, None, None);
    let expected = "diesel::table! {\n    /// All users.\n    users (id) {\n        /// Key\n        id -> Integer,\n        /// The `name` column of the `users` table.\n        ///\n        /// Its SQL type is `Text`.\n        ///\n        /// (Automatically generated by Diesel.)\n        name -> Text,\n    }\n}";
    assert_eq!(r, expected);
}

#[test]
fn table_block_only_database_comments() {
    let mut t = users();
    t.column_data[1].comment = Some("Display name".to_string());
    let r = table_definition(&t, DocConfig::OnlyDatabaseComments, None, None);
    let expected = "diesel::table! {\n    users (id) {\n        id -> Integer,\n        /// Display name\n        name -> Text,\n    }\n}";
    assert_eq!(r, expected);
}

#[test]
fn table_block_auto_doc_and_sql_name() {
    let t = TableData {
        name: TableName { sql_name: "Users".to_string(), rust_name: "users".to_string(), schema: None },
        primary_key: vec!["a".to_string(), "b".to_string()],
        column_data: vec![col("a", ty("Integer", "int4"))],
        comment: None,
    };
    let r = table_definition(&t, DocConfig::DatabaseCommentsFallbackToAutoGeneratedDocComment, None, None);
    assert!(r.starts_with("diesel::table! {\n    /// Representation of the `Users` table.\n    ///\n    /// (Automatically generated by Diesel.)\n    #[sql_name = \"Users\"]\n    users (a, b) {\n"));
}

#[test]
fn table_block_imports() {
    let imports = vec!["crate::types::*".to_string()];
    let ov = vec![Some(ty("Mood", "mood")), Some(ty("Mood", "mood"))];
    let r = table_definition(&users(), DocConfig::NoDocComments, Some(&imports), Some(&ov));
    assert!(r.starts_with("diesel::table! {\n    use crate::types::*;\n    use super::sql_types::Mood;\n\n    users (id) {\n"));
    let r2 = table_definition(&users(), DocConfig::NoDocComments, None, Some(&ov));
    assert!(r2.starts_with("diesel::table! {\n    use diesel::sql_types::*;\n    use super::sql_types::Mood;\n\n    users (id) {\n"));
}

#[test]
fn joinable_uses_first_column() {
    let fk = ForeignKeyConstraint {
        child_table: tname("posts"),
        parent_table: tname("users"),
        foreign_key_columns_rust: vec!["user_id".to_string(), "other".to_string()],
    };
    assert_eq!(joinable(&fk), "diesel::joinable!(posts -> users (user_id));");
}

#[test]
fn one_table_has_no_co_appearance() {
    let r = table_definitions(&vec![users()], &vec![], DocConfig::NoDocComments, None, None);
    assert_eq!(r, format!("{}\n", USERS_BLOCK));
    assert!(!r.contains("allow_tables_to_appear_in_same_query"));
}

#[test]
fn two_tables_are_listed_in_order() {
    let fk = ForeignKeyConstraint {
        child_table: tname("posts"),
        parent_table: tname("users"),
        foreign_key_columns_rust: vec!["user_id".to_string()],
    };
    let r = table_definitions(&vec![users(), posts()], &vec![fk], DocConfig::NoDocComments, None, None);
    let posts_block = "diesel::table! {\n    posts (id) {\n        id -> Integer,\n        user_id -> Integer,\n    }\n}";
    let expected = format!(
        "{}\n\n{}\n\ndiesel::joinable!(posts -> users (user_id));\n\ndiesel::allow_tables_to_appear_in_same_query!(\n    users,\n    posts,\n);\n",
        USERS_BLOCK, posts_block
    );
    assert_eq!(r, expected);
}

#[test]
fn vocabularies() {
    let pg = pg_diesel_types();
    assert!(pg.contains(&"Uuid".to_string()));
    assert!(pg.contains(&"Bool".to_string()));
    assert_eq!(pg.len(), 56);
    let my = mysql_diesel_types();
    assert!(my.contains(&"Datetime".to_string()));
    assert!(!my.contains(&"Uuid".to_string()));
    let lite = sqlite_diesel_types();
    assert_eq!(lite.len(), 32);
    assert_eq!(known_types(Backend::Sqlite), lite);
}

#[test]
fn text_order_is_by_code_point() {
    assert!(text_less("Abc", "abc"));
    assert!(text_less("ab", "abc"));
    assert!(!text_less("abc", "abc"));
    assert!(!text_less("b", "abc"));
}
