//! Settings of one generation run.

use vstd::prelude::*;

verus! {

/// How to sort columns when querying the table schema.
#[derive(Clone, Copy, Debug, PartialEq, Eq, Structural)]
pub enum ColumnSorting {
    /// Order by ordinal position
    OrdinalPosition,
    /// Order by column name
    Name,
}

impl Default for ColumnSorting {
    fn default() -> (r: Self)
        ensures
            r == ColumnSorting::OrdinalPosition,
    {
        ColumnSorting::OrdinalPosition
    }
}

/// Which documentation comments precede each declaration.
#[derive(Clone, Copy, Debug, PartialEq, Eq, Structural)]
pub enum DocConfig {
    DatabaseCommentsFallbackToAutoGeneratedDocComment,
    OnlyDatabaseComments,
    NoDocComments,
}

impl Default for DocConfig {
    fn default() -> (r: Self)
        ensures
            r == DocConfig::NoDocComments,
    {
        DocConfig::NoDocComments
    }
}

/// The database engine whose vocabulary and declaration syntax are in effect.
#[derive(Clone, Copy, Debug, PartialEq, Eq, Structural)]
pub enum Backend {
    Pg,
    Mysql,
    Sqlite,
}

/// The configuration name of each documentation mode.
pub open spec fn doc_config_named(s: Seq<char>) -> Option<DocConfig> {
    if s == "database-comments-fallback-to-auto-generated-doc-comment"@ {
        Some(DocConfig::DatabaseCommentsFallbackToAutoGeneratedDocComment)
    } else if s == "only-database-comments"@ {
        Some(DocConfig::OnlyDatabaseComments)
    } else if s == "no-doc-comments"@ {
        Some(DocConfig::NoDocComments)
    } else {
        None
    }
}

impl DocConfig {
    /// Reads a documentation mode from its configuration name.
    pub fn from_name(s: &str) -> (r: Result<DocConfig, String>)
        ensures
            r matches Ok(d) ==> doc_config_named(s@) == Some(d),
            r is Err <==> doc_config_named(s@) is None,
    {
        let t = s.to_owned();
        if t == String::from_str("database-comments-fallback-to-auto-generated-doc-comment") {
            Ok(DocConfig::DatabaseCommentsFallbackToAutoGeneratedDocComment)
        } else if t == String::from_str("only-database-comments") {
            Ok(DocConfig::OnlyDatabaseComments)
        } else if t == String::from_str("no-doc-comments") {
            Ok(DocConfig::NoDocComments)
        } else {
            Err(String::from_str(
                "Unknown variant for doc config, expected one of: `database-comments-fallback-to-auto-generated-doc-comment`, `only-database-comments`, `no-doc-comments`",
            ))
        }
    }
}

impl std::str::FromStr for DocConfig {
    type Err = String;

    fn from_str(s: &str) -> Result<Self, Self::Err> {
        DocConfig::from_name(s)
    }
}

} // verus!
