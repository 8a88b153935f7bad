//! The type names each backend provides without a declaration.

use vstd::prelude::*;
use crate::config::Backend;
use crate::text::views;

verus! {

/// The names every backend knows.
pub open spec fn common_names() -> Seq<Seq<char>> {
    seq![
        "Bool"@,
        "Integer"@,
        "SmallInt"@,
        "BigInt"@,
        "Binary"@,
        "Text"@,
        "Double"@,
        "Float"@,
        "Numeric"@,
        "Timestamp"@,
        "Date"@,
        "Time"@,
    ] + seq![
        "Float4"@,
        "Smallint"@,
        "Int2"@,
        "Int4"@,
        "Int8"@,
        "Bigint"@,
        "Float8"@,
        "Decimal"@,
        "VarChar"@,
        "Varchar"@,
        "Char"@,
        "Tinytext"@,
        "Mediumtext"@,
        "Longtext"@,
        "Tinyblob"@,
        "Blob"@,
        "Mediumblob"@,
        "Longblob"@,
        "Varbinary"@,
        "Bit"@,
    ]
}

/// The names only the PostgreSQL backend knows.
pub open spec fn pg_names() -> Seq<Seq<char>> {
    seq![
        "Cidr"@,
        "Inet"@,
        "Jsonb"@,
        "MacAddr"@,
        "Money"@,
        "Oid"@,
        "Range"@,
        "Timestamptz"@,
        "Uuid"@,
        "Json"@,
        "Record"@,
        "Interval"@,
    ] + seq![
        "Int4range"@,
        "Int8range"@,
        "Daterange"@,
        "Numrange"@,
        "Tsrange"@,
        "Tstzrange"@,
        "SmallSerial"@,
        "BigSerial"@,
        "Serial"@,
        "Bytea"@,
        "Bpchar"@,
        "Macaddr"@,
    ]
}

/// The names only the MySQL backend knows.
pub open spec fn mysql_names() -> Seq<Seq<char>> {
    seq![
        "TinyInt"@,
        "Tinyint"@,
        "Datetime"@,
        "Json"@,
    ]
}

/// The known vocabulary of a backend.
pub open spec fn known_names(b: Backend) -> Seq<Seq<char>> {
    match b {
        Backend::Pg => pg_names() + common_names(),
        Backend::Mysql => common_names() + mysql_names(),
        Backend::Sqlite => common_names(),
    }
}

fn add_name(types: &mut Vec<String>, name: &str)
    ensures
        views(final(types)@) == views(old(types)@).push(name@),
{
    types.push(name.to_owned());
    assert(views(types@) =~= views(old(types)@).push(name@));
}

/// Appends the names every backend knows.
pub fn common_diesel_types(types: &mut Vec<String>)
    ensures
        views(final(types)@) == views(old(types)@) + common_names(),
{
    let ghost v0 = views(types@);
    add_name(types, "Bool");
    add_name(types, "Integer");
    add_name(types, "SmallInt");
    add_name(types, "BigInt");
    add_name(types, "Binary");
    add_name(types, "Text");
    add_name(types, "Double");
    add_name(types, "Float");
    add_name(types, "Numeric");
    add_name(types, "Timestamp");
    add_name(types, "Date");
    add_name(types, "Time");
    add_name(types, "Float4");
    add_name(types, "Smallint");
    add_name(types, "Int2");
    add_name(types, "Int4");
    add_name(types, "Int8");
    add_name(types, "Bigint");
    add_name(types, "Float8");
    add_name(types, "Decimal");
    add_name(types, "VarChar");
    add_name(types, "Varchar");
    add_name(types, "Char");
    add_name(types, "Tinytext");
    add_name(types, "Mediumtext");
    add_name(types, "Longtext");
    add_name(types, "Tinyblob");
    add_name(types, "Blob");
    add_name(types, "Mediumblob");
    add_name(types, "Longblob");
    add_name(types, "Varbinary");
    add_name(types, "Bit");
    assert(views(types@) =~= v0 + common_names());
}

/// The PostgreSQL vocabulary.
pub fn pg_diesel_types() -> (r: Vec<String>)
    ensures
        views(r@) == known_names(Backend::Pg),
{
    let mut v: Vec<String> = Vec::new();
    let types = &mut v;
    add_name(types, "Cidr");
    add_name(types, "Inet");
    add_name(types, "Jsonb");
    add_name(types, "MacAddr");
    add_name(types, "Money");
    add_name(types, "Oid");
    add_name(types, "Range");
    add_name(types, "Timestamptz");
    add_name(types, "Uuid");
    add_name(types, "Json");
    add_name(types, "Record");
    add_name(types, "Interval");
    add_name(types, "Int4range");
    add_name(types, "Int8range");
    add_name(types, "Daterange");
    add_name(types, "Numrange");
    add_name(types, "Tsrange");
    add_name(types, "Tstzrange");
    add_name(types, "SmallSerial");
    add_name(types, "BigSerial");
    add_name(types, "Serial");
    add_name(types, "Bytea");
    add_name(types, "Bpchar");
    add_name(types, "Macaddr");
    assert(views(v@) =~= pg_names());
    common_diesel_types(&mut v);
    v
}

/// The MySQL vocabulary.
pub fn mysql_diesel_types() -> (r: Vec<String>)
    ensures
        views(r@) == known_names(Backend::Mysql),
{
    let mut v: Vec<String> = Vec::new();
    common_diesel_types(&mut v);
    assert(views(v@) =~= common_names());
    let types = &mut v;
    add_name(types, "TinyInt");
    add_name(types, "Tinyint");
    add_name(types, "Datetime");
    add_name(types, "Json");
    assert(views(v@) =~= known_names(Backend::Mysql));
    v
}

/// The SQLite vocabulary.
pub fn sqlite_diesel_types() -> (r: Vec<String>)
    ensures
        views(r@) == known_names(Backend::Sqlite),
{
    let mut v: Vec<String> = Vec::new();
    common_diesel_types(&mut v);
    assert(views(v@) =~= common_names());
    v
}

/// The known vocabulary of a backend.
pub fn known_types(backend: Backend) -> (r: Vec<String>)
    ensures
        views(r@) == known_names(backend),
{
    match backend {
        Backend::Pg => pg_diesel_types(),
        Backend::Mysql => mysql_diesel_types(),
        Backend::Sqlite => sqlite_diesel_types(),
    }
}

} // verus!
