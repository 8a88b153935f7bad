//! Introspected schema data as handed to the renderer.

use vstd::prelude::*;

verus! {

/// A table's identifier: its name in the database, its identifier in the
/// generated text, and the schema that qualifies it, if any.
pub struct TableName {
    pub sql_name: String,
    pub rust_name: String,
    pub schema: Option<String>,
}

/// The output type of one column.
pub struct ColumnType {
    pub schema: Option<String>,
    pub rust_name: String,
    pub sql_name: String,
    pub is_array: bool,
    pub is_nullable: bool,
    pub is_unsigned: bool,
}

/// One column of a table.
pub struct ColumnDefinition {
    pub sql_name: String,
    pub rust_name: String,
    pub ty: ColumnType,
    pub comment: Option<String>,
}

/// Everything the renderer needs to know of one table.
pub struct TableData {
    pub name: TableName,
    pub primary_key: Vec<String>,
    pub column_data: Vec<ColumnDefinition>,
    pub comment: Option<String>,
}

/// A foreign key from a child table to a parent table, with the
/// identifiers of its columns in the child table.
pub struct ForeignKeyConstraint {
    pub child_table: TableName,
    pub parent_table: TableName,
    pub foreign_key_columns_rust: Vec<String>,
}

/// A copy of an optional string.
pub fn copy_opt_string(o: &Option<String>) -> (r: Option<String>)
    ensures
        r == *o,
{
    match o {
        Some(s) => Some(s.clone()),
        None => None,
    }
}

impl Clone for TableName {
    fn clone(&self) -> (r: Self)
        ensures
            r == *self,
    {
        TableName {
            sql_name: self.sql_name.clone(),
            rust_name: self.rust_name.clone(),
            schema: copy_opt_string(&self.schema),
        }
    }
}

impl Clone for ColumnType {
    fn clone(&self) -> (r: Self)
        ensures
            r == *self,
    {
        ColumnType {
            schema: copy_opt_string(&self.schema),
            rust_name: self.rust_name.clone(),
            sql_name: self.sql_name.clone(),
            is_array: self.is_array,
            is_nullable: self.is_nullable,
            is_unsigned: self.is_unsigned,
        }
    }
}

impl TableName {
    /// The database name, qualified by its schema when there is one.
    pub open spec fn full_sql_name_spec(&self) -> Seq<char> {
        match self.schema {
            Some(s) => s@ + "."@ + self.sql_name@,
            None => self.sql_name@,
        }
    }

    /// The identifier in the generated text, qualified by its schema when
    /// there is one.
    pub open spec fn text_spec(&self) -> Seq<char> {
        match self.schema {
            Some(s) => s@ + "."@ + self.rust_name@,
            None => self.rust_name@,
        }
    }

    pub fn full_sql_name(&self) -> (r: String)
        ensures
            r@ == self.full_sql_name_spec(),
    {
        match &self.schema {
            Some(s) => {
                let mut r = s.clone();
                r.append(".");
                r.append(self.sql_name.as_str());
                r
            },
            None => self.sql_name.clone(),
        }
    }

    pub fn to_text(&self) -> (r: String)
        ensures
            r@ == self.text_spec(),
    {
        match &self.schema {
            Some(s) => {
                let mut r = s.clone();
                r.append(".");
                r.append(self.rust_name.as_str());
                r
            },
            None => self.rust_name.clone(),
        }
    }
}

impl ColumnType {
    /// The type as written in a column declaration: the name, wrapped in
    /// `Unsigned<..>`, `Array<Nullable<..>>` and `Nullable<..>` per its flags.
    pub open spec fn text_spec(&self) -> Seq<char> {
        let u = if self.is_unsigned {
            "Unsigned<"@ + self.rust_name@ + ">"@
        } else {
            self.rust_name@
        };
        let a = if self.is_array {
            "Array<Nullable<"@ + u + ">>"@
        } else {
            u
        };
        if self.is_nullable {
            "Nullable<"@ + a + ">"@
        } else {
            a
        }
    }

    pub fn to_text(&self) -> (r: String)
        ensures
            r@ == self.text_spec(),
    {
        let mut r = String::new();
        if self.is_nullable {
            r.append("Nullable<");
        }
        if self.is_array {
            r.append("Array<Nullable<");
        }
        if self.is_unsigned {
            r.append("Unsigned<");
        }
        r.append(self.rust_name.as_str());
        if self.is_unsigned {
            r.append(">");
        }
        if self.is_array {
            r.append(">>");
        }
        if self.is_nullable {
            r.append(">");
        }
        proof {
            assert(r@ =~= self.text_spec());
        }
        r
    }
}

} // verus!
