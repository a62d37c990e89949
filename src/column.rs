use vstd::prelude::*;

use crate::text::same_text;

verus! {

/// A column of one of the tables of the schema, holding the column's raw name.
/// Each variant belongs to exactly one table.
#[derive(Debug, Clone, Copy, PartialEq, Eq)]
pub enum TableColumn<'a> {
    Types(&'a str),
    Performers(&'a str),
    Persons(&'a str),
    Groups(&'a str),
    Albums(&'a str),
    Rolas(&'a str),
    InGroup(&'a str),
}

/// Why a column could not be built from a table name.
#[derive(Debug, PartialEq, Eq, Structural)]
pub enum ParseError {
    /// The table name is none of the recognised names or aliases.
    UnknownTable,
}

impl ParseError {
    /// A short description of the error.
    pub fn message(&self) -> (r: &'static str)
        ensures
            r@ == "unknown table"@,
    {
        "unknown table"
    }
}

impl<'a> TableColumn<'a> {
    /// The raw column name.
    pub open spec fn column_spec(self) -> Seq<char> {
        match self {
            TableColumn::Types(c) => c@,
            TableColumn::Performers(c) => c@,
            TableColumn::Persons(c) => c@,
            TableColumn::Groups(c) => c@,
            TableColumn::Albums(c) => c@,
            TableColumn::Rolas(c) => c@,
            TableColumn::InGroup(c) => c@,
        }
    }

    /// The name of the table that owns the column.
    pub open spec fn table_spec(self) -> Seq<char> {
        match self {
            TableColumn::Types(_) => "types"@,
            TableColumn::Performers(_) => "performers"@,
            TableColumn::Persons(_) => "persons"@,
            TableColumn::Groups(_) => "groups"@,
            TableColumn::Albums(_) => "albums"@,
            TableColumn::Rolas(_) => "rolas"@,
            TableColumn::InGroup(_) => "in_group"@,
        }
    }

    /// `<table>.<column>`, the column name taken verbatim.
    pub open spec fn qualified_spec(self) -> Seq<char> {
        self.table_spec() + "."@ + self.column_spec()
    }

    /// The table that owns this column.
    pub fn as_table(&self) -> (r: &'static str)
        ensures
            r@ == self.table_spec(),
    {
        match self {
            TableColumn::Types(_) => "types",
            TableColumn::Performers(_) => "performers",
            TableColumn::Persons(_) => "persons",
            TableColumn::Groups(_) => "groups",
            TableColumn::Albums(_) => "albums",
            TableColumn::Rolas(_) => "rolas",
            TableColumn::InGroup(_) => "in_group",
        }
    }

    /// The raw column name.
    pub fn column(&self) -> (r: &'a str)
        ensures
            r@ == self.column_spec(),
    {
        match self {
            TableColumn::Types(c) => c,
            TableColumn::Performers(c) => c,
            TableColumn::Persons(c) => c,
            TableColumn::Groups(c) => c,
            TableColumn::Albums(c) => c,
            TableColumn::Rolas(c) => c,
            TableColumn::InGroup(c) => c,
        }
    }

    /// The qualified name `<table>.<column>`.
    pub fn to_string(&self) -> (r: String)
        ensures
            r@ == self.qualified_spec(),
    {
        let mut r = String::from_str(self.as_table());
        r.append(".");
        r.append(self.column());
        r
    }

    /// Builds the column `column` of the table named `table`. Both the plural
    /// table name and its singular alias are accepted (`types` and `type`, ...);
    /// `in_group` has no other alias. Any other name is an unknown table.
    pub fn from_str(table: &'a str, column: &'a str) -> (r: Result<TableColumn<'a>, ParseError>)
        ensures
            match parsed_column(table@, column) {
                Some(c) => r == Ok::<TableColumn<'a>, ParseError>(c),
                None => r == Err::<TableColumn<'a>, ParseError>(ParseError::UnknownTable),
            },
    {
        if same_text(table, "types") || same_text(table, "type") {
            Ok(TableColumn::Types(column))
        } else if same_text(table, "performers") || same_text(table, "performer") {
            Ok(TableColumn::Performers(column))
        } else if same_text(table, "persons") || same_text(table, "person") {
            Ok(TableColumn::Persons(column))
        } else if same_text(table, "groups") || same_text(table, "group") {
            Ok(TableColumn::Groups(column))
        } else if same_text(table, "albums") || same_text(table, "album") {
            Ok(TableColumn::Albums(column))
        } else if same_text(table, "rolas") || same_text(table, "rola") {
            Ok(TableColumn::Rolas(column))
        } else if same_text(table, "in_group") {
            Ok(TableColumn::InGroup(column))
        } else {
            Err(ParseError::UnknownTable)
        }
    }
}

/// The column that the table name `table` designates, if it names a table.
pub open spec fn parsed_column<'a>(table: Seq<char>, column: &'a str) -> Option<TableColumn<'a>> {
    if table == "types"@ || table == "type"@ {
        Some(TableColumn::Types(column))
    } else if table == "performers"@ || table == "performer"@ {
        Some(TableColumn::Performers(column))
    } else if table == "persons"@ || table == "person"@ {
        Some(TableColumn::Persons(column))
    } else if table == "groups"@ || table == "group"@ {
        Some(TableColumn::Groups(column))
    } else if table == "albums"@ || table == "album"@ {
        Some(TableColumn::Albums(column))
    } else if table == "rolas"@ || table == "rola"@ {
        Some(TableColumn::Rolas(column))
    } else if table == "in_group"@ {
        Some(TableColumn::InGroup(column))
    } else {
        None
    }
}

} // verus!
