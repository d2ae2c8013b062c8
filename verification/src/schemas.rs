use vstd::prelude::*;
use crate::strings::{owned, str_eq};

verus! {

/// The column types a table can use.
#[derive(Debug, Clone, Copy, PartialEq, Eq, Structural)]
pub enum DataType {
    TEXT,
    INTEGER,
    TIMESTAMP,
    BOOLEAN,
}

/// The name that PostgreSQL's `information_schema.columns.data_type` gives a type.
pub open spec fn spec_information_schema_name(d: DataType) -> Seq<char> {
    match d {
        DataType::TEXT => "text"@,
        DataType::INTEGER => "integer"@,
        DataType::TIMESTAMP => "timestamp without time zone"@,
        DataType::BOOLEAN => "boolean"@,
    }
}

/// The name under which a type is written in SQL statements.
pub open spec fn spec_sql_name(d: DataType) -> Seq<char> {
    match d {
        DataType::TEXT => "TEXT"@,
        DataType::INTEGER => "INTEGER"@,
        DataType::TIMESTAMP => "TIMESTAMP"@,
        DataType::BOOLEAN => "BOOLEAN"@,
    }
}

/// Whether `s` names one of the supported types in `information_schema`.
pub open spec fn is_datatype_name(s: Seq<char>) -> bool {
    exists|d: DataType| spec_information_schema_name(d) == s
}

impl Default for DataType {
    fn default() -> (res: Self)
        ensures
            res == DataType::TEXT,
    {
        DataType::TEXT
    }
}

impl DataType {
    /// Reads the type of a column as `information_schema` reports it.
    pub fn to_datatype(value: String) -> (res: Self)
        requires
            is_datatype_name(value@),
        ensures
            spec_information_schema_name(res) == value@,
    {
        proof {
            reveal_strlit("text");
            reveal_strlit("integer");
            reveal_strlit("timestamp without time zone");
            reveal_strlit("boolean");
        }
        if str_eq(value.as_str(), "text") {
            DataType::TEXT
        } else if str_eq(value.as_str(), "integer") {
            DataType::INTEGER
        } else if str_eq(value.as_str(), "timestamp without time zone") {
            DataType::TIMESTAMP
        } else {
            proof {
                let d = choose|d: DataType| spec_information_schema_name(d) == value@;
                assert(d == DataType::BOOLEAN);
            }
            DataType::BOOLEAN
        }
    }

    /// The name of the type in SQL statements, as the type is displayed.
    pub fn sql_name(&self) -> (res: String)
        ensures
            res@ == spec_sql_name(*self),
    {
        proof {
            reveal_strlit("TEXT");
            reveal_strlit("INTEGER");
            reveal_strlit("TIMESTAMP");
            reveal_strlit("BOOLEAN");
        }
        match self {
            DataType::TEXT => owned("TEXT"),
            DataType::INTEGER => owned("INTEGER"),
            DataType::TIMESTAMP => owned("TIMESTAMP"),
            DataType::BOOLEAN => owned("BOOLEAN"),
        }
    }
}

/// A constraint on a column.
#[derive(Debug, Clone, PartialEq)]
pub enum Constraint {
    /// The column refers to a column of another table: (table, column).
    ForeignKey(String, String),
    PrimaryKey,
}

/// The text a constraint is displayed as.
pub open spec fn spec_constraint_text(c: Constraint) -> Seq<char> {
    match c {
        Constraint::ForeignKey(t, col) => "REFERENCES "@ + t@ + "("@ + col@ + ")"@,
        Constraint::PrimaryKey => "PRIMARY KEY"@,
    }
}

/// Whether a row of `information_schema` describes a constraint that can be read.
pub open spec fn is_constraint_row(
    constraint_type: Seq<char>,
    referenced_table: Option<String>,
    referenced_column: Option<String>,
) -> bool {
    ||| constraint_type == "PRIMARY KEY"@
    ||| (constraint_type == "FOREIGN KEY"@ && referenced_table is Some && referenced_column is Some)
}

/// The constraint that a row of `information_schema` describes.
pub open spec fn spec_to_constraint(
    constraint_type: Seq<char>,
    referenced_table: Option<String>,
    referenced_column: Option<String>,
) -> Constraint {
    if constraint_type == "PRIMARY KEY"@ {
        Constraint::PrimaryKey
    } else {
        Constraint::ForeignKey(referenced_table.unwrap(), referenced_column.unwrap())
    }
}

impl Constraint {
    /// Reads a constraint from the type `information_schema` gives it and,
    /// for a foreign key, the table and column it refers to.
    pub fn to_constraint(
        constraint_type: String,
        referenced_table: Option<String>,
        referenced_column: Option<String>,
    ) -> (res: Self)
        requires
            is_constraint_row(constraint_type@, referenced_table, referenced_column),
        ensures
            res == spec_to_constraint(constraint_type@, referenced_table, referenced_column),
    {
        proof {
            reveal_strlit("PRIMARY KEY");
            reveal_strlit("FOREIGN KEY");
        }
        if str_eq(constraint_type.as_str(), "PRIMARY KEY") {
            Constraint::PrimaryKey
        } else {
            Constraint::ForeignKey(referenced_table.unwrap(), referenced_column.unwrap())
        }
    }

    /// The text of the constraint as it is displayed.
    pub fn to_text(&self) -> (res: String)
        ensures
            res@ == spec_constraint_text(*self),
    {
        match self {
            Constraint::ForeignKey(t, c) => {
                let mut s = owned("REFERENCES ");
                s.append(t.as_str());
                s.append("(");
                s.append(c.as_str());
                s.append(")");
                s
            },
            Constraint::PrimaryKey => owned("PRIMARY KEY"),
        }
    }

    /// A copy of the constraint.
    pub fn duplicate(&self) -> (res: Self)
        ensures
            res == *self,
    {
        match self {
            Constraint::ForeignKey(t, c) => Constraint::ForeignKey(t.clone(), c.clone()),
            Constraint::PrimaryKey => Constraint::PrimaryKey,
        }
    }
}

/// A column of a table: its name, type and constraints.
#[derive(Debug, Clone, PartialEq)]
pub struct Column {
    pub name: String,
    pub datatype: DataType,
    pub constraints: Vec<Constraint>,
}

/// One column as `information_schema` describes it; the three constraint
/// lists run side by side, one entry per constraint.
#[derive(Debug, Clone, PartialEq)]
pub struct ColumnsInfo {
    pub column_name: String,
    pub data_type: String,
    pub constraint_types: Vec<String>,
    pub referenced_tables: Vec<Option<String>>,
    pub referenced_columns: Vec<Option<String>>,
}

/// The number of constraint rows of a column description: the three lists
/// are read side by side and stop with the shortest.
pub open spec fn constraint_row_count(info: ColumnsInfo) -> int {
    let a = info.constraint_types@.len() as int;
    let b = info.referenced_tables@.len() as int;
    let c = info.referenced_columns@.len() as int;
    if a <= b && a <= c {
        a
    } else if b <= c {
        b
    } else {
        c
    }
}

/// Whether a column description can be read as a column.
pub open spec fn is_readable_column_info(info: ColumnsInfo) -> bool {
    &&& is_datatype_name(info.data_type@)
    &&& forall|i: int|
        0 <= i < constraint_row_count(info) ==> #[trigger] is_constraint_row(
            info.constraint_types@[i]@,
            info.referenced_tables@[i],
            info.referenced_columns@[i],
        )
}

/// The constraints that a column description lists.
pub open spec fn spec_info_constraints(info: ColumnsInfo) -> Seq<Constraint> {
    Seq::new(
        constraint_row_count(info) as nat,
        |i: int|
            spec_to_constraint(
                info.constraint_types@[i]@,
                info.referenced_tables@[i],
                info.referenced_columns@[i],
            ),
    )
}

/// A copy of an optional string.
fn duplicate_option(s: &Option<String>) -> (res: Option<String>)
    ensures
        res == *s,
{
    match s {
        Some(v) => Some(v.clone()),
        None => None,
    }
}

impl DataType {
    /// Whether `value` names one of the supported types in `information_schema`.
    pub fn is_information_schema_name(value: &str) -> (res: bool)
        ensures
            res == is_datatype_name(value@),
    {
        proof {
            reveal_strlit("text");
            reveal_strlit("integer");
            reveal_strlit("timestamp without time zone");
            reveal_strlit("boolean");
        }
        let known = str_eq(value, "text") || str_eq(value, "integer") || str_eq(
            value,
            "timestamp without time zone",
        ) || str_eq(value, "boolean");
        proof {
            if known {
                if value@ == "text"@ {
                    assert(spec_information_schema_name(DataType::TEXT) == value@);
                } else if value@ == "integer"@ {
                    assert(spec_information_schema_name(DataType::INTEGER) == value@);
                } else if value@ == "timestamp without time zone"@ {
                    assert(spec_information_schema_name(DataType::TIMESTAMP) == value@);
                } else {
                    assert(spec_information_schema_name(DataType::BOOLEAN) == value@);
                }
            } else {
                assert forall|d: DataType| spec_information_schema_name(d) != value@ by {
                    match d {
                        DataType::TEXT => {},
                        DataType::INTEGER => {},
                        DataType::TIMESTAMP => {},
                        DataType::BOOLEAN => {},
                    }
                }
            }
        }
        known
    }
}

impl Constraint {
    /// Whether a constraint row of `information_schema` describes a
    /// supported constraint.
    pub fn is_readable_row(
        constraint_type: &str,
        referenced_table: &Option<String>,
        referenced_column: &Option<String>,
    ) -> (res: bool)
        ensures
            res == is_constraint_row(constraint_type@, *referenced_table, *referenced_column),
    {
        proof {
            reveal_strlit("PRIMARY KEY");
            reveal_strlit("FOREIGN KEY");
        }
        str_eq(constraint_type, "PRIMARY KEY") || (str_eq(constraint_type, "FOREIGN KEY")
            && referenced_table.is_some() && referenced_column.is_some())
    }
}

impl ColumnsInfo {
    /// Whether the description can be read as a column: its type is
    /// supported and each of its constraint rows describes a supported
    /// constraint.
    pub fn is_readable(&self) -> (res: bool)
        ensures
            res == is_readable_column_info(*self),
    {
        let n1 = self.constraint_types.len();
        let n2 = self.referenced_tables.len();
        let n3 = self.referenced_columns.len();
        let n = if n1 <= n2 && n1 <= n3 {
            n1
        } else if n2 <= n3 {
            n2
        } else {
            n3
        };
        if !DataType::is_information_schema_name(self.data_type.as_str()) {
            return false;
        }
        let mut i: usize = 0;
        while i < n
            invariant
                n == constraint_row_count(*self),
                i <= n,
                forall|j: int|
                    0 <= j < i ==> #[trigger] is_constraint_row(
                        self.constraint_types@[j]@,
                        self.referenced_tables@[j],
                        self.referenced_columns@[j],
                    ),
            decreases n - i,
        {
            if !Constraint::is_readable_row(
                self.constraint_types[i].as_str(),
                &self.referenced_tables[i],
                &self.referenced_columns[i],
            ) {
                return false;
            }
            i = i + 1;
        }
        true
    }
}

impl Column {
    /// Builds a column from its description in `information_schema`.
    pub fn to_column(column_info: ColumnsInfo) -> (res: Self)
        requires
            is_readable_column_info(column_info),
        ensures
            res.name == column_info.column_name,
            spec_information_schema_name(res.datatype) == column_info.data_type@,
            res.constraints@ == spec_info_constraints(column_info),
    {
        let n1 = column_info.constraint_types.len();
        let n2 = column_info.referenced_tables.len();
        let n3 = column_info.referenced_columns.len();
        let n = if n1 <= n2 && n1 <= n3 {
            n1
        } else if n2 <= n3 {
            n2
        } else {
            n3
        };
        let mut constraints: Vec<Constraint> = Vec::new();
        let mut i: usize = 0;
        while i < n
            invariant
                n == constraint_row_count(column_info),
                n <= column_info.constraint_types@.len(),
                n <= column_info.referenced_tables@.len(),
                n <= column_info.referenced_columns@.len(),
                is_readable_column_info(column_info),
                i <= n,
                constraints@.len() == i,
                forall|j: int| 0 <= j < i ==> constraints@[j] == spec_info_constraints(column_info)[j],
            decreases n - i,
        {
            let t = column_info.constraint_types[i].clone();
            let rt = duplicate_option(&column_info.referenced_tables[i]);
            let rc = duplicate_option(&column_info.referenced_columns[i]);
            assert(is_constraint_row(
                column_info.constraint_types@[i as int]@,
                column_info.referenced_tables@[i as int],
                column_info.referenced_columns@[i as int],
            ));
            constraints.push(Constraint::to_constraint(t, rt, rc));
            i = i + 1;
        }
        assert(constraints@ =~= spec_info_constraints(column_info));
        let datatype = DataType::to_datatype(column_info.data_type);
        Column { name: column_info.column_name, datatype, constraints }
    }

    /// A copy of the column.
    pub fn duplicate(&self) -> (res: Self)
        ensures
            res.name == self.name,
            res.datatype == self.datatype,
            res.constraints@ == self.constraints@,
    {
        let mut constraints: Vec<Constraint> = Vec::new();
        let mut i: usize = 0;
        while i < self.constraints.len()
            invariant
                i <= self.constraints@.len(),
                constraints@ == self.constraints@.subrange(0, i as int),
            decreases self.constraints@.len() - i,
        {
            constraints.push(self.constraints[i].duplicate());
            i = i + 1;
            assert(constraints@ =~= self.constraints@.subrange(0, i as int));
        }
        assert(self.constraints@.subrange(0, self.constraints@.len() as int) =~= self.constraints@);
        assert(constraints@ =~= self.constraints@);
        Column { name: self.name.clone(), datatype: self.datatype, constraints }
    }
}

impl Default for Column {
    fn default() -> (res: Self)
        ensures
            res.name@ == Seq::<char>::empty(),
            res.datatype == DataType::TEXT,
            res.constraints@ == Seq::<Constraint>::empty(),
    {
        Column { name: String::new(), datatype: DataType::TEXT, constraints: Vec::new() }
    }
}

/// The foreign key of a column: the table and column it refers to.
#[derive(Debug, Clone, PartialEq)]
pub struct ColumnForeignKey {
    pub column_name: String,
    pub referenced_table: String,
    pub referenced_column: String,
}

/// A table to create: its name and columns.
#[derive(Debug, Clone, PartialEq)]
pub struct TableIn {
    pub table_name: String,
    pub columns: Vec<Column>,
}

impl Default for TableIn {
    fn default() -> (res: Self)
        ensures
            res.table_name@ == Seq::<char>::empty(),
            res.columns@ == Seq::<Column>::empty(),
    {
        TableIn { table_name: String::new(), columns: Vec::new() }
    }
}

/// One pending change to the schema of a table.
#[derive(Debug, Clone, PartialEq)]
pub enum TableChangeEvents {
    ChangeTableName(String),
    ChangeColumnDataType(String, DataType),
    /// (current name, new name)
    ChangeColumnName(String, String),
    AddColumn(String, DataType),
    RemoveColumn(String),
    AddForeignKey(ColumnForeignKey),
    RemoveForeignKey(String),
    AddPrimaryKey(String),
    RemovePrimaryKey(String),
}

/// A table of the database, by name.
#[derive(Debug, Clone, PartialEq)]
pub struct Table {
    pub table_name: String,
}

/// The names and types of the columns of a table.
#[derive(Debug, Clone, PartialEq)]
pub struct TableGeneralInfo {
    pub table_name: String,
    pub column_names: Vec<String>,
    pub data_types: Vec<DataType>,
}

/// The rows of a table, each cell as text.
#[derive(Debug, Clone, PartialEq)]
pub struct TableInsertedData {
    pub table_name: String,
    pub column_names: Vec<String>,
    pub data_types: Vec<DataType>,
    pub rows: Vec<Vec<String>>,
}

/// A new value for one cell, by row.
#[derive(Debug, Clone, PartialEq)]
pub struct TableDataChangeEventsByRowIndex {
    pub row_index: usize,
    pub new_value: String,
}

} // verus!
