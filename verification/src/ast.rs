//! The statements that the rules inspect.
//!
//! A [`StatementNode`] holds, as plain values, what the rules read of one
//! parsed SQL statement: which kind of statement it is, the names in it as
//! the parser renders them, and a few flags. What no rule reads is left out.

use vstd::prelude::*;

verus! {

/// Which of the data types that the rules tell apart a column has.
#[derive(Debug)]
pub enum DataTypeKind {
    SmallInt,
    Int,
    Integer,
    Int2,
    Int4,
    Json,
    /// A type that the parser does not know by itself, with its name.
    Custom { name: String },
    Other,
}

/// A column's data type: its kind and its rendering.
#[derive(Debug)]
pub struct ColumnType {
    pub kind: DataTypeKind,
    pub text: String,
}

/// Which of the column options that the rules tell apart an option is.
#[derive(Debug)]
pub enum ColumnOptionKind {
    Default,
    PrimaryKey,
    Other,
}

/// A column definition, as in `ADD COLUMN` or `CREATE TABLE`.
#[derive(Debug)]
pub struct ColumnDefinition {
    pub name: String,
    pub data_type: ColumnType,
    pub options: Vec<ColumnOptionKind>,
}

/// The shape of the expression that an index or a key is built on.
#[derive(Debug)]
pub enum ColumnExpr {
    Identifier { name: String },
    /// A qualified name, one part after the other.
    CompoundIdentifier { parts: Vec<String> },
    Other,
}

/// One column of an index or of a key.
#[derive(Debug)]
pub struct KeyColumn {
    /// The whole column as rendered, with ordering and operator class.
    pub text: String,
    /// The rendering of the expression alone.
    pub expr_text: String,
    pub expr: ColumnExpr,
}

/// A table-level constraint.
#[derive(Debug)]
#[allow(inconsistent_fields)]
pub enum Constraint {
    Unique { name: Option<String>, columns: Vec<KeyColumn> },
    PrimaryKey { name: Option<String>, columns: Vec<KeyColumn> },
    ForeignKey {
        name: Option<String>,
        columns: Vec<String>,
        foreign_table: String,
        referred_columns: Vec<String>,
    },
    Check { name: Option<String>, expr: String },
    Other,
}

/// What `ALTER TABLE ... ALTER COLUMN` does to the column.
#[derive(Debug)]
pub enum ColumnChange {
    SetNotNull,
    SetDataType { data_type: String, using: bool },
    Other,
}

/// One operation of an `ALTER TABLE` statement.
#[derive(Debug)]
pub enum AlterOperation {
    AddColumn { column_def: ColumnDefinition },
    AddConstraint { constraint: Constraint },
    DropColumn { column_names: Vec<String>, if_exists: bool },
    DropConstraint { name: String },
    RenameColumn { old_column_name: String, new_column_name: String },
    RenameTable { table_name: String },
    AlterColumn { column_name: String, op: ColumnChange },
    Other,
}

/// The kinds of statement that the rules tell apart.
#[derive(Debug)]
#[allow(inconsistent_fields)]
pub enum StatementKind {
    AlterTable { name: String, operations: Vec<AlterOperation> },
    CreateIndex {
        name: Option<String>,
        table_name: String,
        unique: bool,
        concurrently: bool,
        columns: Vec<KeyColumn>,
    },
    CreateTable { name: String, columns: Vec<ColumnDefinition>, constraints: Vec<Constraint> },
    Truncate { table_names: Vec<String> },
    CreateExtension { name: String, if_not_exists: bool },
    Other,
}

/// One parsed statement: its kind, and its canonical rendering.
#[derive(Debug)]
pub struct StatementNode {
    pub kind: StatementKind,
    pub text: String,
}


impl ColumnDefinition {
    /// Whether one of the column's options is a `DEFAULT`.
    pub open spec fn has_default(&self) -> bool {
        exists|i: int| 0 <= i < self.options@.len() && self.options@[i] is Default
    }

    /// Whether one of the column's options is `PRIMARY KEY`.
    pub open spec fn is_primary_key(&self) -> bool {
        exists|i: int| 0 <= i < self.options@.len() && self.options@[i] is PrimaryKey
    }

    /// Whether one of the column's options is a `DEFAULT`.
    pub fn has_default_option(&self) -> (r: bool)
        ensures
            r == self.has_default(),
    {
        let mut i: usize = 0;
        while i < self.options.len()
            invariant
                i <= self.options.len(),
                forall|j: int| 0 <= j < i ==> !(self.options@[j] is Default),
            decreases self.options.len() - i,
        {
            if let ColumnOptionKind::Default = self.options[i] {
                return true;
            }
            i = i + 1;
        }
        false
    }

    /// Whether one of the column's options is `PRIMARY KEY`.
    pub fn has_primary_key_option(&self) -> (r: bool)
        ensures
            r == self.is_primary_key(),
    {
        let mut i: usize = 0;
        while i < self.options.len()
            invariant
                i <= self.options.len(),
                forall|j: int| 0 <= j < i ==> !(self.options@[j] is PrimaryKey),
            decreases self.options.len() - i,
        {
            if let ColumnOptionKind::PrimaryKey = self.options[i] {
                return true;
            }
            i = i + 1;
        }
        false
    }
}

} // verus!
