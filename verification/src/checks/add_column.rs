//! Columns added with a default value.
//!
//! Before PostgreSQL 11, `ADD COLUMN ... DEFAULT` rewrites the whole table to
//! fill in the default for the rows that exist, under an ACCESS EXCLUSIVE lock.
//! This rule reports every column that `ALTER TABLE` adds with a `DEFAULT`.

use crate::ast::{AlterOperation, StatementNode};
use crate::checks::{
    alter_table_violations, check_alter_table, nothing, single, Check, OperationRule,
};
use crate::violation::{violation_of, Violation, ViolationView};
use vstd::prelude::*;

verus! {

/// Reports columns that `ALTER TABLE` adds with a `DEFAULT`.
pub struct AddColumnCheck;

/// Why adding `column` with a default to `table` is a problem.
pub open spec fn problem_text(column: Seq<char>, table: Seq<char>) -> Seq<char> {
    "Adding column '"@ + column + "' with DEFAULT on table '"@ + table
    + "' requires a full table rewrite on PostgreSQL < 11, "@
    + "which acquires an ACCESS EXCLUSIVE lock and blocks all operations. "@
    + "Duration depends on table size."@
}

fn build_problem_text(column: &str, table: &str) -> (r: String)
    ensures
        r@ == problem_text(column@, table@),
{
    let mut s = String::from_str("Adding column '");
    s.append(column);
    s.append("' with DEFAULT on table '");
    s.append(table);
    s.append("' requires a full table rewrite on PostgreSQL < 11, ");
    s.append("which acquires an ACCESS EXCLUSIVE lock and blocks all operations. ");
    s.append("Duration depends on table size.");
    s
}

/// How to add the column in steps that do not rewrite the table.
pub open spec fn safe_alternative_text(
    table: Seq<char>,
    column: Seq<char>,
    data_type: Seq<char>,
) -> Seq<char> {
    "1. Add the column without a default:\n"@
    + "   ALTER TABLE "@ + table + " ADD COLUMN "@ + column + " "@ + data_type + ";\n"@
    + "\n"@
    + "2. Backfill data in batches (outside migration):\n"@
    + "   UPDATE "@ + table + " SET "@ + column + " = <value> WHERE "@ + column + " IS NULL;\n"@
    + "\n"@
    + "3. Add default for new rows only:\n"@
    + "   ALTER TABLE "@ + table + " ALTER COLUMN "@ + column + " SET DEFAULT <value>;\n"@
    + "\n"@
    + "Note: For PostgreSQL 11+, this is safe if the default is a constant value."@
}

fn build_safe_alternative_text(table: &str, column: &str, data_type: &str) -> (r: String)
    ensures
        r@ == safe_alternative_text(table@, column@, data_type@),
{
    let mut s = String::from_str("1. Add the column without a default:\n");
    s.append("   ALTER TABLE ");
    s.append(table);
    s.append(" ADD COLUMN ");
    s.append(column);
    s.append(" ");
    s.append(data_type);
    s.append(";\n");
    s.append("\n");
    s.append("2. Backfill data in batches (outside migration):\n");
    s.append("   UPDATE ");
    s.append(table);
    s.append(" SET ");
    s.append(column);
    s.append(" = <value> WHERE ");
    s.append(column);
    s.append(" IS NULL;\n");
    s.append("\n");
    s.append("3. Add default for new rows only:\n");
    s.append("   ALTER TABLE ");
    s.append(table);
    s.append(" ALTER COLUMN ");
    s.append(column);
    s.append(" SET DEFAULT <value>;\n");
    s.append("\n");
    s.append("Note: For PostgreSQL 11+, this is safe if the default is a constant value.");
    s
}

impl OperationRule for AddColumnCheck {
    /// One violation where `op` adds a column that has a `DEFAULT` among its
    /// options, nothing otherwise.
    open spec fn operation_violations(table: Seq<char>, op: AlterOperation) -> Seq<ViolationView> {
        match op {
            AlterOperation::AddColumn { column_def } if column_def.has_default() => seq![
                violation_of(
                    "ADD COLUMN with DEFAULT"@,
                    problem_text(column_def.name@, table),
                    safe_alternative_text(table, column_def.name@, column_def.data_type.text@),
                ),
            ],
            _ => Seq::empty(),
        }
    }

    fn check_operation(table: &str, op: &AlterOperation) -> (found: Vec<Violation>) {
        if let AlterOperation::AddColumn { column_def } = op {
            if column_def.has_default_option() {
                return single(
                    Violation::new(
                        String::from_str("ADD COLUMN with DEFAULT"),
                        build_problem_text(column_def.name.as_str(), table),
                        build_safe_alternative_text(
                            table,
                            column_def.name.as_str(),
                            column_def.data_type.text.as_str(),
                        ),
                    ),
                );
            }
        }
        nothing()
    }
}

impl Check for AddColumnCheck {
    /// One violation for each column that an `ALTER TABLE` statement adds with
    /// a `DEFAULT`, in the order of its operations.
    open spec fn violations(&self, stmt: &StatementNode) -> Seq<ViolationView> {
        alter_table_violations::<Self>(stmt)
    }

    fn check(&self, stmt: &StatementNode) -> (found: Vec<Violation>) {
        check_alter_table::<Self>(stmt)
    }
}

} // verus!
