//! `NOT NULL` set on a column that exists.
//!
//! `ALTER COLUMN ... SET NOT NULL` scans the whole table to see that no value
//! is null, under an ACCESS EXCLUSIVE lock. A `CHECK` constraint that is added
//! as `NOT VALID` and validated afterwards does the same work without blocking
//! reads and writes. This rule reports every `SET NOT NULL`.

use crate::ast::{AlterOperation, ColumnChange, StatementNode};
use crate::checks::{
    alter_table_violations, check_alter_table, nothing, single, Check, OperationRule,
};
use crate::violation::{violation_of, Violation, ViolationView};
use vstd::prelude::*;

verus! {

/// Reports `ALTER COLUMN ... SET NOT NULL`.
pub struct AddNotNullCheck;

/// Why setting `column` of `table` to `NOT NULL` is a problem.
pub open spec fn problem_text(column: Seq<char>, table: Seq<char>) -> Seq<char> {
    "Adding NOT NULL constraint to column '"@ + column + "' on table '"@ + table
    + "' requires a full table scan to verify all values are non-null, "@
    + "acquiring an ACCESS EXCLUSIVE lock and blocking all operations. "@
    + "Duration depends on table size."@
}

fn build_problem_text(column: &str, table: &str) -> (r: String)
    ensures
        r@ == problem_text(column@, table@),
{
    let mut s = String::from_str("Adding NOT NULL constraint to column '");
    s.append(column);
    s.append("' on table '");
    s.append(table);
    s.append("' requires a full table scan to verify all values are non-null, ");
    s.append("acquiring an ACCESS EXCLUSIVE lock and blocking all operations. ");
    s.append("Duration depends on table size.");
    s
}

/// How to reach `NOT NULL` by way of a validated `CHECK` constraint.
pub open spec fn safe_alternative_text(table: Seq<char>, column: Seq<char>) -> Seq<char> {
    "For safer constraint addition on large tables:\n"@
    + "\n"@
    + "1. Add a CHECK constraint without validating existing rows:\n"@
    + "   ALTER TABLE "@ + table + " ADD CONSTRAINT "@ + column + "_not_null CHECK ("@ + column + " IS NOT NULL) NOT VALID;\n"@
    + "\n"@
    + "2. Validate the constraint separately (uses SHARE UPDATE EXCLUSIVE lock):\n"@
    + "   ALTER TABLE "@ + table + " VALIDATE CONSTRAINT "@ + column + "_not_null;\n"@
    + "\n"@
    + "3. Add the NOT NULL constraint (instant if CHECK constraint exists):\n"@
    + "   ALTER TABLE "@ + table + " ALTER COLUMN "@ + column + " SET NOT NULL;\n"@
    + "\n"@
    + "4. Optionally drop the redundant CHECK constraint:\n"@
    + "   ALTER TABLE "@ + table + " DROP CONSTRAINT "@ + column + "_not_null;\n"@
    + "\n"@
    + "Note: The VALIDATE step allows concurrent reads and writes, "@
    + "only blocking other schema changes. On PostgreSQL 12+, "@
    + "NOT NULL constraints are more efficient, "@
    + "but the CHECK approach still provides better control over large migrations."@
}

fn build_safe_alternative_text(table: &str, column: &str) -> (r: String)
    ensures
        r@ == safe_alternative_text(table@, column@),
{
    let mut s = String::from_str("For safer constraint addition on large tables:\n");
    s.append("\n");
    s.append("1. Add a CHECK constraint without validating existing rows:\n");
    s.append("   ALTER TABLE ");
    s.append(table);
    s.append(" ADD CONSTRAINT ");
    s.append(column);
    s.append("_not_null CHECK (");
    s.append(column);
    s.append(" IS NOT NULL) NOT VALID;\n");
    s.append("\n");
    s.append("2. Validate the constraint separately (uses SHARE UPDATE EXCLUSIVE lock):\n");
    s.append("   ALTER TABLE ");
    s.append(table);
    s.append(" VALIDATE CONSTRAINT ");
    s.append(column);
    s.append("_not_null;\n");
    s.append("\n");
    s.append("3. Add the NOT NULL constraint (instant if CHECK constraint exists):\n");
    s.append("   ALTER TABLE ");
    s.append(table);
    s.append(" ALTER COLUMN ");
    s.append(column);
    s.append(" SET NOT NULL;\n");
    s.append("\n");
    s.append("4. Optionally drop the redundant CHECK constraint:\n");
    s.append("   ALTER TABLE ");
    s.append(table);
    s.append(" DROP CONSTRAINT ");
    s.append(column);
    s.append("_not_null;\n");
    s.append("\n");
    s.append("Note: The VALIDATE step allows concurrent reads and writes, ");
    s.append("only blocking other schema changes. On PostgreSQL 12+, ");
    s.append("NOT NULL constraints are more efficient, ");
    s.append("but the CHECK approach still provides better control over large migrations.");
    s
}

impl OperationRule for AddNotNullCheck {
    /// One violation where `op` sets a column `NOT NULL`, nothing otherwise.
    open spec fn operation_violations(table: Seq<char>, op: AlterOperation) -> Seq<ViolationView> {
        match op {
            AlterOperation::AlterColumn { column_name, op: ColumnChange::SetNotNull } => seq![
                violation_of(
                    "ADD NOT NULL constraint"@,
                    problem_text(column_name@, table),
                    safe_alternative_text(table, column_name@),
                ),
            ],
            _ => Seq::empty(),
        }
    }

    fn check_operation(table: &str, op: &AlterOperation) -> (found: Vec<Violation>) {
        if let AlterOperation::AlterColumn { column_name, op: ColumnChange::SetNotNull } = op {
            return single(
                Violation::new(
                    String::from_str("ADD NOT NULL constraint"),
                    build_problem_text(column_name.as_str(), table),
                    build_safe_alternative_text(table, column_name.as_str()),
                ),
            );
        }
        nothing()
    }
}

impl Check for AddNotNullCheck {
    /// One violation for each `SET NOT NULL` of an `ALTER TABLE` statement, in
    /// the order of its operations.
    open spec fn violations(&self, stmt: &StatementNode) -> Seq<ViolationView> {
        alter_table_violations::<Self>(stmt)
    }

    fn check(&self, stmt: &StatementNode) -> (found: Vec<Violation>) {
        check_alter_table::<Self>(stmt)
    }
}

} // verus!
