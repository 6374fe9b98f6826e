//! Columns added with the type `JSON`.
//!
//! The type `json` has no equality operator, so `SELECT DISTINCT`, `GROUP BY`
//! and `UNION` fail on such a column; `jsonb` has one. This rule reports every
//! column that `ALTER TABLE` adds with the type `JSON`.

use crate::ast::{AlterOperation, DataTypeKind, StatementNode};
use crate::checks::{
    alter_table_violations, check_alter_table, nothing, single, Check, OperationRule,
};
use crate::violation::{violation_of, Violation, ViolationView};
use vstd::prelude::*;

verus! {

/// Reports columns that `ALTER TABLE` adds with the type `JSON`.
pub struct AddJsonColumnCheck;

/// Why adding `column` of type `JSON` to `table` is a problem.
pub open spec fn problem_text(column: Seq<char>, table: Seq<char>) -> Seq<char> {
    "Adding column '"@ + column + "' with JSON type on table '"@ + table
    + "' can break existing SELECT DISTINCT queries. The JSON type has no equality operator, "@
    + "causing runtime errors for DISTINCT, GROUP BY, and UNION operations."@
}

fn build_problem_text(column: &str, table: &str) -> (r: String)
    ensures
        r@ == problem_text(column@, table@),
{
    let mut s = String::from_str("Adding column '");
    s.append(column);
    s.append("' with JSON type on table '");
    s.append(table);
    s.append("' can break existing SELECT DISTINCT queries. The JSON type has no equality operator, ");
    s.append("causing runtime errors for DISTINCT, GROUP BY, and UNION operations.");
    s
}

/// The same column with the type `JSONB`.
pub open spec fn safe_alternative_text(table: Seq<char>, column: Seq<char>) -> Seq<char> {
    "Use JSONB instead of JSON:\n"@
    + "\n"@
    + "   ALTER TABLE "@ + table + " ADD COLUMN "@ + column + " JSONB;\n"@
    + "\n"@
    + "Benefits of JSONB over JSON:\n"@
    + "- Has proper equality and comparison operators (supports DISTINCT, GROUP BY, UNION)\n"@
    + "- Supports indexing (GIN indexes for efficient queries)\n"@
    + "- Faster to process (binary format, no reparsing)\n"@
    + "- Generally better performance for most use cases\n"@
    + "\n"@
    + "Note: "@
    + "The only advantage of JSON over JSONB is that it preserves exact formatting and key order,\n"@
    + "which is rarely needed in practice."@
}

fn build_safe_alternative_text(table: &str, column: &str) -> (r: String)
    ensures
        r@ == safe_alternative_text(table@, column@),
{
    let mut s = String::from_str("Use JSONB instead of JSON:\n");
    s.append("\n");
    s.append("   ALTER TABLE ");
    s.append(table);
    s.append(" ADD COLUMN ");
    s.append(column);
    s.append(" JSONB;\n");
    s.append("\n");
    s.append("Benefits of JSONB over JSON:\n");
    s.append("- Has proper equality and comparison operators (supports DISTINCT, GROUP BY, UNION)\n");
    s.append("- Supports indexing (GIN indexes for efficient queries)\n");
    s.append("- Faster to process (binary format, no reparsing)\n");
    s.append("- Generally better performance for most use cases\n");
    s.append("\n");
    s.append("Note: ");
    s.append("The only advantage of JSON over JSONB is that it preserves exact formatting and key order,\n");
    s.append("which is rarely needed in practice.");
    s
}

impl OperationRule for AddJsonColumnCheck {
    /// One violation where `op` adds a column of type `JSON`, nothing
    /// otherwise.
    open spec fn operation_violations(table: Seq<char>, op: AlterOperation) -> Seq<ViolationView> {
        match op {
            AlterOperation::AddColumn { column_def } if column_def.data_type.kind is Json => seq![
                violation_of(
                    "ADD COLUMN with JSON type"@,
                    problem_text(column_def.name@, table),
                    safe_alternative_text(table, column_def.name@),
                ),
            ],
            _ => Seq::empty(),
        }
    }

    fn check_operation(table: &str, op: &AlterOperation) -> (found: Vec<Violation>) {
        if let AlterOperation::AddColumn { column_def } = op {
            if let DataTypeKind::Json = column_def.data_type.kind {
                return single(
                    Violation::new(
                        String::from_str("ADD COLUMN with JSON type"),
                        build_problem_text(column_def.name.as_str(), table),
                        build_safe_alternative_text(table, column_def.name.as_str()),
                    ),
                );
            }
        }
        nothing()
    }
}

impl Check for AddJsonColumnCheck {
    /// One violation for each column of type `JSON` that an `ALTER TABLE`
    /// statement adds, in the order of its operations.
    open spec fn violations(&self, stmt: &StatementNode) -> Seq<ViolationView> {
        alter_table_violations::<Self>(stmt)
    }

    fn check(&self, stmt: &StatementNode) -> (found: Vec<Violation>) {
        check_alter_table::<Self>(stmt)
    }
}

} // verus!
