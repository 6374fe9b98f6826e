//! Unique constraints added to a table that exists.
//!
//! `ALTER TABLE ... ADD UNIQUE` builds its index under an ACCESS EXCLUSIVE
//! lock, which blocks reads as well as writes. `CREATE UNIQUE INDEX
//! CONCURRENTLY` builds the same index without blocking either. This rule
//! reports every unique constraint that `ALTER TABLE` adds.

use crate::ast::{AlterOperation, Constraint, StatementNode};
use crate::checks::{
    alter_table_violations, check_alter_table, display_or_default, expr_texts, join_expr_texts,
    nothing, option_view, single, text_or_default, Check, OperationRule,
};
use crate::text::joined;
use crate::violation::{violation_of, Violation, ViolationView};
use vstd::prelude::*;

verus! {

/// Reports unique constraints that `ALTER TABLE` adds.
pub struct AddUniqueConstraintCheck;

/// Why adding the unique constraint `constraint` on `columns` of `table` is a problem.
pub open spec fn problem_text(
    constraint: Seq<char>,
    table: Seq<char>,
    columns: Seq<char>,
) -> Seq<char> {
    "Adding UNIQUE constraint '"@ + constraint + "' on table '"@ + table + "' ("@ + columns
    + ") via ALTER TABLE acquires an ACCESS EXCLUSIVE lock, "@
    + "blocking all reads and writes during index creation. Duration depends on table size."@
}

fn build_problem_text(constraint: &str, table: &str, columns: &str) -> (r: String)
    ensures
        r@ == problem_text(constraint@, table@, columns@),
{
    let mut s = String::from_str("Adding UNIQUE constraint '");
    s.append(constraint);
    s.append("' on table '");
    s.append(table);
    s.append("' (");
    s.append(columns);
    s.append(") via ALTER TABLE acquires an ACCESS EXCLUSIVE lock, ");
    s.append("blocking all reads and writes during index creation. Duration depends on table size.");
    s
}

/// How to build the index concurrently and attach the constraint to it.
pub open spec fn safe_alternative_text(
    index_name: Seq<char>,
    table: Seq<char>,
    columns: Seq<char>,
    constraint_name: Seq<char>,
) -> Seq<char> {
    "Use CREATE UNIQUE INDEX CONCURRENTLY instead:\n"@
    + "\n"@
    + "1. Create the unique index concurrently:\n"@
    + "   CREATE UNIQUE INDEX CONCURRENTLY "@ + index_name + " ON "@ + table + " ("@ + columns + ");\n"@
    + "\n"@
    + "2. (Optional) Add constraint using the existing index:\n"@
    + "   ALTER TABLE "@ + table + " ADD CONSTRAINT "@ + constraint_name + " UNIQUE USING INDEX "@ + index_name + ";\n"@
    + "\n"@
    + "Benefits:\n"@
    + "- Table remains readable and writable during index creation\n"@
    + "- No blocking of SELECT, INSERT, UPDATE, or DELETE operations\n"@
    + "- Safe for production deployments on large tables\n"@
    + "\n"@
    + "Considerations:\n"@
    + "- Cannot run inside a transaction block (requires metadata.toml with run_in_transaction = false)\n"@
    + "- Takes longer than non-concurrent creation\n"@
    + "- May fail if duplicate values exist (leaves behind invalid index that should be dropped)"@
}

fn build_safe_alternative_text(
    index_name: &str,
    table: &str,
    columns: &str,
    constraint_name: &str,
) -> (r: String)
    ensures
        r@ == safe_alternative_text(index_name@, table@, columns@, constraint_name@),
{
    let mut s = String::from_str("Use CREATE UNIQUE INDEX CONCURRENTLY instead:\n");
    s.append("\n");
    s.append("1. Create the unique index concurrently:\n");
    s.append("   CREATE UNIQUE INDEX CONCURRENTLY ");
    s.append(index_name);
    s.append(" ON ");
    s.append(table);
    s.append(" (");
    s.append(columns);
    s.append(");\n");
    s.append("\n");
    s.append("2. (Optional) Add constraint using the existing index:\n");
    s.append("   ALTER TABLE ");
    s.append(table);
    s.append(" ADD CONSTRAINT ");
    s.append(constraint_name);
    s.append(" UNIQUE USING INDEX ");
    s.append(index_name);
    s.append(";\n");
    s.append("\n");
    s.append("Benefits:\n");
    s.append("- Table remains readable and writable during index creation\n");
    s.append("- No blocking of SELECT, INSERT, UPDATE, or DELETE operations\n");
    s.append("- Safe for production deployments on large tables\n");
    s.append("\n");
    s.append("Considerations:\n");
    s.append("- Cannot run inside a transaction block (requires metadata.toml with run_in_transaction = false)\n");
    s.append("- Takes longer than non-concurrent creation\n");
    s.append("- May fail if duplicate values exist (leaves behind invalid index that should be dropped)");
    s
}

impl OperationRule for AddUniqueConstraintCheck {
    /// One violation where `op` adds a unique constraint, nothing otherwise. An
    /// unnamed constraint is spoken of as `<unnamed>`; the names suggested for
    /// its index and for itself are then made from the table's name.
    open spec fn operation_violations(table: Seq<char>, op: AlterOperation) -> Seq<ViolationView> {
        match op {
            AlterOperation::AddConstraint { constraint: Constraint::Unique { name, columns } } => {
                let cols = joined(expr_texts(columns@), ", "@);
                seq![
                    violation_of(
                        "ADD UNIQUE constraint"@,
                        problem_text(text_or_default(option_view(name), "<unnamed>"@), table, cols),
                        safe_alternative_text(
                            text_or_default(option_view(name), table + "_unique_idx"@),
                            table,
                            cols,
                            text_or_default(option_view(name), table + "_unique_constraint"@),
                        ),
                    ),
                ]
            },
            _ => Seq::empty(),
        }
    }

    fn check_operation(table: &str, op: &AlterOperation) -> (found: Vec<Violation>) {
        if let AlterOperation::AddConstraint { constraint: Constraint::Unique { name, columns } } = op {
            let constraint_name = display_or_default(name.as_ref(), "<unnamed>");
            let cols = join_expr_texts(columns);
            let default_index = String::from_str(table).concat("_unique_idx");
            let index_name = display_or_default(name.as_ref(), default_index.as_str());
            let default_name = String::from_str(table).concat("_unique_constraint");
            let suggested_name = display_or_default(name.as_ref(), default_name.as_str());
            return single(
                Violation::new(
                    String::from_str("ADD UNIQUE constraint"),
                    build_problem_text(constraint_name.as_str(), table, cols.as_str()),
                    build_safe_alternative_text(
                        index_name.as_str(),
                        table,
                        cols.as_str(),
                        suggested_name.as_str(),
                    ),
                ),
            );
        }
        nothing()
    }
}

impl Check for AddUniqueConstraintCheck {
    /// One violation for each unique constraint that an `ALTER TABLE` statement
    /// adds, in the order of its operations.
    open spec fn violations(&self, stmt: &StatementNode) -> Seq<ViolationView> {
        alter_table_violations::<Self>(stmt)
    }

    fn check(&self, stmt: &StatementNode) -> (found: Vec<Violation>) {
        check_alter_table::<Self>(stmt)
    }
}

} // verus!
