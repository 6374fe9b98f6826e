//! Primary keys added to a table that exists.
//!
//! `ALTER TABLE ... ADD PRIMARY KEY` builds a unique index and checks every
//! row, all under an ACCESS EXCLUSIVE lock. Building the index first with
//! `CREATE UNIQUE INDEX CONCURRENTLY` and then adding the key `USING INDEX`
//! keeps the table usable. This rule reports every primary key that `ALTER
//! TABLE` adds.

use crate::ast::{AlterOperation, Constraint, StatementNode};
use crate::checks::{
    alter_table_violations, check_alter_table, display_or_default, expr_texts, join_expr_texts,
    nothing, option_view, single, text_or_default, Check, OperationRule,
};
use crate::text::joined;
use crate::violation::{violation_of, Violation, ViolationView};
use vstd::prelude::*;

verus! {

/// Reports primary keys that `ALTER TABLE` adds.
pub struct AddPrimaryKeyCheck;

/// Why adding the primary key `constraint` on `columns` of `table` is a problem.
pub open spec fn problem_text(
    constraint: Seq<char>,
    table: Seq<char>,
    columns: Seq<char>,
) -> Seq<char> {
    "Adding PRIMARY KEY constraint '"@ + constraint + "' on table '"@ + table + "' ("@ + columns
    + ") via ALTER TABLE acquires an ACCESS EXCLUSIVE lock, blocking all reads and writes. "@
    + "This also implicitly creates a unique index (blocking operation) and validates all rows for uniqueness."@
}

fn build_problem_text(constraint: &str, table: &str, columns: &str) -> (r: String)
    ensures
        r@ == problem_text(constraint@, table@, columns@),
{
    let mut s = String::from_str("Adding PRIMARY KEY constraint '");
    s.append(constraint);
    s.append("' on table '");
    s.append(table);
    s.append("' (");
    s.append(columns);
    s.append(") via ALTER TABLE acquires an ACCESS EXCLUSIVE lock, blocking all reads and writes. ");
    s.append("This also implicitly creates a unique index (blocking operation) and validates all rows for uniqueness.");
    s
}

/// How to add the key on top of an index that was built concurrently.
pub open spec fn safe_alternative_text(
    index_name: Seq<char>,
    table: Seq<char>,
    columns: Seq<char>,
    constraint_name: Seq<char>,
) -> Seq<char> {
    "Use CREATE UNIQUE INDEX CONCURRENTLY first, then add the constraint:\n"@
    + "\n"@
    + "1. Create the unique index concurrently (no blocking):\n"@
    + "   CREATE UNIQUE INDEX CONCURRENTLY "@ + index_name + " ON "@ + table + " ("@ + columns + ");\n"@
    + "\n"@
    + "2. Add PRIMARY KEY constraint using the existing index (fast, minimal blocking):\n"@
    + "   ALTER TABLE "@ + table + " ADD CONSTRAINT "@ + constraint_name + " PRIMARY KEY USING INDEX "@ + index_name + ";\n"@
    + "\n"@
    + "Benefits:\n"@
    + "- Table remains readable and writable during index creation\n"@
    + "- No blocking of SELECT, INSERT, UPDATE, or DELETE operations\n"@
    + "- Index creation can be canceled if needed\n"@
    + "- Safe for production deployments on large tables\n"@
    + "\n"@
    + "Considerations:\n"@
    + "- Requires PostgreSQL 11+ for PRIMARY KEY USING INDEX\n"@
    + "- Cannot run CONCURRENTLY inside a transaction block (requires metadata.toml with run_in_transaction = false)\n"@
    + "- Takes longer than non-concurrent creation\n"@
    + "- May fail if duplicate or NULL values exist (leaves behind invalid index that should be dropped)\n"@
    + "\n"@
    + "Note: "@
    + "Ensure all columns in the primary key have NOT NULL constraints before creating the index."@
}

fn build_safe_alternative_text(
    index_name: &str,
    table: &str,
    columns: &str,
    constraint_name: &str,
) -> (r: String)
    ensures
        r@ == safe_alternative_text(index_name@, table@, columns@, constraint_name@),
{
    let mut s = String::from_str("Use CREATE UNIQUE INDEX CONCURRENTLY first, then add the constraint:\n");
    s.append("\n");
    s.append("1. Create the unique index concurrently (no blocking):\n");
    s.append("   CREATE UNIQUE INDEX CONCURRENTLY ");
    s.append(index_name);
    s.append(" ON ");
    s.append(table);
    s.append(" (");
    s.append(columns);
    s.append(");\n");
    s.append("\n");
    s.append("2. Add PRIMARY KEY constraint using the existing index (fast, minimal blocking):\n");
    s.append("   ALTER TABLE ");
    s.append(table);
    s.append(" ADD CONSTRAINT ");
    s.append(constraint_name);
    s.append(" PRIMARY KEY USING INDEX ");
    s.append(index_name);
    s.append(";\n");
    s.append("\n");
    s.append("Benefits:\n");
    s.append("- Table remains readable and writable during index creation\n");
    s.append("- No blocking of SELECT, INSERT, UPDATE, or DELETE operations\n");
    s.append("- Index creation can be canceled if needed\n");
    s.append("- Safe for production deployments on large tables\n");
    s.append("\n");
    s.append("Considerations:\n");
    s.append("- Requires PostgreSQL 11+ for PRIMARY KEY USING INDEX\n");
    s.append("- Cannot run CONCURRENTLY inside a transaction block (requires metadata.toml with run_in_transaction = false)\n");
    s.append("- Takes longer than non-concurrent creation\n");
    s.append("- May fail if duplicate or NULL values exist (leaves behind invalid index that should be dropped)\n");
    s.append("\n");
    s.append("Note: ");
    s.append("Ensure all columns in the primary key have NOT NULL constraints before creating the index.");
    s
}

impl OperationRule for AddPrimaryKeyCheck {
    /// One violation where `op` adds a primary-key constraint, nothing
    /// otherwise. An unnamed key is spoken of as `<table>_pkey`, which is also
    /// the index name that is suggested.
    open spec fn operation_violations(table: Seq<char>, op: AlterOperation) -> Seq<ViolationView> {
        match op {
            AlterOperation::AddConstraint { constraint: Constraint::PrimaryKey { name, columns } } => {
                let index_name = table + "_pkey"@;
                let constraint_name = text_or_default(option_view(name), index_name);
                let cols = joined(expr_texts(columns@), ", "@);
                seq![
                    violation_of(
                        "ADD PRIMARY KEY"@,
                        problem_text(constraint_name, table, cols),
                        safe_alternative_text(index_name, table, cols, constraint_name),
                    ),
                ]
            },
            _ => Seq::empty(),
        }
    }

    fn check_operation(table: &str, op: &AlterOperation) -> (found: Vec<Violation>) {
        if let AlterOperation::AddConstraint {
            constraint: Constraint::PrimaryKey { name, columns },
        } = op {
            let index_name = String::from_str(table).concat("_pkey");
            let constraint_name = display_or_default(name.as_ref(), index_name.as_str());
            let cols = join_expr_texts(columns);
            return single(
                Violation::new(
                    String::from_str("ADD PRIMARY KEY"),
                    build_problem_text(constraint_name.as_str(), table, cols.as_str()),
                    build_safe_alternative_text(
                        index_name.as_str(),
                        table,
                        cols.as_str(),
                        constraint_name.as_str(),
                    ),
                ),
            );
        }
        nothing()
    }
}

impl Check for AddPrimaryKeyCheck {
    /// One violation for each primary key that an `ALTER TABLE` statement adds,
    /// in the order of its operations.
    open spec fn violations(&self, stmt: &StatementNode) -> Seq<ViolationView> {
        alter_table_violations::<Self>(stmt)
    }

    fn check(&self, stmt: &StatementNode) -> (found: Vec<Violation>) {
        check_alter_table::<Self>(stmt)
    }
}

} // verus!
