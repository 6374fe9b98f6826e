//! Columns dropped.
//!
//! `DROP COLUMN` takes an ACCESS EXCLUSIVE lock and, on many versions of
//! PostgreSQL, rewrites the table. There is no concurrent form of it; what
//! helps is to stop using the column first and to drop it in a later migration.
//! This rule reports every column that `ALTER TABLE` drops.

use crate::ast::{AlterOperation, StatementNode};
use crate::checks::{
    alter_table_violations, check_alter_table, if_exists_clause, lemma_reports_done,
    lemma_reports_start, lemma_reports_step, nothing, reports_of, Check, OperationRule,
};
use crate::violation::lemma_views_push;
use crate::violation::{violation_of, violation_views, Violation, ViolationView};
use vstd::prelude::*;

verus! {

/// Reports columns that `ALTER TABLE` drops.
pub struct DropColumnCheck;

/// Why dropping `column` from `table` is a problem.
pub open spec fn problem_text(column: Seq<char>, table: Seq<char>) -> Seq<char> {
    "Dropping column '"@ + column + "' from table '"@ + table
    + "' requires an ACCESS EXCLUSIVE lock, blocking all operations. "@
    + "This typically triggers a table rewrite with duration depending on table size."@
}

fn build_problem_text(column: &str, table: &str) -> (r: String)
    ensures
        r@ == problem_text(column@, table@),
{
    let mut s = String::from_str("Dropping column '");
    s.append(column);
    s.append("' from table '");
    s.append(table);
    s.append("' requires an ACCESS EXCLUSIVE lock, blocking all operations. ");
    s.append("This typically triggers a table rewrite with duration depending on table size.");
    s
}

/// How to retire the column before it is dropped; `if_exists` is the clause
/// that the statement carried.
pub open spec fn safe_alternative_text(
    table: Seq<char>,
    column: Seq<char>,
    if_exists: Seq<char>,
) -> Seq<char> {
    "1. Mark the column as unused in your application code first.\n"@
    + "\n"@
    + "2. Deploy the application without the column references.\n"@
    + "\n"@
    + "3. (Optional) Set column to NULL to reclaim space:\n"@
    + "   ALTER TABLE "@ + table + " ALTER COLUMN "@ + column + " DROP NOT NULL;\n"@
    + "   UPDATE "@ + table + " SET "@ + column + " = NULL;\n"@
    + "\n"@
    + "4. Drop the column in a later migration after confirming it's unused:\n"@
    + "   ALTER TABLE "@ + table + " DROP COLUMN "@ + column + if_exists + ";\n"@
    + "\n"@
    + "Note: PostgreSQL doesn't support DROP COLUMN CONCURRENTLY. "@
    + "The rewrite is unavoidable but staging the removal reduces risk."@
}

fn build_safe_alternative_text(table: &str, column: &str, if_exists: &str) -> (r: String)
    ensures
        r@ == safe_alternative_text(table@, column@, if_exists@),
{
    let mut s = String::from_str("1. Mark the column as unused in your application code first.\n");
    s.append("\n");
    s.append("2. Deploy the application without the column references.\n");
    s.append("\n");
    s.append("3. (Optional) Set column to NULL to reclaim space:\n");
    s.append("   ALTER TABLE ");
    s.append(table);
    s.append(" ALTER COLUMN ");
    s.append(column);
    s.append(" DROP NOT NULL;\n");
    s.append("   UPDATE ");
    s.append(table);
    s.append(" SET ");
    s.append(column);
    s.append(" = NULL;\n");
    s.append("\n");
    s.append("4. Drop the column in a later migration after confirming it's unused:\n");
    s.append("   ALTER TABLE ");
    s.append(table);
    s.append(" DROP COLUMN ");
    s.append(column);
    s.append(if_exists);
    s.append(";\n");
    s.append("\n");
    s.append("Note: PostgreSQL doesn't support DROP COLUMN CONCURRENTLY. ");
    s.append("The rewrite is unavoidable but staging the removal reduces risk.");
    s
}

impl DropColumnCheck {
    /// The violation for one dropped column, as a list of one.
    pub open spec fn column_violation(table: Seq<char>, column: Seq<char>, if_exists: bool) -> Seq<
        ViolationView,
    > {
        seq![
            violation_of(
                "DROP COLUMN"@,
                problem_text(column, table),
                safe_alternative_text(
                    table,
                    column,
                    if if_exists {
                        " IF EXISTS"@
                    } else {
                        ""@
                    },
                ),
            ),
        ]
    }
}

impl OperationRule for DropColumnCheck {
    /// One violation for each column that `op` drops, in order; nothing where
    /// `op` drops no column.
    open spec fn operation_violations(table: Seq<char>, op: AlterOperation) -> Seq<ViolationView> {
        match op {
            AlterOperation::DropColumn { column_names, if_exists } => reports_of(
                column_names@,
                |column: String| Self::column_violation(table, column@, if_exists),
            ),
            _ => Seq::empty(),
        }
    }

    fn check_operation(table: &str, op: &AlterOperation) -> (found: Vec<Violation>) {
        let mut found = nothing();
        if let AlterOperation::DropColumn { column_names, if_exists } = op {
            let ghost each = |column: String| Self::column_violation(table@, column@, *if_exists);
            proof {
                lemma_reports_start(column_names@, each);
            }
            let mut i: usize = 0;
            while i < column_names.len()
                invariant
                    i <= column_names.len(),
                    forall|column: String| #[trigger]
                        each(column) == Self::column_violation(table@, column@, *if_exists),
                    violation_views(found@) == reports_of(column_names@.take(i as int), each),
                decreases column_names.len() - i,
            {
                let column = column_names[i].as_str();
                let v = Violation::new(
                    String::from_str("DROP COLUMN"),
                    build_problem_text(column, table),
                    build_safe_alternative_text(table, column, if_exists_clause(*if_exists)),
                );
                proof {
                    lemma_reports_step(column_names@, each, i as int);
                    lemma_views_push(found@, v);
                }
                found.push(v);
                i = i + 1;
            }
            proof {
                lemma_reports_done(column_names@, each);
            }
        }
        found
    }
}

impl Check for DropColumnCheck {
    /// One violation for each column that an `ALTER TABLE` statement drops, in
    /// the order of its operations and, within one, of its columns.
    open spec fn violations(&self, stmt: &StatementNode) -> Seq<ViolationView> {
        alter_table_violations::<Self>(stmt)
    }

    fn check(&self, stmt: &StatementNode) -> (found: Vec<Violation>) {
        check_alter_table::<Self>(stmt)
    }
}

} // verus!
