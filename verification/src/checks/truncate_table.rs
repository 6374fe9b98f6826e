//! `TRUNCATE TABLE`.
//!
//! `TRUNCATE` takes an ACCESS EXCLUSIVE lock and cannot be done in batches, so
//! reads and writes wait until it is through. `DELETE` in batches empties a
//! table while it stays in use. This rule reports every table that a `TRUNCATE`
//! statement names.

use crate::ast::{StatementKind, StatementNode};
use crate::checks::{
    lemma_reports_done, lemma_reports_start, lemma_reports_step, nothing, reports_of, Check,
};
use crate::violation::{lemma_views_push, violation_of, violation_views, Violation, ViolationView};
use vstd::prelude::*;

verus! {

/// Reports `TRUNCATE TABLE`.
pub struct TruncateTableCheck;

/// Why truncating `table` is a problem.
pub open spec fn problem_text(table: Seq<char>) -> Seq<char> {
    "TRUNCATE TABLE on '"@ + table
    + "' acquires an ACCESS EXCLUSIVE lock, blocking all operations (reads and writes). "@
    + "Unlike DELETE, TRUNCATE cannot be batched or throttled, "@
    + "making it unsafe for large tables in production."@
}

fn build_problem_text(table: &str) -> (r: String)
    ensures
        r@ == problem_text(table@),
{
    let mut s = String::from_str("TRUNCATE TABLE on '");
    s.append(table);
    s.append("' acquires an ACCESS EXCLUSIVE lock, blocking all operations (reads and writes). ");
    s.append("Unlike DELETE, TRUNCATE cannot be batched or throttled, ");
    s.append("making it unsafe for large tables in production.");
    s
}

/// How to empty the table with batched deletes.
pub open spec fn safe_alternative_text(table: Seq<char>) -> Seq<char> {
    "Use DELETE with batching instead:\n"@
    + "\n"@
    + "1. Delete rows in small batches to allow concurrent access:\n"@
    + "   DELETE FROM "@ + table + " WHERE id IN (\n"@
    + "     SELECT id FROM "@ + table + " LIMIT 1000\n"@
    + "   );\n"@
    + "\n"@
    + "2. Repeat the batched DELETE until all rows are removed.\n"@
    + "\n"@
    + "3. (Optional) If you need to reset sequences:\n"@
    + "   ALTER SEQUENCE "@ + table + "_id_seq RESTART WITH 1;\n"@
    + "\n"@
    + "4. (Optional) Run VACUUM to reclaim space:\n"@
    + "   VACUUM "@ + table + ";\n"@
    + "\n"@
    + "Note: If you absolutely must use TRUNCATE (e.g., in a test environment), "@
    + "use a safety-assured block."@
}

fn build_safe_alternative_text(table: &str) -> (r: String)
    ensures
        r@ == safe_alternative_text(table@),
{
    let mut s = String::from_str("Use DELETE with batching instead:\n");
    s.append("\n");
    s.append("1. Delete rows in small batches to allow concurrent access:\n");
    s.append("   DELETE FROM ");
    s.append(table);
    s.append(" WHERE id IN (\n");
    s.append("     SELECT id FROM ");
    s.append(table);
    s.append(" LIMIT 1000\n");
    s.append("   );\n");
    s.append("\n");
    s.append("2. Repeat the batched DELETE until all rows are removed.\n");
    s.append("\n");
    s.append("3. (Optional) If you need to reset sequences:\n");
    s.append("   ALTER SEQUENCE ");
    s.append(table);
    s.append("_id_seq RESTART WITH 1;\n");
    s.append("\n");
    s.append("4. (Optional) Run VACUUM to reclaim space:\n");
    s.append("   VACUUM ");
    s.append(table);
    s.append(";\n");
    s.append("\n");
    s.append("Note: If you absolutely must use TRUNCATE (e.g., in a test environment), ");
    s.append("use a safety-assured block.");
    s
}

impl TruncateTableCheck {
    /// The violation for one truncated table, as a list of one.
    pub open spec fn table_violation(table: Seq<char>) -> Seq<ViolationView> {
        seq![violation_of("TRUNCATE TABLE"@, problem_text(table), safe_alternative_text(table))]
    }
}

impl Check for TruncateTableCheck {
    /// One violation for each table that a `TRUNCATE` statement names, in the
    /// order in which it names them; nothing for any other statement.
    open spec fn violations(&self, stmt: &StatementNode) -> Seq<ViolationView> {
        match stmt.kind {
            StatementKind::Truncate { table_names } => reports_of(
                table_names@,
                |table: String| Self::table_violation(table@),
            ),
            _ => Seq::empty(),
        }
    }

    fn check(&self, stmt: &StatementNode) -> (found: Vec<Violation>) {
        let mut found = nothing();
        if let StatementKind::Truncate { table_names } = &stmt.kind {
            let ghost each = |table: String| Self::table_violation(table@);
            proof {
                lemma_reports_start(table_names@, each);
            }
            let mut i: usize = 0;
            while i < table_names.len()
                invariant
                    i <= table_names.len(),
                    forall|table: String| #[trigger] each(table) == Self::table_violation(table@),
                    violation_views(found@) == reports_of(table_names@.take(i as int), each),
                decreases table_names.len() - i,
            {
                let table = table_names[i].as_str();
                let v = Violation::new(
                    String::from_str("TRUNCATE TABLE"),
                    build_problem_text(table),
                    build_safe_alternative_text(table),
                );
                proof {
                    lemma_reports_step(table_names@, each, i as int);
                    lemma_views_push(found@, v);
                }
                found.push(v);
                i = i + 1;
            }
            proof {
                lemma_reports_done(table_names@, each);
            }
        }
        found
    }
}

} // verus!
