//! Indexes created without `CONCURRENTLY`.
//!
//! `CREATE INDEX` takes a SHARE lock: reads go on, but every insert, update and
//! delete waits until the index is built. With `CONCURRENTLY` the build takes
//! longer and cannot run in a transaction, but writes go on. This rule reports
//! every `CREATE INDEX` that does not say `CONCURRENTLY`.

use crate::ast::{StatementKind, StatementNode};
use crate::checks::{
    display_or_default, nothing, option_view, single, text_or_default, unique_prefix, Check,
};
use crate::violation::{violation_of, Violation, ViolationView};
use vstd::prelude::*;

verus! {

/// Reports `CREATE INDEX` without `CONCURRENTLY`.
pub struct AddIndexCheck;

/// Why building `index` on `table` without `CONCURRENTLY` is a problem;
/// `unique` is `"UNIQUE "` for a unique index.
pub open spec fn problem_text(unique: Seq<char>, index: Seq<char>, table: Seq<char>) -> Seq<char> {
    "Creating "@ + unique + "index '"@ + index + "' on table '"@ + table
    + "' without CONCURRENTLY acquires a SHARE lock, blocking writes (INSERT, UPDATE, DELETE). "@
    + "Duration depends on table size. Reads are still allowed."@
}

fn build_problem_text(unique: &str, index: &str, table: &str) -> (r: String)
    ensures
        r@ == problem_text(unique@, index@, table@),
{
    let mut s = String::from_str("Creating ");
    s.append(unique);
    s.append("index '");
    s.append(index);
    s.append("' on table '");
    s.append(table);
    s.append("' without CONCURRENTLY acquires a SHARE lock, blocking writes (INSERT, UPDATE, DELETE). ");
    s.append("Duration depends on table size. Reads are still allowed.");
    s
}

/// The same statement with `CONCURRENTLY`, and what to keep in mind.
pub open spec fn safe_alternative_text(
    unique: Seq<char>,
    index: Seq<char>,
    table: Seq<char>,
) -> Seq<char> {
    "Use CONCURRENTLY to build the index without blocking writes:\n"@
    + "   CREATE "@ + unique + "INDEX CONCURRENTLY "@ + index + " ON "@ + table + ";\n"@
    + "\n"@
    + "Note: CONCURRENTLY takes longer and uses more resources, but allows concurrent INSERT, "@
    + "UPDATE, and DELETE operations. "@
    + "The index build may fail if there are deadlocks or unique constraint violations.\n"@
    + "\n"@
    + "Considerations:\n"@
    + "- Cannot be run inside a transaction block\n"@
    + "- Requires more total work and takes longer to complete\n"@
    + "- If it fails, it leaves behind an \"invalid\" index that should be dropped"@
}

fn build_safe_alternative_text(unique: &str, index: &str, table: &str) -> (r: String)
    ensures
        r@ == safe_alternative_text(unique@, index@, table@),
{
    let mut s = String::from_str("Use CONCURRENTLY to build the index without blocking writes:\n");
    s.append("   CREATE ");
    s.append(unique);
    s.append("INDEX CONCURRENTLY ");
    s.append(index);
    s.append(" ON ");
    s.append(table);
    s.append(";\n");
    s.append("\n");
    s.append("Note: CONCURRENTLY takes longer and uses more resources, but allows concurrent INSERT, ");
    s.append("UPDATE, and DELETE operations. ");
    s.append("The index build may fail if there are deadlocks or unique constraint violations.\n");
    s.append("\n");
    s.append("Considerations:\n");
    s.append("- Cannot be run inside a transaction block\n");
    s.append("- Requires more total work and takes longer to complete\n");
    s.append("- If it fails, it leaves behind an \"invalid\" index that should be dropped");
    s
}

impl Check for AddIndexCheck {
    /// One violation for a `CREATE INDEX` statement without `CONCURRENTLY`,
    /// nothing for any other statement. An index without a name is spoken of
    /// as `<unnamed>`.
    open spec fn violations(&self, stmt: &StatementNode) -> Seq<ViolationView> {
        match stmt.kind {
            StatementKind::CreateIndex {
                name,
                table_name,
                unique,
                concurrently: false,
                columns,
            } => {
                let index = text_or_default(option_view(name), "<unnamed>"@);
                let prefix = if unique {
                    "UNIQUE "@
                } else {
                    ""@
                };
                seq![
                    violation_of(
                        "ADD INDEX without CONCURRENTLY"@,
                        problem_text(prefix, index, table_name@),
                        safe_alternative_text(prefix, index, table_name@),
                    ),
                ]
            },
            _ => Seq::empty(),
        }
    }

    fn check(&self, stmt: &StatementNode) -> (found: Vec<Violation>) {
        if let StatementKind::CreateIndex { name, table_name, unique, concurrently, columns } =
            &stmt.kind {
            if !*concurrently {
                let index = display_or_default(name.as_ref(), "<unnamed>");
                let prefix = unique_prefix(*unique);
                return single(
                    Violation::new(
                        String::from_str("ADD INDEX without CONCURRENTLY"),
                        build_problem_text(prefix, index.as_str(), table_name.as_str()),
                        build_safe_alternative_text(prefix, index.as_str(), table_name.as_str()),
                    ),
                );
            }
        }
        nothing()
    }
}

} // verus!
