//! Tables renamed.
//!
//! Every running instance of the application that still uses the old name fails
//! once the table is renamed, and the ACCESS EXCLUSIVE lock that the rename
//! needs can itself block on a busy table. This rule reports every `ALTER TABLE
//! ... RENAME TO`.

use crate::ast::{AlterOperation, StatementNode};
use crate::checks::{
    alter_table_violations, check_alter_table, nothing, single, Check, OperationRule,
};
use crate::violation::{violation_of, Violation, ViolationView};
use vstd::prelude::*;

verus! {

/// Reports `ALTER TABLE ... RENAME TO`.
pub struct RenameTableCheck;

/// Why renaming table `old` to `new` is a problem.
pub open spec fn problem_text(old: Seq<char>, new: Seq<char>) -> Seq<char> {
    "Renaming table '"@ + old + "' to '"@ + new
    + "' will cause immediate errors in running application instances. "@
    + "Any code referencing the old table name will fail after the rename is applied. "@
    + "Additionally, "@
    + "this operation requires an ACCESS EXCLUSIVE lock which can block on busy tables."@
}

fn build_problem_text(old: &str, new: &str) -> (r: String)
    ensures
        r@ == problem_text(old@, new@),
{
    let mut s = String::from_str("Renaming table '");
    s.append(old);
    s.append("' to '");
    s.append(new);
    s.append("' will cause immediate errors in running application instances. ");
    s.append("Any code referencing the old table name will fail after the rename is applied. ");
    s.append("Additionally, ");
    s.append("this operation requires an ACCESS EXCLUSIVE lock which can block on busy tables.");
    s
}

/// How to move to the new table while both names are in use.
pub open spec fn safe_alternative_text(old: Seq<char>, new: Seq<char>) -> Seq<char> {
    "Use a multi-step migration to safely rename the table:\n"@
    + "\n"@
    + "1. Create the new table with the same structure:\n"@
    + "   CREATE TABLE "@ + new + " (LIKE "@ + old + " INCLUDING ALL);\n"@
    + "\n"@
    + "2. Update your application code to write to both tables.\n"@
    + "\n"@
    + "3. Backfill data from the old table to the new table in batches:\n"@
    + "   INSERT INTO "@ + new + " SELECT * FROM "@ + old + " WHERE id > last_id LIMIT 10000;\n"@
    + "\n"@
    + "4. Update your application code to read from the new table.\n"@
    + "\n"@
    + "5. Deploy the updated application code.\n"@
    + "\n"@
    + "6. Update your application code to stop writing to the old table.\n"@
    + "\n"@
    + "7. Drop the old table in a later migration:\n"@
    + "   DROP TABLE "@ + old + ";\n"@
    + "\n"@
    + "This approach avoids dangerous locks and maintains compatibility with running instances throughout the migration."@
}

fn build_safe_alternative_text(old: &str, new: &str) -> (r: String)
    ensures
        r@ == safe_alternative_text(old@, new@),
{
    let mut s = String::from_str("Use a multi-step migration to safely rename the table:\n");
    s.append("\n");
    s.append("1. Create the new table with the same structure:\n");
    s.append("   CREATE TABLE ");
    s.append(new);
    s.append(" (LIKE ");
    s.append(old);
    s.append(" INCLUDING ALL);\n");
    s.append("\n");
    s.append("2. Update your application code to write to both tables.\n");
    s.append("\n");
    s.append("3. Backfill data from the old table to the new table in batches:\n");
    s.append("   INSERT INTO ");
    s.append(new);
    s.append(" SELECT * FROM ");
    s.append(old);
    s.append(" WHERE id > last_id LIMIT 10000;\n");
    s.append("\n");
    s.append("4. Update your application code to read from the new table.\n");
    s.append("\n");
    s.append("5. Deploy the updated application code.\n");
    s.append("\n");
    s.append("6. Update your application code to stop writing to the old table.\n");
    s.append("\n");
    s.append("7. Drop the old table in a later migration:\n");
    s.append("   DROP TABLE ");
    s.append(old);
    s.append(";\n");
    s.append("\n");
    s.append("This approach avoids dangerous locks and maintains compatibility with running instances throughout the migration.");
    s
}

impl OperationRule for RenameTableCheck {
    /// One violation where `op` renames the table, nothing otherwise.
    open spec fn operation_violations(table: Seq<char>, op: AlterOperation) -> Seq<ViolationView> {
        match op {
            AlterOperation::RenameTable { table_name } => seq![
                violation_of(
                    "RENAME TABLE"@,
                    problem_text(table, table_name@),
                    safe_alternative_text(table, table_name@),
                ),
            ],
            _ => Seq::empty(),
        }
    }

    fn check_operation(table: &str, op: &AlterOperation) -> (found: Vec<Violation>) {
        if let AlterOperation::RenameTable { table_name } = op {
            return single(
                Violation::new(
                    String::from_str("RENAME TABLE"),
                    build_problem_text(table, table_name.as_str()),
                    build_safe_alternative_text(table, table_name.as_str()),
                ),
            );
        }
        nothing()
    }
}

impl Check for RenameTableCheck {
    /// One violation for each rename of the table in an `ALTER TABLE`
    /// statement, in the order of its operations.
    open spec fn violations(&self, stmt: &StatementNode) -> Seq<ViolationView> {
        alter_table_violations::<Self>(stmt)
    }

    fn check(&self, stmt: &StatementNode) -> (found: Vec<Violation>) {
        check_alter_table::<Self>(stmt)
    }
}

} // verus!
