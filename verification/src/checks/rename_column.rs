//! Columns renamed.
//!
//! The rename itself is quick. The trouble is the application: every running
//! instance that still uses the old name fails from the moment the rename is
//! applied. This rule reports every `RENAME COLUMN`.

use crate::ast::{AlterOperation, StatementNode};
use crate::checks::{
    alter_table_violations, check_alter_table, nothing, single, Check, OperationRule,
};
use crate::violation::{violation_of, Violation, ViolationView};
use vstd::prelude::*;

verus! {

/// Reports `RENAME COLUMN`.
pub struct RenameColumnCheck;

/// Why renaming column `old` of `table` to `new` is a problem.
pub open spec fn problem_text(old: Seq<char>, new: Seq<char>, table: Seq<char>) -> Seq<char> {
    "Renaming column '"@ + old + "' to '"@ + new + "' in table '"@ + table
    + "' will cause immediate errors in running application instances. "@
    + "Any code referencing the old column name will fail after the rename is applied, "@
    + "causing downtime."@
}

fn build_problem_text(old: &str, new: &str, table: &str) -> (r: String)
    ensures
        r@ == problem_text(old@, new@, table@),
{
    let mut s = String::from_str("Renaming column '");
    s.append(old);
    s.append("' to '");
    s.append(new);
    s.append("' in table '");
    s.append(table);
    s.append("' will cause immediate errors in running application instances. ");
    s.append("Any code referencing the old column name will fail after the rename is applied, ");
    s.append("causing downtime.");
    s
}

/// How to move to the new name through a second column.
pub open spec fn safe_alternative_text(
    table: Seq<char>,
    new: Seq<char>,
    old: Seq<char>,
) -> Seq<char> {
    "1. Add a new column with the desired name (allows NULL initially):\n"@
    + "   ALTER TABLE "@ + table + " ADD COLUMN "@ + new + " <data_type>;\n"@
    + "\n"@
    + "2. Backfill the new column with data from the old column:\n"@
    + "   UPDATE "@ + table + " SET "@ + new + " = "@ + old + ";\n"@
    + "\n"@
    + "3. Add NOT NULL constraint if needed (after backfill):\n"@
    + "   ALTER TABLE "@ + table + " ALTER COLUMN "@ + new + " SET NOT NULL;\n"@
    + "\n"@
    + "4. Update your application code to reference the new column name.\n"@
    + "\n"@
    + "5. Deploy the updated application code.\n"@
    + "\n"@
    + "6. Drop the old column in a subsequent migration:\n"@
    + "   ALTER TABLE "@ + table + " DROP COLUMN "@ + old + ";\n"@
    + "\n"@
    + "This approach maintains compatibility with running instances during the transition."@
}

fn build_safe_alternative_text(table: &str, new: &str, old: &str) -> (r: String)
    ensures
        r@ == safe_alternative_text(table@, new@, old@),
{
    let mut s = String::from_str("1. Add a new column with the desired name (allows NULL initially):\n");
    s.append("   ALTER TABLE ");
    s.append(table);
    s.append(" ADD COLUMN ");
    s.append(new);
    s.append(" <data_type>;\n");
    s.append("\n");
    s.append("2. Backfill the new column with data from the old column:\n");
    s.append("   UPDATE ");
    s.append(table);
    s.append(" SET ");
    s.append(new);
    s.append(" = ");
    s.append(old);
    s.append(";\n");
    s.append("\n");
    s.append("3. Add NOT NULL constraint if needed (after backfill):\n");
    s.append("   ALTER TABLE ");
    s.append(table);
    s.append(" ALTER COLUMN ");
    s.append(new);
    s.append(" SET NOT NULL;\n");
    s.append("\n");
    s.append("4. Update your application code to reference the new column name.\n");
    s.append("\n");
    s.append("5. Deploy the updated application code.\n");
    s.append("\n");
    s.append("6. Drop the old column in a subsequent migration:\n");
    s.append("   ALTER TABLE ");
    s.append(table);
    s.append(" DROP COLUMN ");
    s.append(old);
    s.append(";\n");
    s.append("\n");
    s.append("This approach maintains compatibility with running instances during the transition.");
    s
}

impl OperationRule for RenameColumnCheck {
    /// One violation where `op` renames a column, nothing otherwise.
    open spec fn operation_violations(table: Seq<char>, op: AlterOperation) -> Seq<ViolationView> {
        match op {
            AlterOperation::RenameColumn { old_column_name, new_column_name } => seq![
                violation_of(
                    "RENAME COLUMN"@,
                    problem_text(old_column_name@, new_column_name@, table),
                    safe_alternative_text(table, new_column_name@, old_column_name@),
                ),
            ],
            _ => Seq::empty(),
        }
    }

    fn check_operation(table: &str, op: &AlterOperation) -> (found: Vec<Violation>) {
        if let AlterOperation::RenameColumn { old_column_name, new_column_name } = op {
            return single(
                Violation::new(
                    String::from_str("RENAME COLUMN"),
                    build_problem_text(old_column_name.as_str(), new_column_name.as_str(), table),
                    build_safe_alternative_text(
                        table,
                        new_column_name.as_str(),
                        old_column_name.as_str(),
                    ),
                ),
            );
        }
        nothing()
    }
}

impl Check for RenameColumnCheck {
    /// One violation for each `RENAME COLUMN` of an `ALTER TABLE` statement, in
    /// the order of its operations.
    open spec fn violations(&self, stmt: &StatementNode) -> Seq<ViolationView> {
        alter_table_violations::<Self>(stmt)
    }

    fn check(&self, stmt: &StatementNode) -> (found: Vec<Violation>) {
        check_alter_table::<Self>(stmt)
    }
}

} // verus!
