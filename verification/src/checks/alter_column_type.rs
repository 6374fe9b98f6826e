//! A column's type changed.
//!
//! Most changes of a column's type rewrite the table under an ACCESS EXCLUSIVE
//! lock; with a `USING` clause the rewrite is certain. This rule reports every
//! `ALTER COLUMN ... TYPE`, and notes the `USING` clause where there is one.

use crate::ast::{AlterOperation, ColumnChange, StatementNode};
use crate::checks::{
    alter_table_violations, check_alter_table, nothing, single, Check, OperationRule,
};
use crate::violation::{violation_of, Violation, ViolationView};
use vstd::prelude::*;

verus! {

/// Reports changes of a column's type.
pub struct AlterColumnTypeCheck;

/// Why changing the type of `column` of `table` to `new_type` is a problem,
/// with a closing note for a `USING` clause.
pub open spec fn problem_text(
    column: Seq<char>,
    new_type: Seq<char>,
    table: Seq<char>,
    using_clause: Seq<char>,
) -> Seq<char> {
    "Changing column '"@ + column + "' type to '"@ + new_type + "' on table '"@ + table
    + "' typically requires an ACCESS EXCLUSIVE lock and may trigger a full table rewrite, "@
    + "blocking all operations. Duration depends on table size and the specific type change."@ + using_clause
}

fn build_problem_text(column: &str, new_type: &str, table: &str, using_clause: &str) -> (r: String)
    ensures
        r@ == problem_text(column@, new_type@, table@, using_clause@),
{
    let mut s = String::from_str("Changing column '");
    s.append(column);
    s.append("' type to '");
    s.append(new_type);
    s.append("' on table '");
    s.append(table);
    s.append("' typically requires an ACCESS EXCLUSIVE lock and may trigger a full table rewrite, ");
    s.append("blocking all operations. Duration depends on table size and the specific type change.");
    s.append(using_clause);
    s
}

/// How to change the type by way of a second column.
pub open spec fn safe_alternative_text(
    table: Seq<char>,
    column: Seq<char>,
    new_type: Seq<char>,
) -> Seq<char> {
    "For safer type changes, consider a multi-step approach:\n"@
    + "\n"@
    + "1. Add a new column with the desired type:\n"@
    + "   ALTER TABLE "@ + table + " ADD COLUMN "@ + column + "_new "@ + new_type + ";\n"@
    + "\n"@
    + "2. Backfill data in batches (outside migration):\n"@
    + "   UPDATE "@ + table + " SET "@ + column + "_new = "@ + column + "::"@ + new_type + ";\n"@
    + "\n"@
    + "3. Deploy application code to use the new column.\n"@
    + "\n"@
    + "4. Drop the old column in a later migration:\n"@
    + "   ALTER TABLE "@ + table + " DROP COLUMN "@ + column + ";\n"@
    + "\n"@
    + "5. Rename the new column:\n"@
    + "   ALTER TABLE "@ + table + " RENAME COLUMN "@ + column + "_new TO "@ + column + ";\n"@
    + "\n"@
    + "Note: Some type changes are safe:\n"@
    + "- VARCHAR(n) to VARCHAR(m) where m > n (PostgreSQL 9.2+)\n"@
    + "- VARCHAR to TEXT\n"@
    + "- Numeric precision increases\n"@
    + "\n"@
    + "Always test on a production-sized dataset to verify the impact."@
}

fn build_safe_alternative_text(table: &str, column: &str, new_type: &str) -> (r: String)
    ensures
        r@ == safe_alternative_text(table@, column@, new_type@),
{
    let mut s = String::from_str("For safer type changes, consider a multi-step approach:\n");
    s.append("\n");
    s.append("1. Add a new column with the desired type:\n");
    s.append("   ALTER TABLE ");
    s.append(table);
    s.append(" ADD COLUMN ");
    s.append(column);
    s.append("_new ");
    s.append(new_type);
    s.append(";\n");
    s.append("\n");
    s.append("2. Backfill data in batches (outside migration):\n");
    s.append("   UPDATE ");
    s.append(table);
    s.append(" SET ");
    s.append(column);
    s.append("_new = ");
    s.append(column);
    s.append("::");
    s.append(new_type);
    s.append(";\n");
    s.append("\n");
    s.append("3. Deploy application code to use the new column.\n");
    s.append("\n");
    s.append("4. Drop the old column in a later migration:\n");
    s.append("   ALTER TABLE ");
    s.append(table);
    s.append(" DROP COLUMN ");
    s.append(column);
    s.append(";\n");
    s.append("\n");
    s.append("5. Rename the new column:\n");
    s.append("   ALTER TABLE ");
    s.append(table);
    s.append(" RENAME COLUMN ");
    s.append(column);
    s.append("_new TO ");
    s.append(column);
    s.append(";\n");
    s.append("\n");
    s.append("Note: Some type changes are safe:\n");
    s.append("- VARCHAR(n) to VARCHAR(m) where m > n (PostgreSQL 9.2+)\n");
    s.append("- VARCHAR to TEXT\n");
    s.append("- Numeric precision increases\n");
    s.append("\n");
    s.append("Always test on a production-sized dataset to verify the impact.");
    s
}

/// The note that closes the problem text where the change has a `USING` clause.
pub open spec fn using_note(using: bool) -> Seq<char> {
    if using {
        "\n\nNote: This migration includes a USING clause, which always triggers a full table rewrite."@
    } else {
        ""@
    }
}

impl OperationRule for AlterColumnTypeCheck {
    /// One violation where `op` changes a column's type, nothing otherwise. The
    /// problem text ends with a note where the change has a `USING` clause.
    open spec fn operation_violations(table: Seq<char>, op: AlterOperation) -> Seq<ViolationView> {
        match op {
            AlterOperation::AlterColumn {
                column_name,
                op: ColumnChange::SetDataType { data_type, using },
            } => seq![
                violation_of(
                    "ALTER COLUMN TYPE"@,
                    problem_text(column_name@, data_type@, table, using_note(using)),
                    safe_alternative_text(table, column_name@, data_type@),
                ),
            ],
            _ => Seq::empty(),
        }
    }

    fn check_operation(table: &str, op: &AlterOperation) -> (found: Vec<Violation>) {
        if let AlterOperation::AlterColumn {
            column_name,
            op: ColumnChange::SetDataType { data_type, using },
        } = op {
            let note = if *using {
                "\n\nNote: This migration includes a USING clause, which always triggers a full table rewrite."
            } else {
                ""
            };
            return single(
                Violation::new(
                    String::from_str("ALTER COLUMN TYPE"),
                    build_problem_text(column_name.as_str(), data_type.as_str(), table, note),
                    build_safe_alternative_text(table, column_name.as_str(), data_type.as_str()),
                ),
            );
        }
        nothing()
    }
}

impl Check for AlterColumnTypeCheck {
    /// One violation for each change of a column's type in an `ALTER TABLE`
    /// statement, in the order of its operations.
    open spec fn violations(&self, stmt: &StatementNode) -> Seq<ViolationView> {
        alter_table_violations::<Self>(stmt)
    }

    fn check(&self, stmt: &StatementNode) -> (found: Vec<Violation>) {
        check_alter_table::<Self>(stmt)
    }
}

} // verus!
