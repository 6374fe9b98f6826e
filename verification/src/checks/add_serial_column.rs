//! Columns added with a `SERIAL` type.
//!
//! Adding a `SERIAL`, `SMALLSERIAL` or `BIGSERIAL` column to a table that
//! exists creates a sequence and rewrites the table to number its rows, under
//! an ACCESS EXCLUSIVE lock. This rule reports every such column that `ALTER
//! TABLE` adds.

use crate::ast::{AlterOperation, DataTypeKind, StatementNode};
use crate::checks::{
    alter_table_violations, check_alter_table, nothing, single, Check, OperationRule,
};
use crate::text::{str_eq, to_uppercase, uppercased};
use crate::violation::{violation_of, Violation, ViolationView};
use vstd::prelude::*;

verus! {

/// Reports columns that `ALTER TABLE` adds with a serial type.
pub struct AddSerialColumnCheck;

/// Why adding the serial `column` to `table` is a problem.
pub open spec fn problem_text(column: Seq<char>, table: Seq<char>) -> Seq<char> {
    "Adding column '"@ + column + "' with SERIAL type on table '"@ + table
    + "' requires a full table rewrite to populate sequence values for existing rows, "@
    + "which acquires an ACCESS EXCLUSIVE lock and blocks all operations. "@
    + "Duration depends on table size and number of indexes."@
}

fn build_problem_text(column: &str, table: &str) -> (r: String)
    ensures
        r@ == problem_text(column@, table@),
{
    let mut s = String::from_str("Adding column '");
    s.append(column);
    s.append("' with SERIAL type on table '");
    s.append(table);
    s.append("' requires a full table rewrite to populate sequence values for existing rows, ");
    s.append("which acquires an ACCESS EXCLUSIVE lock and blocks all operations. ");
    s.append("Duration depends on table size and number of indexes.");
    s
}

/// How to add the column, its sequence and its values in separate steps.
pub open spec fn safe_alternative_text(table: Seq<char>, column: Seq<char>) -> Seq<char> {
    "1. Create a sequence:\n"@
    + "   CREATE SEQUENCE "@ + table + "_"@ + column + "_seq;\n"@
    + "\n"@
    + "2. Add the column WITHOUT default (fast, no rewrite):\n"@
    + "   ALTER TABLE "@ + table + " ADD COLUMN "@ + column + " INTEGER;\n"@
    + "\n"@
    + "3. Backfill existing rows in batches (outside migration):\n"@
    + "   UPDATE "@ + table + " SET "@ + column + " = nextval('"@ + table + "_"@ + column + "_seq') WHERE "@ + column + " IS NULL;\n"@
    + "\n"@
    + "4. Set default for future inserts only:\n"@
    + "   ALTER TABLE "@ + table + " ALTER COLUMN "@ + column + " SET DEFAULT nextval('"@ + table + "_"@ + column + "_seq');\n"@
    + "\n"@
    + "5. Set NOT NULL if needed (PostgreSQL 11+: safe if all values present):\n"@
    + "   ALTER TABLE "@ + table + " ALTER COLUMN "@ + column + " SET NOT NULL;\n"@
    + "\n"@
    + "6. Set sequence ownership:\n"@
    + "   ALTER SEQUENCE "@ + table + "_"@ + column + "_seq OWNED BY "@ + table + "."@ + column + ";"@
}

fn build_safe_alternative_text(table: &str, column: &str) -> (r: String)
    ensures
        r@ == safe_alternative_text(table@, column@),
{
    let mut s = String::from_str("1. Create a sequence:\n");
    s.append("   CREATE SEQUENCE ");
    s.append(table);
    s.append("_");
    s.append(column);
    s.append("_seq;\n");
    s.append("\n");
    s.append("2. Add the column WITHOUT default (fast, no rewrite):\n");
    s.append("   ALTER TABLE ");
    s.append(table);
    s.append(" ADD COLUMN ");
    s.append(column);
    s.append(" INTEGER;\n");
    s.append("\n");
    s.append("3. Backfill existing rows in batches (outside migration):\n");
    s.append("   UPDATE ");
    s.append(table);
    s.append(" SET ");
    s.append(column);
    s.append(" = nextval('");
    s.append(table);
    s.append("_");
    s.append(column);
    s.append("_seq') WHERE ");
    s.append(column);
    s.append(" IS NULL;\n");
    s.append("\n");
    s.append("4. Set default for future inserts only:\n");
    s.append("   ALTER TABLE ");
    s.append(table);
    s.append(" ALTER COLUMN ");
    s.append(column);
    s.append(" SET DEFAULT nextval('");
    s.append(table);
    s.append("_");
    s.append(column);
    s.append("_seq');\n");
    s.append("\n");
    s.append("5. Set NOT NULL if needed (PostgreSQL 11+: safe if all values present):\n");
    s.append("   ALTER TABLE ");
    s.append(table);
    s.append(" ALTER COLUMN ");
    s.append(column);
    s.append(" SET NOT NULL;\n");
    s.append("\n");
    s.append("6. Set sequence ownership:\n");
    s.append("   ALTER SEQUENCE ");
    s.append(table);
    s.append("_");
    s.append(column);
    s.append("_seq OWNED BY ");
    s.append(table);
    s.append(".");
    s.append(column);
    s.append(";");
    s
}

/// Whether `name`, upper-cased, is `SERIAL`, `SMALLSERIAL` or `BIGSERIAL`.
pub open spec fn serial_type_name(name: Seq<char>) -> bool {
    let upper = uppercased(name);
    upper == "SERIAL"@ || upper == "SMALLSERIAL"@ || upper == "BIGSERIAL"@
}

/// Whether `name` names one of the serial types, in any letter case.
pub fn is_serial_type(name: &str) -> (r: bool)
    ensures
        r == serial_type_name(name@),
{
    let upper = to_uppercase(name);
    str_eq(upper.as_str(), "SERIAL") || str_eq(upper.as_str(), "SMALLSERIAL") || str_eq(
        upper.as_str(),
        "BIGSERIAL",
    )
}

impl OperationRule for AddSerialColumnCheck {
    /// One violation where `op` adds a column whose type is a custom type named
    /// like a serial type, nothing otherwise.
    open spec fn operation_violations(table: Seq<char>, op: AlterOperation) -> Seq<ViolationView> {
        match op {
            AlterOperation::AddColumn { column_def } => match column_def.data_type.kind {
                DataTypeKind::Custom { name } if serial_type_name(name@) => seq![
                    violation_of(
                        "ADD COLUMN with SERIAL"@,
                        problem_text(column_def.name@, table),
                        safe_alternative_text(table, column_def.name@),
                    ),
                ],
                _ => Seq::empty(),
            },
            _ => Seq::empty(),
        }
    }

    fn check_operation(table: &str, op: &AlterOperation) -> (found: Vec<Violation>) {
        if let AlterOperation::AddColumn { column_def } = op {
            if let DataTypeKind::Custom { name } = &column_def.data_type.kind {
                if is_serial_type(name.as_str()) {
                    return single(
                        Violation::new(
                            String::from_str("ADD COLUMN with SERIAL"),
                            build_problem_text(column_def.name.as_str(), table),
                            build_safe_alternative_text(table, column_def.name.as_str()),
                        ),
                    );
                }
            }
        }
        nothing()
    }
}

impl Check for AddSerialColumnCheck {
    /// One violation for each column of a serial type that an `ALTER TABLE`
    /// statement adds, in the order of its operations.
    open spec fn violations(&self, stmt: &StatementNode) -> Seq<ViolationView> {
        alter_table_violations::<Self>(stmt)
    }

    fn check(&self, stmt: &StatementNode) -> (found: Vec<Violation>) {
        check_alter_table::<Self>(stmt)
    }
}

} // verus!
