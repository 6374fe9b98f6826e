//! Primary keys dropped by name.
//!
//! Dropping a primary key takes an ACCESS EXCLUSIVE lock, breaks the foreign
//! keys that refer to the table, and removes a uniqueness guarantee that the
//! application may rely on.
//!
//! The statement names a constraint, not its kind, and nothing here knows the
//! schema. So this rule goes by the name alone: it reports `DROP CONSTRAINT` of
//! a name that looks like a primary key's (`..._pkey`, `..._pk`, `pk_...`,
//! `..._primary_key`, `...primarykey...`, in any letter case). A primary key
//! under another name goes unreported, and another constraint under such a name
//! is reported.

use crate::ast::{AlterOperation, StatementNode};
use crate::checks::{
    alter_table_violations, check_alter_table, nothing, single, Check, OperationRule,
};
use crate::pattern::{is_match, pattern_matches};
use crate::violation::{violation_of, Violation, ViolationView};
use vstd::prelude::*;

verus! {

/// Reports dropped constraints whose name looks like a primary key's.
pub struct DropPrimaryKeyCheck;

/// Why dropping the primary key `constraint` of `table` is a problem.
pub open spec fn problem_text(constraint: Seq<char>, table: Seq<char>) -> Seq<char> {
    "Dropping primary key constraint '"@ + constraint + "' from table '"@ + table
    + "' requires an ACCESS EXCLUSIVE lock, blocking all operations. More critically, "@
    + "this breaks foreign key relationships in other tables and removes the uniqueness constraint."@
}

fn build_problem_text(constraint: &str, table: &str) -> (r: String)
    ensures
        r@ == problem_text(constraint@, table@),
{
    let mut s = String::from_str("Dropping primary key constraint '");
    s.append(constraint);
    s.append("' from table '");
    s.append(table);
    s.append("' requires an ACCESS EXCLUSIVE lock, blocking all operations. More critically, ");
    s.append("this breaks foreign key relationships in other tables and removes the uniqueness constraint.");
    s
}

/// What to find out before a primary key is dropped, and how to replace it.
pub open spec fn safe_alternative_text(table: Seq<char>, constraint: Seq<char>) -> Seq<char> {
    "Consider the following before dropping a primary key:\n"@
    + "\n"@
    + "1. Identify all foreign key dependencies:\n"@
    + "   SELECT\n"@
    + "     tc.table_name, kcu.column_name, rc.constraint_name\n"@
    + "   FROM information_schema.table_constraints tc\n"@
    + "   JOIN information_schema.key_column_usage kcu ON tc.constraint_name = kcu.constraint_name\n"@
    + "   JOIN information_schema.referential_constraints rc ON tc.constraint_name = rc.unique_constraint_name\n"@
    + "   WHERE tc.table_name = '"@ + table + "' AND tc.constraint_type = 'PRIMARY KEY';\n"@
    + "\n"@
    + "2. If you must change the primary key:\n"@
    + "   - Create the new primary key constraint FIRST\n"@
    + "   - Update all foreign keys to reference the new key\n"@
    + "   - Then drop the old primary key\n"@
    + "\n"@
    + "3. If migrating to a different key strategy:\n"@
    + "   - Consider using a transition period with both keys\n"@
    + "   - Update application code gradually\n"@
    + "   - Drop the old key only after full migration\n"@
    + "\n"@
    + "Note: This check uses naming pattern detection (e.g., '"@ + constraint
    + "' matches '*_pkey' pattern) and may not catch all cases.\n"@
    + "Future versions will support database connections for accurate constraint type verification.\n"@
    + "If this is a false positive, use a safety-assured block."@
}

fn build_safe_alternative_text(table: &str, constraint: &str) -> (r: String)
    ensures
        r@ == safe_alternative_text(table@, constraint@),
{
    let mut s = String::from_str("Consider the following before dropping a primary key:\n");
    s.append("\n");
    s.append("1. Identify all foreign key dependencies:\n");
    s.append("   SELECT\n");
    s.append("     tc.table_name, kcu.column_name, rc.constraint_name\n");
    s.append("   FROM information_schema.table_constraints tc\n");
    s.append("   JOIN information_schema.key_column_usage kcu ON tc.constraint_name = kcu.constraint_name\n");
    s.append("   JOIN information_schema.referential_constraints rc ON tc.constraint_name = rc.unique_constraint_name\n");
    s.append("   WHERE tc.table_name = '");
    s.append(table);
    s.append("' AND tc.constraint_type = 'PRIMARY KEY';\n");
    s.append("\n");
    s.append("2. If you must change the primary key:\n");
    s.append("   - Create the new primary key constraint FIRST\n");
    s.append("   - Update all foreign keys to reference the new key\n");
    s.append("   - Then drop the old primary key\n");
    s.append("\n");
    s.append("3. If migrating to a different key strategy:\n");
    s.append("   - Consider using a transition period with both keys\n");
    s.append("   - Update application code gradually\n");
    s.append("   - Drop the old key only after full migration\n");
    s.append("\n");
    s.append("Note: This check uses naming pattern detection (e.g., '");
    s.append(constraint);
    s.append("' matches '*_pkey' pattern) and may not catch all cases.\n");
    s.append("Future versions will support database connections for accurate constraint type verification.\n");
    s.append("If this is a false positive, use a safety-assured block.");
    s
}

/// The names that are taken for a primary key's: ending in `_pkey` or `_pk`,
/// beginning with `pk_`, or holding `_primary_key` or `primarykey`.
pub const PRIMARY_KEY_PATTERN: &'static str = "(?i)((_pkey|_pk)$|^pk_|_primary_key|primarykey)";

impl DropPrimaryKeyCheck {
    /// Whether `constraint_name` matches [`PRIMARY_KEY_PATTERN`].
    pub open spec fn likely_primary_key(constraint_name: Seq<char>) -> bool {
        pattern_matches(PRIMARY_KEY_PATTERN@, constraint_name)
    }

    /// Whether `constraint_name` looks like the name of a primary key.
    pub fn is_likely_primary_key(constraint_name: &str) -> (r: bool)
        ensures
            r == Self::likely_primary_key(constraint_name@),
    {
        is_match(PRIMARY_KEY_PATTERN, constraint_name)
    }
}

impl OperationRule for DropPrimaryKeyCheck {
    /// One violation where `op` drops a constraint whose name matches
    /// [`PRIMARY_KEY_PATTERN`], nothing otherwise.
    open spec fn operation_violations(table: Seq<char>, op: AlterOperation) -> Seq<ViolationView> {
        match op {
            AlterOperation::DropConstraint { name } if Self::likely_primary_key(name@) => seq![
                violation_of(
                    "DROP PRIMARY KEY"@,
                    problem_text(name@, table),
                    safe_alternative_text(table, name@),
                ),
            ],
            _ => Seq::empty(),
        }
    }

    fn check_operation(table: &str, op: &AlterOperation) -> (found: Vec<Violation>) {
        if let AlterOperation::DropConstraint { name } = op {
            if Self::is_likely_primary_key(name.as_str()) {
                return single(
                    Violation::new(
                        String::from_str("DROP PRIMARY KEY"),
                        build_problem_text(name.as_str(), table),
                        build_safe_alternative_text(table, name.as_str()),
                    ),
                );
            }
        }
        nothing()
    }
}

impl Check for DropPrimaryKeyCheck {
    /// One violation for each dropped constraint whose name looks like a
    /// primary key's, in the order of the statement's operations.
    open spec fn violations(&self, stmt: &StatementNode) -> Seq<ViolationView> {
        alter_table_violations::<Self>(stmt)
    }

    fn check(&self, stmt: &StatementNode) -> (found: Vec<Violation>) {
        check_alter_table::<Self>(stmt)
    }
}

} // verus!
