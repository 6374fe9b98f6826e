//! Constraints added without a name.
//!
//! PostgreSQL gives an unnamed constraint a generated name, which differs
//! between databases. A later migration that wants to change or drop the
//! constraint then has to look the name up first. This rule reports
//! `ALTER TABLE ... ADD` of a unique, foreign-key or check constraint that
//! carries no name.

use crate::ast::{AlterOperation, Constraint, StatementNode};
use crate::checks::{
    alter_table_violations, check_alter_table, expr_texts, join_expr_texts, join_names, nothing,
    single, Check, OperationRule,
};
use crate::text::{joined, views_of};
use crate::violation::{violation_of, Violation, ViolationView};
use vstd::prelude::*;

verus! {

/// Reports constraints that `ALTER TABLE` adds without a name.
pub struct UnnamedConstraintCheck;

/// What the rule says of one unnamed constraint: the kind of constraint, how
/// its columns are described, and the name ending that is suggested for it.
pub struct UnnamedConstraint {
    pub constraint_type: Seq<char>,
    pub columns: Seq<char>,
    pub suggested_name: Seq<char>,
}

/// How an unnamed foreign key is described: its columns, then what they refer to.
pub open spec fn foreign_key_description(
    columns: Seq<char>,
    foreign_table: Seq<char>,
    referred_columns: Seq<char>,
) -> Seq<char> {
    "("@ + columns + ") REFERENCES "@ + foreign_table + "("@ + referred_columns + ")"@
}

fn build_foreign_key_description(
    columns: &str,
    foreign_table: &str,
    referred_columns: &str,
) -> (r: String)
    ensures
        r@ == foreign_key_description(columns@, foreign_table@, referred_columns@),
{
    let mut s = String::from_str("(");
    s.append(columns);
    s.append(") REFERENCES ");
    s.append(foreign_table);
    s.append("(");
    s.append(referred_columns);
    s.append(")");
    s
}

/// How an unnamed check constraint is described: its expression in parentheses.
pub open spec fn check_description(expr: Seq<char>) -> Seq<char> {
    "("@ + expr + ")"@
}

fn build_check_description(expr: &str) -> (r: String)
    ensures
        r@ == check_description(expr@),
{
    let mut s = String::from_str("(");
    s.append(expr);
    s.append(")");
    s
}

/// Why an unnamed constraint of the given kind on `table` is a problem.
pub open spec fn problem_text(constraint_type: Seq<char>, table: Seq<char>) -> Seq<char> {
    "Adding unnamed "@ + constraint_type + " constraint on table '"@ + table
    + "' will receive an auto-generated name from PostgreSQL. "@
    + "This makes future migrations difficult, "@
    + "as the generated name varies between databases and requires querying the database to find the constraint name before modifying or dropping it."@
}

fn build_problem_text(constraint_type: &str, table: &str) -> (r: String)
    ensures
        r@ == problem_text(constraint_type@, table@),
{
    let mut s = String::from_str("Adding unnamed ");
    s.append(constraint_type);
    s.append(" constraint on table '");
    s.append(table);
    s.append("' will receive an auto-generated name from PostgreSQL. ");
    s.append("This makes future migrations difficult, ");
    s.append("as the generated name varies between databases and requires querying the database to find the constraint name before modifying or dropping it.");
    s
}

/// What to write in place of the unnamed constraint.
pub open spec fn safe_alternative_text(
    table: Seq<char>,
    constraint_type: Seq<char>,
    columns: Seq<char>,
    suggested_name: Seq<char>,
) -> Seq<char> {
    "Always name constraints explicitly using the CONSTRAINT keyword:\n"@
    + "\n"@
    + "Instead of:\n"@
    + "   ALTER TABLE "@ + table + " ADD "@ + constraint_type + " "@ + columns + ";\n"@
    + "\n"@
    + "Use:\n"@
    + "   ALTER TABLE "@ + table + " ADD CONSTRAINT "@ + table + "_"@ + suggested_name + " "@ + constraint_type + " "@ + columns + ";\n"@
    + "\n"@
    + "Named constraints make future migrations predictable and maintainable:\n"@
    + "   -- Easy to reference in later migrations\n"@
    + "   ALTER TABLE "@ + table + " DROP CONSTRAINT "@ + table + "_"@ + suggested_name + ";\n"@
    + "\n"@
    + "Note: Choose descriptive names that indicate the table, columns, and constraint type.\n"@
    + "Common patterns:\n"@
    + "  - UNIQUE: "@ + table + "_<column>_key or "@ + table + "_<column1>_<column2>_key\n"@
    + "  - FOREIGN KEY: "@ + table + "_<column>_fkey\n"@
    + "  - CHECK: "@ + table + "_<column>_check or "@ + table + "_<description>_check"@
}

fn build_safe_alternative_text(
    table: &str,
    constraint_type: &str,
    columns: &str,
    suggested_name: &str,
) -> (r: String)
    ensures
        r@ == safe_alternative_text(table@, constraint_type@, columns@, suggested_name@),
{
    let mut s = String::from_str("Always name constraints explicitly using the CONSTRAINT keyword:\n");
    s.append("\n");
    s.append("Instead of:\n");
    s.append("   ALTER TABLE ");
    s.append(table);
    s.append(" ADD ");
    s.append(constraint_type);
    s.append(" ");
    s.append(columns);
    s.append(";\n");
    s.append("\n");
    s.append("Use:\n");
    s.append("   ALTER TABLE ");
    s.append(table);
    s.append(" ADD CONSTRAINT ");
    s.append(table);
    s.append("_");
    s.append(suggested_name);
    s.append(" ");
    s.append(constraint_type);
    s.append(" ");
    s.append(columns);
    s.append(";\n");
    s.append("\n");
    s.append("Named constraints make future migrations predictable and maintainable:\n");
    s.append("   -- Easy to reference in later migrations\n");
    s.append("   ALTER TABLE ");
    s.append(table);
    s.append(" DROP CONSTRAINT ");
    s.append(table);
    s.append("_");
    s.append(suggested_name);
    s.append(";\n");
    s.append("\n");
    s.append("Note: Choose descriptive names that indicate the table, columns, and constraint type.\n");
    s.append("Common patterns:\n");
    s.append("  - UNIQUE: ");
    s.append(table);
    s.append("_<column>_key or ");
    s.append(table);
    s.append("_<column1>_<column2>_key\n");
    s.append("  - FOREIGN KEY: ");
    s.append(table);
    s.append("_<column>_fkey\n");
    s.append("  - CHECK: ");
    s.append(table);
    s.append("_<column>_check or ");
    s.append(table);
    s.append("_<description>_check");
    s
}


impl UnnamedConstraintCheck {
    /// The description of `constraint` if it is a unique, foreign-key or
    /// check constraint without a name; `None` for every other constraint.
    pub open spec fn unnamed(constraint: Constraint) -> Option<UnnamedConstraint> {
        match constraint {
            Constraint::Unique { name: None, columns } => Some(
                UnnamedConstraint {
                    constraint_type: "UNIQUE"@,
                    columns: joined(expr_texts(columns@), ", "@),
                    suggested_name: "column_key"@,
                },
            ),
            Constraint::ForeignKey {
                name: None,
                columns,
                foreign_table,
                referred_columns,
            } => Some(
                UnnamedConstraint {
                    constraint_type: "FOREIGN KEY"@,
                    columns: foreign_key_description(
                        joined(views_of(columns@), ", "@),
                        foreign_table@,
                        joined(views_of(referred_columns@), ", "@),
                    ),
                    suggested_name: "column_fkey"@,
                },
            ),
            Constraint::Check { name: None, expr } => Some(
                UnnamedConstraint {
                    constraint_type: "CHECK"@,
                    columns: check_description(expr@),
                    suggested_name: "column_check"@,
                },
            ),
            _ => None,
        }
    }

    fn report(table: &str, constraint_type: &str, columns: &str, suggested_name: &str) -> (v:
        Violation)
        ensures
            v@ == violation_of(
                "Unnamed constraint"@,
                problem_text(constraint_type@, table@),
                safe_alternative_text(table@, constraint_type@, columns@, suggested_name@),
            ),
    {
        Violation::new(
            String::from_str("Unnamed constraint"),
            build_problem_text(constraint_type, table),
            build_safe_alternative_text(table, constraint_type, columns, suggested_name),
        )
    }

}

impl OperationRule for UnnamedConstraintCheck {
    /// What the rule reports about one operation on `table`: one violation
    /// for an unnamed constraint that is added, nothing otherwise.
    open spec fn operation_violations(table: Seq<char>, op: AlterOperation) -> Seq<
        ViolationView,
    > {
        match op {
            AlterOperation::AddConstraint { constraint } => match Self::unnamed(constraint) {
                Some(found) => seq![
                    violation_of(
                        "Unnamed constraint"@,
                        problem_text(found.constraint_type, table),
                        safe_alternative_text(
                            table,
                            found.constraint_type,
                            found.columns,
                            found.suggested_name,
                        ),
                    ),
                ],
                None => Seq::empty(),
            },
            _ => Seq::empty(),
        }
    }

    fn check_operation(table: &str, op: &AlterOperation) -> (found: Vec<Violation>) {
        if let AlterOperation::AddConstraint { constraint } = op {
            match constraint {
                Constraint::Unique { name, columns } => {
                    if name.is_none() {
                        let cols = join_expr_texts(columns);
                        return single(Self::report(table, "UNIQUE", cols.as_str(), "column_key"));
                    }
                },
                Constraint::ForeignKey { name, columns, foreign_table, referred_columns } => {
                    if name.is_none() {
                        let cols = join_names(columns);
                        let foreign_cols = join_names(referred_columns);
                        let desc = build_foreign_key_description(
                            cols.as_str(),
                            foreign_table.as_str(),
                            foreign_cols.as_str(),
                        );
                        return single(
                            Self::report(table, "FOREIGN KEY", desc.as_str(), "column_fkey"),
                        );
                    }
                },
                Constraint::Check { name, expr } => {
                    if name.is_none() {
                        let desc = build_check_description(expr.as_str());
                        return single(Self::report(table, "CHECK", desc.as_str(), "column_check"));
                    }
                },
                _ => {},
            }
        }
        nothing()
    }
}

impl Check for UnnamedConstraintCheck {
    /// One violation for each unnamed unique, foreign-key or check constraint
    /// that an `ALTER TABLE` statement adds, in the order of its operations.
    open spec fn violations(&self, stmt: &StatementNode) -> Seq<ViolationView> {
        alter_table_violations::<Self>(stmt)
    }

    fn check(&self, stmt: &StatementNode) -> (found: Vec<Violation>) {
        check_alter_table::<Self>(stmt)
    }
}

} // verus!
