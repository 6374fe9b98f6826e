//! `CREATE EXTENSION` in a migration.
//!
//! Creating an extension usually needs superuser rights, which the
//! application's database user does not have in production. Extensions belong
//! to the set-up of the database, not to the migrations of the application.
//! This rule reports every `CREATE EXTENSION`.

use crate::ast::{StatementKind, StatementNode};
use crate::checks::{nothing, single, Check};
use crate::violation::{violation_of, Violation, ViolationView};
use vstd::prelude::*;

verus! {

/// Reports `CREATE EXTENSION`.
pub struct CreateExtensionCheck;

/// Why creating `extension` in a migration is a problem.
pub open spec fn problem_text(extension: Seq<char>) -> Seq<char> {
    "Creating extension '"@ + extension + "' in a migration requires superuser privileges, "@
    + "which application database users typically lack in production. "@
    + "Extensions are infrastructure concerns that should be managed outside application migrations."@
}

fn build_problem_text(extension: &str) -> (r: String)
    ensures
        r@ == problem_text(extension@),
{
    let mut s = String::from_str("Creating extension '");
    s.append(extension);
    s.append("' in a migration requires superuser privileges, ");
    s.append("which application database users typically lack in production. ");
    s.append("Extensions are infrastructure concerns that should be managed outside application migrations.");
    s
}

/// Where to install the extension instead; `if_not_exists` is the clause that
/// the statement carried.
pub open spec fn safe_alternative_text(
    if_not_exists: Seq<char>,
    extension: Seq<char>,
) -> Seq<char> {
    "Install the extension outside of migrations:\n"@
    + "\n"@
    + "1. For local development, add to your database setup scripts:\n"@
    + "   CREATE EXTENSION "@ + if_not_exists + extension + ";\n"@
    + "\n"@
    + "2. For production, use infrastructure automation (Ansible, Terraform, etc.):\n"@
    + "   - Include extension installation in database provisioning\n"@
    + "   - Grant appropriate privileges to superuser/admin role\n"@
    + "   - Run before deploying application migrations\n"@
    + "\n"@
    + "3. Document required extensions in your project README\n"@
    + "\n"@
    + "Note: Common extensions like pg_trgm, uuid-ossp, hstore, and postgis should be\n"@
    + "installed by your DBA or infrastructure team before application deployment."@
}

fn build_safe_alternative_text(if_not_exists: &str, extension: &str) -> (r: String)
    ensures
        r@ == safe_alternative_text(if_not_exists@, extension@),
{
    let mut s = String::from_str("Install the extension outside of migrations:\n");
    s.append("\n");
    s.append("1. For local development, add to your database setup scripts:\n");
    s.append("   CREATE EXTENSION ");
    s.append(if_not_exists);
    s.append(extension);
    s.append(";\n");
    s.append("\n");
    s.append("2. For production, use infrastructure automation (Ansible, Terraform, etc.):\n");
    s.append("   - Include extension installation in database provisioning\n");
    s.append("   - Grant appropriate privileges to superuser/admin role\n");
    s.append("   - Run before deploying application migrations\n");
    s.append("\n");
    s.append("3. Document required extensions in your project README\n");
    s.append("\n");
    s.append("Note: Common extensions like pg_trgm, uuid-ossp, hstore, and postgis should be\n");
    s.append("installed by your DBA or infrastructure team before application deployment.");
    s
}

impl Check for CreateExtensionCheck {
    /// One violation for a `CREATE EXTENSION` statement, nothing for any other.
    open spec fn violations(&self, stmt: &StatementNode) -> Seq<ViolationView> {
        match stmt.kind {
            StatementKind::CreateExtension { name, if_not_exists } => seq![
                violation_of(
                    "CREATE EXTENSION"@,
                    problem_text(name@),
                    safe_alternative_text(
                        if if_not_exists {
                            "IF NOT EXISTS "@
                        } else {
                            ""@
                        },
                        name@,
                    ),
                ),
            ],
            _ => Seq::empty(),
        }
    }

    fn check(&self, stmt: &StatementNode) -> (found: Vec<Violation>) {
        if let StatementKind::CreateExtension { name, if_not_exists } = &stmt.kind {
            let clause = if *if_not_exists {
                "IF NOT EXISTS "
            } else {
                ""
            };
            return single(
                Violation::new(
                    String::from_str("CREATE EXTENSION"),
                    build_problem_text(name.as_str()),
                    build_safe_alternative_text(clause, name.as_str()),
                ),
            );
        }
        nothing()
    }
}

} // verus!
