//! Primary keys of a short integer type.
//!
//! A `SMALLINT` key runs out at about 32,767 rows and an `INT` key at about 2.1
//! billion, which a busy table reaches sooner than expected. Widening the
//! column later rewrites the table under an ACCESS EXCLUSIVE lock. This rule
//! reports primary-key columns of the types `SMALLINT`, `INT2`, `INT`,
//! `INTEGER` and `INT4`, where one statement shows both the column's type and
//! that it is a primary key:
//!
//! - a column of `CREATE TABLE` or of `ADD COLUMN` that is marked `PRIMARY
//! KEY`; - a `PRIMARY KEY (..)` constraint of `CREATE TABLE`, for each of its
//! columns that the statement defines; - a `PRIMARY KEY (..)` constraint that
//! `ALTER TABLE` adds, for each of its columns that the same statement adds.
//!
//! A key on a column that exists already is not reported: its type is not in
//! the statement.

use crate::ast::{
    AlterOperation, ColumnDefinition, ColumnExpr, Constraint, DataTypeKind, KeyColumn,
    StatementKind, StatementNode,
};
use crate::checks::{
    lemma_reports_done, lemma_reports_start, lemma_reports_step, nothing, reports_of, single,
    Check,
};
use crate::text::str_eq;
use crate::violation::{
    extend_violations, violation_of, violation_views, Violation, ViolationView,
};
use vstd::prelude::*;

verus! {

/// Reports primary keys of a short integer type.
pub struct ShortIntegerPrimaryKeyCheck;

/// A short integer type: its name, and about how many rows it can number.
pub struct ShortInteger {
    pub name: Seq<char>,
    pub limit: Seq<char>,
}

/// Why `int_type` is too small for the primary key `column` of `table`; `limit`
/// is where its values run out.
pub open spec fn problem_text(
    int_type: Seq<char>,
    column: Seq<char>,
    table: Seq<char>,
    limit: Seq<char>,
) -> Seq<char> {
    "Using "@ + int_type + " for primary key column '"@ + column + "' on table '"@ + table + "' risks ID exhaustion at "@ + limit + " records. "@
    + int_type + " can be quickly exhausted in production applications. "@
    + "Changing the type later requires an ALTER COLUMN TYPE operation that triggers a full table rewrite with an ACCESS EXCLUSIVE lock, "@
    + "blocking all operations. Duration depends on table size."@
}

fn build_problem_text(int_type: &str, column: &str, table: &str, limit: &str) -> (r: String)
    ensures
        r@ == problem_text(int_type@, column@, table@, limit@),
{
    let mut s = String::from_str("Using ");
    s.append(int_type);
    s.append(" for primary key column '");
    s.append(column);
    s.append("' on table '");
    s.append(table);
    s.append("' risks ID exhaustion at ");
    s.append(limit);
    s.append(" records. ");
    s.append(int_type);
    s.append(" can be quickly exhausted in production applications. ");
    s.append("Changing the type later requires an ALTER COLUMN TYPE operation that triggers a full table rewrite with an ACCESS EXCLUSIVE lock, ");
    s.append("blocking all operations. Duration depends on table size.");
    s
}

/// The same column as a `BIGINT`.
pub open spec fn safe_alternative_text(
    table: Seq<char>,
    column: Seq<char>,
    int_type: Seq<char>,
) -> Seq<char> {
    "Use BIGINT for primary keys to avoid ID exhaustion:\n"@
    + "\n"@
    + "Instead of:\n"@
    + "   CREATE TABLE "@ + table + " ("@ + column + " "@ + int_type + " PRIMARY KEY);\n"@
    + "\n"@
    + "Use:\n"@
    + "   CREATE TABLE "@ + table + " ("@ + column + " BIGINT PRIMARY KEY);\n"@
    + "\n"@
    + "BIGINT provides 8 bytes (range: -9.2 quintillion to 9.2 quintillion), "@
    + "which is effectively unlimited\n"@
    + "for auto-incrementing IDs. "@
    + "The minimal storage overhead (4 extra bytes per row) is negligible.\n"@
    + "\n"@
    + "If using SERIAL/SMALLSERIAL, use BIGSERIAL instead:\n"@
    + "   "@ + column + " BIGSERIAL PRIMARY KEY\n"@
    + "\n"@
    + "Note: If this is an intentionally small table (e.g., lookup table with <100 entries),\n"@
    + "use 'safety-assured' to bypass this check."@
}

fn build_safe_alternative_text(table: &str, column: &str, int_type: &str) -> (r: String)
    ensures
        r@ == safe_alternative_text(table@, column@, int_type@),
{
    let mut s = String::from_str("Use BIGINT for primary keys to avoid ID exhaustion:\n");
    s.append("\n");
    s.append("Instead of:\n");
    s.append("   CREATE TABLE ");
    s.append(table);
    s.append(" (");
    s.append(column);
    s.append(" ");
    s.append(int_type);
    s.append(" PRIMARY KEY);\n");
    s.append("\n");
    s.append("Use:\n");
    s.append("   CREATE TABLE ");
    s.append(table);
    s.append(" (");
    s.append(column);
    s.append(" BIGINT PRIMARY KEY);\n");
    s.append("\n");
    s.append("BIGINT provides 8 bytes (range: -9.2 quintillion to 9.2 quintillion), ");
    s.append("which is effectively unlimited\n");
    s.append("for auto-incrementing IDs. ");
    s.append("The minimal storage overhead (4 extra bytes per row) is negligible.\n");
    s.append("\n");
    s.append("If using SERIAL/SMALLSERIAL, use BIGSERIAL instead:\n");
    s.append("   ");
    s.append(column);
    s.append(" BIGSERIAL PRIMARY KEY\n");
    s.append("\n");
    s.append("Note: If this is an intentionally small table (e.g., lookup table with <100 entries),\n");
    s.append("use 'safety-assured' to bypass this check.");
    s
}

/// The short integer type that `kind` is, if it is one.
pub open spec fn short_integer(kind: DataTypeKind) -> Option<ShortInteger> {
    match kind {
        DataTypeKind::SmallInt => Some(ShortInteger { name: "SMALLINT"@, limit: "~32,767"@ }),
        DataTypeKind::Int => Some(ShortInteger { name: "INT"@, limit: "~2.1 billion"@ }),
        DataTypeKind::Integer => Some(ShortInteger { name: "INTEGER"@, limit: "~2.1 billion"@ }),
        DataTypeKind::Int2 => Some(ShortInteger { name: "INT2"@, limit: "~32,767"@ }),
        DataTypeKind::Int4 => Some(ShortInteger { name: "INT4"@, limit: "~2.1 billion"@ }),
        _ => None,
    }
}

/// The name and the limit of the short integer type that `kind` is, if it is one.
fn is_short_integer_type(kind: &DataTypeKind) -> (r: Option<(&'static str, &'static str)>)
    ensures
        match r {
            Some((name, limit)) => short_integer(*kind) == Some(
                ShortInteger { name: name@, limit: limit@ },
            ),
            None => short_integer(*kind) is None,
        },
{
    match kind {
        DataTypeKind::SmallInt => Some(("SMALLINT", "~32,767")),
        DataTypeKind::Int => Some(("INT", "~2.1 billion")),
        DataTypeKind::Integer => Some(("INTEGER", "~2.1 billion")),
        DataTypeKind::Int2 => Some(("INT2", "~32,767")),
        DataTypeKind::Int4 => Some(("INT4", "~2.1 billion")),
        _ => None,
    }
}

/// The column that a key expression names: the identifier itself, or the
/// last part of a qualified name. Any other expression names no column.
pub open spec fn column_name_of(expr: ColumnExpr) -> Option<Seq<char>> {
    match expr {
        ColumnExpr::Identifier { name } => Some(name@),
        ColumnExpr::CompoundIdentifier { parts } => if parts@.len() > 0 {
            Some(parts@.last()@)
        } else {
            None
        },
        ColumnExpr::Other => None,
    }
}

/// The column that a key expression names, if it names one.
fn extract_column_name(expr: &ColumnExpr) -> (r: Option<&String>)
    ensures
        match r {
            Some(name) => column_name_of(*expr) == Some(name@),
            None => column_name_of(*expr) is None,
        },
{
    match expr {
        ColumnExpr::Identifier { name } => Some(name),
        ColumnExpr::CompoundIdentifier { parts } => {
            if parts.len() > 0 {
                Some(&parts[parts.len() - 1])
            } else {
                None
            }
        },
        ColumnExpr::Other => None,
    }
}

/// The violation for the primary-key column `column` of `table`, whose type is `int_type`.
pub open spec fn short_key_violation(
    table: Seq<char>,
    column: Seq<char>,
    found: ShortInteger,
) -> ViolationView {
    violation_of(
        "Short integer primary key"@,
        problem_text(found.name, column, table, found.limit),
        safe_alternative_text(table, column, found.name),
    )
}

/// The violation for a primary-key column of a short integer type.
pub fn create_violation(table_name: &str, column_name: &str, int_type: &str, limit: &str) -> (v:
    Violation)
    ensures
        v@ == short_key_violation(
            table_name@,
            column_name@,
            ShortInteger { name: int_type@, limit: limit@ },
        ),
{
    Violation::new(
        String::from_str("Short integer primary key"),
        build_problem_text(int_type, column_name, table_name, limit),
        build_safe_alternative_text(table_name, column_name, int_type),
    )
}

/// What is reported about a column under the name `column`, given its type:
/// one violation where the type is a short integer, nothing otherwise.
pub open spec fn typed_column_violations(
    table: Seq<char>,
    column: Seq<char>,
    kind: DataTypeKind,
) -> Seq<
    ViolationView,
> {
    match short_integer(kind) {
        Some(found) => seq![short_key_violation(table, column, found)],
        None => Seq::empty(),
    }
}

fn check_typed_column(table: &str, column: &str, kind: &DataTypeKind) -> (found: Vec<Violation>)
    ensures
        violation_views(found@) == typed_column_violations(table@, column@, *kind),
{
    match is_short_integer_type(kind) {
        Some((name, limit)) => single(create_violation(table, column, name, limit)),
        None => nothing(),
    }
}

/// What is reported about one column definition: one violation where it is
/// marked `PRIMARY KEY` and has a short integer type, nothing otherwise.
pub open spec fn inline_key_violations(table: Seq<char>, column: ColumnDefinition) -> Seq<
    ViolationView,
> {
    if column.is_primary_key() {
        typed_column_violations(table, column.name@, column.data_type.kind)
    } else {
        Seq::empty()
    }
}

fn check_inline_key(table: &str, column: &ColumnDefinition) -> (found: Vec<Violation>)
    ensures
        violation_views(found@) == inline_key_violations(table@, *column),
{
    if column.has_primary_key_option() {
        check_typed_column(table, column.name.as_str(), &column.data_type.kind)
    } else {
        nothing()
    }
}

/// The first of `columns` that is named `name`.
pub open spec fn defined_column(columns: Seq<ColumnDefinition>, name: Seq<char>) -> Option<
    ColumnDefinition,
>
    decreases columns.len(),
{
    if columns.len() == 0 {
        None
    } else if columns.first().name@ == name {
        Some(columns.first())
    } else {
        defined_column(columns.drop_first(), name)
    }
}

/// The first column named `name` that one of `operations` adds.
pub open spec fn added_column(operations: Seq<AlterOperation>, name: Seq<char>) -> Option<
    ColumnDefinition,
>
    decreases operations.len(),
{
    if operations.len() == 0 {
        None
    } else {
        match operations.first() {
            AlterOperation::AddColumn { column_def } if column_def.name@ == name => Some(
                column_def,
            ),
            _ => added_column(operations.drop_first(), name),
        }
    }
}

fn find_defined_column<'a>(columns: &'a Vec<ColumnDefinition>, name: &str) -> (r: Option<
    &'a ColumnDefinition,
>)
    ensures
        match r {
            Some(c) => defined_column(columns@, name@) == Some(*c),
            None => defined_column(columns@, name@) is None,
        },
{
    let mut i: usize = 0;
    assert(columns@.subrange(0, columns@.len() as int) =~= columns@);
    while i < columns.len()
        invariant
            i <= columns.len(),
            defined_column(columns@, name@) == defined_column(
                columns@.subrange(i as int, columns@.len() as int),
                name@,
            ),
        decreases columns.len() - i,
    {
        let ghost rest = columns@.subrange(i as int, columns@.len() as int);
        assert(rest.first() == columns@[i as int]);
        assert(rest.drop_first() =~= columns@.subrange(i + 1, columns@.len() as int));
        if str_eq(columns[i].name.as_str(), name) {
            return Some(&columns[i]);
        }
        i = i + 1;
    }
    None
}

fn find_added_column<'a>(operations: &'a Vec<AlterOperation>, name: &str) -> (r: Option<
    &'a ColumnDefinition,
>)
    ensures
        match r {
            Some(c) => added_column(operations@, name@) == Some(*c),
            None => added_column(operations@, name@) is None,
        },
{
    let mut i: usize = 0;
    assert(operations@.subrange(0, operations@.len() as int) =~= operations@);
    while i < operations.len()
        invariant
            i <= operations.len(),
            added_column(operations@, name@) == added_column(
                operations@.subrange(i as int, operations@.len() as int),
                name@,
            ),
        decreases operations.len() - i,
    {
        let ghost rest = operations@.subrange(i as int, operations@.len() as int);
        assert(rest.first() == operations@[i as int]);
        assert(rest.drop_first() =~= operations@.subrange(i + 1, operations@.len() as int));
        if let AlterOperation::AddColumn { column_def } = &operations[i] {
            if str_eq(column_def.name.as_str(), name) {
                return Some(column_def);
            }
        }
        i = i + 1;
    }
    None
}

/// What is reported about one column of a primary-key constraint, where
/// `definition` is the definition that the statement holds of the column it
/// names: one violation where there is such a definition and its type is a
/// short integer, nothing otherwise.
pub open spec fn key_column_violations(
    table: Seq<char>,
    key: KeyColumn,
    definition: spec_fn(Seq<char>) -> Option<ColumnDefinition>,
) -> Seq<ViolationView> {
    match column_name_of(key.expr) {
        Some(name) => match definition(name) {
            Some(column) => typed_column_violations(table, name, column.data_type.kind),
            None => Seq::empty(),
        },
        None => Seq::empty(),
    }
}

/// What is reported about one table constraint of `CREATE TABLE`.
pub open spec fn table_constraint_violations(
    table: Seq<char>,
    columns: Seq<ColumnDefinition>,
    constraint: Constraint,
) -> Seq<ViolationView> {
    match constraint {
        Constraint::PrimaryKey { name, columns: keys } => reports_of(
            keys@,
            |key: KeyColumn|
                key_column_violations(table, key, |n: Seq<char>| defined_column(columns, n)),
        ),
        _ => Seq::empty(),
    }
}

/// What is reported about one operation of `ALTER TABLE` that adds a
/// primary-key constraint, given all operations of the statement.
pub open spec fn added_constraint_violations(
    table: Seq<char>,
    operations: Seq<AlterOperation>,
    op: AlterOperation,
) -> Seq<ViolationView> {
    match op {
        AlterOperation::AddConstraint { constraint: Constraint::PrimaryKey { name, columns: keys } } => reports_of(
            keys@,
            |key: KeyColumn|
                key_column_violations(table, key, |n: Seq<char>| added_column(operations, n)),
        ),
        _ => Seq::empty(),
    }
}

/// What is reported about one operation of `ALTER TABLE` that adds a column.
pub open spec fn added_column_violations(table: Seq<char>, op: AlterOperation) -> Seq<
    ViolationView,
> {
    match op {
        AlterOperation::AddColumn { column_def } => inline_key_violations(table, column_def),
        _ => Seq::empty(),
    }
}

/// Inline `PRIMARY KEY` marks on the columns of `CREATE TABLE`.
fn check_inline_pk_columns(table: &str, columns: &Vec<ColumnDefinition>) -> (found: Vec<
    Violation,
>)
    ensures
        violation_views(found@) == reports_of(
            columns@,
            |c: ColumnDefinition| inline_key_violations(table@, c),
        ),
{
    let mut found = nothing();
    let ghost each = |c: ColumnDefinition| inline_key_violations(table@, c);
    proof {
        lemma_reports_start(columns@, each);
    }
    let mut i: usize = 0;
    while i < columns.len()
        invariant
            i <= columns.len(),
            forall|c: ColumnDefinition| #[trigger] each(c) == inline_key_violations(table@, c),
            violation_views(found@) == reports_of(columns@.take(i as int), each),
        decreases columns.len() - i,
    {
        let more = check_inline_key(table, &columns[i]);
        proof {
            lemma_reports_step(columns@, each, i as int);
        }
        extend_violations(&mut found, more);
        i = i + 1;
    }
    proof {
        lemma_reports_done(columns@, each);
    }
    found
}

/// The columns of one `PRIMARY KEY (..)` constraint of `CREATE TABLE`.
fn check_defined_keys(
    table: &str,
    columns: &Vec<ColumnDefinition>,
    keys: &Vec<KeyColumn>,
) -> (found:
    Vec<Violation>)
    ensures
        violation_views(found@) == reports_of(
            keys@,
            |key: KeyColumn|
                key_column_violations(table@, key, |n: Seq<char>| defined_column(columns@, n)),
        ),
{
    let mut found = nothing();
    let ghost definition = |n: Seq<char>| defined_column(columns@, n);
    let ghost each = |key: KeyColumn| key_column_violations(table@, key, definition);
    proof {
        lemma_reports_start(keys@, each);
    }
    let mut i: usize = 0;
    while i < keys.len()
        invariant
            i <= keys.len(),
            forall|n: Seq<char>| #[trigger] definition(n) == defined_column(columns@, n),
            forall|key: KeyColumn| #[trigger]
                each(key) == key_column_violations(table@, key, definition),
            violation_views(found@) == reports_of(keys@.take(i as int), each),
        decreases keys.len() - i,
    {
        let mut more = nothing();
        if let Some(name) = extract_column_name(&keys[i].expr) {
            if let Some(column) = find_defined_column(columns, name.as_str()) {
                more = check_typed_column(table, name.as_str(), &column.data_type.kind);
            }
        }
        proof {
            lemma_reports_step(keys@, each, i as int);
        }
        extend_violations(&mut found, more);
        i = i + 1;
    }
    proof {
        lemma_reports_done(keys@, each);
    }
    found
}

/// The columns of one `PRIMARY KEY (..)` constraint that `ALTER TABLE` adds.
fn check_added_keys(table: &str, operations: &Vec<AlterOperation>, keys: &Vec<KeyColumn>) -> (found:
    Vec<Violation>)
    ensures
        violation_views(found@) == reports_of(
            keys@,
            |key: KeyColumn|
                key_column_violations(table@, key, |n: Seq<char>| added_column(operations@, n)),
        ),
{
    let mut found = nothing();
    let ghost definition = |n: Seq<char>| added_column(operations@, n);
    let ghost each = |key: KeyColumn| key_column_violations(table@, key, definition);
    proof {
        lemma_reports_start(keys@, each);
    }
    let mut i: usize = 0;
    while i < keys.len()
        invariant
            i <= keys.len(),
            forall|n: Seq<char>| #[trigger] definition(n) == added_column(operations@, n),
            forall|key: KeyColumn| #[trigger]
                each(key) == key_column_violations(table@, key, definition),
            violation_views(found@) == reports_of(keys@.take(i as int), each),
        decreases keys.len() - i,
    {
        let mut more = nothing();
        if let Some(name) = extract_column_name(&keys[i].expr) {
            if let Some(column) = find_added_column(operations, name.as_str()) {
                more = check_typed_column(table, name.as_str(), &column.data_type.kind);
            }
        }
        proof {
            lemma_reports_step(keys@, each, i as int);
        }
        extend_violations(&mut found, more);
        i = i + 1;
    }
    proof {
        lemma_reports_done(keys@, each);
    }
    found
}

/// `PRIMARY KEY (..)` constraints of `CREATE TABLE`.
fn check_table_pk_constraints(
    table: &str,
    columns: &Vec<ColumnDefinition>,
    constraints: &Vec<Constraint>,
) -> (found: Vec<Violation>)
    ensures
        violation_views(found@) == reports_of(
            constraints@,
            |c: Constraint| table_constraint_violations(table@, columns@, c),
        ),
{
    let mut found = nothing();
    let ghost each = |c: Constraint| table_constraint_violations(table@, columns@, c);
    proof {
        lemma_reports_start(constraints@, each);
    }
    let mut i: usize = 0;
    while i < constraints.len()
        invariant
            i <= constraints.len(),
            forall|c: Constraint| #[trigger]
                each(c) == table_constraint_violations(table@, columns@, c),
            violation_views(found@) == reports_of(constraints@.take(i as int), each),
        decreases constraints.len() - i,
    {
        let mut more = nothing();
        if let Constraint::PrimaryKey { name, columns: keys } = &constraints[i] {
            more = check_defined_keys(table, columns, keys);
        }
        proof {
            lemma_reports_step(constraints@, each, i as int);
        }
        extend_violations(&mut found, more);
        i = i + 1;
    }
    proof {
        lemma_reports_done(constraints@, each);
    }
    found
}

/// Columns that `ALTER TABLE` adds with an inline `PRIMARY KEY` mark.
fn check_alter_add_column_pk(table: &str, operations: &Vec<AlterOperation>) -> (found: Vec<
    Violation,
>)
    ensures
        violation_views(found@) == reports_of(
            operations@,
            |op: AlterOperation| added_column_violations(table@, op),
        ),
{
    let mut found = nothing();
    let ghost each = |op: AlterOperation| added_column_violations(table@, op);
    proof {
        lemma_reports_start(operations@, each);
    }
    let mut i: usize = 0;
    while i < operations.len()
        invariant
            i <= operations.len(),
            forall|op: AlterOperation| #[trigger] each(op) == added_column_violations(table@, op),
            violation_views(found@) == reports_of(operations@.take(i as int), each),
        decreases operations.len() - i,
    {
        let mut more = nothing();
        if let AlterOperation::AddColumn { column_def } = &operations[i] {
            more = check_inline_key(table, column_def);
        }
        proof {
            lemma_reports_step(operations@, each, i as int);
        }
        extend_violations(&mut found, more);
        i = i + 1;
    }
    proof {
        lemma_reports_done(operations@, each);
    }
    found
}

/// `PRIMARY KEY (..)` constraints that `ALTER TABLE` adds, on columns that
/// the same statement adds.
fn check_alter_add_constraint_pk(table: &str, operations: &Vec<AlterOperation>) -> (found: Vec<
    Violation,
>)
    ensures
        violation_views(found@) == reports_of(
            operations@,
            |op: AlterOperation| added_constraint_violations(table@, operations@, op),
        ),
{
    let mut found = nothing();
    let ghost each = |op: AlterOperation| added_constraint_violations(table@, operations@, op);
    proof {
        lemma_reports_start(operations@, each);
    }
    let mut i: usize = 0;
    while i < operations.len()
        invariant
            i <= operations.len(),
            forall|op: AlterOperation| #[trigger]
                each(op) == added_constraint_violations(table@, operations@, op),
            violation_views(found@) == reports_of(operations@.take(i as int), each),
        decreases operations.len() - i,
    {
        let mut more = nothing();
        if let AlterOperation::AddConstraint {
            constraint: Constraint::PrimaryKey { name, columns: keys },
        } = &operations[i] {
            more = check_added_keys(table, operations, keys);
        }
        proof {
            lemma_reports_step(operations@, each, i as int);
        }
        extend_violations(&mut found, more);
        i = i + 1;
    }
    proof {
        lemma_reports_done(operations@, each);
    }
    found
}

impl Check for ShortIntegerPrimaryKeyCheck {
    /// For `CREATE TABLE`: the violations of the columns marked
    /// `PRIMARY KEY`, then those of the `PRIMARY KEY (..)` constraints. For
    /// `ALTER TABLE`: the violations of the added columns marked
    /// `PRIMARY KEY`, then those of the added `PRIMARY KEY (..)` constraints.
    /// Nothing for any other statement.
    open spec fn violations(&self, stmt: &StatementNode) -> Seq<ViolationView> {
        match stmt.kind {
            StatementKind::CreateTable { name, columns, constraints } => reports_of(
                columns@,
                |c: ColumnDefinition| inline_key_violations(name@, c),
            ) + reports_of(
                constraints@,
                |c: Constraint| table_constraint_violations(name@, columns@, c),
            ),
            StatementKind::AlterTable { name, operations } => reports_of(
                operations@,
                |op: AlterOperation| added_column_violations(name@, op),
            ) + reports_of(
                operations@,
                |op: AlterOperation| added_constraint_violations(name@, operations@, op),
            ),
            _ => Seq::empty(),
        }
    }

    fn check(&self, stmt: &StatementNode) -> (found: Vec<Violation>) {
        match &stmt.kind {
            StatementKind::CreateTable { name, columns, constraints } => {
                let mut found = check_inline_pk_columns(name.as_str(), columns);
                let more = check_table_pk_constraints(name.as_str(), columns, constraints);
                extend_violations(&mut found, more);
                found
            },
            StatementKind::AlterTable { name, operations } => {
                let mut found = check_alter_add_column_pk(name.as_str(), operations);
                let more = check_alter_add_constraint_pk(name.as_str(), operations);
                extend_violations(&mut found, more);
                found
            },
            _ => nothing(),
        }
    }
}

} // verus!
