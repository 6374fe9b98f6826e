//! The rules, and the registry that runs them.

pub mod add_column;
pub mod add_index;
pub mod add_json_column;
pub mod add_not_null;
pub mod add_primary_key;
pub mod add_serial_column;
pub mod add_unique_constraint;
pub mod alter_column_type;
pub mod create_extension;
pub mod drop_column;
pub mod drop_primary_key;
pub mod location;
pub mod registry;
pub mod rename_column;
pub mod rename_table;
pub mod short_int_primary_key;
pub mod truncate_table;
pub mod unnamed_constraint;
pub mod wide_index;

pub use add_column::AddColumnCheck;
pub use add_index::AddIndexCheck;
pub use add_json_column::AddJsonColumnCheck;
pub use add_not_null::AddNotNullCheck;
pub use add_primary_key::AddPrimaryKeyCheck;
pub use add_serial_column::AddSerialColumnCheck;
pub use add_unique_constraint::AddUniqueConstraintCheck;
pub use alter_column_type::AlterColumnTypeCheck;
pub use create_extension::CreateExtensionCheck;
pub use drop_column::DropColumnCheck;
pub use drop_primary_key::DropPrimaryKeyCheck;
pub use location::{locate_statements, StatementLocation};
pub use registry::{all_kinds, all_names, CheckKind, Registry};
pub use rename_column::RenameColumnCheck;
pub use rename_table::RenameTableCheck;
pub use short_int_primary_key::ShortIntegerPrimaryKeyCheck;
pub use truncate_table::TruncateTableCheck;
pub use unnamed_constraint::UnnamedConstraintCheck;
pub use wide_index::WideIndexCheck;

use crate::ast::{AlterOperation, KeyColumn, StatementKind, StatementNode};
use crate::text::{join, joined, views_of};
use crate::violation::{extend_violations, violation_views, Violation, ViolationView};
use vstd::prelude::*;

verus! {

/// A rule: one detector of one unsafe pattern. It looks at a single
/// statement and reports what it finds; most statements give nothing.
pub trait Check {
    /// What the rule reports about `stmt`.
    spec fn violations(&self, stmt: &StatementNode) -> Seq<ViolationView>;

    /// Runs the rule on `stmt`.
    fn check(&self, stmt: &StatementNode) -> (found: Vec<Violation>)
        ensures
            violation_views(found@) == self.violations(stmt),
    ;
}

/// The text of `value`, or `default` where there is none.
pub open spec fn text_or_default(value: Option<Seq<char>>, default: Seq<char>) -> Seq<char> {
    match value {
        Some(v) => v,
        None => default,
    }
}

/// The view of an optional string.
pub open spec fn option_view(value: Option<String>) -> Option<Seq<char>> {
    match value {
        Some(v) => Some(v@),
        None => None,
    }
}

/// The text of `value`, or `default` where there is none.
pub fn display_or_default(value: Option<&String>, default: &str) -> (r: String)
    ensures
        r@ == match value {
            Some(v) => v@,
            None => default@,
        },
{
    match value {
        Some(v) => v.clone(),
        None => String::from_str(default),
    }
}

/// `"UNIQUE "` for a unique index, nothing for any other.
pub fn unique_prefix(is_unique: bool) -> (r: &'static str)
    ensures
        r@ == if is_unique {
            "UNIQUE "@
        } else {
            ""@
        },
{
    if is_unique {
        "UNIQUE "
    } else {
        ""
    }
}

/// `" IF EXISTS"` where the statement said so, else nothing.
pub fn if_exists_clause(if_exists: bool) -> (r: &'static str)
    ensures
        r@ == if if_exists {
            " IF EXISTS"@
        } else {
            ""@
        },
{
    if if_exists {
        " IF EXISTS"
    } else {
        ""
    }
}

/// What a rule reports about a list of items, where `f` says what it reports
/// about each: the reports of all items, in the items' order.
pub open spec fn reports_of<A>(items: Seq<A>, f: spec_fn(A) -> Seq<ViolationView>) -> Seq<
    ViolationView,
> {
    items.map_values(f).flatten()
}

/// No items, no reports.
pub proof fn lemma_reports_start<A>(items: Seq<A>, f: spec_fn(A) -> Seq<ViolationView>)
    ensures
        reports_of(items.take(0), f) == Seq::<ViolationView>::empty(),
{
    assert(items.take(0).map_values(f) =~= Seq::<Seq<ViolationView>>::empty());
}

/// Where no item has a report, there are no reports.
pub proof fn lemma_reports_of_nothing<A>(items: Seq<A>, f: spec_fn(A) -> Seq<ViolationView>)
    requires
        forall|i: int| 0 <= i < items.len() ==> f(#[trigger] items[i]).len() == 0,
    ensures
        reports_of(items, f) == Seq::<ViolationView>::empty(),
    decreases items.len(),
{
    if items.len() > 0 {
        let rest = items.drop_first();
        assert forall|i: int| 0 <= i < rest.len() implies f(#[trigger] rest[i]).len() == 0 by {
            assert(rest[i] == items[i + 1]);
        }
        lemma_reports_of_nothing(rest, f);
        assert(items.map_values(f).drop_first() =~= rest.map_values(f));
        assert(items.map_values(f).first() == f(items[0]));
        assert(f(items[0]) =~= Seq::<ViolationView>::empty());
    } else {
        assert(items.map_values(f) =~= Seq::<Seq<ViolationView>>::empty());
    }
}

/// One more item adds its reports at the end.
pub proof fn lemma_reports_step<A>(items: Seq<A>, f: spec_fn(A) -> Seq<ViolationView>, i: int)
    requires
        0 <= i < items.len(),
    ensures
        reports_of(items.take(i + 1), f) == reports_of(items.take(i), f) + f(items[i]),
{
    assert(items.take(i + 1).map_values(f) =~= items.take(i).map_values(f).push(f(items[i])));
    items.take(i).map_values(f).lemma_flatten_push(f(items[i]));
}

/// Once every item is taken, the reports are those of the whole list.
pub proof fn lemma_reports_done<A>(items: Seq<A>, f: spec_fn(A) -> Seq<ViolationView>)
    ensures
        reports_of(items.take(items.len() as int), f) == reports_of(items, f),
{
    assert(items.take(items.len() as int) =~= items);
}


/// The renderings of the expressions of `columns`, in order.
pub open spec fn expr_texts(columns: Seq<KeyColumn>) -> Seq<Seq<char>> {
    Seq::new(columns.len(), |i: int| columns[i].expr_text@)
}

/// The renderings of `columns` themselves, in order.
pub open spec fn column_texts(columns: Seq<KeyColumn>) -> Seq<Seq<char>> {
    Seq::new(columns.len(), |i: int| columns[i].text@)
}

/// The expressions of `columns`, separated by a comma and a space.
pub fn join_expr_texts(columns: &Vec<KeyColumn>) -> (r: String)
    ensures
        r@ == joined(expr_texts(columns@), ", "@),
{
    let mut texts: Vec<String> = Vec::new();
    let mut i: usize = 0;
    while i < columns.len()
        invariant
            i <= columns.len(),
            views_of(texts@) == expr_texts(columns@).take(i as int),
        decreases columns.len() - i,
    {
        let t = columns[i].expr_text.clone();
        proof {
            let all = expr_texts(columns@);
            assert(t@ == all[i as int]);
            assert(views_of(texts@.push(t)) =~= views_of(texts@).push(t@));
            assert(all.take(i + 1) =~= all.take(i as int).push(all[i as int]));
        }
        texts.push(t);
        i = i + 1;
    }
    assert(expr_texts(columns@).take(columns@.len() as int) =~= expr_texts(columns@));
    join(&texts, ", ")
}

/// The items of `names`, separated by a comma and a space.
pub fn join_names(names: &Vec<String>) -> (r: String)
    ensures
        r@ == joined(views_of(names@), ", "@),
{
    join(names, ", ")
}


/// A rule about `ALTER TABLE` that looks at one operation at a time.
pub trait OperationRule {
    /// What the rule reports about one operation on `table`.
    spec fn operation_violations(table: Seq<char>, op: AlterOperation) -> Seq<ViolationView>;

    /// Runs the rule on one operation on `table`.
    fn check_operation(table: &str, op: &AlterOperation) -> (found: Vec<Violation>)
        ensures
            violation_views(found@) == Self::operation_violations(table@, *op),
    ;
}

/// What an operation rule reports about a statement: for `ALTER TABLE`, what
/// it reports about each operation, in the operations' order; for any other
/// statement, nothing.
pub open spec fn alter_table_violations<R: OperationRule>(stmt: &StatementNode) -> Seq<
    ViolationView,
> {
    match stmt.kind {
        StatementKind::AlterTable { name, operations } => reports_of(
            operations@,
            |op: AlterOperation| R::operation_violations(name@, op),
        ),
        _ => Seq::empty(),
    }
}

/// Runs an operation rule on every operation of an `ALTER TABLE` statement.
pub fn check_alter_table<R: OperationRule>(stmt: &StatementNode) -> (found: Vec<Violation>)
    ensures
        violation_views(found@) == alter_table_violations::<R>(stmt),
{
    let mut found: Vec<Violation> = Vec::new();
    assert(violation_views(found@) =~= Seq::<ViolationView>::empty());
    if let StatementKind::AlterTable { name, operations } = &stmt.kind {
        let ghost each = |op: AlterOperation| R::operation_violations(name@, op);
        proof {
            lemma_reports_start(operations@, each);
        }
        let mut i: usize = 0;
        while i < operations.len()
            invariant
                i <= operations.len(),
                forall|op: AlterOperation| #[trigger] each(op) == R::operation_violations(name@, op),
                violation_views(found@) == reports_of(operations@.take(i as int), each),
            decreases operations.len() - i,
        {
            let more = R::check_operation(name.as_str(), &operations[i]);
            proof {
                lemma_reports_step(operations@, each, i as int);
            }
            extend_violations(&mut found, more);
            i = i + 1;
        }
        proof {
            lemma_reports_done(operations@, each);
        }
    }
    found
}

/// A list that holds `v` alone.
pub fn single(v: Violation) -> (found: Vec<Violation>)
    ensures
        violation_views(found@) == seq![v@],
{
    let mut found: Vec<Violation> = Vec::new();
    found.push(v);
    assert(violation_views(found@) =~= seq![v@]);
    found
}

/// A list that holds nothing.
pub fn nothing() -> (found: Vec<Violation>)
    ensures
        violation_views(found@) == Seq::<ViolationView>::empty(),
{
    let found: Vec<Violation> = Vec::new();
    assert(violation_views(found@) =~= Seq::<ViolationView>::empty());
    found
}

} // verus!
