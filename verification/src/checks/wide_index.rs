//! Indexes on more than three columns.
//!
//! PostgreSQL uses a multi-column index well only for conditions on its leading
//! columns, in order. An index on four columns or more is seldom worth the
//! space it takes and the writes it slows down. This rule reports every `CREATE
//! INDEX` on more than three columns.

use crate::ast::{KeyColumn, StatementKind, StatementNode};
use crate::checks::{
    column_texts, display_or_default, nothing, option_view, single, text_or_default, Check,
};
use crate::text::{decimal, decimal_string, join, joined, views_of};
use crate::violation::{violation_of, Violation, ViolationView};
use vstd::prelude::*;

verus! {

/// Reports indexes on more than three columns.
pub struct WideIndexCheck;

/// Why an index on `count` columns is a problem; `columns` lists them.
pub open spec fn problem_text(
    index: Seq<char>,
    table: Seq<char>,
    count: Seq<char>,
    columns: Seq<char>,
) -> Seq<char> {
    "Index '"@ + index + "' on table '"@ + table + "' has "@ + count + " columns ("@ + columns + "). "@
    + "Wide indexes (4+ columns) are rarely effective because PostgreSQL can only use them efficiently when filtering on leftmost columns in order. "@
    + "They also increase storage costs and slow down writes."@
}

fn build_problem_text(index: &str, table: &str, count: &str, columns: &str) -> (r: String)
    ensures
        r@ == problem_text(index@, table@, count@, columns@),
{
    let mut s = String::from_str("Index '");
    s.append(index);
    s.append("' on table '");
    s.append(table);
    s.append("' has ");
    s.append(count);
    s.append(" columns (");
    s.append(columns);
    s.append("). ");
    s.append("Wide indexes (4+ columns) are rarely effective because PostgreSQL can only use them efficiently when filtering on leftmost columns in order. ");
    s.append("They also increase storage costs and slow down writes.");
    s
}

/// Narrower indexes to consider in place of the wide one.
pub open spec fn safe_alternative_text(
    index: Seq<char>,
    table: Seq<char>,
    first_col: Seq<char>,
    second_col: Seq<char>,
    other_cols: Seq<char>,
    count: Seq<char>,
    condition: Seq<char>,
) -> Seq<char> {
    "Consider these alternatives:\n"@
    + "\n"@
    + "1. Use a partial index for specific query patterns:\n"@
    + "   CREATE INDEX "@ + index + " ON "@ + table + "("@ + first_col + ")\n"@
    + "   WHERE "@ + condition + ";\n"@
    + "\n"@
    + "2. Create separate narrower indexes for different queries:\n"@
    + "   CREATE INDEX idx_"@ + table + "_"@ + first_col + " ON "@ + table + "("@ + first_col + ");\n"@
    + "   CREATE INDEX idx_"@ + table + "_"@ + second_col + " ON "@ + table + "("@ + second_col + ");\n"@
    + "\n"@
    + "3. Rethink your query patterns - do you really need to filter on all "@ + count + " columns?\n"@
    + "\n"@
    + "4. Use a covering index (INCLUDE clause) if you need extra columns for data:\n"@
    + "   CREATE INDEX "@ + index + " ON "@ + table + "("@ + first_col + ")\n"@
    + "   INCLUDE ("@ + other_cols + ");\n"@
    + "\n"@
    + "Note: Multi-column indexes are occasionally useful (e.g., "@
    + "for composite foreign keys or specific query patterns). "@
    + "If you've verified this index is necessary, use a safety-assured block."@
}

fn build_safe_alternative_text(
    index: &str,
    table: &str,
    first_col: &str,
    second_col: &str,
    other_cols: &str,
    count: &str,
    condition: &str,
) -> (r: String)
    ensures
        r@ == safe_alternative_text(index@, table@, first_col@, second_col@, other_cols@, count@, condition@),
{
    let mut s = String::from_str("Consider these alternatives:\n");
    s.append("\n");
    s.append("1. Use a partial index for specific query patterns:\n");
    s.append("   CREATE INDEX ");
    s.append(index);
    s.append(" ON ");
    s.append(table);
    s.append("(");
    s.append(first_col);
    s.append(")\n");
    s.append("   WHERE ");
    s.append(condition);
    s.append(";\n");
    s.append("\n");
    s.append("2. Create separate narrower indexes for different queries:\n");
    s.append("   CREATE INDEX idx_");
    s.append(table);
    s.append("_");
    s.append(first_col);
    s.append(" ON ");
    s.append(table);
    s.append("(");
    s.append(first_col);
    s.append(");\n");
    s.append("   CREATE INDEX idx_");
    s.append(table);
    s.append("_");
    s.append(second_col);
    s.append(" ON ");
    s.append(table);
    s.append("(");
    s.append(second_col);
    s.append(");\n");
    s.append("\n");
    s.append("3. Rethink your query patterns - do you really need to filter on all ");
    s.append(count);
    s.append(" columns?\n");
    s.append("\n");
    s.append("4. Use a covering index (INCLUDE clause) if you need extra columns for data:\n");
    s.append("   CREATE INDEX ");
    s.append(index);
    s.append(" ON ");
    s.append(table);
    s.append("(");
    s.append(first_col);
    s.append(")\n");
    s.append("   INCLUDE (");
    s.append(other_cols);
    s.append(");\n");
    s.append("\n");
    s.append("Note: Multi-column indexes are occasionally useful (e.g., ");
    s.append("for composite foreign keys or specific query patterns). ");
    s.append("If you've verified this index is necessary, use a safety-assured block.");
    s
}

/// The renderings of `columns`, in order.
fn render_columns(columns: &Vec<KeyColumn>) -> (texts: Vec<String>)
    ensures
        views_of(texts@) == column_texts(columns@),
{
    let mut texts: Vec<String> = Vec::new();
    let mut i: usize = 0;
    while i < columns.len()
        invariant
            i <= columns.len(),
            views_of(texts@) == column_texts(columns@).take(i as int),
        decreases columns.len() - i,
    {
        let t = columns[i].text.clone();
        proof {
            let all = column_texts(columns@);
            assert(t@ == all[i as int]);
            assert(views_of(texts@.push(t)) =~= views_of(texts@).push(t@));
            assert(all.take(i + 1) =~= all.take(i as int).push(all[i as int]));
        }
        texts.push(t);
        i = i + 1;
    }
    assert(column_texts(columns@).take(columns@.len() as int) =~= column_texts(columns@));
    texts
}

/// All of `texts` but the first.
fn all_but_first(texts: &Vec<String>) -> (rest: Vec<String>)
    requires
        texts.len() > 0,
    ensures
        views_of(rest@) == views_of(texts@).drop_first(),
{
    let mut rest: Vec<String> = Vec::new();
    let mut i: usize = 1;
    while i < texts.len()
        invariant
            1 <= i <= texts.len(),
            views_of(rest@) == views_of(texts@).subrange(1, i as int),
        decreases texts.len() - i,
    {
        let t = texts[i].clone();
        proof {
            let all = views_of(texts@);
            assert(t@ == all[i as int]);
            assert(views_of(rest@.push(t)) =~= views_of(rest@).push(t@));
            assert(all.subrange(1, i + 1) =~= all.subrange(1, i as int).push(all[i as int]));
        }
        rest.push(t);
        i = i + 1;
    }
    assert(views_of(texts@).subrange(1, texts@.len() as int) =~= views_of(texts@).drop_first());
    rest
}

impl Check for WideIndexCheck {
    /// One violation for a `CREATE INDEX` statement on more than three
    /// columns, nothing for any other statement. The alternatives are
    /// written with the index's first two columns, and with all but the first
    /// as the columns to include.
    open spec fn violations(&self, stmt: &StatementNode) -> Seq<ViolationView> {
        match stmt.kind {
            StatementKind::CreateIndex { name, table_name, unique, concurrently, columns } => {
                if columns@.len() > 3 {
                    let index = text_or_default(option_view(name), "<unnamed>"@);
                    let texts = column_texts(columns@);
                    let count = decimal(columns@.len());
                    seq![
                        violation_of(
                            "Wide index"@,
                            problem_text(index, table_name@, count, joined(texts, ", "@)),
                            safe_alternative_text(
                                index,
                                table_name@,
                                texts[0],
                                texts[1],
                                joined(texts.drop_first(), ", "@),
                                count,
                                "condition"@,
                            ),
                        ),
                    ]
                } else {
                    Seq::empty()
                }
            },
            _ => Seq::empty(),
        }
    }

    fn check(&self, stmt: &StatementNode) -> (found: Vec<Violation>) {
        if let StatementKind::CreateIndex { name, table_name, unique, concurrently, columns } =
            &stmt.kind {
            if columns.len() > 3 {
                let index = display_or_default(name.as_ref(), "<unnamed>");
                let texts = render_columns(columns);
                let count = decimal_string(columns.len());
                let listed = join(&texts, ", ");
                let rest = all_but_first(&texts);
                let others = join(&rest, ", ");
                assert(views_of(texts@)[0] == texts@[0]@);
                assert(views_of(texts@)[1] == texts@[1]@);
                return single(
                    Violation::new(
                        String::from_str("Wide index"),
                        build_problem_text(
                            index.as_str(),
                            table_name.as_str(),
                            count.as_str(),
                            listed.as_str(),
                        ),
                        build_safe_alternative_text(
                            index.as_str(),
                            table_name.as_str(),
                            texts[0].as_str(),
                            texts[1].as_str(),
                            others.as_str(),
                            count.as_str(),
                            "condition",
                        ),
                    ),
                );
            }
        }
        nothing()
    }
}

} // verus!
