//! The set of active rules, and how statements are run through it.
//!
//! The lines that the ignore ranges take out of checking are kept in a
//! set, which is filled once for all statements of a text.

use crate::ast::StatementNode;
use crate::checks::location::{
    first_free_line, keyword_of, keywords_of, leading_keyword, line_numbers, line_of,
    locate_statements, placed_line, read_source_lines,
};
use crate::checks::{
    lemma_reports_done, lemma_reports_of_nothing, lemma_reports_start, lemma_reports_step,
    nothing, reports_of,
    AddColumnCheck, AddIndexCheck, AddJsonColumnCheck, AddNotNullCheck, AddPrimaryKeyCheck,
    AddSerialColumnCheck, AddUniqueConstraintCheck, AlterColumnTypeCheck, Check,
    CreateExtensionCheck, DropColumnCheck, DropPrimaryKeyCheck, RenameColumnCheck,
    RenameTableCheck, ShortIntegerPrimaryKeyCheck, TruncateTableCheck, UnnamedConstraintCheck,
    WideIndexCheck,
};
use crate::config::Config;
use crate::parser::comment_parser::{flat, lemma_boundaries_outside, IgnoreRange};
use crate::text::lines_of;
use crate::violation::{extend_violations, violation_views, Violation, ViolationView};
use std::collections::HashSet;
use vstd::assert_by_contradiction;
use vstd::prelude::*;
use vstd::std_specs::hash::group_hash_axioms;

verus! {

/// The rules, by identity.
#[derive(Debug, Clone, Copy, PartialEq, Eq, Structural)]
pub enum CheckKind {
    AddColumn,
    AddIndex,
    AddJsonColumn,
    AddNotNull,
    AddPrimaryKey,
    AddSerialColumn,
    AddUniqueConstraint,
    AlterColumnType,
    CreateExtension,
    DropColumn,
    DropPrimaryKey,
    RenameColumn,
    RenameTable,
    ShortIntegerPrimaryKey,
    TruncateTable,
    UnnamedConstraint,
    WideIndex,
}

/// Every rule, in the order in which the rules are run.
pub open spec fn all_kinds() -> Seq<CheckKind> {
    seq![
        CheckKind::AddColumn,
        CheckKind::AddIndex,
        CheckKind::AddJsonColumn,
        CheckKind::AddNotNull,
        CheckKind::AddPrimaryKey,
        CheckKind::AddSerialColumn,
        CheckKind::AddUniqueConstraint,
        CheckKind::AlterColumnType,
        CheckKind::CreateExtension,
        CheckKind::DropColumn,
        CheckKind::DropPrimaryKey,
        CheckKind::RenameColumn,
        CheckKind::RenameTable,
        CheckKind::ShortIntegerPrimaryKey,
        CheckKind::TruncateTable,
        CheckKind::UnnamedConstraint,
        CheckKind::WideIndex,
    ]
}

/// The names of all rules, in the order in which the rules are run.
pub open spec fn all_names() -> Seq<Seq<char>> {
    Seq::new(all_kinds().len(), |i: int| all_kinds()[i].name_text())
}

impl CheckKind {
    /// The name by which a configuration switches the rule off.
    pub open spec fn name_text(self) -> Seq<char> {
        match self {
            CheckKind::AddColumn => "AddColumnCheck"@,
            CheckKind::AddIndex => "AddIndexCheck"@,
            CheckKind::AddJsonColumn => "AddJsonColumnCheck"@,
            CheckKind::AddNotNull => "AddNotNullCheck"@,
            CheckKind::AddPrimaryKey => "AddPrimaryKeyCheck"@,
            CheckKind::AddSerialColumn => "AddSerialColumnCheck"@,
            CheckKind::AddUniqueConstraint => "AddUniqueConstraintCheck"@,
            CheckKind::AlterColumnType => "AlterColumnTypeCheck"@,
            CheckKind::CreateExtension => "CreateExtensionCheck"@,
            CheckKind::DropColumn => "DropColumnCheck"@,
            CheckKind::DropPrimaryKey => "DropPrimaryKeyCheck"@,
            CheckKind::RenameColumn => "RenameColumnCheck"@,
            CheckKind::RenameTable => "RenameTableCheck"@,
            CheckKind::ShortIntegerPrimaryKey => "ShortIntegerPrimaryKeyCheck"@,
            CheckKind::TruncateTable => "TruncateTableCheck"@,
            CheckKind::UnnamedConstraint => "UnnamedConstraintCheck"@,
            CheckKind::WideIndex => "WideIndexCheck"@,
        }
    }

    /// What the rule reports about `stmt`.
    pub open spec fn violations(self, stmt: &StatementNode) -> Seq<ViolationView> {
        match self {
            CheckKind::AddColumn => AddColumnCheck.violations(stmt),
            CheckKind::AddIndex => AddIndexCheck.violations(stmt),
            CheckKind::AddJsonColumn => AddJsonColumnCheck.violations(stmt),
            CheckKind::AddNotNull => AddNotNullCheck.violations(stmt),
            CheckKind::AddPrimaryKey => AddPrimaryKeyCheck.violations(stmt),
            CheckKind::AddSerialColumn => AddSerialColumnCheck.violations(stmt),
            CheckKind::AddUniqueConstraint => AddUniqueConstraintCheck.violations(stmt),
            CheckKind::AlterColumnType => AlterColumnTypeCheck.violations(stmt),
            CheckKind::CreateExtension => CreateExtensionCheck.violations(stmt),
            CheckKind::DropColumn => DropColumnCheck.violations(stmt),
            CheckKind::DropPrimaryKey => DropPrimaryKeyCheck.violations(stmt),
            CheckKind::RenameColumn => RenameColumnCheck.violations(stmt),
            CheckKind::RenameTable => RenameTableCheck.violations(stmt),
            CheckKind::ShortIntegerPrimaryKey => ShortIntegerPrimaryKeyCheck.violations(stmt),
            CheckKind::TruncateTable => TruncateTableCheck.violations(stmt),
            CheckKind::UnnamedConstraint => UnnamedConstraintCheck.violations(stmt),
            CheckKind::WideIndex => WideIndexCheck.violations(stmt),
        }
    }

    /// The name by which a configuration switches the rule off.
    pub fn name(self) -> (r: &'static str)
        ensures
            r@ == self.name_text(),
    {
        match self {
            CheckKind::AddColumn => "AddColumnCheck",
            CheckKind::AddIndex => "AddIndexCheck",
            CheckKind::AddJsonColumn => "AddJsonColumnCheck",
            CheckKind::AddNotNull => "AddNotNullCheck",
            CheckKind::AddPrimaryKey => "AddPrimaryKeyCheck",
            CheckKind::AddSerialColumn => "AddSerialColumnCheck",
            CheckKind::AddUniqueConstraint => "AddUniqueConstraintCheck",
            CheckKind::AlterColumnType => "AlterColumnTypeCheck",
            CheckKind::CreateExtension => "CreateExtensionCheck",
            CheckKind::DropColumn => "DropColumnCheck",
            CheckKind::DropPrimaryKey => "DropPrimaryKeyCheck",
            CheckKind::RenameColumn => "RenameColumnCheck",
            CheckKind::RenameTable => "RenameTableCheck",
            CheckKind::ShortIntegerPrimaryKey => "ShortIntegerPrimaryKeyCheck",
            CheckKind::TruncateTable => "TruncateTableCheck",
            CheckKind::UnnamedConstraint => "UnnamedConstraintCheck",
            CheckKind::WideIndex => "WideIndexCheck",
        }
    }

    /// Runs the rule on `stmt`.
    pub fn check(self, stmt: &StatementNode) -> (found: Vec<Violation>)
        ensures
            violation_views(found@) == self.violations(stmt),
    {
        match self {
            CheckKind::AddColumn => AddColumnCheck.check(stmt),
            CheckKind::AddIndex => AddIndexCheck.check(stmt),
            CheckKind::AddJsonColumn => AddJsonColumnCheck.check(stmt),
            CheckKind::AddNotNull => AddNotNullCheck.check(stmt),
            CheckKind::AddPrimaryKey => AddPrimaryKeyCheck.check(stmt),
            CheckKind::AddSerialColumn => AddSerialColumnCheck.check(stmt),
            CheckKind::AddUniqueConstraint => AddUniqueConstraintCheck.check(stmt),
            CheckKind::AlterColumnType => AlterColumnTypeCheck.check(stmt),
            CheckKind::CreateExtension => CreateExtensionCheck.check(stmt),
            CheckKind::DropColumn => DropColumnCheck.check(stmt),
            CheckKind::DropPrimaryKey => DropPrimaryKeyCheck.check(stmt),
            CheckKind::RenameColumn => RenameColumnCheck.check(stmt),
            CheckKind::RenameTable => RenameTableCheck.check(stmt),
            CheckKind::ShortIntegerPrimaryKey => ShortIntegerPrimaryKeyCheck.check(stmt),
            CheckKind::TruncateTable => TruncateTableCheck.check(stmt),
            CheckKind::UnnamedConstraint => UnnamedConstraintCheck.check(stmt),
            CheckKind::WideIndex => WideIndexCheck.check(stmt),
        }
    }
}

/// Every rule, in the order in which the rules are run.
pub fn every_kind() -> (kinds: Vec<CheckKind>)
    ensures
        kinds@ == all_kinds(),
{
    let kinds = vec![
        CheckKind::AddColumn,
        CheckKind::AddIndex,
        CheckKind::AddJsonColumn,
        CheckKind::AddNotNull,
        CheckKind::AddPrimaryKey,
        CheckKind::AddSerialColumn,
        CheckKind::AddUniqueConstraint,
        CheckKind::AlterColumnType,
        CheckKind::CreateExtension,
        CheckKind::DropColumn,
        CheckKind::DropPrimaryKey,
        CheckKind::RenameColumn,
        CheckKind::RenameTable,
        CheckKind::ShortIntegerPrimaryKey,
        CheckKind::TruncateTable,
        CheckKind::UnnamedConstraint,
        CheckKind::WideIndex,
    ];
    assert(kinds@ =~= all_kinds());
    kinds
}

/// The rules that `config` leaves switched on, in the order in which the
/// rules are run.
pub open spec fn enabled_kinds(config: &Config) -> Seq<CheckKind> {
    all_kinds().filter(|kind: CheckKind| config.check_enabled(kind.name_text()))
}

/// Whether `line` lies in one of `ranges`: strictly between a `start`
/// directive and its `end` directive.
pub open spec fn ignored(ranges: Seq<IgnoreRange>, line: int) -> bool {
    exists|r: int| 0 <= r < ranges.len() && (#[trigger] ranges[r]).contains(line)
}

/// The positions `0, 1, .., n - 1`.
pub open spec fn positions(n: nat) -> Seq<int> {
    Seq::new(n, |k: int| k)
}

/// The line numbers that `ranges` take out of checking: every line that
/// lies strictly between the two directives of some range.
pub open spec fn ignored_lines(ranges: Seq<IgnoreRange>) -> Set<usize> {
    Set::new(|line: usize| ignored(ranges, line as int))
}

/// With one more range, the ignored lines are those of the ranges before
/// and those of the new range.
proof fn lemma_ignored_with(ranges: Seq<IgnoreRange>, i: int, line: int)
    requires
        0 <= i < ranges.len(),
    ensures
        ignored(ranges.take(i + 1), line) == (ignored(ranges.take(i), line) || ranges[i].contains(
            line,
        )),
{
    let more = ranges.take(i + 1);
    let fewer = ranges.take(i);
    if ignored(fewer, line) {
        let r = choose|r: int| 0 <= r < fewer.len() && (#[trigger] fewer[r]).contains(line);
        assert(more[r].contains(line));
    }
    if ranges[i].contains(line) {
        assert(more[i].contains(line));
    }
    if ignored(more, line) {
        let r = choose|r: int| 0 <= r < more.len() && (#[trigger] more[r]).contains(line);
        if r < i {
            assert(fewer[r].contains(line));
        }
    }
}

/// The set of the line numbers that `ranges` take out of checking.
pub fn ignored_line_set(ranges: &[IgnoreRange]) -> (lines: HashSet<usize>)
    ensures
        lines@ == ignored_lines(ranges@),
{
    broadcast use group_hash_axioms;

    let mut lines: HashSet<usize> = HashSet::new();
    let mut i: usize = 0;
    assert(lines@ =~= ignored_lines(ranges@.take(0)));
    while i < ranges.len()
        invariant
            i <= ranges.len(),
            lines@ == ignored_lines(ranges@.take(i as int)),
        decreases ranges.len() - i,
    {
        let range = ranges[i];
        let ghost before = lines@;
        if range.start_line < range.end_line {
            let mut line: usize = range.start_line + 1;
            assert(lines@ =~= before.union(Set::new(|l: usize| range.start_line < l < line)));
            while line < range.end_line
                invariant
                    range.start_line < line <= range.end_line,
                    lines@ == before.union(
                        Set::new(|l: usize| range.start_line < l < line),
                    ),
                decreases range.end_line - line,
            {
                let ghost earlier = lines@;
                lines.insert(line);
                assert(lines@ == earlier.insert(line));
                assert(earlier.insert(line) =~= before.union(
                    Set::new(|l: usize| range.start_line < l < line + 1),
                ));
                line = line + 1;
            }
        }
        proof {
            assert forall|l: usize| lines@.contains(l) == ignored_lines(
                ranges@.take(i + 1),
            ).contains(l) by {
                lemma_ignored_with(ranges@, i as int, l as int);
                assert(ranges@[i as int] == range);
            }
            assert(lines@ =~= ignored_lines(ranges@.take(i + 1)));
        }
        i = i + 1;
    }
    assert(ranges@.take(ranges@.len() as int) =~= ranges@);
    lines
}

/// What the rules `kinds` report about one statement: the reports of each
/// rule, rule after rule.
pub open spec fn kinds_violations(kinds: Seq<CheckKind>, stmt: &StatementNode) -> Seq<
    ViolationView,
> {
    reports_of(kinds, |kind: CheckKind| kind.violations(stmt))
}

/// The rules that are switched on, in the order in which they are run.
pub struct Registry {
    pub checks: Vec<CheckKind>,
}

impl Registry {
    /// What the active rules report about one statement: the reports of
    /// each rule, rule after rule.
    pub open spec fn statement_violations(&self, stmt: &StatementNode) -> Seq<ViolationView> {
        kinds_violations(self.checks@, stmt)
    }

    /// What the active rules report about a list of statements: the reports
    /// about each statement, statement after statement.
    pub open spec fn statements_violations(&self, stmts: Seq<StatementNode>) -> Seq<
        ViolationView,
    > {
        reports_of(stmts, |stmt: StatementNode| self.statement_violations(&stmt))
    }

    /// What statement `k` of `stmts` adds to the report of a source with
    /// the lines `lines`: nothing where its line is ignored, else what the
    /// active rules report about it.
    pub open spec fn contribution(
        &self,
        stmts: Seq<StatementNode>,
        lines: Seq<Seq<char>>,
        ranges: Seq<IgnoreRange>,
        k: int,
    ) -> Seq<ViolationView> {
        if ignored(ranges, line_of(lines, keywords_of(stmts), k)) {
            Seq::empty()
        } else {
            self.statement_violations(&stmts[k])
        }
    }

    /// What the active rules report about the statements of a source with
    /// the lines `lines`, where `ranges` are taken out of checking: the
    /// contribution of each statement, statement after statement.
    pub open spec fn context_violations(
        &self,
        stmts: Seq<StatementNode>,
        lines: Seq<Seq<char>>,
        ranges: Seq<IgnoreRange>,
    ) -> Seq<ViolationView> {
        reports_of(
            positions(stmts.len()),
            |k: int| self.contribution(stmts, lines, ranges, k),
        )
    }

    /// A registry with every rule switched on.
    pub fn new() -> (registry: Registry)
        ensures
            registry.checks@ == all_kinds(),
    {
        Registry { checks: every_kind() }
    }

    /// A registry with the rules that `config` leaves switched on.
    pub fn with_config(config: &Config) -> (registry: Registry)
        ensures
            registry.checks@ == enabled_kinds(config),
    {
        let kinds = every_kind();
        let mut checks: Vec<CheckKind> = Vec::new();
        let ghost enabled = |kind: CheckKind| config.check_enabled(kind.name_text());
        let mut i: usize = 0;
        proof {
            reveal(Seq::filter);
            assert(kinds@.take(0) =~= Seq::<CheckKind>::empty());
        }
        while i < kinds.len()
            invariant
                i <= kinds.len(),
                kinds@ == all_kinds(),
                forall|kind: CheckKind| #[trigger]
                    enabled(kind) == config.check_enabled(kind.name_text()),
                checks@ == kinds@.take(i as int).filter(enabled),
            decreases kinds.len() - i,
        {
            let kind = kinds[i];
            proof {
                assert(kinds@.take(i + 1) =~= kinds@.take(i as int).push(kind));
                kinds@.take(i as int).lemma_filter_push(kind, enabled);
            }
            if config.is_check_enabled(kind.name()) {
                checks.push(kind);
            }
            i = i + 1;
        }
        assert(kinds@.take(kinds@.len() as int) =~= kinds@);
        Registry { checks }
    }

    /// Runs every active rule on one statement.
    pub fn check_statement(&self, stmt: &StatementNode) -> (found: Vec<Violation>)
        ensures
            violation_views(found@) == self.statement_violations(stmt),
    {
        let mut found = nothing();
        let ghost each = |kind: CheckKind| kind.violations(stmt);
        proof {
            lemma_reports_start(self.checks@, each);
        }
        let mut i: usize = 0;
        while i < self.checks.len()
            invariant
                i <= self.checks.len(),
                forall|kind: CheckKind| #[trigger] each(kind) == kind.violations(stmt),
                violation_views(found@) == reports_of(self.checks@.take(i as int), each),
            decreases self.checks.len() - i,
        {
            let more = self.checks[i].check(stmt);
            proof {
                lemma_reports_step(self.checks@, each, i as int);
            }
            extend_violations(&mut found, more);
            i = i + 1;
        }
        proof {
            lemma_reports_done(self.checks@, each);
        }
        found
    }

    /// Runs every active rule on every statement.
    pub fn check_statements(&self, stmts: &[StatementNode]) -> (found: Vec<Violation>)
        ensures
            violation_views(found@) == self.statements_violations(stmts@),
    {
        let mut found = nothing();
        let ghost each = |stmt: StatementNode| self.statement_violations(&stmt);
        proof {
            lemma_reports_start(stmts@, each);
        }
        let mut i: usize = 0;
        while i < stmts.len()
            invariant
                i <= stmts.len(),
                forall|stmt: StatementNode| #[trigger]
                    each(stmt) == self.statement_violations(&stmt),
                violation_views(found@) == reports_of(stmts@.take(i as int), each),
            decreases stmts.len() - i,
        {
            let more = self.check_statement(&stmts[i]);
            proof {
                lemma_reports_step(stmts@, each, i as int);
            }
            extend_violations(&mut found, more);
            i = i + 1;
        }
        proof {
            lemma_reports_done(stmts@, each);
        }
        found
    }

    /// Runs every active rule on every statement whose line in `sql` is not
    /// in one of `ignore_ranges`.
    pub fn check_statements_with_context(
        &self,
        statements: &[StatementNode],
        sql: &str,
        ignore_ranges: &[IgnoreRange],
    ) -> (found: Vec<Violation>)
        ensures
            violation_views(found@) == self.context_violations(
                statements@,
                lines_of(sql@),
                ignore_ranges@,
            ),
    {
        broadcast use group_hash_axioms;

        let skipped = ignored_line_set(ignore_ranges);
        let locations = locate_statements(statements, sql);
        let mut found = nothing();
        let ghost lines = lines_of(sql@);
        let ghost all = positions(statements@.len());
        let ghost each = |k: int| self.contribution(statements@, lines, ignore_ranges@, k);
        proof {
            lemma_reports_start(all, each);
        }
        let mut k: usize = 0;
        while k < statements.len()
            invariant
                k <= statements.len(),
                all == positions(statements@.len()),
                locations@.len() == statements@.len(),
                skipped@ == ignored_lines(ignore_ranges@),
                forall|j: int|
                    0 <= j < locations@.len() ==> (#[trigger] locations@[j]).line == line_of(
                        lines,
                        keywords_of(statements@),
                        j,
                    ),
                forall|j: int| #[trigger]
                    each(j) == self.contribution(statements@, lines, ignore_ranges@, j),
                violation_views(found@) == reports_of(all.take(k as int), each),
            decreases statements.len() - k,
        {
            let mut more = nothing();
            if !skipped.contains(&locations[k].line) {
                more = self.check_statement(&statements[k]);
            }
            proof {
                assert(all[k as int] == k);
                lemma_reports_step(all, each, k as int);
            }
            extend_violations(&mut found, more);
            k = k + 1;
        }
        proof {
            lemma_reports_done(all, each);
        }
        found
    }

    /// The line of `sql` that `stmt` is placed on while the lines in
    /// `matched_lines` are given away: the first line that begins with the
    /// statement's leading keyword, is no comment and is not given away, or
    /// line 1 where there is none.
    pub fn find_statement_line(
        stmt: &StatementNode,
        sql: &str,
        matched_lines: &HashSet<usize>,
    ) -> (line: usize)
        ensures
            line == placed_line(lines_of(sql@), keyword_of(*stmt), line_numbers(matched_lines@)),
    {
        let source = read_source_lines(sql);
        let keyword = leading_keyword(stmt);
        match first_free_line(&keyword, &source, matched_lines) {
            Some(line) => line,
            None => 1,
        }
    }

    /// The names of all rules, in the order in which the rules are run.
    pub fn all_check_names() -> (names: Vec<&'static str>)
        ensures
            names@.len() == all_names().len(),
            forall|i: int| 0 <= i < names@.len() ==> names@[i]@ == all_names()[i],
    {
        let kinds = every_kind();
        let mut names: Vec<&'static str> = Vec::new();
        let mut i: usize = 0;
        while i < kinds.len()
            invariant
                i <= kinds.len(),
                kinds@ == all_kinds(),
                names@.len() == i,
                forall|j: int| 0 <= j < i ==> names@[j]@ == all_names()[j],
            decreases kinds.len() - i,
        {
            names.push(kinds[i].name());
            i = i + 1;
        }
        names
    }
}

impl Default for Registry {
    /// A registry with every rule switched on.
    fn default() -> (registry: Registry)
        ensures
            registry.checks@ == all_kinds(),
    {
        Registry::new()
    }
}


/// A statement inside a block is not checked, and one outside is. Where a
/// single range is taken out of checking, a statement whose line lies
/// strictly between the two directives contributes nothing, and a statement
/// whose line does not contributes all that the active rules report about
/// it.
pub proof fn lemma_suppression_scoping(
    registry: &Registry,
    stmts: Seq<StatementNode>,
    lines: Seq<Seq<char>>,
    range: IgnoreRange,
    k: int,
)
    ensures
        registry.contribution(stmts, lines, seq![range], k) == if range.contains(
            line_of(lines, keywords_of(stmts), k),
        ) {
            Seq::<ViolationView>::empty()
        } else {
            registry.statement_violations(&stmts[k])
        },
{
    let line = line_of(lines, keywords_of(stmts), k);
    let ranges = seq![range];
    if range.contains(line) {
        assert(ranges[0].contains(line));
    }
}

/// The case of one statement: its report is empty where its line lies in
/// the range, and is what the active rules report about it otherwise.
pub proof fn lemma_single_statement_scoping(
    registry: &Registry,
    stmt: StatementNode,
    lines: Seq<Seq<char>>,
    range: IgnoreRange,
)
    ensures
        registry.context_violations(seq![stmt], lines, seq![range]) == if range.contains(
            line_of(lines, keywords_of(seq![stmt]), 0),
        ) {
            Seq::<ViolationView>::empty()
        } else {
            registry.statement_violations(&stmt)
        },
{
    let stmts = seq![stmt];
    let each = |k: int| registry.contribution(stmts, lines, seq![range], k);
    lemma_suppression_scoping(registry, stmts, lines, range, 0);
    let all = positions(stmts.len());
    assert(all.map_values(each) =~= seq![each(0)]);
    all.map_values(each).lemma_flatten_singleton();
}

/// A statement on a directive line is checked. Of ranges that lie apart and
/// in order, as the directives of a text give them, a statement whose line
/// is the `start` line or the `end` line of a range is not ignored: it
/// contributes all that the active rules report about it.
pub proof fn lemma_boundary_exclusive(
    registry: &Registry,
    stmts: Seq<StatementNode>,
    lines: Seq<Seq<char>>,
    ranges: Seq<IgnoreRange>,
    k: int,
    r: int,
)
    requires
        flat(ranges),
        0 <= r < ranges.len(),
        line_of(lines, keywords_of(stmts), k) == ranges[r].start_line || line_of(
            lines,
            keywords_of(stmts),
            k,
        ) == ranges[r].end_line,
    ensures
        !ignored(ranges, line_of(lines, keywords_of(stmts), k)),
        registry.contribution(stmts, lines, ranges, k) == registry.statement_violations(&stmts[k]),
{
    let line = line_of(lines, keywords_of(stmts), k);
    assert forall|q: int| 0 <= q < ranges.len() implies !(#[trigger] ranges[q]).contains(line) by {
        lemma_boundaries_outside(ranges, r, q);
    }
}

/// A registry without rules reports nothing.
pub proof fn lemma_no_rules_no_violations(
    registry: &Registry,
    stmts: Seq<StatementNode>,
    lines: Seq<Seq<char>>,
    ranges: Seq<IgnoreRange>,
)
    requires
        registry.checks@.len() == 0,
    ensures
        forall|stmt: StatementNode| #[trigger]
            registry.statement_violations(&stmt) == Seq::<ViolationView>::empty(),
        registry.statements_violations(stmts) == Seq::<ViolationView>::empty(),
        registry.context_violations(stmts, lines, ranges) == Seq::<ViolationView>::empty(),
{
    assert forall|stmt: StatementNode| #[trigger]
        registry.statement_violations(&stmt) == Seq::<ViolationView>::empty() by {
        let each = |kind: CheckKind| kind.violations(&stmt);
        assert(registry.checks@.map_values(each) =~= Seq::<Seq<ViolationView>>::empty());
    }
    lemma_reports_of_nothing(stmts, |stmt: StatementNode| registry.statement_violations(&stmt));
    lemma_reports_of_nothing(
        positions(stmts.len()),
        |k: int| registry.contribution(stmts, lines, ranges, k),
    );
}

/// With every rule switched off, nothing is reported. A configuration that
/// disables the name of every rule leaves no rule active, and a registry
/// made from it reports nothing about any statements.
pub proof fn lemma_all_disabled(config: &Config)
    requires
        forall|i: int| 0 <= i < all_kinds().len() ==> !config.check_enabled(
            (#[trigger] all_kinds()[i]).name_text(),
        ),
    ensures
        enabled_kinds(config) == Seq::<CheckKind>::empty(),
{
    let enabled = |kind: CheckKind| config.check_enabled(kind.name_text());
    assert(all_kinds().all(|kind: CheckKind| !enabled(kind)));
    all_kinds().lemma_all_neg_filter_empty(enabled);
    assert(all_kinds().filter(enabled) =~= Seq::<CheckKind>::empty());
}

/// No two rules share a name.
pub proof fn lemma_names_distinct(a: CheckKind, b: CheckKind)
    requires
        a != b,
    ensures
        a.name_text() != b.name_text(),
{
    reveal_strlit("AddColumnCheck");
    reveal_strlit("AddIndexCheck");
    reveal_strlit("AddJsonColumnCheck");
    reveal_strlit("AddNotNullCheck");
    reveal_strlit("AddPrimaryKeyCheck");
    reveal_strlit("AddSerialColumnCheck");
    reveal_strlit("AddUniqueConstraintCheck");
    reveal_strlit("AlterColumnTypeCheck");
    reveal_strlit("CreateExtensionCheck");
    reveal_strlit("DropColumnCheck");
    reveal_strlit("DropPrimaryKeyCheck");
    reveal_strlit("RenameColumnCheck");
    reveal_strlit("RenameTableCheck");
    reveal_strlit("ShortIntegerPrimaryKeyCheck");
    reveal_strlit("TruncateTableCheck");
    reveal_strlit("UnnamedConstraintCheck");
    reveal_strlit("WideIndexCheck");
    let x = a.name_text();
    let y = b.name_text();
    assert_by_contradiction!(x != y, {
        assert(x.len() == y.len());
        assert(x[0] == y[0]);
        assert(x[1] == y[1]);
        assert(x[3] == y[3]);
    });
}

proof fn lemma_filter_twice<A>(
    s: Seq<A>,
    p: spec_fn(A) -> bool,
    q: spec_fn(A) -> bool,
    both: spec_fn(A) -> bool,
)
    requires
        forall|i: int| 0 <= i < s.len() ==> both(#[trigger] s[i]) == (p(s[i]) && q(s[i])),
    ensures
        s.filter(both) == s.filter(p).filter(q),
    decreases s.len(),
{
    reveal(Seq::filter);
    if s.len() > 0 {
        let rest = s.drop_last();
        let x = s.last();
        assert forall|i: int| 0 <= i < rest.len() implies both(#[trigger] rest[i]) == (p(rest[i])
            && q(rest[i])) by {
            assert(rest[i] == s[i]);
        }
        lemma_filter_twice(rest, p, q, both);
        assert(rest.push(x) =~= s);
        rest.lemma_filter_push(x, both);
        rest.lemma_filter_push(x, p);
        rest.filter(p).lemma_filter_push(x, q);
    }
}

/// Disabling a rule removes that rule and no other. Let `after` disable
/// what `before` disables and, besides, the name of `kind`. Then the rules
/// that `after` leaves active are those that `before` leaves active, in the
/// same order, without `kind`; so what is reported under `after` is what is
/// reported under `before` without the reports of `kind`. Where `before`
/// disables `kind` already, nothing changes: disabling a rule twice is
/// disabling it once.
pub proof fn lemma_disable_removes_rule(before: &Config, after: &Config, kind: CheckKind)
    requires
        forall|name: Seq<char>| #[trigger]
            after.check_enabled(name) == (before.check_enabled(name) && name != kind.name_text()),
    ensures
        enabled_kinds(after) == enabled_kinds(before).filter(|k: CheckKind| k != kind),
        !before.check_enabled(kind.name_text()) ==> enabled_kinds(after) == enabled_kinds(before),
        forall|stmt: StatementNode| #[trigger]
            kinds_violations(enabled_kinds(after), &stmt) == kinds_violations(
                enabled_kinds(before).filter(|k: CheckKind| k != kind),
                &stmt,
            ),
{
    let was = |k: CheckKind| before.check_enabled(k.name_text());
    let is = |k: CheckKind| after.check_enabled(k.name_text());
    let other = |k: CheckKind| k != kind;
    assert forall|i: int| 0 <= i < all_kinds().len() implies is(#[trigger] all_kinds()[i]) == (was(
        all_kinds()[i],
    ) && other(all_kinds()[i])) by {
        let k = all_kinds()[i];
        if k != kind {
            lemma_names_distinct(k, kind);
        }
    }
    lemma_filter_twice(all_kinds(), was, other, is);
    if !before.check_enabled(kind.name_text()) {
        assert forall|i: int| 0 <= i < all_kinds().len() implies is(#[trigger] all_kinds()[i])
            == (was(all_kinds()[i]) && was(all_kinds()[i])) by {
            let k = all_kinds()[i];
            if k != kind {
                lemma_names_distinct(k, kind);
            }
        }
        lemma_filter_twice(all_kinds(), was, was, is);
        lemma_filter_twice(all_kinds(), was, was, was);
    }
}


/// Without ignore ranges every statement is checked: the report is that of
/// the statements by themselves, wherever they stand in the source.
pub proof fn lemma_no_ranges_no_suppression(
    registry: &Registry,
    stmts: Seq<StatementNode>,
    lines: Seq<Seq<char>>,
)
    ensures
        registry.context_violations(stmts, lines, Seq::empty()) == registry.statements_violations(
            stmts,
        ),
{
    let ranges = Seq::<IgnoreRange>::empty();
    let by_position = |k: int| registry.contribution(stmts, lines, ranges, k);
    let by_statement = |stmt: StatementNode| registry.statement_violations(&stmt);
    assert(positions(stmts.len()).map_values(by_position) =~= stmts.map_values(by_statement));
}

/// A configuration that disables nothing leaves every rule active.
pub proof fn lemma_nothing_disabled(config: &Config)
    requires
        config.disable_checks@.len() == 0,
    ensures
        enabled_kinds(config) == all_kinds(),
{
    let enabled = |kind: CheckKind| config.check_enabled(kind.name_text());
    lemma_filter_twice(all_kinds(), enabled, enabled, |kind: CheckKind| true);
    lemma_filter_keeps_all(all_kinds());
    lemma_filter_twice(all_kinds(), enabled, enabled, enabled);
}

proof fn lemma_filter_keeps_all<A>(s: Seq<A>)
    ensures
        s.filter(|x: A| true) == s,
    decreases s.len(),
{
    reveal(Seq::filter);
    if s.len() > 0 {
        lemma_filter_keeps_all(s.drop_last());
        assert(s.drop_last().push(s.last()) =~= s);
    }
}


/// The reports about two lists of items, one after the other, are the
/// reports about the first, then those about the second.
pub proof fn lemma_kinds_violations_add(x: Seq<CheckKind>, y: Seq<CheckKind>, stmt: &StatementNode)
    ensures
        kinds_violations(x + y, stmt) == kinds_violations(x, stmt) + kinds_violations(y, stmt),
{
    let each = |kind: CheckKind| kind.violations(stmt);
    assert((x + y).map_values(each) =~= x.map_values(each) + y.map_values(each));
    vstd::seq_lib::lemma_flatten_concat(x.map_values(each), y.map_values(each));
}

/// Whether no rule stands twice in `kinds`.
pub open spec fn without_repeats(kinds: Seq<CheckKind>) -> bool {
    forall|i: int, j: int| 0 <= i < j < kinds.len() ==> kinds[i] != kinds[j]
}

proof fn lemma_filter_without_repeats(kinds: Seq<CheckKind>, keep: spec_fn(CheckKind) -> bool)
    requires
        without_repeats(kinds),
    ensures
        without_repeats(kinds.filter(keep)),
        forall|i: int|
            0 <= i < kinds.filter(keep).len() ==> kinds.contains(#[trigger] kinds.filter(keep)[i]),
    decreases kinds.len(),
{
    reveal(Seq::filter);
    if kinds.len() > 0 {
        let rest = kinds.drop_last();
        let last = kinds.last();
        assert(without_repeats(rest)) by {
            assert forall|i: int, j: int| 0 <= i < j < rest.len() implies rest[i] != rest[j] by {
                assert(rest[i] == kinds[i] && rest[j] == kinds[j]);
            }
        }
        lemma_filter_without_repeats(rest, keep);
        let kept = rest.filter(keep);
        assert forall|i: int| 0 <= i < kept.len() implies kept[i] != last && kinds.contains(
            #[trigger] kept[i],
        ) by {
            assert(rest.contains(kept[i]));
            let at = choose|at: int| 0 <= at < rest.len() && rest[at] == kept[i];
            assert(kinds[at] == kept[i]);
        }
        if keep(last) {
            assert(kinds[kinds.len() - 1] == last);
        }
    }
}

proof fn lemma_filter_where_all_kept(kinds: Seq<CheckKind>, keep: spec_fn(CheckKind) -> bool)
    requires
        forall|i: int| 0 <= i < kinds.len() ==> keep(#[trigger] kinds[i]),
    ensures
        kinds.filter(keep) == kinds,
{
    lemma_filter_twice(kinds, keep, keep, |kind: CheckKind| true);
    lemma_filter_keeps_all(kinds);
    lemma_filter_twice(kinds, keep, keep, keep);
}

/// Whether `full` is `before`, then `rule`, then `after`, and `rest` is
/// `before`, then `after`: `rest` is `full` without `rule`.
pub open spec fn taken_out(
    full: Seq<ViolationView>,
    rule: Seq<ViolationView>,
    rest: Seq<ViolationView>,
    before: Seq<ViolationView>,
    after: Seq<ViolationView>,
) -> bool {
    full == before + rule + after && rest == before + after
}

/// Disabling a rule takes exactly its reports out. Let `after` disable what
/// `before` disables and, besides, the name of `kind`, which `before`
/// leaves switched on. Then what is reported about any statement under
/// `before` is some reports, then the reports of `kind`, then some more
/// reports; and what is reported under `after` is the first of these, then
/// the last: the reports of `kind` are gone, and every other report is
/// kept, in the same order.
pub proof fn lemma_disable_takes_reports_out(
    before: &Config,
    after: &Config,
    kind: CheckKind,
    stmt: &StatementNode,
)
    requires
        forall|name: Seq<char>| #[trigger]
            after.check_enabled(name) == (before.check_enabled(name) && name != kind.name_text()),
        before.check_enabled(kind.name_text()),
    ensures
        exists|first: Seq<ViolationView>, last: Seq<ViolationView>| #[trigger]
            taken_out(
                kinds_violations(enabled_kinds(before), stmt),
                kind.violations(stmt),
                kinds_violations(enabled_kinds(after), stmt),
                first,
                last,
            ),
{
    let was = |k: CheckKind| before.check_enabled(k.name_text());
    let other = |k: CheckKind| k != kind;
    let active = enabled_kinds(before);
    lemma_disable_removes_rule(before, after, kind);
    assert(without_repeats(all_kinds()));
    lemma_filter_without_repeats(all_kinds(), was);
    // `kind` is active, at one place.
    assert(all_kinds().contains(kind)) by {
        assert(all_kinds()[0] == CheckKind::AddColumn);
        assert(all_kinds()[1] == CheckKind::AddIndex);
        assert(all_kinds()[2] == CheckKind::AddJsonColumn);
        assert(all_kinds()[3] == CheckKind::AddNotNull);
        assert(all_kinds()[4] == CheckKind::AddPrimaryKey);
        assert(all_kinds()[5] == CheckKind::AddSerialColumn);
        assert(all_kinds()[6] == CheckKind::AddUniqueConstraint);
        assert(all_kinds()[7] == CheckKind::AlterColumnType);
        assert(all_kinds()[8] == CheckKind::CreateExtension);
        assert(all_kinds()[9] == CheckKind::DropColumn);
        assert(all_kinds()[10] == CheckKind::DropPrimaryKey);
        assert(all_kinds()[11] == CheckKind::RenameColumn);
        assert(all_kinds()[12] == CheckKind::RenameTable);
        assert(all_kinds()[13] == CheckKind::ShortIntegerPrimaryKey);
        assert(all_kinds()[14] == CheckKind::TruncateTable);
        assert(all_kinds()[15] == CheckKind::UnnamedConstraint);
        assert(all_kinds()[16] == CheckKind::WideIndex);
    }
    let in_all = choose|i: int| 0 <= i < all_kinds().len() && all_kinds()[i] == kind;
    all_kinds().lemma_filter_contains(was, in_all);
    let at = choose|i: int| 0 <= i < active.len() && active[i] == kind;
    let head = active.take(at);
    let tail = active.skip(at + 1);
    assert(active =~= head + seq![kind] + tail);
    // Without `kind`, the head and the tail are left.
    assert forall|i: int| 0 <= i < head.len() implies other(#[trigger] head[i]) by {
        assert(head[i] == active[i]);
    }
    assert forall|i: int| 0 <= i < tail.len() implies other(#[trigger] tail[i]) by {
        assert(tail[i] == active[at + 1 + i]);
    }
    lemma_filter_where_all_kept(head, other);
    lemma_filter_where_all_kept(tail, other);
    assert(seq![kind].filter(other) =~= Seq::<CheckKind>::empty()) by {
        reveal_with_fuel(Seq::filter, 2);
    }
    Seq::filter_distributes_over_add(head + seq![kind], tail, other);
    Seq::filter_distributes_over_add(head, seq![kind], other);
    assert(active.filter(other) =~= head + tail);
    // The reports follow the rules.
    lemma_kinds_violations_add(head + seq![kind], tail, stmt);
    lemma_kinds_violations_add(head, seq![kind], stmt);
    lemma_kinds_violations_add(head, tail, stmt);
    assert(kinds_violations(seq![kind], stmt) == kind.violations(stmt)) by {
        let each = |k: CheckKind| k.violations(stmt);
        assert(seq![kind].map_values(each) =~= seq![each(kind)]);
        seq![kind].map_values(each).lemma_flatten_singleton();
    }
    assert(taken_out(
        kinds_violations(enabled_kinds(before), stmt),
        kind.violations(stmt),
        kinds_violations(enabled_kinds(after), stmt),
        kinds_violations(head, stmt),
        kinds_violations(tail, stmt),
    ));
}

} // verus!
