//! The whole check of one SQL text.

use crate::ast::StatementNode;
use crate::checks::lemma_reports_of_nothing;
use crate::checks::location::{found_line, keywords_of, locate_statements};
use crate::checks::registry::{enabled_kinds, positions, Registry};
use crate::config::Config;
use crate::error::DieselGuardError;
use crate::parser::comment_parser::ignore_ranges_of;
use crate::parser::syntax_tree::{failure_message, parse_fails, parse_outcome, reads_statements};
use crate::parser::{safe_pattern_in, ParsedSql, SafePattern, SqlParser};
use crate::text::{decimal, decimal_string, lines_of};
use crate::violation::{violation_views, Violation};
use vstd::prelude::*;

verus! {

/// Something that the caller should be told, though the check goes on.
#[derive(Debug, Clone, Copy, PartialEq, Eq, Structural)]
pub enum Warning {
    /// The parser rejected the text, which holds the given safe statement:
    /// no statement of the text was checked.
    SafePatternSkipped { pattern: SafePattern },
    /// No line was found for the statement with the given number, counted
    /// from 1. It was checked as if it stood on line 1.
    StatementNotLocated { statement: usize },
}

impl Warning {
    /// The warning in words.
    pub fn to_string(&self) -> (r: String)
        ensures
            r@ == match *self {
                Warning::SafePatternSkipped { pattern } => "Warning: SQL contains "@
                    + pattern.name_text()
                    + " (safe pattern) but parser failed. Other statements in this file may not be checked due to sqlparser limitations."@,
                Warning::StatementNotLocated { statement } =>
                    "Warning: could not locate statement "@ + decimal(statement as nat)
                        + " in the source; treating it as if it were on line 1."@,
            },
    {
        match self {
            Warning::SafePatternSkipped { pattern } => {
                let mut s = String::from_str("Warning: SQL contains ");
                s.append(pattern.name());
                s.append(
                    " (safe pattern) but parser failed. Other statements in this file may not be checked due to sqlparser limitations.",
                );
                s
            },
            Warning::StatementNotLocated { statement } => {
                let mut s = String::from_str("Warning: could not locate statement ");
                s.append(decimal_string(*statement).as_str());
                s.append(" in the source; treating it as if it were on line 1.");
                s
            },
        }
    }
}

/// The warnings about the statements of `parsed`, one for each statement
/// for which no line was found, in the statements' order.
pub open spec fn location_warnings(parsed: &ParsedSql, upto: int) -> Seq<Warning>
    decreases upto,
{
    if upto <= 0 {
        Seq::empty()
    } else {
        let earlier = location_warnings(parsed, upto - 1);
        if found_line(lines_of(parsed.sql@), keywords_of(parsed.statements@), upto - 1) {
            earlier
        } else {
            earlier.push(Warning::StatementNotLocated { statement: upto as usize })
        }
    }
}

/// The warnings about `parsed`: first the one about a safe statement for
/// whose sake the text was not checked, then those about statements
/// without a line.
pub open spec fn warnings_of(parsed: &ParsedSql) -> Seq<Warning> {
    (match parsed.skipped {
        Some(pattern) => seq![Warning::SafePatternSkipped { pattern }],
        None => Seq::empty(),
    }) + location_warnings(parsed, parsed.statements@.len() as int)
}

/// The files of one migration directory.
#[derive(Debug, Clone, Copy, PartialEq, Eq, Structural)]
pub enum MigrationFile {
    Up,
    Down,
}

impl MigrationFile {
    /// The file's name in its directory.
    pub fn file_name(self) -> (r: &'static str)
        ensures
            r@ == match self {
                MigrationFile::Up => "up.sql"@,
                MigrationFile::Down => "down.sql"@,
            },
    {
        match self {
            MigrationFile::Up => "up.sql",
            MigrationFile::Down => "down.sql",
        }
    }
}

/// The files of the migration directory `dir_name` that are checked under
/// `config`: none where the configuration skips the migration; else `up.sql`
/// where it exists, then `down.sql` where it exists and the configuration
/// asks for it.
pub open spec fn selected_files(
    config: &Config,
    dir_name: Seq<char>,
    has_up: bool,
    has_down: bool,
) -> Seq<MigrationFile> {
    if config.migration_checked(dir_name) {
        (if has_up {
            seq![MigrationFile::Up]
        } else {
            Seq::empty()
        }) + (if config.check_down && has_down {
            seq![MigrationFile::Down]
        } else {
            Seq::empty()
        })
    } else {
        Seq::empty()
    }
}

/// Checks SQL texts against the rules that a configuration leaves
/// switched on.
pub struct SafetyChecker {
    pub parser: SqlParser,
    pub registry: Registry,
    pub config: Config,
}

impl SafetyChecker {
    /// A checker with the rules that `config` leaves switched on.
    pub fn with_config(config: Config) -> (checker: SafetyChecker)
        ensures
            checker.config == config,
            checker.registry.checks@ == enabled_kinds(&config),
    {
        SafetyChecker { parser: SqlParser::new(), registry: Registry::with_config(&config), config }
    }

    /// The violations in a parsed text: what the active rules report about
    /// each statement whose line is not in an ignore range.
    pub fn check_parsed(&self, parsed: &ParsedSql) -> (found: Vec<Violation>)
        ensures
            violation_views(found@) == self.registry.context_violations(
                parsed.statements@,
                lines_of(parsed.sql@),
                parsed.ignore_ranges@,
            ),
    {
        self.registry.check_statements_with_context(
            parsed.statements.as_slice(),
            parsed.sql.as_str(),
            parsed.ignore_ranges.as_slice(),
        )
    }

    /// The warnings about a parsed text.
    pub fn warnings(&self, parsed: &ParsedSql) -> (found: Vec<Warning>)
        ensures
            found@ == warnings_of(parsed),
    {
        let mut found: Vec<Warning> = Vec::new();
        if let Some(pattern) = parsed.skipped {
            found.push(Warning::SafePatternSkipped { pattern });
        }
        let locations = locate_statements(parsed.statements.as_slice(), parsed.sql.as_str());
        let ghost head = found@;
        let mut k: usize = 0;
        assert(found@ =~= head + location_warnings(parsed, 0));
        while k < locations.len()
            invariant
                k <= locations.len(),
                locations@.len() == parsed.statements@.len(),
                forall|j: int|
                    0 <= j < locations@.len() ==> (#[trigger] locations@[j]).matched == found_line(
                        lines_of(parsed.sql@),
                        keywords_of(parsed.statements@),
                        j,
                    ),
                found@ == head + location_warnings(parsed, k as int),
            decreases locations.len() - k,
        {
            if !locations[k].matched {
                found.push(Warning::StatementNotLocated { statement: k + 1 });
                assert(found@ =~= head + location_warnings(parsed, k + 1));
            }
            k = k + 1;
        }
        assert(found@ =~= warnings_of(parsed));
        found
    }

    /// Checks one SQL text. A directive error comes first. Where the
    /// parser gives statements, the violations are those of
    /// [`SafetyChecker::check_parsed`] on what the rules read of them. A text
    /// that the parser rejects has no violations where it holds one of the
    /// safe statements, and fails with the parser's error otherwise.
    pub fn check_sql(&self, sql: &str) -> (r: Result<Vec<Violation>, DieselGuardError>)
        ensures
            match ignore_ranges_of(lines_of(sql@)) {
                Err(e) => r matches Err(found) && found@ == e,
                Ok(ranges) => if !parse_fails(sql@) {
                    r matches Ok(found) && exists|nodes: Seq<StatementNode>|
                        reads_statements(parse_outcome(sql@)->Ok_0, nodes) && violation_views(
                            found@,
                        ) == #[trigger] self.registry.context_violations(
                            nodes,
                            lines_of(sql@),
                            ranges,
                        )
                } else {
                    match safe_pattern_in(sql@) {
                        Some(_) => r matches Ok(found) && found@.len() == 0,
                        None => r matches Err(DieselGuardError::ParseError { msg })
                            && failure_message(sql@, msg),
                    }
                },
            },
    {
        let parsed = match self.parser.parse_with_metadata(sql) {
            Ok(parsed) => parsed,
            Err(e) => {
                return Err(e);
            },
        };
        let found = self.check_parsed(&parsed);
        proof {
            let ranges = parsed.ignore_ranges@;
            if parsed.statements@.len() == 0 {
                lemma_reports_of_nothing(
                    positions(0),
                    |k: int|
                        self.registry.contribution(parsed.statements@, lines_of(sql@), ranges, k),
                );
                assert(violation_views(found@).len() == 0);
            }
        }
        Ok(found)
    }

    /// Which files of the migration directory `dir_name` are to be checked,
    /// given which of them exist.
    pub fn select_migration_files(&self, dir_name: &str, has_up: bool, has_down: bool) -> (files:
        Vec<MigrationFile>)
        ensures
            files@ == selected_files(&self.config, dir_name@, has_up, has_down),
    {
        let mut files: Vec<MigrationFile> = Vec::new();
        if self.config.should_check_migration(dir_name) {
            if has_up {
                files.push(MigrationFile::Up);
            }
            if self.config.check_down && has_down {
                files.push(MigrationFile::Down);
            }
        }
        assert(files@ =~= selected_files(&self.config, dir_name@, has_up, has_down));
        files
    }
}

} // verus!
