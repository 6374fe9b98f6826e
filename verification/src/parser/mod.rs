//! From SQL text to statements and ignore ranges.
//!
//! The SQL parser rejects a few statements that PostgreSQL accepts and that
//! are safe to run. A text that the parser rejects is therefore searched for
//! each of them. Where one is found, the text counts as parsed, with no
//! statement in it: nothing in that text is checked, not even what stands
//! beside the safe statement. Where none is found, the parser's error stands.

pub mod comment_parser;
pub mod drop_index_concurrently_detector;
pub mod primary_key_using_index_detector;
pub mod syntax_tree;
pub mod unique_using_index_detector;

pub use comment_parser::{CommentParser, IgnoreRange};
pub use drop_index_concurrently_detector::contains_drop_index_concurrently;
pub use primary_key_using_index_detector::contains_primary_key_using_index;
pub use unique_using_index_detector::contains_unique_using_index;

use crate::ast::StatementNode;
use crate::error::DieselGuardError;
use crate::parser::comment_parser::{flat, ignore_ranges_of};
use crate::parser::drop_index_concurrently_detector::DROP_INDEX_CONCURRENTLY_PATTERN;
use crate::parser::primary_key_using_index_detector::PRIMARY_KEY_USING_INDEX_PATTERN;
use crate::parser::unique_using_index_detector::UNIQUE_USING_INDEX_PATTERN;
use crate::parser::syntax_tree::{failure_message, parse_fails, parse_outcome, reads_statements};
use crate::pattern::pattern_matches;
use crate::text::lines_of;
use vstd::prelude::*;

verus! {

/// The safe statements that the SQL parser rejects.
#[derive(Debug, Clone, Copy, PartialEq, Eq, Structural)]
pub enum SafePattern {
    UniqueUsingIndex,
    PrimaryKeyUsingIndex,
    DropIndexConcurrently,
}

impl SafePattern {
    /// The statement in words.
    pub open spec fn name_text(self) -> Seq<char> {
        match self {
            SafePattern::UniqueUsingIndex => "UNIQUE USING INDEX"@,
            SafePattern::PrimaryKeyUsingIndex => "PRIMARY KEY USING INDEX"@,
            SafePattern::DropIndexConcurrently => "DROP INDEX CONCURRENTLY"@,
        }
    }

    /// The statement in words.
    pub fn name(self) -> (r: &'static str)
        ensures
            r@ == self.name_text(),
    {
        match self {
            SafePattern::UniqueUsingIndex => "UNIQUE USING INDEX",
            SafePattern::PrimaryKeyUsingIndex => "PRIMARY KEY USING INDEX",
            SafePattern::DropIndexConcurrently => "DROP INDEX CONCURRENTLY",
        }
    }
}

/// The first of the safe statements that `sql` holds, in the order
/// `UNIQUE USING INDEX`, `PRIMARY KEY USING INDEX`, `DROP INDEX CONCURRENTLY`.
pub open spec fn safe_pattern_in(sql: Seq<char>) -> Option<SafePattern> {
    if pattern_matches(UNIQUE_USING_INDEX_PATTERN@, sql) {
        Some(SafePattern::UniqueUsingIndex)
    } else if pattern_matches(PRIMARY_KEY_USING_INDEX_PATTERN@, sql) {
        Some(SafePattern::PrimaryKeyUsingIndex)
    } else if pattern_matches(DROP_INDEX_CONCURRENTLY_PATTERN@, sql) {
        Some(SafePattern::DropIndexConcurrently)
    } else {
        None
    }
}

/// Whether `r` is what parsing `sql` gives: the readings of the parser's
/// statements, in source order, or a parse error with the message of the
/// failure.
pub open spec fn parsed_as(sql: Seq<char>, r: Result<Vec<StatementNode>, DieselGuardError>) -> bool {
    if parse_fails(sql) {
        r matches Err(DieselGuardError::ParseError { msg }) && failure_message(sql, msg)
    } else {
        r matches Ok(nodes) && reads_statements(parse_outcome(sql)->Ok_0, nodes@)
    }
}

/// A parsed text: its statements, the text itself, and the ranges that its
/// directives take out of checking. `skipped` names the safe statement for
/// whose sake a text that the parser rejected counts as parsed.
#[derive(Debug)]
pub struct ParsedSql {
    pub statements: Vec<StatementNode>,
    pub sql: String,
    pub ignore_ranges: Vec<IgnoreRange>,
    pub skipped: Option<SafePattern>,
}

pub struct SqlParser {}

impl SqlParser {
    pub fn new() -> SqlParser {
        SqlParser {  }
    }

    /// Parses `sql` into statements. Where the parser gives statements, the
    /// result holds what the rules read of each, in source order. Where the
    /// parser fails, the result is a parse error that carries the rendering
    /// of the parser's error.
    pub fn parse(&self, sql: &str) -> (r: Result<Vec<StatementNode>, DieselGuardError>)
        ensures
            parsed_as(sql@, r),
    {
        match syntax_tree::parse_sql(sql) {
            Ok(statements) => Ok(statements),
            Err(msg) => Err(DieselGuardError::parse_error(msg)),
        }
    }

    /// The first of the safe statements that `sql` holds.
    pub fn detect_safe_pattern(sql: &str) -> (r: Option<SafePattern>)
        ensures
            r == safe_pattern_in(sql@),
    {
        if contains_unique_using_index(sql) {
            Some(SafePattern::UniqueUsingIndex)
        } else if contains_primary_key_using_index(sql) {
            Some(SafePattern::PrimaryKeyUsingIndex)
        } else if contains_drop_index_concurrently(sql) {
            Some(SafePattern::DropIndexConcurrently)
        } else {
            None
        }
    }

    /// What becomes of `sql` once the parser has answered with `parsed`.
    /// Statements stand as parsed. An error gives way to an empty list of
    /// statements where `sql` holds one of the safe statements, and stands
    /// otherwise.
    pub fn resolve(
        parsed: Result<Vec<StatementNode>, DieselGuardError>,
        sql: &str,
        ignore_ranges: Vec<IgnoreRange>,
    ) -> (r: Result<ParsedSql, DieselGuardError>)
        ensures
            match parsed {
                Ok(statements) => r matches Ok(p) && p.statements == statements && p.sql@ == sql@
                    && p.ignore_ranges == ignore_ranges && p.skipped is None,
                Err(e) => match safe_pattern_in(sql@) {
                    Some(pattern) => r matches Ok(p) && p.statements@.len() == 0 && p.sql@ == sql@
                        && p.ignore_ranges == ignore_ranges && p.skipped == Some(pattern),
                    None => r == Err::<ParsedSql, DieselGuardError>(e),
                },
            },
    {
        match parsed {
            Ok(statements) => Ok(
                ParsedSql { statements, sql: String::from_str(sql), ignore_ranges, skipped: None },
            ),
            Err(e) => match Self::detect_safe_pattern(sql) {
                Some(pattern) => Ok(
                    ParsedSql {
                        statements: Vec::new(),
                        sql: String::from_str(sql),
                        ignore_ranges,
                        skipped: Some(pattern),
                    },
                ),
                None => Err(e),
            },
        }
    }

    /// Reads the directives of `sql`, then parses it. A directive error
    /// comes first, whatever the parser would say. After that the outcome is
    /// that of [`SqlParser::resolve`] on the parser's answer: the statements
    /// where the parser gives them; no statements, and the name of the safe
    /// statement, where the parser fails on a text that holds one; the
    /// parser's error otherwise.
    pub fn parse_with_metadata(&self, sql: &str) -> (r: Result<ParsedSql, DieselGuardError>)
        ensures
            match ignore_ranges_of(lines_of(sql@)) {
                Err(e) => r matches Err(found) && found@ == e,
                Ok(ranges) => flat(ranges) && if !parse_fails(sql@) {
                    r matches Ok(p) && reads_statements(parse_outcome(sql@)->Ok_0, p.statements@)
                        && p.sql@ == sql@ && p.ignore_ranges@ == ranges && p.skipped is None
                } else {
                    match safe_pattern_in(sql@) {
                        Some(pattern) => r matches Ok(p) && p.statements@.len() == 0 && p.sql@
                            == sql@ && p.ignore_ranges@ == ranges && p.skipped == Some(pattern),
                        None => r matches Err(DieselGuardError::ParseError { msg })
                            && failure_message(sql@, msg),
                    }
                },
            },
    {
        let ignore_ranges = match CommentParser::parse_ignore_ranges(sql) {
            Ok(ranges) => ranges,
            Err(e) => {
                return Err(e);
            },
        };
        let parsed = self.parse(sql);
        Self::resolve(parsed, sql, ignore_ranges)
    }
}

impl Default for SqlParser {
    fn default() -> SqlParser {
        SqlParser::new()
    }
}

} // verus!
