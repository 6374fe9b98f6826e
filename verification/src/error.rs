//! What can go wrong while one file is checked.

use crate::config::{ConfigError, ConfigErrorView};
use crate::text::{
    chars_of, decimal, decimal_string, find_first, parse_number, parsed_number, split_at_first,
};
use vstd::prelude::*;

verus! {

/// Why a file could not be checked.
#[derive(Debug)]
pub enum DieselGuardError {
    /// The SQL parser rejected the text; `msg` is its message.
    ParseError { msg: String },
    /// A `safety-assured:start` at `line`, inside a block that is still open.
    NestedDirective { line: usize },
    /// A `safety-assured:end` at `line`, with no block open.
    UnmatchedEnd { line: usize },
    /// The text ended inside the block that was opened at `line`.
    UnclosedBlock { line: usize },
    /// The configuration is not valid.
    ConfigError(ConfigError),
}

/// The mathematical content of a [`DieselGuardError`].
pub enum ErrorView {
    ParseError { msg: Seq<char> },
    NestedDirective { line: usize },
    UnmatchedEnd { line: usize },
    UnclosedBlock { line: usize },
    ConfigError(ConfigErrorView),
}

impl View for DieselGuardError {
    type V = ErrorView;

    open spec fn view(&self) -> ErrorView {
        match *self {
            DieselGuardError::ParseError { msg } => ErrorView::ParseError { msg: msg@ },
            DieselGuardError::NestedDirective { line } => ErrorView::NestedDirective { line },
            DieselGuardError::UnmatchedEnd { line } => ErrorView::UnmatchedEnd { line },
            DieselGuardError::UnclosedBlock { line } => ErrorView::UnclosedBlock { line },
            DieselGuardError::ConfigError(e) => ErrorView::ConfigError(e@),
        }
    }
}

/// The message of an error, as [`DieselGuardError::to_string`] writes it.
pub open spec fn error_message(e: ErrorView) -> Seq<char> {
    match e {
        ErrorView::ParseError { msg } => "Failed to parse SQL: "@ + msg,
        ErrorView::NestedDirective { line } => "Failed to parse SQL: "@
            + "Nested 'safety-assured:start' at line "@ + decimal(line as nat)
            + ". Nested blocks are not supported. Close the previous block before starting a new one."@,
        ErrorView::UnmatchedEnd { line } => "Failed to parse SQL: "@
            + "Unmatched 'safety-assured:end' at line "@ + decimal(line as nat)
            + ". Each 'safety-assured:end' must have a matching 'safety-assured:start' before it."@,
        ErrorView::UnclosedBlock { line } => "Failed to parse SQL: "@
            + "Unclosed 'safety-assured:start' at line "@ + decimal(line as nat)
            + ". Did you forget to add 'safety-assured:end'?"@,
        ErrorView::ConfigError(_) => "Configuration error"@,
    }
}

impl DieselGuardError {
    /// A parse error that carries `msg`.
    pub fn parse_error(msg: String) -> (e: DieselGuardError)
        ensures
            e == (DieselGuardError::ParseError { msg }),
            e@ == (ErrorView::ParseError { msg: msg@ }),
    {
        DieselGuardError::ParseError { msg }
    }

    /// The message of the error.
    pub fn to_string(&self) -> (r: String)
        ensures
            r@ == error_message(self@),
    {
        match self {
            DieselGuardError::ParseError { msg } => {
                let mut s = String::from_str("Failed to parse SQL: ");
                s.append(msg.as_str());
                s
            },
            DieselGuardError::NestedDirective { line } => {
                let mut s = String::from_str("Failed to parse SQL: ");
                s.append("Nested 'safety-assured:start' at line ");
                s.append(decimal_string(*line).as_str());
                s.append(
                    ". Nested blocks are not supported. Close the previous block before starting a new one.",
                );
                s
            },
            DieselGuardError::UnmatchedEnd { line } => {
                let mut s = String::from_str("Failed to parse SQL: ");
                s.append("Unmatched 'safety-assured:end' at line ");
                s.append(decimal_string(*line).as_str());
                s.append(
                    ". Each 'safety-assured:end' must have a matching 'safety-assured:start' before it.",
                );
                s
            },
            DieselGuardError::UnclosedBlock { line } => {
                let mut s = String::from_str("Failed to parse SQL: ");
                s.append("Unclosed 'safety-assured:start' at line ");
                s.append(decimal_string(*line).as_str());
                s.append(". Did you forget to add 'safety-assured:end'?");
                s
            },
            DieselGuardError::ConfigError(_) => String::from_str("Configuration error"),
        }
    }
}

/// The line and the column that a parser message gives: the two numbers in
/// `at Line: <line>, Column: <column>`, where the message holds that form and
/// ends with the column. The first `at Line: ` counts, and after it the first
/// `, Column: `.
pub open spec fn location_in(msg: Seq<char>) -> Option<(usize, usize)> {
    match split_at_first(msg, "at Line: "@) {
        Some((_, after_line)) => match split_at_first(after_line, ", Column: "@) {
            Some((line_text, column_text)) => match (
                parsed_number(line_text),
                parsed_number(column_text),
            ) {
                (Some(line), Some(column)) => Some((line, column)),
                _ => None,
            },
            None => None,
        },
        None => None,
    }
}

/// A part of `text`, from `from` up to `to`.
fn slice_of(text: &Vec<char>, from: usize, to: usize) -> (part: Vec<char>)
    requires
        from <= to <= text.len(),
    ensures
        part@ == text@.subrange(from as int, to as int),
{
    let mut part: Vec<char> = Vec::new();
    let mut i: usize = from;
    while i < to
        invariant
            from <= i <= to <= text.len(),
            part@ == text@.subrange(from as int, i as int),
        decreases to - i,
    {
        part.push(text[i]);
        assert(text@.subrange(from as int, i + 1) =~= text@.subrange(from as int, i as int).push(
            text@[i as int],
        ));
        i = i + 1;
    }
    part
}

/// The line and the column that a parser message gives, if it gives them.
pub fn parse_location(msg: &str) -> (r: Option<(usize, usize)>)
    ensures
        r == location_in(msg@),
{
    let text = chars_of(msg);
    let line_mark = chars_of("at Line: ");
    let column_mark = chars_of(", Column: ");
    let at = match find_first(&text, &line_mark) {
        Some(at) => at,
        None => {
            return None;
        },
    };
    let after_line = slice_of(&text, at + line_mark.len(), text.len());
    let comma = match find_first(&after_line, &column_mark) {
        Some(comma) => comma,
        None => {
            return None;
        },
    };
    let line_text = slice_of(&after_line, 0, comma);
    let column_text = slice_of(&after_line, comma + column_mark.len(), after_line.len());
    match (parse_number(&line_text), parse_number(&column_text)) {
        (Some(line), Some(column)) => Some((line, column)),
        _ => None,
    }
}

} // verus!
