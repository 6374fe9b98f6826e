//! The `safety-assured` directives.
//!
//! A comment line `-- safety-assured:start` opens a block and a comment line
//! `-- safety-assured:end` closes it. What stands between the two lines is
//! not checked. Blocks do not nest, and every block must be closed.

use crate::error::{DieselGuardError, ErrorView};
use crate::pattern::{is_match, pattern_matches};
use crate::text::{lines_of, split_lines, trim, trimmed, views_of};
use vstd::prelude::*;

verus! {

/// A line that opens a block: `--`, then `safety-assured:start` in any letter
/// case, with white space allowed before, between and after, and nothing else.
pub const START_DIRECTIVE: &'static str = "(?i)^\\s*--\\s*safety-assured:start\\s*$";

/// A line that closes a block: as [`START_DIRECTIVE`], with `end`.
pub const END_DIRECTIVE: &'static str = "(?i)^\\s*--\\s*safety-assured:end\\s*$";

/// The lines between a `start` directive and its `end` directive. Both line
/// numbers count from 1 and are those of the directives themselves, which do
/// not belong to the range.
#[derive(Debug, Clone, Copy, PartialEq, Eq, Structural)]
pub struct IgnoreRange {
    pub start_line: usize,
    pub end_line: usize,
}

impl IgnoreRange {
    /// A range ends after it starts.
    pub open spec fn well_formed(self) -> bool {
        1 <= self.start_line < self.end_line
    }

    /// Whether `line` lies in the range: strictly between the two directives.
    pub open spec fn contains(self, line: int) -> bool {
        self.start_line < line < self.end_line
    }

    /// The range in words.
    pub fn to_string(&self) -> (r: String)
        ensures
            r@ == "lines "@ + crate::text::decimal(self.start_line as nat) + "-"@
                + crate::text::decimal(self.end_line as nat),
    {
        let mut s = String::from_str("lines ");
        s.append(crate::text::decimal_string(self.start_line).as_str());
        s.append("-");
        s.append(crate::text::decimal_string(self.end_line).as_str());
        s
    }
}

/// Whether the trimmed line `line` is a `start` directive.
pub open spec fn start_directive(line: Seq<char>) -> bool {
    pattern_matches(START_DIRECTIVE@, line)
}

/// Whether the trimmed line `line` matches the pattern of an `end`
/// directive.
pub open spec fn matches_end(line: Seq<char>) -> bool {
    pattern_matches(END_DIRECTIVE@, line)
}

/// Whether the trimmed line `line` is an `end` directive: it matches the
/// pattern of one and is no `start` directive. The scan asks for a `start`
/// first, so this is the line that it takes for an `end`. No line matches
/// both patterns, but that is known to the pattern engine alone.
pub open spec fn end_directive(line: Seq<char>) -> bool {
    !start_directive(line) && matches_end(line)
}

/// Where the scan of the lines stands: the ranges that are complete, and
/// the line of the `start` directive that is still open, if one is.
pub struct ScanState {
    pub ranges: Seq<IgnoreRange>,
    pub open: Option<usize>,
}

/// The state before the first line.
pub open spec fn initial_state() -> ScanState {
    ScanState { ranges: Seq::empty(), open: None }
}

/// One step of the scan: what the line with number `number` does to the
/// state. A `start` opens a block, and fails inside an open one; an `end`
/// closes the open block, and fails without one; any other line changes
/// nothing. Lines are told apart after trimming.
pub open spec fn scan_line(state: ScanState, line: Seq<char>, number: usize) -> Result<
    ScanState,
    ErrorView,
> {
    let text = trimmed(line);
    if start_directive(text) {
        match state.open {
            Some(_) => Err(ErrorView::NestedDirective { line: number }),
            None => Ok(ScanState { ranges: state.ranges, open: Some(number) }),
        }
    } else if end_directive(text) {
        match state.open {
            Some(start_line) => Ok(
                ScanState {
                    ranges: state.ranges.push(IgnoreRange { start_line, end_line: number }),
                    open: None,
                },
            ),
            None => Err(ErrorView::UnmatchedEnd { line: number }),
        }
    } else {
        Ok(state)
    }
}

/// The scan of the lines from position `from` on, begun in `state`: the
/// state after the last line, or the first failure.
pub open spec fn scan_from(lines: Seq<Seq<char>>, from: int, state: ScanState) -> Result<
    ScanState,
    ErrorView,
>
    decreases lines.len() - from,
{
    if from < 0 || from >= lines.len() {
        Ok(state)
    } else {
        match scan_line(state, lines[from], (from + 1) as usize) {
            Ok(next) => scan_from(lines, from + 1, next),
            Err(e) => Err(e),
        }
    }
}

/// What the directives in `lines` amount to: the ranges, in the order of
/// their lines, or the first failure. A block that is still open after the
/// last line is a failure too.
pub open spec fn ignore_ranges_of(lines: Seq<Seq<char>>) -> Result<Seq<IgnoreRange>, ErrorView> {
    match scan_from(lines, 0, initial_state()) {
        Ok(state) => match state.open {
            Some(start_line) => Err(ErrorView::UnclosedBlock { line: start_line }),
            None => Ok(state.ranges),
        },
        Err(e) => Err(e),
    }
}

/// What a scan keeps true of its state while it has read `seen` lines: every
/// range is well formed and ends within the lines read, each range starts
/// after the one before it ends, and an open block starts after the last
/// range ends, within the lines read.
pub open spec fn orderly(state: ScanState, seen: int) -> bool {
    &&& forall|i: int|
        0 <= i < state.ranges.len() ==> (#[trigger] state.ranges[i]).well_formed()
            && state.ranges[i].end_line <= seen
    &&& forall|i: int, j: int|
        0 <= i < j < state.ranges.len() ==> (#[trigger] state.ranges[i]).end_line < (
        #[trigger] state.ranges[j]).start_line
    &&& match state.open {
        Some(start_line) => 1 <= start_line <= seen && forall|i: int|
            0 <= i < state.ranges.len() ==> (#[trigger] state.ranges[i]).end_line < start_line,
        None => true,
    }
}

/// Ranges that lie apart and in order: each is well formed and starts after
/// the one before it ends.
pub open spec fn flat(ranges: Seq<IgnoreRange>) -> bool {
    &&& forall|i: int| 0 <= i < ranges.len() ==> (#[trigger] ranges[i]).well_formed()
    &&& forall|i: int, j: int|
        0 <= i < j < ranges.len() ==> (#[trigger] ranges[i]).end_line < (
        #[trigger] ranges[j]).start_line
}

pub struct CommentParser;

impl CommentParser {
    /// Whether `line` is a `start` directive.
    pub fn is_start_directive(line: &str) -> (r: bool)
        ensures
            r == start_directive(line@),
    {
        is_match(START_DIRECTIVE, line)
    }

    /// Whether `line` is an `end` directive.
    pub fn is_end_directive(line: &str) -> (r: bool)
        ensures
            r == matches_end(line@),
    {
        is_match(END_DIRECTIVE, line)
    }

    /// Reads the directives of `sql` and gives the ranges between them, in
    /// the order of their lines. Fails at the first `start` inside an open
    /// block, at the first `end` without one, and at the end of the text
    /// where a block is still open.
    pub fn parse_ignore_ranges(sql: &str) -> (r: Result<Vec<IgnoreRange>, DieselGuardError>)
        ensures
            match r {
                Ok(ranges) => ignore_ranges_of(lines_of(sql@)) == Ok::<
                    Seq<IgnoreRange>,
                    ErrorView,
                >(ranges@) && flat(ranges@),
                Err(e) => ignore_ranges_of(lines_of(sql@)) == Err::<Seq<IgnoreRange>, ErrorView>(
                    e@,
                ),
            },
    {
        let lines = split_lines(sql);
        let ghost all = lines_of(sql@);
        let mut ranges: Vec<IgnoreRange> = Vec::new();
        let mut current_start: Option<usize> = None;
        let mut i: usize = 0;
        assert(ranges@ =~= initial_state().ranges);
        while i < lines.len()
            invariant
                i <= lines.len(),
                all == lines_of(sql@),
                all == views_of(lines@),
                scan_from(all, 0, initial_state()) == scan_from(
                    all,
                    i as int,
                    ScanState { ranges: ranges@, open: current_start },
                ),
                orderly(ScanState { ranges: ranges@, open: current_start }, i as int),
            decreases lines.len() - i,
        {
            let line_num = i + 1;
            let text = trim(lines[i].as_str());
            let ghost state = ScanState { ranges: ranges@, open: current_start };
            assert(all[i as int] == lines@[i as int]@);
            assert(scan_from(all, i as int, state) == match scan_line(state, all[i as int], line_num) {
                Ok(next) => scan_from(all, i + 1, next),
                Err(e) => Err(e),
            });
            if Self::is_start_directive(text) {
                if current_start.is_some() {
                    return Err(DieselGuardError::NestedDirective { line: line_num });
                }
                current_start = Some(line_num);
            } else if Self::is_end_directive(text) {
                match current_start {
                    Some(start_line) => {
                        ranges.push(IgnoreRange { start_line, end_line: line_num });
                        current_start = None;
                    },
                    None => {
                        return Err(DieselGuardError::UnmatchedEnd { line: line_num });
                    },
                }
            }
            i = i + 1;
        }
        if let Some(start_line) = current_start {
            return Err(DieselGuardError::UnclosedBlock { line: start_line });
        }
        Ok(ranges)
    }
}


/// Scanning a text up to some line and going on from there with the state
/// reached is scanning the text whole; a failure before that line stands.
pub proof fn lemma_scan_in_two(lines: Seq<Seq<char>>, from: int, cut: int, state: ScanState)
    requires
        0 <= from <= cut <= lines.len(),
    ensures
        scan_from(lines, from, state) == match scan_from(lines.take(cut), from, state) {
            Ok(reached) => scan_from(lines, cut, reached),
            Err(e) => Err(e),
        },
    decreases cut - from,
{
    if from < cut {
        assert(lines.take(cut)[from] == lines[from]);
        match scan_line(state, lines[from], (from + 1) as usize) {
            Ok(next) => {
                lemma_scan_in_two(lines, from + 1, cut, next);
            },
            Err(_) => {},
        }
    }
}

/// Lines without a directive leave the state as it is.
pub proof fn lemma_scan_plain_lines(lines: Seq<Seq<char>>, from: int, state: ScanState)
    requires
        0 <= from <= lines.len(),
        forall|k: int|
            from <= k < lines.len() ==> !start_directive(trimmed(#[trigger] lines[k]))
                && !end_directive(trimmed(lines[k])),
    ensures
        scan_from(lines, from, state) == Ok::<ScanState, ErrorView>(state),
    decreases lines.len() - from,
{
    if from < lines.len() {
        lemma_scan_plain_lines(lines, from + 1, state);
    }
}

/// Inside an open block, a `start` directive that no `end` directive
/// precedes ends the scan with a nesting error.
pub proof fn lemma_scan_open_block(lines: Seq<Seq<char>>, from: int, second: int, state: ScanState)
    requires
        0 <= from <= second < lines.len() <= usize::MAX,
        state.open is Some,
        start_directive(trimmed(lines[second])),
        forall|k: int| from <= k < second ==> !end_directive(trimmed(#[trigger] lines[k])),
    ensures
        scan_from(lines, from, state) matches Err(ErrorView::NestedDirective { line }) && from
            < line <= second + 1,
    decreases second - from,
{
    if from < second {
        assert(!end_directive(trimmed(lines[from])));
        if !start_directive(trimmed(lines[from])) {
            lemma_scan_open_block(lines, from + 1, second, state);
        }
    }
}

/// Nesting is rejected. After a text whose directives are in order, a
/// `start` directive that is followed by a second `start` directive, with no
/// `end` directive between the two, gives a nesting error, whatever else
/// stands between them and whatever follows. The error names the first
/// `start` directive after the one that opened the block.
pub proof fn lemma_nesting_rejected(
    before: Seq<Seq<char>>,
    first: Seq<char>,
    between: Seq<Seq<char>>,
    second: Seq<char>,
    after: Seq<Seq<char>>,
)
    requires
        ignore_ranges_of(before) is Ok,
        start_directive(trimmed(first)),
        start_directive(trimmed(second)),
        forall|k: int| 0 <= k < between.len() ==> !end_directive(trimmed(#[trigger] between[k])),
        before.len() + between.len() + after.len() + 2 <= usize::MAX,
    ensures
        ignore_ranges_of(before + seq![first] + between + seq![second] + after) matches Err(
            ErrorView::NestedDirective { line },
        ) && before.len() + 1 < line <= before.len() + between.len() + 2,
{
    let lines = before + seq![first] + between + seq![second] + after;
    let n = before.len() as int;
    let m = n + 1 + between.len();
    assert(lines.take(n) =~= before);
    assert(lines[n] == first);
    assert(lines[m] == second);
    lemma_scan_in_two(lines, 0, n, initial_state());
    let reached = scan_from(before, 0, initial_state())->Ok_0;
    assert(reached.open is None);
    let opened = ScanState { ranges: reached.ranges, open: Some((n + 1) as usize) };
    assert(scan_from(lines, n, reached) == scan_from(lines, n + 1, opened));
    assert forall|k: int| n + 1 <= k < m implies !end_directive(trimmed(#[trigger] lines[k])) by {
        assert(lines[k] == between[k - n - 1]);
    }
    lemma_scan_open_block(lines, n + 1, m, opened);
}

/// An `end` directive without a block is rejected. After a text whose
/// directives are in order, an `end` directive gives the error of an
/// unmatched end at its line, whatever follows.
pub proof fn lemma_unmatched_end_rejected(
    before: Seq<Seq<char>>,
    end: Seq<char>,
    after: Seq<Seq<char>>,
)
    requires
        ignore_ranges_of(before) is Ok,
        end_directive(trimmed(end)),
        before.len() + after.len() + 1 <= usize::MAX,
    ensures
        ignore_ranges_of(before + seq![end] + after) == Err::<Seq<IgnoreRange>, ErrorView>(
            ErrorView::UnmatchedEnd { line: (before.len() + 1) as usize },
        ),
{
    let lines = before + seq![end] + after;
    let n = before.len() as int;
    assert(lines.take(n) =~= before);
    assert(lines[n] == end);
    lemma_scan_in_two(lines, 0, n, initial_state());
}

/// A block that is never closed is rejected. After a text whose directives
/// are in order, a `start` directive that only lines without a directive
/// follow gives the error of an unclosed block at that line.
pub proof fn lemma_unclosed_block_rejected(
    before: Seq<Seq<char>>,
    start: Seq<char>,
    after: Seq<Seq<char>>,
)
    requires
        ignore_ranges_of(before) is Ok,
        start_directive(trimmed(start)),
        forall|k: int|
            0 <= k < after.len() ==> !start_directive(trimmed(#[trigger] after[k]))
                && !end_directive(trimmed(after[k])),
        before.len() + after.len() + 1 <= usize::MAX,
    ensures
        ignore_ranges_of(before + seq![start] + after) == Err::<Seq<IgnoreRange>, ErrorView>(
            ErrorView::UnclosedBlock { line: (before.len() + 1) as usize },
        ),
{
    let lines = before + seq![start] + after;
    let n = before.len() as int;
    assert(lines.take(n) =~= before);
    assert(lines[n] == start);
    lemma_scan_in_two(lines, 0, n, initial_state());
    let reached = scan_from(before, 0, initial_state())->Ok_0;
    let opened = ScanState { ranges: reached.ranges, open: Some((n + 1) as usize) };
    assert(scan_from(lines, n, reached) == scan_from(lines, n + 1, opened));
    assert forall|k: int| n + 1 <= k < lines.len() implies !start_directive(
        trimmed(#[trigger] lines[k]),
    ) && !end_directive(trimmed(lines[k])) by {
        assert(lines[k] == after[k - n - 1]);
    }
    lemma_scan_plain_lines(lines, n + 1, opened);
}

/// The scan keeps its ranges apart and in order.
pub proof fn lemma_scan_orderly(lines: Seq<Seq<char>>, from: int, state: ScanState)
    requires
        0 <= from <= lines.len() <= usize::MAX,
        orderly(state, from),
    ensures
        scan_from(lines, from, state) matches Ok(reached) ==> orderly(reached, lines.len() as int),
    decreases lines.len() - from,
{
    if from < lines.len() {
        match scan_line(state, lines[from], (from + 1) as usize) {
            Ok(next) => {
                assert(orderly(next, from + 1));
                lemma_scan_orderly(lines, from + 1, next);
            },
            Err(_) => {},
        }
    }
}

/// The ranges of a text lie apart and in order: no two of them overlap or
/// nest, and each is well formed.
pub proof fn lemma_ranges_flat(lines: Seq<Seq<char>>)
    requires
        lines.len() <= usize::MAX,
    ensures
        ignore_ranges_of(lines) matches Ok(ranges) ==> flat(ranges),
{
    lemma_scan_orderly(lines, 0, initial_state());
}

/// The directive lines themselves are outside every range. Of ranges that
/// lie apart and in order, neither the `start` line nor the `end` line of
/// any range lies in any of the ranges: a range is an open interval.
pub proof fn lemma_boundaries_outside(ranges: Seq<IgnoreRange>, r: int, q: int)
    requires
        flat(ranges),
        0 <= r < ranges.len(),
        0 <= q < ranges.len(),
    ensures
        !ranges[q].contains(ranges[r].start_line as int),
        !ranges[q].contains(ranges[r].end_line as int),
{
    assert(ranges[r].well_formed());
    assert(ranges[q].well_formed());
    if q < r {
        assert(ranges[q].end_line < ranges[r].start_line);
    } else if r < q {
        assert(ranges[r].end_line < ranges[q].start_line);
    }
}

} // verus!
