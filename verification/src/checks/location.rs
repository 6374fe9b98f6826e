//! Where in the source a parsed statement begins.
//!
//! The parser does not say on which line a statement stood. The line is
//! found again by the statement's leading keyword: the first word of its
//! rendering, in upper case. The statements are taken in order, and the lines
//! that are given away are kept in a set. Each gets
//! the first line that begins with its keyword, is no comment, and has not
//! been given to an earlier statement. A statement for which no such line is
//! left gets line 1.
//!
//! This is a heuristic. Two statements on one line, or a statement whose
//! rendering begins with another word than its source, are placed wrongly.

use crate::ast::StatementNode;
use crate::text::{
    chars_of, chars_start_with, first_word, first_word_of, lines_of, split_lines, starts_with,
    to_uppercase, trim, trimmed, uppercased, views_of,
};
use std::collections::HashSet;
use vstd::prelude::*;
use vstd::std_specs::hash::group_hash_axioms;

verus! {

/// The line that a statement was placed on. `matched` is `false` where no
/// line was found and line 1 stands in for it.
#[derive(Debug, Clone, Copy, PartialEq, Eq, Structural)]
pub struct StatementLocation {
    pub line: usize,
    pub matched: bool,
}

/// The leading keyword of a statement: the first word of its rendering in
/// upper case.
pub open spec fn keyword_of(stmt: StatementNode) -> Seq<char> {
    first_word(uppercased(stmt.text@))
}

/// The leading keywords of a list of statements.
pub open spec fn keywords_of(stmts: Seq<StatementNode>) -> Seq<Seq<char>> {
    Seq::new(stmts.len(), |k: int| keyword_of(stmts[k]))
}

/// Whether a line, trimmed, begins a line comment.
pub open spec fn comment_line(line: Seq<char>) -> bool {
    "--"@.is_prefix_of(trimmed(line))
}

/// Whether a line, trimmed and in upper case, begins with `keyword`.
pub open spec fn begins_with(line: Seq<char>, keyword: Seq<char>) -> bool {
    keyword.is_prefix_of(uppercased(trimmed(line)))
}

/// Whether the line with number `line` can be given to a statement with
/// the leading keyword `keyword`: it is a line of the source, it is not in
/// `taken`, it is no comment, and it begins with the keyword.
pub open spec fn candidate(
    lines: Seq<Seq<char>>,
    keyword: Seq<char>,
    taken: Set<int>,
    line: int,
) -> bool {
    &&& 1 <= line <= lines.len()
    &&& !taken.contains(line)
    &&& !comment_line(lines[line - 1])
    &&& begins_with(lines[line - 1], keyword)
}

/// The first candidate line from line `from` on.
pub open spec fn first_candidate(
    lines: Seq<Seq<char>>,
    keyword: Seq<char>,
    taken: Set<int>,
    from: int,
) -> Option<int>
    decreases lines.len() + 1 - from,
{
    if from < 1 || from > lines.len() {
        None
    } else if candidate(lines, keyword, taken, from) {
        Some(from)
    } else {
        first_candidate(lines, keyword, taken, from + 1)
    }
}

/// The line that a statement with the leading keyword `keyword` is placed
/// on, while the lines in `taken` are given away: the first candidate, or
/// line 1 where there is none.
pub open spec fn placed_line(lines: Seq<Seq<char>>, keyword: Seq<char>, taken: Set<int>) -> int {
    match first_candidate(lines, keyword, taken, 1) {
        Some(line) => line,
        None => 1,
    }
}

/// The lines that are given away once the first `k` statements are placed.
pub open spec fn taken_before(lines: Seq<Seq<char>>, keywords: Seq<Seq<char>>, k: int) -> Set<int>
    decreases k,
{
    if k <= 0 {
        Set::empty()
    } else {
        let earlier = taken_before(lines, keywords, k - 1);
        earlier.insert(placed_line(lines, keywords[k - 1], earlier))
    }
}

/// The line of statement `k`, counted from 0.
pub open spec fn line_of(lines: Seq<Seq<char>>, keywords: Seq<Seq<char>>, k: int) -> int {
    placed_line(lines, keywords[k], taken_before(lines, keywords, k))
}

/// Whether a line was found for statement `k`, counted from 0.
pub open spec fn found_line(lines: Seq<Seq<char>>, keywords: Seq<Seq<char>>, k: int) -> bool {
    first_candidate(lines, keywords[k], taken_before(lines, keywords, k), 1) is Some
}

/// What the search reads of one source line: whether it is a comment, and
/// its trimmed text in upper case.
pub struct SourceLine {
    pub comment: bool,
    pub upper: Vec<char>,
}

impl SourceLine {
    /// Whether this is what the search reads of `line`.
    pub open spec fn describes(&self, line: Seq<char>) -> bool {
        &&& self.comment == comment_line(line)
        &&& self.upper@ == uppercased(trimmed(line))
    }
}

/// What the search reads of each line of `sql`.
pub fn read_source_lines(sql: &str) -> (source: Vec<SourceLine>)
    ensures
        source@.len() == lines_of(sql@).len(),
        forall|i: int| 0 <= i < source@.len() ==> (#[trigger] source@[i]).describes(lines_of(sql@)[i]),
{
    let lines = split_lines(sql);
    let mut source: Vec<SourceLine> = Vec::new();
    let mut i: usize = 0;
    while i < lines.len()
        invariant
            i <= lines.len(),
            views_of(lines@) == lines_of(sql@),
            source@.len() == i,
            forall|j: int| 0 <= j < i ==> (#[trigger] source@[j]).describes(lines_of(sql@)[j]),
        decreases lines.len() - i,
    {
        let text = trim(lines[i].as_str());
        assert(views_of(lines@)[i as int] == lines@[i as int]@);
        let comment = starts_with(text, "--");
        let upper_text = to_uppercase(text);
        let upper = chars_of(upper_text.as_str());
        source.push(SourceLine { comment, upper });
        i = i + 1;
    }
    source
}

proof fn lemma_first_candidate_skips(
    lines: Seq<Seq<char>>,
    keyword: Seq<char>,
    taken: Set<int>,
    from: int,
    to: int,
)
    requires
        1 <= from <= to <= lines.len() + 1,
        forall|l: int| from <= l < to ==> !candidate(lines, keyword, taken, l),
    ensures
        first_candidate(lines, keyword, taken, from) == first_candidate(lines, keyword, taken, to),
    decreases to - from,
{
    if from < to {
        lemma_first_candidate_skips(lines, keyword, taken, from + 1, to);
    }
}

/// The line numbers in `matched`, as integers.
pub open spec fn line_numbers(matched: Set<usize>) -> Set<int> {
    Set::new(|line: int| 0 <= line <= usize::MAX && matched.contains(line as usize))
}

/// The first line of `source` that can be given to a statement with the
/// leading keyword `keyword`, where the lines in `matched` are given away.
pub fn first_free_line(keyword: &Vec<char>, source: &Vec<SourceLine>, matched: &HashSet<usize>) -> (r:
    Option<usize>)
    ensures
        forall|lines: Seq<Seq<char>>|
            source@.len() == lines.len() && (forall|i: int|
                0 <= i < source@.len() ==> (#[trigger] source@[i]).describes(lines[i])) ==> match r {
                Some(line) => 1 <= line <= lines.len() && #[trigger] first_candidate(
                    lines,
                    keyword@,
                    line_numbers(matched@),
                    1,
                ) == Some(line as int),
                None => #[trigger] first_candidate(lines, keyword@, line_numbers(matched@), 1)
                    is None,
            },
{
    broadcast use group_hash_axioms;

    let ghost taken = line_numbers(matched@);
    let mut i: usize = 0;
    while i < source.len()
        invariant
            i <= source.len(),
            taken == line_numbers(matched@),
            forall|lines: Seq<Seq<char>>, l: int|
                source@.len() == lines.len() && (forall|j: int|
                    0 <= j < source@.len() ==> (#[trigger] source@[j]).describes(lines[j])) && 1
                    <= l <= i ==> !#[trigger] candidate(lines, keyword@, taken, l),
        decreases source.len() - i,
    {
        let line: usize = i + 1;
        if !matched.contains(&line) && !source[i].comment && chars_start_with(
            &source[i].upper,
            keyword,
        ) {
            proof {
                assert forall|lines: Seq<Seq<char>>|
                    source@.len() == lines.len() && (forall|j: int|
                        0 <= j < source@.len() ==> (#[trigger] source@[j]).describes(
                            lines[j],
                        )) implies #[trigger] first_candidate(lines, keyword@, taken, 1) == Some(
                    line as int,
                ) by {
                    assert(source@[i as int].describes(lines[i as int]));
                    assert(candidate(lines, keyword@, taken, line as int));
                    lemma_first_candidate_skips(lines, keyword@, taken, 1, line as int);
                }
            }
            return Some(line);
        }
        proof {
            assert forall|lines: Seq<Seq<char>>, l: int|
                source@.len() == lines.len() && (forall|j: int|
                    0 <= j < source@.len() ==> (#[trigger] source@[j]).describes(lines[j])) && 1
                    <= l <= i + 1 implies !#[trigger] candidate(lines, keyword@, taken, l) by {
                if l == i + 1 {
                    assert(source@[i as int].describes(lines[i as int]));
                }
            }
        }
        i = i + 1;
    }
    proof {
        assert forall|lines: Seq<Seq<char>>|
            source@.len() == lines.len() && (forall|j: int|
                0 <= j < source@.len() ==> (#[trigger] source@[j]).describes(
                    lines[j],
                )) implies #[trigger] first_candidate(lines, keyword@, taken, 1) is None by {
            lemma_first_candidate_skips(lines, keyword@, taken, 1, lines.len() as int + 1);
        }
    }
    None
}

/// The leading keyword of a statement.
pub fn leading_keyword(stmt: &StatementNode) -> (keyword: Vec<char>)
    ensures
        keyword@ == keyword_of(*stmt),
{
    let upper = to_uppercase(stmt.text.as_str());
    chars_of(first_word_of(upper.as_str()))
}

/// Places each of `statements`, in order, on a line of `sql`.
pub fn locate_statements(statements: &[StatementNode], sql: &str) -> (locations: Vec<
    StatementLocation,
>)
    ensures
        locations@.len() == statements@.len(),
        forall|k: int|
            0 <= k < locations@.len() ==> {
                &&& (#[trigger] locations@[k]).line == line_of(
                    lines_of(sql@),
                    keywords_of(statements@),
                    k,
                )
                &&& locations@[k].matched == found_line(
                    lines_of(sql@),
                    keywords_of(statements@),
                    k,
                )
            },
{
    broadcast use group_hash_axioms;

    let ghost lines = lines_of(sql@);
    let ghost keywords = keywords_of(statements@);
    let source = read_source_lines(sql);
    let mut matched_lines: HashSet<usize> = HashSet::new();
    let mut locations: Vec<StatementLocation> = Vec::new();
    let mut k: usize = 0;
    assert(line_numbers(matched_lines@) =~= taken_before(lines, keywords, 0));
    while k < statements.len()
        invariant
            k <= statements.len(),
            lines == lines_of(sql@),
            keywords == keywords_of(statements@),
            source@.len() == lines.len(),
            forall|j: int| 0 <= j < source@.len() ==> (#[trigger] source@[j]).describes(lines[j]),
            line_numbers(matched_lines@) == taken_before(lines, keywords, k as int),
            locations@.len() == k,
            forall|j: int|
                0 <= j < k ==> {
                    &&& (#[trigger] locations@[j]).line == line_of(lines, keywords, j)
                    &&& locations@[j].matched == found_line(lines, keywords, j)
                },
        decreases statements.len() - k,
    {
        let keyword = leading_keyword(&statements[k]);
        let ghost taken = taken_before(lines, keywords, k as int);
        assert(keywords[k as int] == keyword@);
        let found = first_free_line(&keyword, &source, &matched_lines);
        assert(match found {
            Some(line) => first_candidate(lines, keyword@, taken, 1) == Some(line as int),
            None => first_candidate(lines, keyword@, taken, 1) is None,
        });
        let location = match found {
            Some(line) => StatementLocation { line, matched: true },
            None => StatementLocation { line: 1, matched: false },
        };
        let ghost before = matched_lines@;
        matched_lines.insert(location.line);
        proof {
            assert(line_numbers(before.insert(location.line)) =~= line_numbers(before).insert(
                location.line as int,
            ));
            assert(taken_before(lines, keywords, k + 1) == taken.insert(location.line as int));
        }
        locations.push(location);
        k = k + 1;
    }
    locations
}

/// A list of `n` statements that all have the leading keyword `keyword`.
pub open spec fn repeated(keyword: Seq<char>, n: nat) -> Seq<Seq<char>> {
    Seq::new(n, |i: int| keyword)
}

/// The first `k` of `positions`, as a set.
pub open spec fn first_positions(positions: Seq<int>, k: int) -> Set<int> {
    Set::new(|l: int| exists|i: int| 0 <= i < k && i < positions.len() && positions[i] == l)
}

proof fn lemma_repeated_keyword_taken(
    lines: Seq<Seq<char>>,
    keyword: Seq<char>,
    positions: Seq<int>,
    n: nat,
    k: int,
)
    requires
        forall|l: int|
            candidate(lines, keyword, Set::empty(), l) <==> #[trigger] positions.contains(l),
        forall|i: int, j: int|
            0 <= i < j < positions.len() ==> #[trigger] positions[i] < #[trigger] positions[j],
        n <= positions.len(),
        0 <= k <= n,
    ensures
        taken_before(lines, repeated(keyword, n), k) =~= first_positions(positions, k),
        k < n ==> first_candidate(lines, keyword, first_positions(positions, k), 1) == Some(
            positions[k],
        ),
    decreases k,
{
    let keywords = repeated(keyword, n);
    if k > 0 {
        lemma_repeated_keyword_taken(lines, keyword, positions, n, k - 1);
        let earlier = first_positions(positions, k - 1);
        assert(keywords[k - 1] == keyword);
        assert(placed_line(lines, keyword, earlier) == positions[k - 1]);
        assert(earlier.insert(positions[k - 1]) =~= first_positions(positions, k)) by {
            assert forall|l: int|
                earlier.insert(positions[k - 1]).contains(l) == first_positions(
                    positions,
                    k,
                ).contains(l) by {
                if l == positions[k - 1] {
                    assert(0 <= k - 1 < k && positions[k - 1] == l);
                }
            }
        }
    }
    if k < n {
        let taken = first_positions(positions, k);
        let target = positions[k];
        assert(positions.contains(target));
        assert(candidate(lines, keyword, Set::empty(), target));
        assert(!taken.contains(target)) by {
            if taken.contains(target) {
                let i = choose|i: int| 0 <= i < k && i < positions.len() && positions[i] == target;
                assert(positions[i] < positions[k]);
            }
        }
        assert(candidate(lines, keyword, taken, target));
        assert forall|l: int| 1 <= l < target implies !candidate(lines, keyword, taken, l) by {
            if candidate(lines, keyword, taken, l) {
                assert(candidate(lines, keyword, Set::empty(), l));
                assert(positions.contains(l));
                let i = choose|i: int| 0 <= i < positions.len() && positions[i] == l;
                if i < k {
                    assert(taken.contains(l));
                } else if i > k {
                    assert(positions[k] < positions[i]);
                }
            }
        }
        lemma_first_candidate_skips(lines, keyword, taken, 1, target);
    }
}

/// The next statement with a keyword gets the next line with it. Let
/// `positions` list, in increasing order, every line of the source that is
/// no comment and begins with `keyword`. Then a statement with this leading
/// keyword, placed while exactly the first `k` of these lines are given
/// away, is placed on `positions[k]`.
pub proof fn lemma_next_repeated_keyword_line(
    lines: Seq<Seq<char>>,
    keyword: Seq<char>,
    positions: Seq<int>,
    k: int,
)
    requires
        forall|l: int|
            candidate(lines, keyword, Set::empty(), l) <==> #[trigger] positions.contains(l),
        forall|i: int, j: int|
            0 <= i < j < positions.len() ==> #[trigger] positions[i] < #[trigger] positions[j],
        0 <= k < positions.len(),
    ensures
        placed_line(lines, keyword, first_positions(positions, k)) == positions[k],
{
    lemma_repeated_keyword_taken(lines, keyword, positions, positions.len(), k);
}

/// Statements with one keyword are placed in the order of their lines. Let
/// `positions` list, in increasing order, every line of the source that is
/// no comment and begins with `keyword`. Then of `n` statements that all have
/// this leading keyword, no more than there are such lines, each is found,
/// and statement `k` is placed on `positions[k]`: the statements get distinct
/// lines, in increasing order.
pub proof fn lemma_repeated_keyword_lines(
    lines: Seq<Seq<char>>,
    keyword: Seq<char>,
    positions: Seq<int>,
    n: nat,
    k: int,
)
    requires
        forall|l: int|
            candidate(lines, keyword, Set::empty(), l) <==> #[trigger] positions.contains(l),
        forall|i: int, j: int|
            0 <= i < j < positions.len() ==> #[trigger] positions[i] < #[trigger] positions[j],
        n <= positions.len(),
        0 <= k < n,
    ensures
        found_line(lines, repeated(keyword, n), k),
        line_of(lines, repeated(keyword, n), k) == positions[k],
{
    lemma_repeated_keyword_taken(lines, keyword, positions, n, k);
    assert(repeated(keyword, n)[k] == keyword);
}


/// Lines that are given away stay given away.
pub proof fn lemma_taken_grows(lines: Seq<Seq<char>>, keywords: Seq<Seq<char>>, j: int, k: int)
    requires
        0 <= j <= k,
    ensures
        taken_before(lines, keywords, j).subset_of(taken_before(lines, keywords, k)),
        j < k ==> taken_before(lines, keywords, k).contains(line_of(lines, keywords, j)),
    decreases k - j,
{
    if j < k {
        lemma_taken_grows(lines, keywords, j, k - 1);
        if j < k - 1 {
            assert(taken_before(lines, keywords, k - 1).contains(line_of(lines, keywords, j)));
        }
    }
}

proof fn lemma_first_candidate_is_first(
    lines: Seq<Seq<char>>,
    keyword: Seq<char>,
    taken: Set<int>,
    from: int,
)
    requires
        1 <= from,
    ensures
        match first_candidate(lines, keyword, taken, from) {
            Some(line) => from <= line && candidate(lines, keyword, taken, line) && forall|l: int|
                from <= l < line ==> !candidate(lines, keyword, taken, l),
            None => forall|l: int| from <= l ==> !candidate(lines, keyword, taken, l),
        },
    decreases lines.len() + 1 - from,
{
    if from <= lines.len() && !candidate(lines, keyword, taken, from) {
        lemma_first_candidate_is_first(lines, keyword, taken, from + 1);
    }
}

/// No line is given to two statements. A statement for which a line was
/// found stands on another line than every statement before it.
pub proof fn lemma_found_lines_distinct(
    lines: Seq<Seq<char>>,
    keywords: Seq<Seq<char>>,
    j: int,
    k: int,
)
    requires
        0 <= j < k,
        found_line(lines, keywords, k),
    ensures
        line_of(lines, keywords, j) != line_of(lines, keywords, k),
{
    lemma_taken_grows(lines, keywords, j, k);
    lemma_first_candidate_is_first(lines, keywords[k], taken_before(lines, keywords, k), 1);
}

/// Statements that share a keyword keep their order. Of two statements with
/// the same leading keyword for which lines were found, the earlier stands
/// on the earlier line.
pub proof fn lemma_shared_keyword_in_order(
    lines: Seq<Seq<char>>,
    keywords: Seq<Seq<char>>,
    j: int,
    k: int,
)
    requires
        0 <= j < k < keywords.len(),
        keywords[j] == keywords[k],
        found_line(lines, keywords, j),
        found_line(lines, keywords, k),
    ensures
        line_of(lines, keywords, j) < line_of(lines, keywords, k),
{
    let earlier = taken_before(lines, keywords, j);
    let later = taken_before(lines, keywords, k);
    lemma_taken_grows(lines, keywords, j, k);
    lemma_first_candidate_is_first(lines, keywords[j], earlier, 1);
    lemma_first_candidate_is_first(lines, keywords[k], later, 1);
    let line = line_of(lines, keywords, k);
    assert(candidate(lines, keywords[k], later, line));
    assert(!earlier.contains(line));
    assert(candidate(lines, keywords[j], earlier, line));
}

} // verus!
