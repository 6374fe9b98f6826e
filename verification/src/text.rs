//! Text handling on sequences of characters: lines, trimming, words,
//! prefixes, joining and decimal numbers.
//!
//! Every function here is stated over the view of a string, a `Seq<char>`.
//! Two facts about Unicode are taken from the standard library without proof:
//! which characters are white space, and how a string is upper-cased.

use vstd::prelude::*;

verus! {

/// Whether `c` has the Unicode `White_Space` property, as `char::is_whitespace` decides it.
pub uninterp spec fn unicode_white_space(c: char) -> bool;

/// The upper-case form of `s`, as `str::to_uppercase` computes it.
pub uninterp spec fn uppercased(s: Seq<char>) -> Seq<char>;

/// Calls `char::is_whitespace`. The result is the `White_Space` property of
/// the character, which this library only names.
#[verifier::external_body]
fn is_whitespace(c: char) -> (b: bool)
    ensures
        b == unicode_white_space(c),
{
    c.is_whitespace()
}

/// Calls `str::to_uppercase`. The result depends on the characters of `s`
/// alone; this library names it and states nothing more of it.
#[verifier::external_body]
pub(crate) fn to_uppercase(s: &str) -> (r: String)
    ensures
        r@ == uppercased(s@),
{
    s.to_uppercase()
}

/// `s` without its leading white space.
pub open spec fn trim_start(s: Seq<char>) -> Seq<char>
    decreases s.len(),
{
    if s.len() > 0 && unicode_white_space(s.first()) {
        trim_start(s.drop_first())
    } else {
        s
    }
}

/// `s` without its trailing white space.
pub open spec fn trim_end(s: Seq<char>) -> Seq<char>
    decreases s.len(),
{
    if s.len() > 0 && unicode_white_space(s.last()) {
        trim_end(s.drop_last())
    } else {
        s
    }
}

/// `s` without leading and trailing white space.
pub open spec fn trimmed(s: Seq<char>) -> Seq<char> {
    trim_end(trim_start(s))
}

/// The longest prefix of `s` that holds no white space.
pub open spec fn leading_word(s: Seq<char>) -> Seq<char>
    decreases s.len(),
{
    if s.len() > 0 && !unicode_white_space(s.first()) {
        seq![s.first()] + leading_word(s.drop_first())
    } else {
        Seq::empty()
    }
}

/// The first white-space separated word of `s`, empty where `s` has none.
pub open spec fn first_word(s: Seq<char>) -> Seq<char> {
    leading_word(trim_start(s))
}

/// The position of the first line feed in `s`, or `s.len()` where there is none.
pub open spec fn line_feed_at(s: Seq<char>) -> int
    decreases s.len(),
{
    if s.len() == 0 || s.first() == '\n' {
        0
    } else {
        1 + line_feed_at(s.drop_first())
    }
}

/// A line's content without the carriage return that preceded its line feed.
pub open spec fn without_carriage_return(line: Seq<char>) -> Seq<char> {
    if line.len() > 0 && line.last() == '\r' {
        line.drop_last()
    } else {
        line
    }
}

/// The lines of `s`. A line ends at a line feed, or at a carriage return
/// directly followed by a line feed; neither belongs to the line. The last
/// line needs no line ending, and a text that ends in one has no empty line
/// after it. A carriage return that no line feed follows stays in its line.
pub open spec fn lines_of(s: Seq<char>) -> Seq<Seq<char>>
    decreases s.len(),
{
    if s.len() == 0 {
        Seq::empty()
    } else {
        let n = line_feed_at(s);
        if n < 0 || n >= s.len() {
            seq![s]
        } else {
            seq![without_carriage_return(s.subrange(0, n))] + lines_of(
                s.subrange(n + 1, s.len() as int),
            )
        }
    }
}

/// The items of `parts` with `sep` between each two neighbours.
pub open spec fn joined(parts: Seq<Seq<char>>, sep: Seq<char>) -> Seq<char>
    decreases parts.len(),
{
    if parts.len() == 0 {
        Seq::empty()
    } else if parts.len() == 1 {
        parts[0]
    } else {
        joined(parts.drop_last(), sep) + sep + parts.last()
    }
}

/// The character of the decimal digit `d`.
pub open spec fn digit_char(d: nat) -> char {
    if d == 0 {
        '0'
    } else if d == 1 {
        '1'
    } else if d == 2 {
        '2'
    } else if d == 3 {
        '3'
    } else if d == 4 {
        '4'
    } else if d == 5 {
        '5'
    } else if d == 6 {
        '6'
    } else if d == 7 {
        '7'
    } else if d == 8 {
        '8'
    } else {
        '9'
    }
}

/// `n` written in decimal, without leading zeros.
pub open spec fn decimal(n: nat) -> Seq<char>
    decreases n,
{
    if n < 10 {
        seq![digit_char(n)]
    } else {
        decimal(n / 10) + seq![digit_char(n % 10)]
    }
}

/// Whether `c` is one of the ten ASCII digits.
pub open spec fn is_ascii_digit(c: char) -> bool {
    '0' <= c && c <= '9'
}

/// The ASCII digits of `s`, in order.
pub open spec fn digits_of(s: Seq<char>) -> Seq<char> {
    s.filter(|c: char| is_ascii_digit(c))
}

/// Whether `a` comes strictly after `b` in the order of strings: at the
/// first position where they differ `a` has the greater character, or `b` is
/// a proper prefix of `a`.
pub open spec fn comes_after(a: Seq<char>, b: Seq<char>) -> bool
    decreases a.len(),
{
    if a.len() == 0 {
        false
    } else if b.len() == 0 {
        true
    } else if a.first() != b.first() {
        a.first() > b.first()
    } else {
        comes_after(a.drop_first(), b.drop_first())
    }
}

/// The characters of `s`.
pub fn chars_of(s: &str) -> (v: Vec<char>)
    ensures
        v@ == s@,
{
    let mut v: Vec<char> = Vec::new();
    for c in it: s.chars()
        invariant
            v@ == it.seq().take(it.index() as int),
            it.seq() == s@,
    {
        v.push(c);
    }
    v
}

/// Whether two strings hold the same characters.
pub fn str_eq(a: &str, b: &str) -> (r: bool)
    ensures
        r == (a@ == b@),
{
    let x = chars_of(a);
    let y = chars_of(b);
    chars_eq(&x, &y)
}

/// Whether two character vectors hold the same characters.
pub fn chars_eq(a: &Vec<char>, b: &Vec<char>) -> (r: bool)
    ensures
        r == (a@ == b@),
{
    if a.len() != b.len() {
        return false;
    }
    let mut i: usize = 0;
    while i < a.len()
        invariant
            a.len() == b.len(),
            i <= a.len(),
            forall|j: int| 0 <= j < i ==> a@[j] == b@[j],
        decreases a.len() - i,
    {
        if a[i] != b[i] {
            return false;
        }
        i = i + 1;
    }
    assert(a@ =~= b@);
    true
}

/// Whether `text` begins with `prefix`.
pub fn chars_start_with(text: &Vec<char>, prefix: &Vec<char>) -> (r: bool)
    ensures
        r == prefix@.is_prefix_of(text@),
{
    if prefix.len() > text.len() {
        return false;
    }
    let mut i: usize = 0;
    while i < prefix.len()
        invariant
            prefix.len() <= text.len(),
            i <= prefix.len(),
            forall|j: int| 0 <= j < i ==> text@[j] == prefix@[j],
        decreases prefix.len() - i,
    {
        if text[i] != prefix[i] {
            assert(text@.subrange(0, prefix@.len() as int)[i as int] != prefix@[i as int]);
            return false;
        }
        i = i + 1;
    }
    assert(text@.subrange(0, prefix@.len() as int) =~= prefix@);
    true
}

/// Whether `text` begins with `prefix`.
pub fn starts_with(text: &str, prefix: &str) -> (r: bool)
    ensures
        r == prefix@.is_prefix_of(text@),
{
    let t = chars_of(text);
    let p = chars_of(prefix);
    chars_start_with(&t, &p)
}

proof fn lemma_trim_start_skips(s: Seq<char>, i: int)
    requires
        0 <= i <= s.len(),
        forall|j: int| 0 <= j < i ==> unicode_white_space(s[j]),
    ensures
        trim_start(s) == trim_start(s.subrange(i, s.len() as int)),
    decreases i,
{
    if i > 0 {
        assert(s.drop_first().subrange(i - 1, s.len() - 1) =~= s.subrange(i, s.len() as int));
        lemma_trim_start_skips(s.drop_first(), i - 1);
    } else {
        assert(s.subrange(0, s.len() as int) =~= s);
    }
}

proof fn lemma_trim_end_skips(s: Seq<char>, k: int)
    requires
        0 <= k <= s.len(),
        forall|j: int| k <= j < s.len() ==> unicode_white_space(s[j]),
    ensures
        trim_end(s) == trim_end(s.subrange(0, k)),
    decreases s.len() - k,
{
    if k < s.len() {
        assert(s.drop_last().subrange(0, k) =~= s.subrange(0, k));
        lemma_trim_end_skips(s.drop_last(), k);
    } else {
        assert(s.subrange(0, k) =~= s);
    }
}

/// The bounds of `trimmed(text)` within `text`.
fn trim_bounds(text: &Vec<char>) -> (r: (usize, usize))
    ensures
        r.0 <= r.1 <= text.len(),
        trimmed(text@) == text@.subrange(r.0 as int, r.1 as int),
{
    let n = text.len();
    let mut start: usize = 0;
    while start < n && is_whitespace(text[start])
        invariant
            n == text.len(),
            start <= n,
            forall|j: int| 0 <= j < start ==> unicode_white_space(text@[j]),
        decreases n - start,
    {
        start = start + 1;
    }
    let mut end: usize = n;
    while end > start && is_whitespace(text[end - 1])
        invariant
            n == text.len(),
            start <= end <= n,
            forall|j: int| end <= j < n ==> unicode_white_space(text@[j]),
        decreases end,
    {
        end = end - 1;
    }
    proof {
        let s = text@;
        let rest = s.subrange(start as int, n as int);
        lemma_trim_start_skips(s, start as int);
        assert(trim_start(s) == rest) by {
            if rest.len() > 0 {
                assert(rest.first() == s[start as int]);
            }
        }
        lemma_trim_end_skips(rest, end - start);
        let kept = rest.subrange(0, end - start);
        assert(kept =~= s.subrange(start as int, end as int));
        assert(trim_end(kept) == kept) by {
            if kept.len() > 0 {
                assert(kept.last() == s[end - 1]);
            }
        }
    }
    (start, end)
}

/// `text` without leading and trailing white space.
pub fn trim(text: &str) -> (r: &str)
    ensures
        r@ == trimmed(text@),
{
    let chars = chars_of(text);
    let (start, end) = trim_bounds(&chars);
    text.substring_char(start, end)
}


proof fn lemma_leading_word_prefix(s: Seq<char>, k: int)
    requires
        0 <= k <= s.len(),
        forall|j: int| 0 <= j < k ==> !unicode_white_space(s[j]),
        k == s.len() || unicode_white_space(s[k]),
    ensures
        leading_word(s) == s.subrange(0, k),
    decreases k,
{
    if k > 0 {
        lemma_leading_word_prefix(s.drop_first(), k - 1);
        assert(seq![s.first()] + s.drop_first().subrange(0, k - 1) =~= s.subrange(0, k));
    } else {
        assert(s.subrange(0, 0) =~= Seq::<char>::empty());
    }
}

/// The first white-space separated word of `text`, empty where it has none.
pub fn first_word_of(text: &str) -> (r: &str)
    ensures
        r@ == first_word(text@),
{
    let chars = chars_of(text);
    let n = chars.len();
    let mut start: usize = 0;
    while start < n && is_whitespace(chars[start])
        invariant
            n == chars.len(),
            start <= n,
            forall|j: int| 0 <= j < start ==> unicode_white_space(chars@[j]),
        decreases n - start,
    {
        start = start + 1;
    }
    let mut end: usize = start;
    while end < n && !is_whitespace(chars[end])
        invariant
            n == chars.len(),
            start <= end <= n,
            forall|j: int| start <= j < end ==> !unicode_white_space(chars@[j]),
        decreases n - end,
    {
        end = end + 1;
    }
    proof {
        let s = chars@;
        let rest = s.subrange(start as int, n as int);
        lemma_trim_start_skips(s, start as int);
        assert(trim_start(s) == rest) by {
            if rest.len() > 0 {
                assert(rest.first() == s[start as int]);
            }
        }
        assert forall|j: int| 0 <= j < end - start implies !unicode_white_space(rest[j]) by {
            assert(rest[j] == s[start + j]);
        }
        if end < n {
            assert(rest[end - start] == s[end as int]);
        }
        lemma_leading_word_prefix(rest, end - start);
        assert(rest.subrange(0, end - start) =~= s.subrange(start as int, end as int));
    }
    text.substring_char(start, end)
}

/// The views of a sequence of strings.
pub open spec fn views_of(v: Seq<String>) -> Seq<Seq<char>> {
    Seq::new(v.len(), |i: int| v[i]@)
}

proof fn lemma_line_feed_at(s: Seq<char>, k: int)
    requires
        0 <= k <= s.len(),
        forall|j: int| 0 <= j < k ==> s[j] != '\n',
        k == s.len() || s[k] == '\n',
    ensures
        line_feed_at(s) == k,
    decreases k,
{
    if k > 0 {
        lemma_line_feed_at(s.drop_first(), k - 1);
    }
}

/// The lines of `text`, in order.
pub fn split_lines(text: &str) -> (lines: Vec<String>)
    ensures
        views_of(lines@) == lines_of(text@),
{
    let chars = chars_of(text);
    let n = chars.len();
    let mut lines: Vec<String> = Vec::new();
    let mut start: usize = 0;
    let mut i: usize = 0;
    assert(text@.subrange(0, n as int) =~= text@);
    assert(views_of(lines@) =~= Seq::<Seq<char>>::empty());
    while i < n
        invariant
            n == chars.len(),
            chars@ == text@,
            start <= i <= n,
            forall|j: int| start <= j < i ==> chars@[j] != '\n',
            lines_of(text@) == views_of(lines@) + lines_of(text@.subrange(start as int, n as int)),
        decreases n - i,
    {
        if chars[i] == '\n' {
            let end = if i > start && chars[i - 1] == '\r' {
                i - 1
            } else {
                i
            };
            let line = String::from_str(text.substring_char(start, end));
            proof {
                let s = text@;
                let rest = s.subrange(start as int, n as int);
                let k = i - start;
                assert forall|j: int| 0 <= j < k implies rest[j] != '\n' by {
                    assert(rest[j] == s[start + j]);
                }
                assert(rest[k] == s[i as int]);
                lemma_line_feed_at(rest, k);
                let head = rest.subrange(0, k);
                assert(head =~= s.subrange(start as int, i as int));
                if k > 0 {
                    assert(head.last() == s[i - 1]);
                }
                assert(without_carriage_return(head) =~= s.subrange(start as int, end as int));
                assert(rest.subrange(k + 1, rest.len() as int) =~= s.subrange(i + 1, n as int));
                assert(views_of(lines@.push(line)) =~= views_of(lines@) + seq![line@]);
            }
            lines.push(line);
            start = i + 1;
        }
        i = i + 1;
    }
    if start < n {
        let line = String::from_str(text.substring_char(start, n));
        proof {
            let s = text@;
            let rest = s.subrange(start as int, n as int);
            assert forall|j: int| 0 <= j < rest.len() implies rest[j] != '\n' by {
                assert(rest[j] == s[start + j]);
            }
            lemma_line_feed_at(rest, rest.len() as int);
            assert(views_of(lines@.push(line)) =~= views_of(lines@) + seq![line@]);
        }
        lines.push(line);
    } else {
        assert(text@.subrange(start as int, n as int) =~= Seq::<char>::empty());
    }
    lines
}

/// The items of `parts` with `sep` between each two neighbours.
pub fn join(parts: &Vec<String>, sep: &str) -> (r: String)
    ensures
        r@ == joined(views_of(parts@), sep@),
{
    let mut out = String::new();
    let mut i: usize = 0;
    assert(views_of(parts@).take(0) =~= Seq::<Seq<char>>::empty());
    while i < parts.len()
        invariant
            i <= parts.len(),
            out@ == joined(views_of(parts@).take(i as int), sep@),
        decreases parts.len() - i,
    {
        proof {
            let all = views_of(parts@);
            let next = all.take(i + 1);
            assert(next.drop_last() =~= all.take(i as int));
            assert(next.last() == parts@[i as int]@);
            if i == 0 {
                assert(next[0] == parts@[0]@);
            }
        }
        if i > 0 {
            out.append(sep);
        }
        out.append(parts[i].as_str());
        i = i + 1;
    }
    assert(views_of(parts@).take(parts@.len() as int) =~= views_of(parts@));
    out
}

/// The text of one decimal digit.
fn digit_text(d: usize) -> (r: &'static str)
    requires
        d < 10,
    ensures
        r@ == seq![digit_char(d as nat)],
{
    let r = if d == 0 {
        proof {
            reveal_strlit("0");
        }
        "0"
    } else if d == 1 {
        proof {
            reveal_strlit("1");
        }
        "1"
    } else if d == 2 {
        proof {
            reveal_strlit("2");
        }
        "2"
    } else if d == 3 {
        proof {
            reveal_strlit("3");
        }
        "3"
    } else if d == 4 {
        proof {
            reveal_strlit("4");
        }
        "4"
    } else if d == 5 {
        proof {
            reveal_strlit("5");
        }
        "5"
    } else if d == 6 {
        proof {
            reveal_strlit("6");
        }
        "6"
    } else if d == 7 {
        proof {
            reveal_strlit("7");
        }
        "7"
    } else if d == 8 {
        proof {
            reveal_strlit("8");
        }
        "8"
    } else {
        proof {
            reveal_strlit("9");
        }
        "9"
    };
    assert(r@ =~= seq![digit_char(d as nat)]);
    r
}

/// `n` written in decimal, without leading zeros.
pub fn decimal_string(n: usize) -> (r: String)
    ensures
        r@ == decimal(n as nat),
    decreases n,
{
    if n < 10 {
        String::from_str(digit_text(n))
    } else {
        let mut s = decimal_string(n / 10);
        s.append(digit_text(n % 10));
        s
    }
}

/// The ASCII digits of `text`, in order.
pub fn ascii_digits(text: &str) -> (r: Vec<char>)
    ensures
        r@ == digits_of(text@),
{
    let chars = chars_of(text);
    let mut out: Vec<char> = Vec::new();
    let mut i: usize = 0;
    proof {
        reveal(Seq::filter);
        assert(chars@.take(0) =~= Seq::<char>::empty());
    }
    while i < chars.len()
        invariant
            i <= chars.len(),
            chars@ == text@,
            out@ == digits_of(chars@.take(i as int)),
        decreases chars.len() - i,
    {
        let c = chars[i];
        proof {
            assert(chars@.take(i + 1) =~= chars@.take(i as int).push(c));
            chars@.take(i as int).lemma_filter_push(c, |c: char| is_ascii_digit(c));
        }
        if '0' <= c && c <= '9' {
            out.push(c);
        }
        i = i + 1;
    }
    assert(chars@.take(chars@.len() as int) =~= chars@);
    out
}

/// Whether `a` comes strictly after `b` in the order of strings.
pub fn chars_come_after(a: &Vec<char>, b: &Vec<char>) -> (r: bool)
    ensures
        r == comes_after(a@, b@),
{
    let mut i: usize = 0;
    assert(a@.subrange(0, a@.len() as int) =~= a@);
    assert(b@.subrange(0, b@.len() as int) =~= b@);
    while i < a.len() && i < b.len()
        invariant
            i <= a.len(),
            i <= b.len(),
            comes_after(a@, b@) == comes_after(
                a@.subrange(i as int, a@.len() as int),
                b@.subrange(i as int, b@.len() as int),
            ),
        decreases a.len() - i,
    {
        let ghost x = a@.subrange(i as int, a@.len() as int);
        let ghost y = b@.subrange(i as int, b@.len() as int);
        assert(x.first() == a@[i as int]);
        assert(y.first() == b@[i as int]);
        if a[i] != b[i] {
            return a[i] > b[i];
        }
        assert(x.drop_first() =~= a@.subrange(i + 1, a@.len() as int));
        assert(y.drop_first() =~= b@.subrange(i + 1, b@.len() as int));
        i = i + 1;
    }
    i < a.len()
}


/// The least position at which `needle` occurs in `hay`, if it occurs at all.
pub open spec fn first_occurrence(hay: Seq<char>, needle: Seq<char>) -> Option<int>
    decreases hay.len(),
{
    if needle.is_prefix_of(hay) {
        Some(0)
    } else if hay.len() == 0 {
        None
    } else {
        match first_occurrence(hay.drop_first(), needle) {
            Some(i) => Some(i + 1),
            None => None,
        }
    }
}

/// `hay` cut in two at the first occurrence of `needle`: what stands before
/// it and what stands after it.
pub open spec fn split_at_first(hay: Seq<char>, needle: Seq<char>) -> Option<
    (Seq<char>, Seq<char>),
> {
    match first_occurrence(hay, needle) {
        Some(i) => Some((hay.subrange(0, i), hay.subrange(i + needle.len(), hay.len() as int))),
        None => None,
    }
}

proof fn lemma_first_occurrence_found(hay: Seq<char>, needle: Seq<char>, k: int)
    requires
        0 <= k <= hay.len(),
        forall|j: int| 0 <= j < k ==> !needle.is_prefix_of(#[trigger] hay.subrange(j, hay.len() as int)),
        needle.is_prefix_of(hay.subrange(k, hay.len() as int)),
    ensures
        first_occurrence(hay, needle) == Some(k),
        k + needle.len() <= hay.len(),
    decreases k,
{
    assert(hay.subrange(0, hay.len() as int) =~= hay);
    if k > 0 {
        let rest = hay.drop_first();
        assert forall|j: int| 0 <= j < k - 1 implies !needle.is_prefix_of(
            #[trigger] rest.subrange(j, rest.len() as int),
        ) by {
            assert(rest.subrange(j, rest.len() as int) =~= hay.subrange(j + 1, hay.len() as int));
        }
        assert(rest.subrange(k - 1, rest.len() as int) =~= hay.subrange(k, hay.len() as int));
        lemma_first_occurrence_found(rest, needle, k - 1);
    }
}

proof fn lemma_first_occurrence_missing(hay: Seq<char>, needle: Seq<char>)
    requires
        forall|j: int| 0 <= j <= hay.len() ==> !needle.is_prefix_of(#[trigger] hay.subrange(j, hay.len() as int)),
    ensures
        first_occurrence(hay, needle) is None,
    decreases hay.len(),
{
    assert(hay.subrange(0, hay.len() as int) =~= hay);
    if hay.len() > 0 {
        let rest = hay.drop_first();
        assert forall|j: int| 0 <= j <= rest.len() implies !needle.is_prefix_of(
            #[trigger] rest.subrange(j, rest.len() as int),
        ) by {
            assert(rest.subrange(j, rest.len() as int) =~= hay.subrange(j + 1, hay.len() as int));
        }
        lemma_first_occurrence_missing(rest, needle);
    }
}

/// Whether `needle` stands in `hay` at position `at`.
fn occurs_at(hay: &Vec<char>, needle: &Vec<char>, at: usize) -> (r: bool)
    requires
        at <= hay.len(),
    ensures
        r == needle@.is_prefix_of(hay@.subrange(at as int, hay@.len() as int)),
{
    let ghost tail = hay@.subrange(at as int, hay@.len() as int);
    if needle.len() > hay.len() - at {
        return false;
    }
    let mut i: usize = 0;
    while i < needle.len()
        invariant
            at <= hay.len(),
            needle.len() <= hay.len() - at,
            i <= needle.len(),
            tail == hay@.subrange(at as int, hay@.len() as int),
            forall|j: int| 0 <= j < i ==> tail[j] == needle@[j],
        decreases needle.len() - i,
    {
        assert(tail[i as int] == hay@[at + i]);
        if hay[at + i] != needle[i] {
            assert(tail.subrange(0, needle@.len() as int)[i as int] != needle@[i as int]);
            return false;
        }
        i = i + 1;
    }
    assert(tail.subrange(0, needle@.len() as int) =~= needle@);
    true
}

/// The least position at which `needle` occurs in `hay`.
pub fn find_first(hay: &Vec<char>, needle: &Vec<char>) -> (r: Option<usize>)
    ensures
        match r {
            Some(i) => first_occurrence(hay@, needle@) == Some(i as int) && i + needle@.len()
                <= hay@.len(),
            None => first_occurrence(hay@, needle@) is None,
        },
{
    let mut i: usize = 0;
    loop
        invariant
            i <= hay.len(),
            forall|j: int| 0 <= j < i ==> !needle@.is_prefix_of(#[trigger] hay@.subrange(j, hay@.len() as int)),
        decreases hay.len() - i,
    {
        if occurs_at(hay, needle, i) {
            proof {
                lemma_first_occurrence_found(hay@, needle@, i as int);
            }
            return Some(i);
        }
        if i == hay.len() {
            proof {
                lemma_first_occurrence_missing(hay@, needle@);
            }
            return None;
        }
        i = i + 1;
    }
}

/// The value of a character as a decimal digit.
pub open spec fn digit_value(c: char) -> nat {
    (c as u32 - '0' as u32) as nat
}

/// The number that a sequence of decimal digits writes.
pub open spec fn digits_value(s: Seq<char>) -> nat
    decreases s.len(),
{
    if s.len() == 0 {
        0
    } else {
        digits_value(s.drop_last()) * 10 + digit_value(s.last())
    }
}

/// Whether every character of `s` is an ASCII digit.
pub open spec fn all_ascii_digits(s: Seq<char>) -> bool {
    forall|i: int| 0 <= i < s.len() ==> is_ascii_digit(#[trigger] s[i])
}

/// The unsigned number that `s` writes in decimal: an optional `+`, then one
/// digit or more, the whole no greater than `usize::MAX`. Anything else is no
/// number.
pub open spec fn parsed_number(s: Seq<char>) -> Option<usize> {
    let digits = if s.len() > 0 && s.first() == '+' {
        s.drop_first()
    } else {
        s
    };
    if digits.len() > 0 && all_ascii_digits(digits) && digits_value(digits) <= usize::MAX {
        Some(digits_value(digits) as usize)
    } else {
        None
    }
}

proof fn lemma_digits_value_grows(s: Seq<char>, k: int)
    requires
        0 <= k <= s.len(),
        all_ascii_digits(s),
    ensures
        digits_value(s.take(k)) <= digits_value(s),
    decreases s.len() - k,
{
    if k < s.len() {
        lemma_digits_value_grows(s, k + 1);
        assert(s.take(k + 1).drop_last() =~= s.take(k));
        assert(is_ascii_digit(s[k]));
    } else {
        assert(s.take(k) =~= s);
    }
}

/// The unsigned number that `text` writes in decimal, if it writes one.
pub fn parse_number(text: &Vec<char>) -> (r: Option<usize>)
    ensures
        r == parsed_number(text@),
{
    let n = text.len();
    let start: usize = if n > 0 && text[0] == '+' {
        1
    } else {
        0
    };
    let ghost digits = if text@.len() > 0 && text@.first() == '+' {
        text@.drop_first()
    } else {
        text@
    };
    assert(digits =~= text@.subrange(start as int, n as int));
    if start == n {
        return None;
    }
    let mut value: usize = 0;
    let mut i: usize = start;
    assert(digits.take(0) =~= Seq::<char>::empty());
    while i < n
        invariant
            n == text.len(),
            start <= i <= n,
            digits == text@.subrange(start as int, n as int),
            digits.len() > 0,
            parsed_number(text@) == if all_ascii_digits(digits) && digits_value(digits)
                <= usize::MAX {
                Some(digits_value(digits) as usize)
            } else {
                None
            },
            all_ascii_digits(digits.take(i - start)),
            value == digits_value(digits.take(i - start)),
        decreases n - i,
    {
        let c = text[i];
        let ghost seen = digits.take(i - start);
        let ghost next = digits.take(i + 1 - start);
        proof {
            assert(digits[i - start] == c);
            assert(next.drop_last() =~= seen);
            assert(next.last() == c);
        }
        if !('0' <= c && c <= '9') {
            assert(!is_ascii_digit(digits[i - start]));
            return None;
        }
        let d: usize = (c as u32 - '0' as u32) as usize;
        assert(all_ascii_digits(next)) by {
            assert forall|j: int| 0 <= j < next.len() implies is_ascii_digit(#[trigger] next[j]) by {
                if j < seen.len() {
                    assert(next[j] == seen[j]);
                }
            }
        }
        if value > (usize::MAX - d) / 10 {
            proof {
                assert(digits_value(next) > usize::MAX) by (nonlinear_arith)
                    requires
                        digits_value(next) == value * 10 + d,
                        value > (usize::MAX - d) / 10,
                        d <= usize::MAX,
                ;
                if all_ascii_digits(digits) {
                    lemma_digits_value_grows(digits, i + 1 - start);
                }
            }
            return None;
        }
        assert(value * 10 + d <= usize::MAX) by (nonlinear_arith)
            requires
                value <= (usize::MAX - d) / 10,
                d <= usize::MAX,
        ;
        value = value * 10 + d;
        i = i + 1;
    }
    assert(digits.take(n - start) =~= digits);
    Some(value)
}

} // verus!
