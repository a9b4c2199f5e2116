//! Scanning text by characters: finding a separator, trimming, and picking
//! a line, a field or a word. A text is taken apart into its characters
//! once; after that the functions work on spans within it.

use vstd::prelude::*;
use vstd::std_specs::iter::IteratorSpec;

verus! {

/// A stretch of a text, from `start` up to `end`, in characters.
#[derive(Debug, Clone, Copy, PartialEq, Eq)]
pub struct Span {
    pub start: usize,
    pub end: usize,
}

impl Span {
    /// The span lies within a text of `len` characters.
    pub open spec fn within(self, len: nat) -> bool {
        self.start <= self.end <= len
    }

    /// The characters that the span covers.
    pub open spec fn of(self, text: Seq<char>) -> Seq<char> {
        text.subrange(self.start as int, self.end as int)
    }
}

/// White space as Unicode defines it.
pub open spec fn is_whitespace(c: char) -> bool {
    let n = c as u32;
    ||| 0x09 <= n <= 0x0D
    ||| n == 0x20
    ||| n == 0x85
    ||| n == 0xA0
    ||| n == 0x1680
    ||| 0x2000 <= n <= 0x200A
    ||| n == 0x2028
    ||| n == 0x2029
    ||| n == 0x202F
    ||| n == 0x205F
    ||| n == 0x3000
}

/// Where `c` first occurs in `s`, or the length of `s` when it does not
/// occur.
pub open spec fn position(s: Seq<char>, c: char) -> nat
    decreases s.len(),
{
    if s.len() == 0 {
        0
    } else if s[0] == c {
        0
    } else {
        1 + position(s.drop_first(), c)
    }
}

/// The text in front of the first `c`, the whole text when there is none.
pub open spec fn before(s: Seq<char>, c: char) -> Seq<char> {
    s.take(position(s, c) as int)
}

/// The text behind the first `c`, if there is one.
pub open spec fn after(s: Seq<char>, c: char) -> Option<Seq<char>> {
    if position(s, c) < s.len() {
        Some(s.skip(position(s, c) as int + 1))
    } else {
        None
    }
}

/// `s` without the white space at its start.
pub open spec fn trim_start(s: Seq<char>) -> Seq<char>
    decreases s.len(),
{
    if s.len() > 0 && is_whitespace(s[0]) {
        trim_start(s.drop_first())
    } else {
        s
    }
}

/// `s` without the white space at its end.
pub open spec fn trim_end(s: Seq<char>) -> Seq<char>
    decreases s.len(),
{
    if s.len() > 0 && is_whitespace(s.last()) {
        trim_end(s.drop_last())
    } else {
        s
    }
}

/// `s` without the white space at either end.
pub open spec fn trim(s: Seq<char>) -> Seq<char> {
    trim_end(trim_start(s))
}

/// What pins `position` down: no `c` in front of it, and a `c` at it
/// unless it is the end.
pub proof fn lemma_position(s: Seq<char>, c: char, n: int)
    requires
        0 <= n <= s.len(),
        forall|i: int| 0 <= i < n ==> s[i] != c,
        n < s.len() ==> s[n] == c,
    ensures
        position(s, c) == n,
    decreases n,
{
    if n > 0 {
        let rest = s.drop_first();
        assert forall|i: int| 0 <= i < n - 1 implies rest[i] != c by {
            assert(rest[i] == s[i + 1]);
        }
        lemma_position(rest, c, n - 1);
    }
}

/// `position` stays within the text and points at the first `c`.
pub proof fn lemma_position_is_first(s: Seq<char>, c: char)
    ensures
        0 <= position(s, c) <= s.len(),
        forall|i: int| 0 <= i < position(s, c) ==> s[i] != c,
        position(s, c) < s.len() ==> s[position(s, c) as int] == c,
    decreases s.len(),
{
    if s.len() > 0 && s[0] != c {
        let rest = s.drop_first();
        lemma_position_is_first(rest, c);
        assert forall|i: int| 0 <= i < position(s, c) implies s[i] != c by {
            if i > 0 {
                assert(rest[i - 1] == s[i]);
            }
        }
    }
}

/// The characters of a string, one by one.
pub fn chars_of(text: &str) -> (chars: Vec<char>)
    ensures
        chars@ == text@,
{
    let mut chars: Vec<char> = Vec::new();
    let mut rest = text.chars();
    loop
        invariant
            chars@ + rest.remaining() == text@,
            rest.obeys_prophetic_iter_laws(),
            rest.decrease() is Some,
        ensures
            chars@ == text@,
        decreases rest.decrease()->0,
    {
        broadcast use vstd::string::group_string_axioms;

        match rest.next() {
            Some(c) => {
                chars.push(c);
                assert(chars@ + rest.remaining() =~= text@);
            },
            None => {
                assert(chars@ =~= text@);
                break ;
            },
        }
    }
    chars
}

/// Whether `c` is white space.
pub fn char_is_whitespace(c: char) -> (white: bool)
    ensures
        white == is_whitespace(c),
{
    let n: u32 = c as u32;
    (0x09 <= n && n <= 0x0D) || n == 0x20 || n == 0x85 || n == 0xA0 || n == 0x1680 || (0x2000 <= n
        && n <= 0x200A) || n == 0x2028 || n == 0x2029 || n == 0x202F || n == 0x205F || n == 0x3000
}

/// Finds the first `c` within a span. Returns its index in the text, or the
/// span's end when the span holds none.
pub fn find_char(text: &Vec<char>, span: Span, c: char) -> (at: usize)
    requires
        span.within(text@.len()),
    ensures
        span.start <= at <= span.end,
        at - span.start == position(span.of(text@), c),
{
    let mut at: usize = span.start;
    while at < span.end && text[at] != c
        invariant
            span.within(text@.len()),
            span.start <= at <= span.end,
            forall|k: int| span.start <= k < at ==> text@[k] != c,
        decreases span.end - at,
    {
        at += 1;
    }
    proof {
        lemma_position(span.of(text@), c, at - span.start);
    }
    at
}

/// Whether the text of a span begins with `prefix`.
pub fn span_starts_with(text: &Vec<char>, span: Span, prefix: &Vec<char>) -> (found: bool)
    requires
        span.within(text@.len()),
    ensures
        found == prefix@.is_prefix_of(span.of(text@)),
{
    if prefix.len() > span.end - span.start {
        return false;
    }
    let mut i: usize = 0;
    while i < prefix.len()
        invariant
            span.within(text@.len()),
            i <= prefix.len() <= span.end - span.start,
            forall|k: int| 0 <= k < i ==> prefix@[k] == text@[span.start + k],
        decreases prefix.len() - i,
    {
        if prefix[i] != text[span.start + i] {
            assert(span.of(text@)[i as int] == text@[span.start + i]);
            return false;
        }
        i += 1;
    }
    assert(prefix@ =~= span.of(text@).subrange(0, prefix@.len() as int));
    true
}

/// Drops the white space at the start of a span.
pub fn skip_whitespace(text: &Vec<char>, span: Span) -> (rest: Span)
    requires
        span.within(text@.len()),
    ensures
        rest.within(text@.len()),
        span.start <= rest.start,
        rest.end == span.end,
        rest.of(text@) == trim_start(span.of(text@)),
{
    let mut start: usize = span.start;
    while start < span.end && char_is_whitespace(text[start])
        invariant
            span.within(text@.len()),
            span.start <= start <= span.end,
            trim_start(span.of(text@)) == trim_start(text@.subrange(start as int, span.end as int)),
        decreases span.end - start,
    {
        assert(text@.subrange(start as int, span.end as int).drop_first() =~= text@.subrange(
            start + 1,
            span.end as int,
        ));
        start += 1;
    }
    Span { start, end: span.end }
}

/// Drops the white space at the end of a span.
pub fn drop_trailing_whitespace(text: &Vec<char>, span: Span) -> (rest: Span)
    requires
        span.within(text@.len()),
    ensures
        rest.within(text@.len()),
        rest.start == span.start,
        rest.end <= span.end,
        rest.of(text@) == trim_end(span.of(text@)),
{
    let mut end: usize = span.end;
    while span.start < end && char_is_whitespace(text[end - 1])
        invariant
            span.within(text@.len()),
            span.start <= end <= span.end,
            trim_end(span.of(text@)) == trim_end(text@.subrange(span.start as int, end as int)),
        decreases end - span.start,
    {
        assert(text@.subrange(span.start as int, end as int).drop_last() =~= text@.subrange(
            span.start as int,
            end - 1,
        ));
        end -= 1;
    }
    Span { start: span.start, end }
}

/// Drops the white space at both ends of a span.
pub fn trim_span(text: &Vec<char>, span: Span) -> (rest: Span)
    requires
        span.within(text@.len()),
    ensures
        rest.within(text@.len()),
        span.start <= rest.start,
        rest.end <= span.end,
        rest.of(text@) == trim(span.of(text@)),
{
    let front = skip_whitespace(text, span);
    drop_trailing_whitespace(text, front)
}

/// A line without the carriage return at its end, if it has one.
pub open spec fn without_cr(line: Seq<char>) -> Seq<char> {
    if line.len() > 0 && line.last() == '\r' {
        line.drop_last()
    } else {
        line
    }
}

/// The first line of `s` that begins with `prefix`. Lines end at a line
/// feed, which is not part of the line, nor is a carriage return directly
/// in front of it. What follows the last line feed is a line too unless it
/// is empty.
pub open spec fn first_line_with(s: Seq<char>, prefix: Seq<char>) -> Option<Seq<char>>
    decreases s.len(),
{
    if s.len() == 0 {
        None
    } else {
        let n = position(s, '\n') as int;
        if n < s.len() {
            if prefix.is_prefix_of(without_cr(s.take(n))) {
                Some(without_cr(s.take(n)))
            } else {
                first_line_with(s.skip(n + 1), prefix)
            }
        } else if prefix.is_prefix_of(s) {
            Some(s)
        } else {
            None
        }
    }
}

/// Of the fields of `s` that `sep` separates, the first that begins with
/// `prefix` once it is trimmed. The field comes back untrimmed.
pub open spec fn first_field_with(s: Seq<char>, sep: char, prefix: Seq<char>) -> Option<
    Seq<char>,
>
    decreases s.len(),
{
    let n = position(s, sep) as int;
    if prefix.is_prefix_of(trim(s.take(n))) {
        Some(s.take(n))
    } else if n < s.len() {
        first_field_with(s.skip(n + 1), sep, prefix)
    } else {
        None
    }
}

/// How many characters at the start of `s` are not white space.
pub open spec fn word_len(s: Seq<char>) -> nat
    decreases s.len(),
{
    if s.len() == 0 || is_whitespace(s[0]) {
        0
    } else {
        1 + word_len(s.drop_first())
    }
}

/// The word of `s` with index `n`, counting from zero. Words are the
/// stretches between white space.
pub open spec fn nth_word(s: Seq<char>, n: nat) -> Option<Seq<char>>
    decreases n,
{
    let t = trim_start(s);
    if t.len() == 0 {
        None
    } else if n == 0 {
        Some(t.take(word_len(t) as int))
    } else {
        nth_word(t.skip(word_len(t) as int), (n - 1) as nat)
    }
}

/// Finds the first line that begins with `prefix`.
pub fn find_line(text: &Vec<char>, prefix: &Vec<char>) -> (line: Option<Span>)
    ensures
        match line {
            Some(span) => span.within(text@.len()) && first_line_with(text@, prefix@) == Some(
                span.of(text@),
            ),
            None => first_line_with(text@, prefix@) is None,
        },
{
    let len = text.len();
    let mut start: usize = 0;
    assert(text@.skip(0) =~= text@);
    while start < len
        invariant
            len == text@.len(),
            start <= len,
            first_line_with(text@, prefix@) == first_line_with(text@.skip(start as int), prefix@),
        decreases len - start,
    {
        let ghost rest = text@.skip(start as int);
        let feed = find_char(text, Span { start, end: len }, '\n');
        assert(rest =~= (Span { start, end: len }).of(text@));
        let line = if feed < len && start < feed && text[feed - 1] == '\r' {
            Span { start, end: (feed - 1) as usize }
        } else {
            Span { start, end: feed }
        };
        proof {
            if feed < len {
                assert(rest.take(feed - start) =~= text@.subrange(start as int, feed as int));
                assert(line.of(text@) =~= without_cr(rest.take(feed - start)));
                assert(rest.skip(feed - start + 1) =~= text@.skip(feed + 1));
            } else {
                assert(line.of(text@) =~= rest);
            }
        }
        if span_starts_with(text, line, prefix) {
            return Some(line);
        }
        if feed == len {
            return None;
        }
        start = feed + 1;
    }
    assert(text@.skip(start as int).len() == 0);
    None
}

/// Finds, among the fields of a span that `sep` separates, the first that
/// begins with `prefix` once it is trimmed.
pub fn find_field(text: &Vec<char>, span: Span, sep: char, prefix: &Vec<char>) -> (field: Option<
    Span,
>)
    requires
        span.within(text@.len()),
    ensures
        match field {
            Some(found) => found.within(text@.len()) && span.start <= found.start && found.end
                <= span.end && first_field_with(span.of(text@), sep, prefix@) == Some(
                found.of(text@),
            ),
            None => first_field_with(span.of(text@), sep, prefix@) is None,
        },
{
    let mut start: usize = span.start;
    loop
        invariant
            span.within(text@.len()),
            span.start <= start <= span.end,
            first_field_with(span.of(text@), sep, prefix@) == first_field_with(
                text@.subrange(start as int, span.end as int),
                sep,
                prefix@,
            ),
        decreases span.end - start,
    {
        let ghost rest = text@.subrange(start as int, span.end as int);
        let stop = find_char(text, Span { start, end: span.end }, sep);
        let field = Span { start, end: stop };
        proof {
            assert(rest.take(stop - start) =~= field.of(text@));
            if stop < span.end {
                assert(rest.skip(stop - start + 1) =~= text@.subrange(
                    stop + 1,
                    span.end as int,
                ));
            }
        }
        let trimmed = trim_span(text, field);
        if span_starts_with(text, trimmed, prefix) {
            return Some(field);
        }
        if stop == span.end {
            return None;
        }
        start = stop + 1;
    }
}

/// Measures the word at the start of a span.
pub fn skip_word(text: &Vec<char>, span: Span) -> (stop: usize)
    requires
        span.within(text@.len()),
    ensures
        span.start <= stop <= span.end,
        stop - span.start == word_len(span.of(text@)),
{
    let mut stop: usize = span.start;
    while stop < span.end && !char_is_whitespace(text[stop])
        invariant
            span.within(text@.len()),
            span.start <= stop <= span.end,
            word_len(span.of(text@)) == (stop - span.start) + word_len(
                text@.subrange(stop as int, span.end as int),
            ),
        decreases span.end - stop,
    {
        assert(text@.subrange(stop as int, span.end as int).drop_first() =~= text@.subrange(
            stop + 1,
            span.end as int,
        ));
        stop += 1;
    }
    stop
}

/// Finds the word of a span with index `n`, counting from zero.
pub fn find_word(text: &Vec<char>, span: Span, n: usize) -> (word: Option<Span>)
    requires
        span.within(text@.len()),
    ensures
        match word {
            Some(found) => found.within(text@.len()) && span.start <= found.start && found.end
                <= span.end && nth_word(span.of(text@), n as nat) == Some(found.of(text@)),
            None => nth_word(span.of(text@), n as nat) is None,
        },
{
    let mut rest = span;
    let mut left: usize = n;
    loop
        invariant
            span.within(text@.len()),
            rest.within(text@.len()),
            span.start <= rest.start,
            rest.end == span.end,
            nth_word(span.of(text@), n as nat) == nth_word(rest.of(text@), left as nat),
        decreases left,
    {
        let trimmed = skip_whitespace(text, rest);
        if trimmed.start == trimmed.end {
            return None;
        }
        let stop = skip_word(text, trimmed);
        proof {
            let t = trimmed.of(text@);
            assert(t.take(stop - trimmed.start) =~= text@.subrange(
                trimmed.start as int,
                stop as int,
            ));
            assert(t.skip(stop - trimmed.start) =~= text@.subrange(
                stop as int,
                span.end as int,
            ));
        }
        if left == 0 {
            return Some(Span { start: trimmed.start, end: stop });
        }
        left -= 1;
        rest = Span { start: stop, end: span.end };
    }
}

} // verus!
