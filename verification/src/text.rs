//! Character-level text operations shared by the field converters and the
//! forecast model: length in bytes, searching, splitting and trimming.
//!
//! Every operation is specified over `Seq<char>`, the view of a string, and
//! implemented over a `Vec<char>` that [`chars_of`] makes from it.

use vstd::prelude::*;

verus! {

/// Length of a text in bytes of UTF-8, which is what `str::len` measures.
pub open spec fn byte_len(text: Seq<char>) -> nat {
    vstd::utf8::encode_utf8(text).len()
}

/// Every character takes at least one byte and at most four.
pub proof fn lemma_byte_len_bounds(text: Seq<char>)
    ensures
        text.len() <= byte_len(text) <= 4 * text.len(),
    decreases text.len(),
{
    if text.len() > 0 {
        lemma_byte_len_bounds(text.drop_first());
    }
}

/// Length of a string in bytes.
pub fn byte_length(s: &str) -> (n: usize)
    ensures
        n == byte_len(s@),
{
    broadcast use vstd::slice::axiom_spec_len;

    s.as_bytes().len()
}

/// The characters of a string, in order.
pub fn chars_of(s: &str) -> (v: Vec<char>)
    ensures
        v@ == s@,
{
    let mut v: Vec<char> = Vec::new();
    for c in it: s.chars()
        invariant
            v@ == it.seq().take(it.index() as int),
            it.seq() == s@,
    {
        v.push(c);
    }
    v
}

/// Index of the first occurrence of `c` in `text` at or after `from`, or the
/// length of `text` where there is none.
pub open spec fn find_from(text: Seq<char>, c: char, from: int) -> int
    decreases text.len() - from,
{
    if from >= text.len() {
        text.len() as int
    } else if text[from] == c {
        from
    } else {
        find_from(text, c, from + 1)
    }
}

/// Index of the first occurrence of `c` in `text`, if there is one.
pub open spec fn find(text: Seq<char>, c: char) -> Option<int> {
    let i = find_from(text, c, 0);
    if i < text.len() {
        Some(i)
    } else {
        None
    }
}

/// Index of the first occurrence of `c` in `text` at or after `from`, or the
/// length of `text` where there is none.
pub fn find_char(text: &Vec<char>, c: char, from: usize) -> (i: usize)
    requires
        from <= text.len(),
    ensures
        i == find_from(text@, c, from as int),
        from <= i <= text.len(),
{
    let mut i: usize = from;
    while i < text.len() && text[i] != c
        invariant
            from <= i <= text.len(),
            find_from(text@, c, i as int) == find_from(text@, c, from as int),
        decreases text.len() - i,
    {
        i = i + 1;
    }
    i
}

/// The pieces of `text` between occurrences of `sep`, from index `from` on.
/// There is always at least one piece; a piece may be empty.
pub open spec fn split_from(text: Seq<char>, sep: char, from: int) -> Seq<Seq<char>>
    decreases text.len() - from,
{
    let end = find_from(text, sep, from);
    if 0 <= from <= end < text.len() {
        seq![text.subrange(from, end)] + split_from(text, sep, end + 1)
    } else {
        seq![text.subrange(from, text.len() as int)]
    }
}

/// The pieces of `text` between occurrences of `sep`, as `str::split` gives
/// them for a separator of one character: one piece more than there are
/// separators.
pub open spec fn split(text: Seq<char>, sep: char) -> Seq<Seq<char>> {
    split_from(text, sep, 0)
}

/// A half-open range of indices into a text.
#[derive(Clone, Copy, Debug)]
pub struct Span {
    pub start: usize,
    pub end: usize,
}

impl Span {
    /// The range lies within a text of `len` characters.
    pub open spec fn within(self, len: nat) -> bool {
        self.start <= self.end <= len
    }

    /// The characters of `text` that the range covers.
    pub open spec fn of(self, text: Seq<char>) -> Seq<char> {
        text.subrange(self.start as int, self.end as int)
    }
}

/// The characters of `s` from index `start` up to index `end`.
pub fn copy_range(s: &Vec<char>, start: usize, end: usize) -> (r: Vec<char>)
    requires
        start <= end <= s.len(),
    ensures
        r@ == s@.subrange(start as int, end as int),
{
    let mut r: Vec<char> = Vec::new();
    let mut i: usize = start;
    while i < end
        invariant
            start <= i <= end <= s.len(),
            r@ == s@.subrange(start as int, i as int),
        decreases end - i,
    {
        r.push(s[i]);
        i = i + 1;
    }
    r
}

/// The pieces that the given ranges cut out of `text`.
pub open spec fn pieces(text: Seq<char>, spans: Seq<Span>) -> Seq<Seq<char>> {
    Seq::new(spans.len(), |k: int| spans[k].of(text))
}

/// The ranges of the pieces of `text` between occurrences of `sep`.
pub fn split_spans(text: &Vec<char>, sep: char) -> (spans: Vec<Span>)
    ensures
        pieces(text@, spans@) == split(text@, sep),
        forall|k: int| 0 <= k < spans.len() ==> (#[trigger] spans[k]).within(text@.len()),
{
    let mut spans: Vec<Span> = Vec::new();
    let mut start: usize = 0;
    loop
        invariant_except_break
            start <= text.len(),
            split(text@, sep) == pieces(text@, spans@) + split_from(text@, sep, start as int),
            forall|k: int| 0 <= k < spans.len() ==> (#[trigger] spans[k]).within(text@.len()),
        ensures
            pieces(text@, spans@) == split(text@, sep),
            forall|k: int| 0 <= k < spans.len() ==> (#[trigger] spans[k]).within(text@.len()),
        decreases text.len() - start,
    {
        let end = find_char(text, sep, start);
        spans.push(Span { start, end });
        if end >= text.len() {
            break;
        }
        start = end + 1;
    }
    spans
}

/// The characters that `char::is_whitespace` accepts: the code points that
/// Unicode marks as `White_Space`.
pub open spec fn is_whitespace(c: char) -> bool {
    let u = c as u32;
    ||| 0x09 <= u <= 0x0d
    ||| u == 0x20
    ||| u == 0x85
    ||| u == 0xa0
    ||| u == 0x1680
    ||| 0x2000 <= u <= 0x200a
    ||| u == 0x2028
    ||| u == 0x2029
    ||| u == 0x202f
    ||| u == 0x205f
    ||| u == 0x3000
}

/// Whether `c` is a white-space character.
pub fn is_whitespace_char(c: char) -> (b: bool)
    ensures
        b == is_whitespace(c),
{
    let u: u32 = c as u32;
    (0x09 <= u && u <= 0x0d) || u == 0x20 || u == 0x85 || u == 0xa0 || u == 0x1680 || (0x2000 <= u
        && u <= 0x200a) || u == 0x2028 || u == 0x2029 || u == 0x202f || u == 0x205f || u == 0x3000
}

/// Index of the first character at or after `from` and before `to` that is
/// not white space, or `to` where there is none.
pub open spec fn skip_whitespace(text: Seq<char>, from: int, to: int) -> int
    decreases to - from,
{
    if from < to && is_whitespace(text[from]) {
        skip_whitespace(text, from + 1, to)
    } else {
        from
    }
}

/// Index after the last character before `to` and at or after `from` that is
/// not white space, or `from` where there is none.
pub open spec fn skip_whitespace_back(text: Seq<char>, from: int, to: int) -> int
    decreases to - from,
{
    if from < to && is_whitespace(text[to - 1]) {
        skip_whitespace_back(text, from, to - 1)
    } else {
        to
    }
}

/// The text without the white space at its two ends, as `str::trim` gives it.
pub open spec fn trim(text: Seq<char>) -> Seq<char> {
    let start = skip_whitespace(text, 0, text.len() as int);
    let end = skip_whitespace_back(text, start, text.len() as int);
    text.subrange(start, end)
}

/// The range of `span` without the white space at its two ends.
pub fn trim_span(text: &Vec<char>, span: Span) -> (r: Span)
    requires
        span.within(text@.len()),
    ensures
        r.within(text@.len()),
        span.start <= r.start <= r.end <= span.end,
        r.of(text@) == trim(span.of(text@)),
{
    let mut start: usize = span.start;
    while start < span.end && is_whitespace_char(text[start])
        invariant
            span.within(text@.len()),
            span.start <= start <= span.end,
            skip_whitespace(text@, start as int, span.end as int) == skip_whitespace(
                text@,
                span.start as int,
                span.end as int,
            ),
        decreases span.end - start,
    {
        start = start + 1;
    }
    let mut end: usize = span.end;
    while start < end && is_whitespace_char(text[end - 1])
        invariant
            span.within(text@.len()),
            span.start <= start <= end <= span.end,
            skip_whitespace_back(text@, start as int, end as int) == skip_whitespace_back(
                text@,
                start as int,
                span.end as int,
            ),
        decreases end - start,
    {
        end = end - 1;
    }
    proof {
        let inner = span.of(text@);
        lemma_skip_whitespace_shift(text@, span, span.start as int);
        lemma_skip_whitespace_back_shift(text@, span, start as int, span.end as int);
    }
    Span { start, end }
}

/// Skipping white space forward inside a range of a text is skipping it in
/// the text that the range cuts out.
proof fn lemma_skip_whitespace_shift(text: Seq<char>, span: Span, from: int)
    requires
        span.within(text.len()),
        span.start <= from <= span.end,
    ensures
        skip_whitespace(text, from, span.end as int) - span.start == skip_whitespace(
            span.of(text),
            from - span.start,
            span.of(text).len() as int,
        ),
    decreases span.end - from,
{
    if from < span.end {
        if is_whitespace(text[from]) {
            lemma_skip_whitespace_shift(text, span, from + 1);
        }
    }
}

/// Skipping white space backward inside a range of a text is skipping it in
/// the text that the range cuts out.
proof fn lemma_skip_whitespace_back_shift(text: Seq<char>, span: Span, from: int, to: int)
    requires
        span.within(text.len()),
        span.start <= from <= to <= span.end,
    ensures
        skip_whitespace_back(text, from, to) - span.start == skip_whitespace_back(
            span.of(text),
            from - span.start,
            to - span.start,
        ),
    decreases to - from,
{
    if from < to {
        if is_whitespace(text[to - 1]) {
            lemma_skip_whitespace_back_shift(text, span, from, to - 1);
        }
    }
}

/// Whether the characters that `span` covers are exactly those of `word`.
pub fn span_equals(text: &Vec<char>, span: Span, word: &str) -> (b: bool)
    requires
        span.within(text@.len()),
    ensures
        b == (span.of(text@) == word@),
{
    let letters = chars_of(word);
    if letters.len() != span.end - span.start {
        return false;
    }
    let mut i: usize = 0;
    while i < letters.len()
        invariant
            span.within(text@.len()),
            letters.len() == span.end - span.start,
            letters@ == word@,
            0 <= i <= letters.len(),
            forall|j: int| 0 <= j < i ==> span.of(text@)[j] == letters@[j],
        decreases letters.len() - i,
    {
        if text[span.start + i] != letters[i] {
            return false;
        }
        i = i + 1;
    }
    assert(span.of(text@) =~= word@);
    true
}

} // verus!
