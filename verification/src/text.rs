//! Text as sequences of characters: words, lines and substring search.
//!
//! Words and lines are defined by a scan from left to right that remembers
//! where the current piece began. The executable functions return the pieces
//! as spans, pairs of positions into the text.

use vstd::prelude::*;

verus! {

/// Whether a character is white space: the code points with the Unicode
/// property `White_Space`.
pub open spec fn is_whitespace(c: char) -> bool {
    let v = c as u32;
    ||| 0x09 <= v <= 0x0d
    ||| v == 0x20
    ||| v == 0x85
    ||| v == 0xa0
    ||| v == 0x1680
    ||| 0x2000 <= v <= 0x200a
    ||| v == 0x2028
    ||| v == 0x2029
    ||| v == 0x202f
    ||| v == 0x205f
    ||| v == 0x3000
}

/// Whether a character is white space.
pub fn is_space(c: char) -> (space: bool)
    ensures
        space == is_whitespace(c),
{
    let v: u32 = c as u32;
    (0x09 <= v && v <= 0x0d) || v == 0x20 || v == 0x85 || v == 0xa0 || v == 0x1680 || (0x2000 <= v
        && v <= 0x200a) || v == 0x2028 || v == 0x2029 || v == 0x202f || v == 0x205f || v == 0x3000
}

/// The words found from position `i` on, where the word in progress, if any,
/// began at `start` (`start == i` when none is in progress).
pub open spec fn words_scan(text: Seq<char>, start: int, i: int) -> Seq<Seq<char>>
    decreases text.len() - i,
{
    if i < 0 || i >= text.len() {
        if 0 <= start < text.len() {
            seq![text.subrange(start, text.len() as int)]
        } else {
            Seq::empty()
        }
    } else if is_whitespace(text[i]) {
        if 0 <= start < i {
            seq![text.subrange(start, i)] + words_scan(text, i + 1, i + 1)
        } else {
            words_scan(text, i + 1, i + 1)
        }
    } else {
        words_scan(text, start, i + 1)
    }
}

/// The words of a text: its maximal runs of characters that are not white
/// space, in order. None is empty.
pub open spec fn words(text: Seq<char>) -> Seq<Seq<char>> {
    words_scan(text, 0, 0)
}

/// A line without the carriage return that may end it.
pub open spec fn strip_carriage_return(line: Seq<char>) -> Seq<char> {
    if line.len() > 0 && line.last() == '\r' {
        line.drop_last()
    } else {
        line
    }
}

/// The lines found from position `i` on, where the line in progress began at
/// `start`.
pub open spec fn lines_scan(text: Seq<char>, start: int, i: int) -> Seq<Seq<char>>
    decreases text.len() - i,
{
    if i < 0 || i >= text.len() {
        if 0 <= start < text.len() {
            seq![text.subrange(start, text.len() as int)]
        } else {
            Seq::empty()
        }
    } else if text[i] == '\n' {
        seq![strip_carriage_return(text.subrange(start, i))] + lines_scan(text, i + 1, i + 1)
    } else {
        lines_scan(text, start, i + 1)
    }
}

/// The lines of a text. A line ends at a line feed, or at a carriage return
/// directly followed by one; neither belongs to the line. What follows the
/// last line feed is a line of its own unless it is empty.
pub open spec fn lines(text: Seq<char>) -> Seq<Seq<char>> {
    lines_scan(text, 0, 0)
}

/// Whether `needle` occurs in `text` at position `at`.
pub open spec fn occurs_at(text: Seq<char>, needle: Seq<char>, at: int) -> bool {
    0 <= at && at + needle.len() <= text.len() && text.subrange(at, at + needle.len()) == needle
}

/// Whether `needle` occurs somewhere in `text`. The empty text occurs in
/// every text.
pub open spec fn contains(text: Seq<char>, needle: Seq<char>) -> bool {
    exists|at: int| occurs_at(text, needle, at)
}

/// Whether `span` lies within a text of `len` characters.
pub open spec fn span_in(span: (usize, usize), len: nat) -> bool {
    span.0 <= span.1 <= len
}

/// The pieces of `text` that the spans name, in order.
pub open spec fn pieces(text: Seq<char>, spans: Seq<(usize, usize)>) -> Seq<Seq<char>> {
    Seq::new(spans.len(), |k: int| text.subrange(spans[k].0 as int, spans[k].1 as int))
}

/// The characters of a text, in order.
pub fn chars_of(text: &str) -> (chars: Vec<char>)
    ensures
        chars@ == text@,
{
    broadcast use vstd::string::group_string_axioms;

    let mut chars: Vec<char> = Vec::new();
    for c in it: text.chars()
        invariant
            it.seq() == text@,
            chars@ == it.seq().take(it.index() as int),
    {
        chars.push(c);
    }
    chars
}

/// The spans of the words of a text.
pub fn word_spans(chars: &Vec<char>) -> (spans: Vec<(usize, usize)>)
    ensures
        pieces(chars@, spans@) == words(chars@),
        forall|k: int| 0 <= k < spans.len() ==> span_in(#[trigger] spans[k], chars@.len()),
{
    let mut spans: Vec<(usize, usize)> = Vec::new();
    let mut start: usize = 0;
    let mut i: usize = 0;
    while i < chars.len()
        invariant
            start <= i <= chars.len(),
            pieces(chars@, spans@) + words_scan(chars@, start as int, i as int) == words(chars@),
            forall|k: int| 0 <= k < spans.len() ==> span_in(#[trigger] spans[k], chars@.len()),
        decreases chars.len() - i,
    {
        if is_space(chars[i]) {
            if start < i {
                spans.push((start, i));
            }
            start = i + 1;
        }
        i += 1;
    }
    if start < i {
        spans.push((start, i));
    }
    spans
}

/// The spans of the lines of a text.
pub fn line_spans(chars: &Vec<char>) -> (spans: Vec<(usize, usize)>)
    ensures
        pieces(chars@, spans@) == lines(chars@),
        forall|k: int| 0 <= k < spans.len() ==> span_in(#[trigger] spans[k], chars@.len()),
{
    let mut spans: Vec<(usize, usize)> = Vec::new();
    let mut start: usize = 0;
    let mut i: usize = 0;
    while i < chars.len()
        invariant
            start <= i <= chars.len(),
            pieces(chars@, spans@) + lines_scan(chars@, start as int, i as int) == lines(chars@),
            forall|k: int| 0 <= k < spans.len() ==> span_in(#[trigger] spans[k], chars@.len()),
        decreases chars.len() - i,
    {
        if chars[i] == '\n' {
            let end: usize = if start < i && chars[i - 1] == '\r' {
                i - 1
            } else {
                i
            };
            proof {
                let line = chars@.subrange(start as int, end as int);
                assert(line == strip_carriage_return(chars@.subrange(start as int, i as int)));
            }
            spans.push((start, end));
            start = i + 1;
        }
        i += 1;
    }
    if start < i {
        spans.push((start, i));
    }
    spans
}

/// Whether the piece of `chars` named by `span` is exactly `other`.
pub fn piece_equals(chars: &Vec<char>, span: (usize, usize), other: &Vec<char>) -> (same: bool)
    requires
        span_in(span, chars@.len()),
    ensures
        same == (chars@.subrange(span.0 as int, span.1 as int) == other@),
{
    if span.1 - span.0 != other.len() {
        return false;
    }
    let ghost piece = chars@.subrange(span.0 as int, span.1 as int);
    let mut k: usize = 0;
    while k < other.len()
        invariant
            span_in(span, chars@.len()),
            span.1 - span.0 == other.len(),
            piece == chars@.subrange(span.0 as int, span.1 as int),
            k <= other.len(),
            forall|j: int| 0 <= j < k ==> piece[j] == other@[j],
        decreases other.len() - k,
    {
        if chars[span.0 + k] != other[k] {
            return false;
        }
        k += 1;
    }
    assert(piece =~= other@);
    true
}

/// Whether `needle` occurs in the piece of `chars` named by `span`.
pub fn piece_contains(chars: &Vec<char>, span: (usize, usize), needle: &Vec<char>) -> (found: bool)
    requires
        span_in(span, chars@.len()),
    ensures
        found == contains(chars@.subrange(span.0 as int, span.1 as int), needle@),
{
    let ghost piece = chars@.subrange(span.0 as int, span.1 as int);
    if needle.len() == 0 {
        assert(piece.subrange(0, 0) =~= needle@);
        assert(occurs_at(piece, needle@, 0));
        return true;
    }
    if span.1 - span.0 < needle.len() {
        assert forall|at: int| !occurs_at(piece, needle@, at) by {}
        return false;
    }
    let last: usize = span.1 - needle.len();
    let mut at: usize = span.0;
    while at <= last
        invariant
            span_in(span, chars@.len()),
            piece == chars@.subrange(span.0 as int, span.1 as int),
            0 < needle.len() <= span.1 - span.0,
            last == span.1 - needle.len(),
            span.0 <= at <= last + 1,
            forall|j: int| 0 <= j < at - span.0 ==> !occurs_at(piece, needle@, j),
        decreases last + 1 - at,
    {
        if piece_equals(chars, (at, at + needle.len()), needle) {
            proof {
                let offset = at - span.0;
                assert(piece.subrange(offset, offset + needle.len()) =~= chars@.subrange(
                    at as int,
                    at + needle.len(),
                ));
                assert(occurs_at(piece, needle@, offset));
            }
            return true;
        }
        proof {
            let offset = at - span.0;
            assert(piece.subrange(offset, offset + needle.len()) =~= chars@.subrange(
                at as int,
                at + needle.len(),
            ));
        }
        at += 1;
    }
    assert forall|j: int| !occurs_at(piece, needle@, j) by {}
    false
}

} // verus!
