//! Analysis of a text held in memory: word counts, word occurrences and the
//! lines that hold a given text.

use crate::bindings::{lowercase, to_lowercase, to_uppercase, uppercase};
use crate::sequences::lemma_filter_step;
use crate::text::{
    chars_of, contains, line_spans, lines, piece_contains, piece_equals, pieces, span_in,
    word_spans, words,
};
use vstd::prelude::*;
use vstd::string::{StrSliceExecFns, StringExecFns};

verus! {

/// Why a text could not be loaded.
#[derive(Clone, Copy, Debug, PartialEq, Eq, Structural)]
pub enum TextProcessingError {
    FileNotFound,
    FileReadError,
}

/// The text of each failure to load.
pub open spec fn load_message(error: TextProcessingError) -> Seq<char> {
    match error {
        TextProcessingError::FileNotFound => "File not found"@,
        TextProcessingError::FileReadError => "File read error"@,
    }
}

impl TextProcessingError {
    /// The failure written out.
    pub fn message(&self) -> (text: String)
        ensures
            text@ == load_message(*self),
    {
        match self {
            TextProcessingError::FileNotFound => String::from_str("File not found"),
            TextProcessingError::FileReadError => String::from_str("File read error"),
        }
    }
}

/// What reading a file gave.
#[derive(Debug)]
pub enum FileRead {
    /// There is no file at the path.
    Missing,
    /// The file is there and could not be read as text.
    Unreadable,
    /// The file's text.
    Content(String),
}

/// What a `FileRead` stands for.
pub enum FileReadView {
    Missing,
    Unreadable,
    Content(Seq<char>),
}

impl View for FileRead {
    type V = FileReadView;

    open spec fn view(&self) -> FileReadView {
        match *self {
            FileRead::Missing => FileReadView::Missing,
            FileRead::Unreadable => FileReadView::Unreadable,
            FileRead::Content(text) => FileReadView::Content(text@),
        }
    }
}

/// A text and the questions it answers.
#[derive(Debug)]
pub struct TextProcessor {
    content: String,
}

impl View for TextProcessor {
    type V = Seq<char>;

    closed spec fn view(&self) -> Seq<char> {
        self.content@
    }
}

/// The words of `text` that are exactly `word`.
pub open spec fn occurrences(text: Seq<char>, word: Seq<char>) -> Seq<Seq<char>> {
    words(text).filter(|found: Seq<char>| found == word)
}

/// The lines of `text` in which `substring` occurs.
pub open spec fn lines_with(text: Seq<char>, substring: Seq<char>) -> Seq<Seq<char>> {
    lines(text).filter(|line: Seq<char>| contains(line, substring))
}

impl TextProcessor {
    /// A processor over what was read from a file: a missing file and an
    /// unreadable one are reported as such.
    pub fn new(read: FileRead) -> (made: Result<Self, TextProcessingError>)
        ensures
            match read@ {
                FileReadView::Missing => made matches Err(TextProcessingError::FileNotFound),
                FileReadView::Unreadable => made matches Err(TextProcessingError::FileReadError),
                FileReadView::Content(text) => made matches Ok(processor) && processor@ == text,
            },
    {
        match read {
            FileRead::Missing => Err(TextProcessingError::FileNotFound),
            FileRead::Unreadable => Err(TextProcessingError::FileReadError),
            FileRead::Content(content) => Ok(TextProcessor { content }),
        }
    }

    /// The text.
    pub fn content(&self) -> (text: &str)
        ensures
            text@ == self@,
    {
        self.content.as_str()
    }

    /// The number of words: maximal runs of characters that are not white
    /// space.
    pub fn count_words(&self) -> (count: usize)
        ensures
            count == words(self@).len(),
    {
        let chars = chars_of(self.content.as_str());
        let spans = word_spans(&chars);
        spans.len()
    }

    /// The number of words that are exactly `word`.
    pub fn count_word_occurrences(&self, word: &str) -> (count: usize)
        ensures
            count == occurrences(self@, word@).len(),
    {
        let chars = chars_of(self.content.as_str());
        let wanted = chars_of(word);
        let spans = word_spans(&chars);
        let ghost found = words(chars@);
        let ghost is_wanted = |found: Seq<char>| found == word@;
        let mut count: usize = 0;
        let mut k: usize = 0;
        while k < spans.len()
            invariant
                k <= spans.len(),
                wanted@ == word@,
                found == pieces(chars@, spans@),
                is_wanted == (|found: Seq<char>| found == word@),
                forall|j: int| 0 <= j < spans.len() ==> span_in(#[trigger] spans[j], chars@.len()),
                count == found.take(k as int).filter(is_wanted).len(),
                count <= k,
            decreases spans.len() - k,
        {
            proof {
                lemma_filter_step(found, is_wanted, k as int);
            }
            if piece_equals(&chars, spans[k], &wanted) {
                count += 1;
            }
            k += 1;
        }
        proof {
            assert(found.take(k as int) == found);
        }
        count
    }

    /// The lines in which `substring` occurs, in order.
    pub fn find_lines_with<'b>(&'b self, substring: &str) -> (found: Vec<&'b str>)
        ensures
            found.len() == lines_with(self@, substring@).len(),
            forall|k: int|
                0 <= k < found.len() ==> (#[trigger] found[k])@ == lines_with(
                    self@,
                    substring@,
                )[k],
    {
        let text = self.content.as_str();
        let ascii = text.is_ascii();
        let chars = chars_of(text);
        let needle = chars_of(substring);
        let spans = line_spans(&chars);
        let ghost all = lines(chars@);
        let ghost is_wanted = |line: Seq<char>| contains(line, substring@);
        let mut found: Vec<&'b str> = Vec::new();
        let mut k: usize = 0;
        while k < spans.len()
            invariant
                k <= spans.len(),
                chars@ == text@,
                ascii == text.is_ascii(),
                needle@ == substring@,
                all == pieces(chars@, spans@),
                is_wanted == (|line: Seq<char>| contains(line, substring@)),
                forall|j: int| 0 <= j < spans.len() ==> span_in(#[trigger] spans[j], chars@.len()),
                found.len() == all.take(k as int).filter(is_wanted).len(),
                forall|j: int|
                    0 <= j < found.len() ==> (#[trigger] found[j])@ == all.take(k as int).filter(
                        is_wanted,
                    )[j],
            decreases spans.len() - k,
        {
            proof {
                lemma_filter_step(all, is_wanted, k as int);
            }
            let span = spans[k];
            if piece_contains(&chars, span, &needle) {
                let line = if ascii {
                    text.substring_ascii(span.0, span.1)
                } else {
                    text.substring_char(span.0, span.1)
                };
                found.push(line);
            }
            k += 1;
        }
        proof {
            assert(all.take(k as int) == all);
        }
        found
    }
}

/// The upper-case form of a text.
pub fn process_text_owned(text: String) -> (upper: String)
    ensures
        upper@ == uppercase(text@),
{
    to_uppercase(text.as_str())
}

/// The lower-case form of a text.
pub fn process_text_borrowed(text: &str) -> (lower: String)
    ensures
        lower@ == lowercase(text@),
{
    to_lowercase(text)
}

} // verus!
