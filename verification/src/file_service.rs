//! What the file service computes once a file has been read: the analysis of
//! a text, the search for a word in it, and the case forms of a text.
//! Reading and writing files is left to the program around the library.

use crate::bindings::{lowercase, uppercase};
use crate::text_processor::{
    lines_with, occurrences, process_text_borrowed, process_text_owned, FileRead, FileReadView,
    TextProcessingError, TextProcessor,
};
use crate::text::words;
use vstd::prelude::*;
use vstd::string::StringExecFns;
use vstd::utf8::{decode_utf8, encode_utf8, is_char_boundary};

verus! {

/// The directory that uploads go to when none is configured.
pub const DEFAULT_UPLOAD_DIR: &'static str = "./uploads";

/// The largest accepted file, in bytes, when none is configured: 10 MiB.
pub const DEFAULT_MAX_FILE_SIZE: usize = 10_485_760;

/// How many bytes of a text its preview shows.
pub const PREVIEW_BYTES: usize = 100;

/// The configuration of the file service.
#[derive(Debug, PartialEq, Eq)]
pub struct AppConfig {
    pub upload_dir: String,
    pub max_file_size: usize,
}

impl Clone for AppConfig {
    fn clone(&self) -> (copy: Self)
        ensures
            copy == *self,
    {
        AppConfig { upload_dir: self.upload_dir.clone(), max_file_size: self.max_file_size }
    }
}

impl AppConfig {
    /// The configuration for the given settings; a setting that is absent
    /// takes its default.
    pub fn from_settings(upload_dir: Option<String>, max_file_size: Option<usize>) -> (config:
        AppConfig)
        ensures
            config.upload_dir@ == match upload_dir {
                Some(dir) => dir@,
                None => DEFAULT_UPLOAD_DIR@,
            },
            config.max_file_size == match max_file_size {
                Some(size) => size,
                None => DEFAULT_MAX_FILE_SIZE,
            },
    {
        AppConfig {
            upload_dir: match upload_dir {
                Some(dir) => dir,
                None => String::from_str(DEFAULT_UPLOAD_DIR),
            },
            max_file_size: match max_file_size {
                Some(size) => size,
                None => DEFAULT_MAX_FILE_SIZE,
            },
        }
    }
}

/// The length of a text's encoding in bytes, as the machine counts it.
pub open spec fn byte_length(content: Seq<char>) -> usize {
    encode_utf8(content).len() as usize
}

/// Whether a text has a preview: it is short enough to be shown whole, or
/// its first `PREVIEW_BYTES` bytes end at a character's end.
pub open spec fn has_preview(content: Seq<char>) -> bool {
    byte_length(content) > PREVIEW_BYTES ==> is_char_boundary(
        encode_utf8(content),
        PREVIEW_BYTES as int,
    )
}

/// The preview of a text: the text itself where its encoding has at most
/// `PREVIEW_BYTES` bytes; else the characters that its first `PREVIEW_BYTES`
/// bytes encode, followed by three dots.
pub open spec fn preview_of(content: Seq<char>) -> Seq<char> {
    let bytes = encode_utf8(content);
    if byte_length(content) > PREVIEW_BYTES {
        decode_utf8(bytes.subrange(0, PREVIEW_BYTES as int)) + "..."@
    } else {
        content
    }
}

/// Whether a text has a preview.
pub fn can_preview(content: &str) -> (possible: bool)
    ensures
        possible == has_preview(content@),
{
    content.len() <= PREVIEW_BYTES || content.is_char_boundary(PREVIEW_BYTES)
}

/// The preview of a text that has one.
pub fn content_preview(content: &str) -> (preview: String)
    requires
        has_preview(content@),
    ensures
        preview@ == preview_of(content@),
{
    broadcast use vstd::utf8::group_utf8_lib;

    if content.len() > PREVIEW_BYTES {
        let (head, _) = content.split_at(PREVIEW_BYTES);
        assert(head@ == decode_utf8(encode_utf8(head@)));
        String::from_str(head).concat("...")
    } else {
        String::from_str(content)
    }
}

/// The analysis of a text.
#[derive(Debug, PartialEq, Eq)]
pub struct TextAnalysis {
    pub filename: String,
    pub word_count: usize,
    pub preview: String,
}

/// The result of a search in a text.
#[derive(Debug, PartialEq, Eq)]
pub struct SearchResult {
    pub filename: String,
    pub word: String,
    pub count: usize,
    pub lines: Vec<String>,
}

/// The case forms of a text.
#[derive(Debug, PartialEq, Eq)]
pub struct ProcessedText {
    pub original_length: usize,
    pub upper: String,
    pub lower: String,
}

/// Why the file service turned a request down.
#[derive(Clone, Copy, Debug, PartialEq, Eq, Structural)]
pub enum FileServiceError {
    /// Status 404: there is no such file.
    FileNotFound,
    /// Status 500: the file could not be processed.
    ProcessingFailed,
    /// Status 400: the query names no word.
    MissingWord,
}

/// The status code and the message of each failure.
pub open spec fn failure_status(error: FileServiceError) -> u16 {
    match error {
        FileServiceError::FileNotFound => 404,
        FileServiceError::ProcessingFailed => 500,
        FileServiceError::MissingWord => 400,
    }
}

/// The message of each failure.
pub open spec fn failure_message(error: FileServiceError) -> Seq<char> {
    match error {
        FileServiceError::FileNotFound => "File not found"@,
        FileServiceError::ProcessingFailed => "Error processing file"@,
        FileServiceError::MissingWord => "Missing 'word' query parameter"@,
    }
}

/// How a failure to load a text surfaces: a missing file as such, anything
/// else as a failure to process.
pub open spec fn load_failure(error: TextProcessingError) -> FileServiceError {
    match error {
        TextProcessingError::FileNotFound => FileServiceError::FileNotFound,
        TextProcessingError::FileReadError => FileServiceError::ProcessingFailed,
    }
}

impl FileServiceError {
    /// The status code of the response.
    pub fn status_code(&self) -> (status: u16)
        ensures
            status == failure_status(*self),
    {
        match self {
            FileServiceError::FileNotFound => 404,
            FileServiceError::ProcessingFailed => 500,
            FileServiceError::MissingWord => 400,
        }
    }

    /// The body of the response.
    pub fn message(&self) -> (text: String)
        ensures
            text@ == failure_message(*self),
    {
        match self {
            FileServiceError::FileNotFound => String::from_str("File not found"),
            FileServiceError::ProcessingFailed => String::from_str("Error processing file"),
            FileServiceError::MissingWord => String::from_str("Missing 'word' query parameter"),
        }
    }

    /// Surfaces a failure to load a text.
    pub fn from_load(error: TextProcessingError) -> (surfaced: FileServiceError)
        ensures
            surfaced == load_failure(error),
    {
        match error {
            TextProcessingError::FileNotFound => FileServiceError::FileNotFound,
            TextProcessingError::FileReadError => FileServiceError::ProcessingFailed,
        }
    }
}

/// What reading a file gave, as the outcome of loading a text from it.
pub open spec fn loaded(read: FileReadView) -> Result<Seq<char>, FileServiceError> {
    match read {
        FileReadView::Missing => Err(FileServiceError::FileNotFound),
        FileReadView::Unreadable => Err(FileServiceError::ProcessingFailed),
        FileReadView::Content(text) => Ok(text),
    }
}

/// Whether a file's text, if it was read, has a preview.
pub open spec fn read_has_preview(read: FileReadView) -> bool {
    read matches FileReadView::Content(text) ==> has_preview(text)
}

/// Whether a file that was read can be analysed: its text, if there is one,
/// has a preview.
pub fn can_analyze(read: &FileRead) -> (possible: bool)
    ensures
        possible == read_has_preview(read@),
{
    match read {
        FileRead::Content(text) => can_preview(text.as_str()),
        _ => true,
    }
}

/// Analyses the text of the file `filename`: its number of words and its
/// preview.
pub fn analyze_text(filename: &str, read: FileRead) -> (reply: Result<
    TextAnalysis,
    FileServiceError,
>)
    requires
        read_has_preview(read@),
    ensures
        match loaded(read@) {
            Ok(text) => reply matches Ok(analysis) && analysis.filename@ == filename@
                && analysis.word_count == words(text).len() && analysis.preview@ == preview_of(
                text,
            ),
            Err(error) => reply == Err::<TextAnalysis, FileServiceError>(error),
        },
{
    match TextProcessor::new(read) {
        Ok(processor) => Ok(
            TextAnalysis {
                filename: String::from_str(filename),
                word_count: processor.count_words(),
                preview: content_preview(processor.content()),
            },
        ),
        Err(error) => Err(FileServiceError::from_load(error)),
    }
}

/// Searches the text of the file `filename` for the word that the query
/// names: how often it occurs as a word, and the lines it occurs in. A query
/// without a word is turned down before the file is looked at.
pub fn search_in_text(filename: &str, word: Option<&str>, read: FileRead) -> (reply: Result<
    SearchResult,
    FileServiceError,
>)
    ensures
        match word {
            None => reply == Err::<SearchResult, FileServiceError>(FileServiceError::MissingWord),
            Some(word) => match loaded(read@) {
                Ok(text) => reply matches Ok(found) && found.filename@ == filename@ && found.word@
                    == word@ && found.count == occurrences(text, word@).len()
                    && found.lines@.len() == lines_with(text, word@).len() && forall|k: int|
                    0 <= k < found.lines@.len() ==> (#[trigger] found.lines@[k])@ == lines_with(
                        text,
                        word@,
                    )[k],
                Err(error) => reply == Err::<SearchResult, FileServiceError>(error),
            },
        },
{
    let word = match word {
        Some(word) => word,
        None => {
            return Err(FileServiceError::MissingWord);
        },
    };
    match TextProcessor::new(read) {
        Ok(processor) => {
            let count = processor.count_word_occurrences(word);
            let found = processor.find_lines_with(word);
            let mut lines: Vec<String> = Vec::new();
            let mut k: usize = 0;
            while k < found.len()
                invariant
                    k <= found.len(),
                    lines.len() == k,
                    forall|j: int| 0 <= j < k ==> (#[trigger] lines@[j])@ == found@[j]@,
                decreases found.len() - k,
            {
                lines.push(String::from_str(found[k]));
                k += 1;
            }
            Ok(
                SearchResult {
                    filename: String::from_str(filename),
                    word: String::from_str(word),
                    count,
                    lines,
                },
            )
        },
        Err(error) => Err(FileServiceError::from_load(error)),
    }
}

/// The case forms of a text: its upper-case form, the lower-case form of
/// that, and the length of the upper-case form in bytes.
pub fn process_text(text: String) -> (processed: ProcessedText)
    ensures
        processed.upper@ == uppercase(text@),
        processed.lower@ == lowercase(uppercase(text@)),
        processed.original_length == byte_length(uppercase(text@)),
{
    let upper = process_text_owned(text);
    let lower = process_text_borrowed(upper.as_str());
    ProcessedText { original_length: upper.as_str().len(), upper, lower }
}

} // verus!
