use time_service::text::{
    chars_of, is_space, line_spans, piece_contains, piece_equals, word_spans,
};
use time_service::text_processor::{FileRead, TextProcessingError, TextProcessor};

fn words_of(text: &str) -> Vec<String> {
    let chars = chars_of(text);
    word_spans(&chars).iter().map(|&(from, to)| chars[from..to].iter().collect()).collect()
}

fn lines_of(text: &str) -> Vec<String> {
    let chars = chars_of(text);
    line_spans(&chars).iter().map(|&(from, to)| chars[from..to].iter().collect()).collect()
}

fn processor_for(content: &str) -> TextProcessor {
    TextProcessor::new(FileRead::Content(content.to_string())).unwrap()
}

#[test]
fn characters_are_listed_in_order() {
    assert_eq!(chars_of("aé日"), vec!['a', 'é', '日']);
    assert!(chars_of("").is_empty());
}

#[test]
fn white_space_is_the_unicode_property() {
    for code in 0..=0x10ffffu32 {
        if let Some(c) = char::from_u32(code) {
            assert_eq!(is_space(c), c.is_whitespace(), "U+{:04X}", code);
        }
    }
}

#[test]
fn words_are_runs_between_white_space() {
    assert_eq!(words_of("hello world"), vec!["hello", "world"]);
    assert_eq!(words_of("  hello \t\n world  "), vec!["hello", "world"]);
    assert_eq!(words_of("one"), vec!["one"]);
    assert_eq!(words_of("a\u{a0}b\u{2003}c"), vec!["a", "b", "c"]);
    assert!(words_of("").is_empty());
    assert!(words_of(" \t\r\n").is_empty());
}

#[test]
fn words_agree_with_split_whitespace() {
    let samples =
        ["", " ", "a", " a", "a ", "a b", "a  b", "\ta\nb\r\nc ", "日本 語", "x\u{85}y"];
    for sample in samples {
        let expected: Vec<String> = sample.split_whitespace().map(|w| w.to_string()).collect();
        assert_eq!(words_of(sample), expected, "{:?}", sample);
    }
}

#[test]
fn lines_end_at_line_feeds() {
    assert_eq!(lines_of("foo\nbar"), vec!["foo", "bar"]);
    assert_eq!(lines_of("foo\r\nbar\n"), vec!["foo", "bar"]);
    assert_eq!(lines_of("foo\nbar\n\r\nbaz\r"), vec!["foo", "bar", "", "baz\r"]);
    assert_eq!(lines_of("\n"), vec![""]);
    assert_eq!(lines_of("\n\n"), vec!["", ""]);
    assert_eq!(lines_of("a\r\r\nb"), vec!["a\r", "b"]);
    assert!(lines_of("").is_empty());
}

#[test]
fn lines_agree_with_str_lines() {
    let samples = [
        "", "\n", "\r", "\r\n", "a", "a\n", "a\r\n", "a\n\nb", "a\rb\n", "\n\r\n\r",
        "x\ny\r\nz\r",
    ];
    for sample in samples {
        let expected: Vec<String> = sample.lines().map(|l| l.to_string()).collect();
        assert_eq!(lines_of(sample), expected, "{:?}", sample);
    }
}

#[test]
fn pieces_are_compared_and_searched() {
    let chars = chars_of("hello world");
    assert!(piece_equals(&chars, (0, 5), &chars_of("hello")));
    assert!(!piece_equals(&chars, (0, 5), &chars_of("hellp")));
    assert!(!piece_equals(&chars, (0, 5), &chars_of("hell")));
    assert!(piece_equals(&chars, (3, 3), &chars_of("")));
    assert!(piece_contains(&chars, (0, 11), &chars_of("lo wo")));
    assert!(piece_contains(&chars, (0, 11), &chars_of("world")));
    assert!(piece_contains(&chars, (0, 11), &chars_of("")));
    assert!(piece_contains(&chars, (4, 4), &chars_of("")));
    assert!(!piece_contains(&chars, (0, 5), &chars_of("world")));
    assert!(!piece_contains(&chars, (0, 10), &chars_of("world")));
    assert!(!piece_contains(&chars, (0, 11), &chars_of("hello world!")));
}

#[test]
fn unreadable_file_is_reported() {
    let result = TextProcessor::new(FileRead::Unreadable);
    assert!(matches!(result, Err(TextProcessingError::FileReadError)));
}

#[test]
fn load_failures_are_written_out() {
    assert_eq!(TextProcessingError::FileNotFound.message(), "File not found");
    assert_eq!(TextProcessingError::FileReadError.message(), "File read error");
}

#[test]
fn occurrences_are_whole_words() {
    let processor = processor_for("rust rusty rust, Rust\trust");
    assert_eq!(processor.count_word_occurrences("rust"), 2);
    assert_eq!(processor.count_word_occurrences("rust,"), 1);
    assert_eq!(processor.count_word_occurrences(""), 0);
    assert_eq!(processor.count_word_occurrences("rusty rust,"), 0);
}

#[test]
fn lines_are_found_without_their_endings() {
    let processor = processor_for("alpha\r\nbeta\r\ngamma\n");
    assert_eq!(processor.find_lines_with("a"), vec!["alpha", "beta", "gamma"]);
    assert_eq!(processor.find_lines_with("\r"), Vec::<&str>::new());
    assert_eq!(processor.find_lines_with("mm"), vec!["gamma"]);
    assert_eq!(processor.find_lines_with(""), vec!["alpha", "beta", "gamma"]);
    let wide = processor_for("日本語\nにほんご");
    assert_eq!(wide.find_lines_with("本"), vec!["日本語"]);
}
