use time_service::file_service::{
    analyze_text, can_analyze, can_preview, content_preview, process_text, search_in_text,
    AppConfig, FileServiceError,
};
use time_service::text_processor::{FileRead, TextProcessingError};

fn file(content: &str) -> FileRead {
    FileRead::Content(content.to_string())
}

#[test]
fn test_text_analysis() {
    let result = analyze_text("test_analysis.txt", file("hello world\nhello rust")).unwrap();
    assert_eq!(result.word_count, 4);
    assert_eq!(result.filename, "test_analysis.txt");
    assert_eq!(result.preview, "hello world\nhello rust");
}

#[test]
fn test_text_search() {
    let result =
        search_in_text("test_search.txt", Some("hello"), file("hello world\nhello rust")).unwrap();
    assert_eq!(result.count, 2);
    assert_eq!(result.lines.len(), 2);
    assert_eq!(result.lines, vec!["hello world", "hello rust"]);
    assert_eq!(result.word, "hello");
    assert_eq!(result.filename, "test_search.txt");
}

#[test]
fn test_process_text() {
    let result = process_text("Test".to_string());
    assert_eq!(result.upper, "TEST");
    assert_eq!(result.lower, "test");
    assert_eq!(result.original_length, 4);
}

#[test]
fn case_forms_follow_unicode() {
    let result = process_text("straße".to_string());
    assert_eq!(result.upper, "STRASSE");
    assert_eq!(result.lower, "strasse");
    assert_eq!(result.original_length, 7);
}

#[test]
fn settings_take_defaults() {
    let config = AppConfig::from_settings(None, None);
    assert_eq!(config.upload_dir, "./uploads");
    assert_eq!(config.max_file_size, 10_485_760);
    let config = AppConfig::from_settings(Some("/srv/files".to_string()), Some(1024));
    assert_eq!(config.upload_dir, "/srv/files");
    assert_eq!(config.max_file_size, 1024);
    assert_eq!(config.clone(), config);
}

#[test]
fn short_text_is_its_own_preview() {
    let text = "x".repeat(100);
    assert!(can_preview(&text));
    assert_eq!(content_preview(&text), text);
    assert_eq!(content_preview(""), "");
}

#[test]
fn long_text_is_cut_after_a_hundred_bytes() {
    let text = "x".repeat(101);
    assert!(can_preview(&text));
    assert_eq!(content_preview(&text), format!("{}...", "x".repeat(100)));
    let wide = "é".repeat(60);
    assert!(can_preview(&wide));
    assert_eq!(content_preview(&wide), format!("{}...", "é".repeat(50)));
}

#[test]
fn text_cut_inside_a_character_has_no_preview() {
    let text = format!("x{}", "é".repeat(60));
    assert!(!can_preview(&text));
    assert!(!can_analyze(&file(&text)));
    assert!(can_analyze(&FileRead::Missing));
}

#[test]
fn missing_file_is_not_found() {
    assert_eq!(analyze_text("a.txt", FileRead::Missing), Err(FileServiceError::FileNotFound));
    assert_eq!(
        search_in_text("a.txt", Some("w"), FileRead::Missing),
        Err(FileServiceError::FileNotFound)
    );
    assert_eq!(FileServiceError::FileNotFound.status_code(), 404);
    assert_eq!(FileServiceError::FileNotFound.message(), "File not found");
}

#[test]
fn unreadable_file_fails_processing() {
    assert_eq!(
        analyze_text("a.txt", FileRead::Unreadable),
        Err(FileServiceError::ProcessingFailed)
    );
    assert_eq!(
        search_in_text("a.txt", Some("w"), FileRead::Unreadable),
        Err(FileServiceError::ProcessingFailed)
    );
    assert_eq!(FileServiceError::ProcessingFailed.status_code(), 500);
    assert_eq!(FileServiceError::ProcessingFailed.message(), "Error processing file");
    assert_eq!(
        FileServiceError::from_load(TextProcessingError::FileReadError),
        FileServiceError::ProcessingFailed
    );
    assert_eq!(
        FileServiceError::from_load(TextProcessingError::FileNotFound),
        FileServiceError::FileNotFound
    );
}

#[test]
fn search_without_word_is_bad_request() {
    let reply = search_in_text("a.txt", None, FileRead::Missing);
    assert_eq!(reply, Err(FileServiceError::MissingWord));
    assert_eq!(FileServiceError::MissingWord.status_code(), 400);
    assert_eq!(FileServiceError::MissingWord.message(), "Missing 'word' query parameter");
}

#[test]
fn search_counts_words_and_finds_lines() {
    let text = "rust is fast\nrusty nails\nRust and rust";
    let result = search_in_text("a.txt", Some("rust"), file(text)).unwrap();
    assert_eq!(result.count, 2);
    assert_eq!(result.lines, vec!["rust is fast", "rusty nails", "Rust and rust"]);
}
