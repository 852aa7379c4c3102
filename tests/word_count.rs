use rest_client::log_level::LogLevel;
use rest_client::word_count::{count_words, WordCount};

#[test]
fn words_are_pieces_between_single_spaces() {
    assert_eq!(count_words("hello world"), 2);
    assert_eq!(count_words(""), 1);
    assert_eq!(count_words("a  b"), 3);
    assert_eq!(count_words(" "), 2);
}

#[test]
fn counts_accumulate_per_file() {
    let mut wc = WordCount::new();
    wc.count_file(String::from("a.txt"), "one two three");
    wc.count_file(String::from("b.txt"), "x");
    wc.count_file(String::from("a.txt"), "four five");
    assert_eq!(wc.len(), 2);
    let (name, counts) = wc.file(0);
    assert_eq!(name, "a.txt");
    assert_eq!(counts, &vec![3, 2]);
    let (name, counts) = wc.file(1);
    assert_eq!(name, "b.txt");
    assert_eq!(counts, &vec![1]);
}

#[test]
fn log_level_values() {
    assert_eq!(LogLevel::Off.value(), 0);
    assert_eq!(LogLevel::Trace.value(), 10);
    assert_eq!(LogLevel::from_value(8), Some(LogLevel::Debug));
    assert_eq!(LogLevel::from_value(3), None);
    assert!(!LogLevel::Off.is_enabled());
    assert!(LogLevel::Warn.is_enabled());
}
