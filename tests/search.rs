use search_rs::{Config, Search, SearchError};

fn sample_lines() -> Vec<String> {
    vec![
        "This is the first line".to_string(),
        "This is the second line with the hello world phrase in it".to_string(),
        "He's got the whole worLd in his hands".to_string(),
        "This is the last line - nothing special about it".to_string(),
    ]
}

#[test]
fn test_search_case_sensitive_patter_match() {
    let config = Config::init(
        "input.txt".to_string(),
        "world".to_string(),
        None,
        None,
        None,
        None,
    );
    let search = Search::new(config);
    let matches = search.search_in_file(&sample_lines(), None).unwrap();
    assert_eq!(matches.len(), 1);
    assert_eq!(
        matches,
        vec!["This is the second line with the hello world phrase in it"]
    );
}

#[test]
fn test_search_case_insensitive_pattern_match() {
    let config = Config::init(
        "input.txt".to_string(),
        "world".to_string(),
        Some(true),
        None,
        None,
        None,
    );
    let search = Search::new(config);
    let matches = search.search_in_file(&sample_lines(), None).unwrap();
    assert_eq!(matches.len(), 2);
    assert_eq!(
        matches,
        vec![
            "This is the second line with the hello world phrase in it",
            "He's got the whole worLd in his hands"
        ]
    );
}

#[test]
fn read_failure_is_read_error() {
    let search = Search::new(Config::init(
        "input.txt".to_string(),
        "world".to_string(),
        None,
        None,
        None,
        None,
    ));
    let r = search.search_in_file(&sample_lines(), Some("permission denied".to_string()));
    assert_eq!(r, Err(SearchError::ReadError("permission denied".to_string())));
}

#[test]
fn empty_file_has_no_matches() {
    let search = Search::new(Config::init(
        "empty.txt".to_string(),
        "x".to_string(),
        None,
        None,
        None,
        None,
    ));
    assert_eq!(search.search_in_file(&Vec::new(), None).unwrap(), Vec::<String>::new());
}

#[test]
fn whole_line_pattern_finds_the_line() {
    let line = "He's got the whole worLd in his hands";
    let sensitive = Search::new(Config::init(
        "f".to_string(),
        line.to_string(),
        None,
        None,
        None,
        None,
    ));
    assert_eq!(sensitive.search_in_file(&sample_lines(), None).unwrap(), vec![line]);
    let insensitive = Search::new(Config::init(
        "f".to_string(),
        line.to_string(),
        Some(true),
        None,
        None,
        None,
    ));
    assert_eq!(insensitive.search_in_file(&sample_lines(), None).unwrap(), vec![line]);
}

#[test]
fn pattern_match_follows_case_mode() {
    let sensitive = Search::new(Config::init(
        "f".to_string(),
        "World".to_string(),
        Some(false),
        None,
        None,
        None,
    ));
    assert!(sensitive.pattern_match("Hello World"));
    assert!(!sensitive.pattern_match("hello world"));
    let insensitive = Search::new(Config::init(
        "f".to_string(),
        "World".to_string(),
        Some(true),
        None,
        None,
        None,
    ));
    assert!(insensitive.pattern_match("HELLO WORLD"));
    assert!(insensitive.pattern_match("hello world"));
    assert!(!insensitive.pattern_match("hello word"));
}

#[test]
fn empty_pattern_matches_every_line() {
    let search = Search::new(Config::init(
        "f".to_string(),
        String::new(),
        None,
        None,
        None,
        None,
    ));
    assert_eq!(search.search_in_file(&sample_lines(), None).unwrap(), sample_lines());
}
