use search_rs::matcher::{matches_folded, pattern_matches};
use search_rs::{
    Config, Entry, FindAction, Report, Search, SearchError, Target, DEFAULT_CHUNK_SIZE,
    DEFAULT_PARALLELISM,
};
use std::str::FromStr;

fn search_with(action: FindAction) -> Search {
    Search::new(Config::init(
        "dir/input.txt".to_string(),
        "world".to_string(),
        None,
        Some(action),
        None,
        None,
    ))
}

#[test]
fn config_defaults() {
    let config = Config::init("p".to_string(), "Pat".to_string(), None, None, None, None);
    assert_eq!(config.path, "p");
    assert_eq!(config.pattern, "Pat");
    assert!(!config.case_insensitive);
    assert_eq!(config.action, FindAction::PrintLine);
    assert_eq!(config.chunk_size, 1000);
    assert_eq!(DEFAULT_CHUNK_SIZE, 1000);
    assert_eq!(config.parallelism, 1);
    assert_eq!(DEFAULT_PARALLELISM, 1);
}

#[test]
fn config_keeps_given_values() {
    let config = Config::init(
        "p".to_string(),
        "Pat".to_string(),
        Some(false),
        Some(FindAction::Boolean),
        Some(7),
        Some(4),
    );
    assert_eq!(config.pattern, "Pat");
    assert_eq!(config.action, FindAction::Boolean);
    assert_eq!(config.chunk_size, 7);
    assert_eq!(config.parallelism, 4);
}

#[test]
fn case_insensitive_config_lowercases_pattern_once() {
    let config = Config::init("p".to_string(), "HeLLo WORLD".to_string(), Some(true), None, None, None);
    assert!(config.case_insensitive);
    assert_eq!(config.pattern, "hello world");
    let again = Config::init("p".to_string(), config.pattern.clone(), Some(true), None, None, None);
    assert_eq!(again.pattern, "hello world");
}

#[test]
fn lowercase_line_decides_alike_in_both_modes() {
    for line in ["hello world", "nothing here", "world"] {
        assert_eq!(
            pattern_matches(line, "world", true),
            pattern_matches(line, "world", false)
        );
    }
    assert!(pattern_matches("WORLD", "world", true));
    assert!(!pattern_matches("WORLD", "world", false));
}

#[test]
fn matches_folded_is_plain_containment() {
    assert!(matches_folded("hello world", "lo wo"));
    assert!(matches_folded("abc", ""));
    assert!(!matches_folded("hello world", "World"));
    assert!(!matches_folded("ab", "abc"));
}

#[test]
fn parse_actions() {
    assert_eq!(FindAction::from_str("print"), Ok(FindAction::PrintLine));
    assert_eq!(FindAction::from_str("file"), Ok(FindAction::PrintFileName));
    assert_eq!(FindAction::parse("boolean"), Ok(FindAction::Boolean));
    assert_eq!(
        FindAction::from_str("count"),
        Err(SearchError::InitializationError("action count is invalid".to_string()))
    );
}

#[test]
fn error_messages() {
    assert_eq!(
        SearchError::PathNotFound("/no/such".to_string()).message(),
        "Path not found: /no/such"
    );
    assert_eq!(SearchError::ReadError("denied".to_string()).message(), "Read error: denied");
    assert_eq!(
        SearchError::InitializationError("bad".to_string()).message(),
        "Initialization error: bad"
    );
    let e = SearchError::ReadError("denied".to_string());
    assert_eq!(e.duplicate(), e);
}

#[test]
fn missing_path_is_path_not_found() {
    let search = search_with(FindAction::PrintLine);
    assert_eq!(
        search.search(Target::Missing).err(),
        Some(SearchError::PathNotFound("dir/input.txt".to_string()))
    );
}

#[test]
fn file_target_hands_on_matches_or_error() {
    let search = search_with(FindAction::PrintLine);
    let report = search.search(Target::File(Ok(vec!["a world".to_string()]))).unwrap();
    assert_eq!(report.matches, vec!["a world"]);
    assert!(report.errors.is_empty());
    let failed = search.search(Target::File(Err(SearchError::ReadError("x".to_string()))));
    assert_eq!(failed.err(), Some(SearchError::ReadError("x".to_string())));
    let dir = search.search(Target::Dir(Err(SearchError::ReadError("y".to_string()))));
    assert_eq!(dir.err(), Some(SearchError::ReadError("y".to_string())));
}

#[test]
fn directory_with_unreadable_file_keeps_going() {
    let search = search_with(FindAction::PrintLine);
    let lines = vec!["hello world".to_string(), "other".to_string()];
    let readable = search.search_in_file(&lines, None);
    let unreadable = search.search_in_file(&Vec::new(), Some("Permission denied".to_string()));
    let report = search.search_in_dir(&vec![Entry::File(readable), Entry::File(unreadable)]);
    assert_eq!(report.matches, vec!["hello world"]);
    assert_eq!(report.errors, vec![SearchError::ReadError("Permission denied".to_string())]);
}

#[test]
fn directory_joins_subdirectories_in_entry_order() {
    let search = search_with(FindAction::PrintLine);
    let sub = Report {
        matches: vec!["sub world".to_string()],
        errors: vec![SearchError::ReadError("sub failure".to_string())],
    };
    let entries = vec![
        Entry::File(Ok(vec!["first world".to_string()])),
        Entry::Unreadable(SearchError::ReadError("bad entry".to_string())),
        Entry::Other,
        Entry::Dir(Ok(sub)),
        Entry::Dir(Err(SearchError::ReadError("cannot list".to_string()))),
        Entry::File(Ok(vec!["last world".to_string()])),
    ];
    let report = search.search_in_dir(&entries);
    assert_eq!(report.matches, vec!["first world", "sub world", "last world"]);
    assert_eq!(
        report.errors,
        vec![
            SearchError::ReadError("bad entry".to_string()),
            SearchError::ReadError("sub failure".to_string()),
            SearchError::ReadError("cannot list".to_string()),
        ]
    );
    let empty = search.search_in_dir(&Vec::new());
    assert!(empty.matches.is_empty() && empty.errors.is_empty());
}

#[test]
fn output_follows_action() {
    let report = Report {
        matches: vec!["a world".to_string(), "b world".to_string()],
        errors: Vec::new(),
    };
    assert_eq!(search_with(FindAction::PrintLine).output_lines(&report), vec!["a world", "b world"]);
    assert_eq!(search_with(FindAction::PrintFileName).output_lines(&report), vec!["dir/input.txt"]);
    assert!(search_with(FindAction::Boolean).output_lines(&report).is_empty());
}
