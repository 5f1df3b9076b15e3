//! The search request, its output action and the errors of a search.
use vstd::prelude::*;

use crate::matcher::{lower_of, lowercase};

verus! {

/// Lines per batch when the request names no chunk size.
pub const DEFAULT_CHUNK_SIZE: usize = 1000;

/// Worker count when the request names none: the sequential path.
pub const DEFAULT_PARALLELISM: usize = 1;

/// Why a search failed.
#[derive(Debug, PartialEq, Eq)]
pub enum SearchError {
    /// The target path does not exist.
    PathNotFound(String),
    /// A file could not be opened or read, or a directory could not be listed;
    /// holds the underlying failure's message.
    ReadError(String),
    /// The configuration is invalid, such as an unknown output action.
    InitializationError(String),
}

impl SearchError {
    /// The human-readable message of an error.
    pub open spec fn message_spec(&self) -> Seq<char> {
        match self {
            SearchError::PathNotFound(p) => "Path not found: "@ + p@,
            SearchError::ReadError(e) => "Read error: "@ + e@,
            SearchError::InitializationError(m) => "Initialization error: "@ + m@,
        }
    }

    /// Renders the error for a reader.
    pub fn message(&self) -> (r: String)
        ensures
            r@ == self.message_spec(),
    {
        match self {
            SearchError::PathNotFound(p) => String::from_str("Path not found: ").concat(p.as_str()),
            SearchError::ReadError(e) => String::from_str("Read error: ").concat(e.as_str()),
            SearchError::InitializationError(m) => String::from_str(
                "Initialization error: ",
            ).concat(m.as_str()),
        }
    }

    /// A copy of the error, equal to it.
    pub fn duplicate(&self) -> (r: SearchError)
        ensures
            r == *self,
    {
        match self {
            SearchError::PathNotFound(p) => SearchError::PathNotFound(p.clone()),
            SearchError::ReadError(e) => SearchError::ReadError(e.clone()),
            SearchError::InitializationError(m) => SearchError::InitializationError(m.clone()),
        }
    }
}

/// What the caller does with the matches of a search.
#[derive(Debug, Clone, Copy, PartialEq, Eq, Structural)]
pub enum FindAction {
    /// Print each matching line.
    PrintLine,
    /// Print the searched path.
    PrintFileName,
    /// Only decide whether there is a match; print nothing.
    Boolean,
}

/// The action that a selector names, if any.
pub open spec fn action_named(s: Seq<char>) -> Option<FindAction> {
    if s == "print"@ {
        Some(FindAction::PrintLine)
    } else if s == "file"@ {
        Some(FindAction::PrintFileName)
    } else if s == "boolean"@ {
        Some(FindAction::Boolean)
    } else {
        None
    }
}

impl FindAction {
    /// Reads an action selector: `print`, `file` or `boolean`.
    pub fn parse(s: &str) -> (r: Result<FindAction, SearchError>)
        ensures
            match action_named(s@) {
                Some(a) => r == Ok::<FindAction, SearchError>(a),
                None => match r {
                    Err(SearchError::InitializationError(m)) => m@ == "action "@ + s@
                        + " is invalid"@,
                    _ => false,
                },
            },
    {
        let given = s.to_owned();
        if given == "print".to_owned() {
            Ok(FindAction::PrintLine)
        } else if given == "file".to_owned() {
            Ok(FindAction::PrintFileName)
        } else if given == "boolean".to_owned() {
            Ok(FindAction::Boolean)
        } else {
            Err(
                SearchError::InitializationError(
                    String::from_str("action ").concat(s).concat(" is invalid"),
                ),
            )
        }
    }
}

impl std::str::FromStr for FindAction {
    type Err = SearchError;

    fn from_str(s: &str) -> Result<FindAction, SearchError> {
        FindAction::parse(s)
    }
}

/// One search request; read-only once made.
pub struct Config {
    /// The file or directory to search.
    pub path: String,
    /// The pattern; lowercased when the search ignores case.
    pub pattern: String,
    pub case_insensitive: bool,
    pub action: FindAction,
    /// Lines per batch on the parallel path.
    pub chunk_size: usize,
    /// Worker count; 0 or 1 selects the sequential path.
    pub parallelism: usize,
}

impl Config {
    /// Builds a request, filling in defaults: case-sensitive, print the lines,
    /// 1000 lines per batch, one worker. A case-insensitive request stores its
    /// pattern lowercased, once.
    pub fn init(
        path: String,
        pattern: String,
        case_insensitive: Option<bool>,
        action: Option<FindAction>,
        chunk_size: Option<usize>,
        parallelism: Option<usize>,
    ) -> (r: Config)
        ensures
            r.path == path,
            r.case_insensitive == (case_insensitive == Some(true)),
            r.pattern@ == (if r.case_insensitive {
                lower_of(pattern@)
            } else {
                pattern@
            }),
            r.action == (match action {
                Some(a) => a,
                None => FindAction::PrintLine,
            }),
            r.chunk_size == (match chunk_size {
                Some(n) => n,
                None => DEFAULT_CHUNK_SIZE,
            }),
            r.parallelism == (match parallelism {
                Some(n) => n,
                None => DEFAULT_PARALLELISM,
            }),
    {
        let ci = match case_insensitive {
            Some(i) => i,
            None => false,
        };
        let final_pattern = if ci {
            lowercase(pattern.as_str())
        } else {
            pattern
        };
        Config {
            path,
            pattern: final_pattern,
            case_insensitive: ci,
            action: match action {
                Some(a) => a,
                None => FindAction::PrintLine,
            },
            chunk_size: match chunk_size {
                Some(n) => n,
                None => DEFAULT_CHUNK_SIZE,
            },
            parallelism: match parallelism {
                Some(n) => n,
                None => DEFAULT_PARALLELISM,
            },
        }
    }
}

} // verus!
