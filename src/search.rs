//! The search engine: matching lines of a file, the worker step of the
//! parallel path, and the aggregation of worker and directory results.
use vstd::prelude::*;

use crate::config::{Config, FindAction, SearchError};
use crate::matcher::{line_matches, pattern_matches};
use crate::model::{batches_of, concat_all, lines_of, matching};

verus! {

/// Appends copies of `src`'s lines to `dst`.
fn append_lines(dst: &mut Vec<String>, src: &Vec<String>)
    ensures
        lines_of(final(dst)@) == lines_of(old(dst)@) + lines_of(src@),
{
    let ghost start = lines_of(dst@);
    let mut i: usize = 0;
    while i < src.len()
        invariant
            i <= src@.len(),
            lines_of(dst@) == start + lines_of(src@).subrange(0, i as int),
        decreases src@.len() - i,
    {
        let ghost before = dst@;
        let line = src[i].clone();
        dst.push(line);
        proof {
            assert(dst@ == before.push(src@[i as int]));
            assert(lines_of(dst@) =~= lines_of(before).push(src@[i as int]@));
            assert(lines_of(src@).subrange(0, i + 1) =~= lines_of(src@).subrange(0, i as int).push(
                src@[i as int]@,
            ));
        }
        i = i + 1;
    }
    proof {
        assert(lines_of(src@).subrange(0, i as int) =~= lines_of(src@));
    }
}

/// Joins the result batches of the workers into one match set, batch after batch.
pub fn merge_results(results: &Vec<Vec<String>>) -> (r: Vec<String>)
    ensures
        lines_of(r@) == concat_all(batches_of(results@)),
{
    let mut all: Vec<String> = Vec::new();
    let mut i: usize = 0;
    while i < results.len()
        invariant
            i <= results@.len(),
            lines_of(all@) == concat_all(batches_of(results@).subrange(0, i as int)),
        decreases results@.len() - i,
    {
        append_lines(&mut all, &results[i]);
        proof {
            let done = batches_of(results@).subrange(0, i + 1);
            assert(done.drop_last() =~= batches_of(results@).subrange(0, i as int));
        }
        i = i + 1;
    }
    proof {
        assert(batches_of(results@).subrange(0, i as int) =~= batches_of(results@));
    }
    all
}

/// What a directory search found: the matches of all entries, in entry order,
/// and the failures of the entries that could not be searched.
pub struct Report {
    pub matches: Vec<String>,
    pub errors: Vec<SearchError>,
}

/// One entry of a directory, as the caller found it.
pub enum Entry {
    /// A regular file, with the result of searching it.
    File(Result<Vec<String>, SearchError>),
    /// A subdirectory, with the result of searching it.
    Dir(Result<Report, SearchError>),
    /// Neither a file nor a directory: skipped.
    Other,
    /// The entry, or its type, could not be read.
    Unreadable(SearchError),
}

/// The target of a search, as the caller found it.
pub enum Target {
    /// The path does not exist.
    Missing,
    /// A file, with the result of searching it.
    File(Result<Vec<String>, SearchError>),
    /// A directory, with the result of searching it; `Err` when it could not be listed.
    Dir(Result<Report, SearchError>),
}

/// The matches that one entry adds to its directory's report.
pub open spec fn entry_matches(e: Entry) -> Seq<Seq<char>> {
    match e {
        Entry::File(Ok(found)) => lines_of(found@),
        Entry::Dir(Ok(report)) => lines_of(report.matches@),
        _ => Seq::empty(),
    }
}

/// The failures that one entry adds to its directory's report.
pub open spec fn entry_errors(e: Entry) -> Seq<SearchError> {
    match e {
        Entry::File(Err(x)) => seq![x],
        Entry::Dir(Err(x)) => seq![x],
        Entry::Dir(Ok(report)) => report.errors@,
        Entry::Unreadable(x) => seq![x],
        _ => Seq::empty(),
    }
}

/// The matches of a directory: those of its entries, joined in entry order.
pub open spec fn dir_matches(entries: Seq<Entry>) -> Seq<Seq<char>>
    decreases entries.len(),
{
    if entries.len() == 0 {
        Seq::empty()
    } else {
        dir_matches(entries.drop_last()) + entry_matches(entries.last())
    }
}

/// The failures of a directory: those of its entries, joined in entry order.
pub open spec fn dir_errors(entries: Seq<Entry>) -> Seq<SearchError>
    decreases entries.len(),
{
    if entries.len() == 0 {
        Seq::empty()
    } else {
        dir_errors(entries.drop_last()) + entry_errors(entries.last())
    }
}

/// Appends copies of `src`'s errors to `dst`.
fn append_errors(dst: &mut Vec<SearchError>, src: &Vec<SearchError>)
    ensures
        final(dst)@ == old(dst)@ + src@,
{
    let ghost start = dst@;
    let mut i: usize = 0;
    while i < src.len()
        invariant
            i <= src@.len(),
            dst@ == start + src@.subrange(0, i as int),
        decreases src@.len() - i,
    {
        dst.push(src[i].duplicate());
        i = i + 1;
        proof {
            assert(dst@ =~= start + src@.subrange(0, i as int));
        }
    }
    proof {
        assert(src@.subrange(0, i as int) =~= src@);
    }
}

/// A search engine for one request.
pub struct Search {
    pub config: Config,
}

impl Search {
    /// The matches of `lines` under this search's pattern and case mode.
    pub open spec fn matches_of(&self, lines: Seq<Seq<char>>) -> Seq<Seq<char>> {
        matching(lines, self.config.pattern@, self.config.case_insensitive)
    }

    pub fn new(config: Config) -> (r: Search)
        ensures
            r.config == config,
    {
        Search { config }
    }

    /// Does `line` match? In case-insensitive mode the line is lowercased and
    /// searched for the stored (lowercased) pattern.
    pub fn pattern_match(&self, line: &str) -> (r: bool)
        ensures
            r == line_matches(line@, self.config.pattern@, self.config.case_insensitive),
    {
        pattern_matches(line, self.config.pattern.as_str(), self.config.case_insensitive)
    }

    /// The matching lines of `lines`, in order.
    fn filter_lines(&self, lines: &Vec<String>) -> (r: Vec<String>)
        ensures
            lines_of(r@) == self.matches_of(lines_of(lines@)),
    {
        let ghost all = lines_of(lines@);
        let mut found: Vec<String> = Vec::new();
        let mut i: usize = 0;
        while i < lines.len()
            invariant
                i <= lines@.len(),
                all == lines_of(lines@),
                lines_of(found@) == self.matches_of(all.subrange(0, i as int)),
            decreases lines@.len() - i,
        {
            let hit = self.pattern_match(lines[i].as_str());
            proof {
                assert(all.subrange(0, i + 1).drop_last() =~= all.subrange(0, i as int));
            }
            if hit {
                found.push(lines[i].clone());
                proof {
                    assert(lines_of(found@) =~= lines_of(found@).drop_last().push(all[i as int]));
                }
            }
            i = i + 1;
        }
        proof {
            assert(all.subrange(0, i as int) =~= all);
        }
        found
    }

    /// The worker step: matches one batch and hands back what to forward, or
    /// `None` when the batch holds no match.
    pub fn match_batch(&self, batch: &Vec<String>) -> (r: Option<Vec<String>>)
        ensures
            match r {
                Some(found) => found@.len() > 0 && lines_of(found@) == self.matches_of(
                    lines_of(batch@),
                ),
                None => self.matches_of(lines_of(batch@)).len() == 0,
            },
    {
        let found = self.filter_lines(batch);
        if found.len() == 0 {
            None
        } else {
            Some(found)
        }
    }

    /// The sequential search of one file, given the lines that were read and,
    /// if reading stopped on a failure, its message: the failure is returned as
    /// `ReadError`, else the matching lines in file order.
    pub fn search_in_file(&self, lines: &Vec<String>, failure: Option<String>) -> (r: Result<
        Vec<String>,
        SearchError,
    >)
        ensures
            match failure {
                Some(e) => r == Err::<Vec<String>, SearchError>(SearchError::ReadError(e)),
                None => match r {
                    Ok(found) => lines_of(found@) == self.matches_of(lines_of(lines@)),
                    Err(_) => false,
                },
            },
    {
        match failure {
            Some(e) => Err(SearchError::ReadError(e)),
            None => Ok(self.filter_lines(lines)),
        }
    }

    /// Aggregates the entries of one directory: the matches of the files and
    /// subdirectories in entry order, and every entry's failure recorded
    /// without stopping the traversal.
    pub fn search_in_dir(&self, entries: &Vec<Entry>) -> (r: Report)
        ensures
            lines_of(r.matches@) == dir_matches(entries@),
            r.errors@ == dir_errors(entries@),
    {
        let mut matches: Vec<String> = Vec::new();
        let mut errors: Vec<SearchError> = Vec::new();
        let mut i: usize = 0;
        while i < entries.len()
            invariant
                i <= entries@.len(),
                lines_of(matches@) == dir_matches(entries@.subrange(0, i as int)),
                errors@ == dir_errors(entries@.subrange(0, i as int)),
            decreases entries@.len() - i,
        {
            let ghost before_matches = lines_of(matches@);
            let ghost before_errors = errors@;
            match &entries[i] {
                Entry::File(Ok(found)) => append_lines(&mut matches, found),
                Entry::File(Err(x)) => errors.push(x.duplicate()),
                Entry::Dir(Ok(report)) => {
                    append_lines(&mut matches, &report.matches);
                    append_errors(&mut errors, &report.errors);
                },
                Entry::Dir(Err(x)) => errors.push(x.duplicate()),
                Entry::Other => {},
                Entry::Unreadable(x) => errors.push(x.duplicate()),
            }
            proof {
                let done = entries@.subrange(0, i + 1);
                assert(done.drop_last() =~= entries@.subrange(0, i as int));
                assert(done.last() == entries@[i as int]);
                assert(lines_of(matches@) =~= before_matches + entry_matches(entries@[i as int]));
                assert(errors@ =~= before_errors + entry_errors(entries@[i as int]));
            }
            i = i + 1;
        }
        proof {
            assert(entries@.subrange(0, i as int) =~= entries@);
        }
        Report { matches, errors }
    }

    /// Dispatches on the target: a missing path fails with `PathNotFound`; a
    /// file's or a directory's result is handed on, a file's matches as a
    /// report without failures.
    pub fn search(&self, target: Target) -> (r: Result<Report, SearchError>)
        ensures
            match target {
                Target::Missing => r == Err::<Report, SearchError>(
                    SearchError::PathNotFound(self.config.path),
                ),
                Target::File(Ok(found)) => match r {
                    Ok(report) => report.matches == found && report.errors@.len() == 0,
                    Err(_) => false,
                },
                Target::File(Err(e)) => r == Err::<Report, SearchError>(e),
                Target::Dir(result) => r == result,
            },
    {
        match target {
            Target::Missing => Err(SearchError::PathNotFound(self.config.path.clone())),
            Target::File(Ok(found)) => Ok(Report { matches: found, errors: Vec::new() }),
            Target::File(Err(e)) => Err(e),
            Target::Dir(result) => result,
        }
    }

    /// The lines to print for a report under this search's action: the
    /// matches, the searched path, or nothing.
    pub fn output_lines(&self, report: &Report) -> (r: Vec<String>)
        ensures
            match self.config.action {
                FindAction::PrintLine => lines_of(r@) == lines_of(report.matches@),
                FindAction::PrintFileName => lines_of(r@) == seq![self.config.path@],
                FindAction::Boolean => r@.len() == 0,
            },
    {
        let mut out: Vec<String> = Vec::new();
        match self.config.action {
            FindAction::PrintLine => {
                append_lines(&mut out, &report.matches);
            },
            FindAction::PrintFileName => {
                out.push(self.config.path.clone());
                proof {
                    assert(lines_of(out@) =~= seq![self.config.path@]);
                }
            },
            FindAction::Boolean => {},
        }
        out
    }
}

} // verus!
