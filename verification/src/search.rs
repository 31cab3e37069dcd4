use crate::entry::{is_hidden, FileEntry, FileEntryView};
use crate::error::{CoreError, CoreErrorView};
use crate::rank::{is_ranking, rank};
use crate::snippet::{extract_snippet, snippet};
use crate::text::{chars_of, contains, find, first_occurrence, lowercase};
use vstd::prelude::*;
use vstd::string::*;

verus! {

/// The score of an entry whose name holds the query.
pub const NAME_SCORE: u32 = 10;

/// The score of a content match, alone or on top of a name match.
pub const CONTENT_SCORE: u32 = 5;

/// How a result matched. A match by name takes precedence for display.
#[derive(Clone, Copy, Debug, PartialEq, Eq, Structural)]
pub enum MatchType {
    Name,
    Content,
}

impl MatchType {
    /// The tag under which the presentation layer knows the match type.
    pub fn as_str(&self) -> (tag: &'static str)
        ensures
            tag@ == match *self {
                MatchType::Name => "name"@,
                MatchType::Content => "content"@,
            },
    {
        match self {
            MatchType::Name => "name",
            MatchType::Content => "content",
        }
    }
}

/// An entry of the listing together with its content, where the entry is a
/// file that could be read as UTF-8 text.
#[derive(Debug)]
pub struct Candidate {
    pub entry: FileEntry,
    pub content: Option<String>,
}

/// The mathematical value of a [`Candidate`].
pub struct CandidateView {
    pub entry: FileEntryView,
    pub content: Option<Seq<char>>,
}

impl View for Candidate {
    type V = CandidateView;

    open spec fn view(&self) -> CandidateView {
        CandidateView {
            entry: self.entry@,
            content: match self.content {
                Some(text) => Some(text@),
                None => None,
            },
        }
    }
}

/// One ranked match of a search.
#[derive(Debug)]
pub struct SearchResult {
    pub file: FileEntry,
    /// Empty unless the content matched.
    pub snippet: String,
    pub match_type: MatchType,
    /// An ordering key, not a probability.
    pub score: u32,
}

/// The mathematical value of a [`SearchResult`].
pub struct SearchResultView {
    pub file: FileEntryView,
    pub snippet: Seq<char>,
    pub match_type: MatchType,
    pub score: u32,
}

impl View for SearchResult {
    type V = SearchResultView;

    open spec fn view(&self) -> SearchResultView {
        SearchResultView {
            file: self.file@,
            snippet: self.snippet@,
            match_type: self.match_type,
            score: self.score,
        }
    }
}

/// The values of a list of candidates.
pub open spec fn candidate_views(entries: Seq<Candidate>) -> Seq<CandidateView> {
    entries.map_values(|candidate: Candidate| candidate@)
}

/// The values of a list of results.
pub open spec fn result_views(results: Seq<SearchResult>) -> Seq<SearchResultView> {
    results.map_values(|result: SearchResult| result@)
}

/// The key by which results are ranked.
pub open spec fn by_score() -> spec_fn(SearchResultView) -> u32 {
    |result: SearchResultView| result.score
}

/// A content and its lower-case form, as sequences of characters.
pub open spec fn text_pair(content: Option<(&str, &str)>) -> Option<(Seq<char>, Seq<char>)> {
    match content {
        Some((text, lowered)) => Some((text@, lowered@)),
        None => None,
    }
}

/// The character offset at which the content of an entry first holds
/// `needle`. Only the content of a file is searched, never a directory.
pub open spec fn content_offset(
    is_dir: bool,
    content: Option<(Seq<char>, Seq<char>)>,
    needle: Seq<char>,
) -> Option<int> {
    match content {
        Some((_, lowered)) => if is_dir {
            None
        } else {
            first_occurrence(lowered, needle)
        },
        None => None,
    }
}

/// The result for one entry, given the lower-case forms of its name, of its
/// content and of the query (`needle`), and the length of the query.
///
/// A hidden entry gives none. An entry whose lower-case name holds the
/// needle matches by name, with `NAME_SCORE`; a content match adds
/// `CONTENT_SCORE` and the snippet. An entry that matches by content alone
/// has `CONTENT_SCORE`. The snippet is cut from the content as read, at the
/// offset found in its lower-case form, for the query's own length.
pub open spec fn assess(
    entry: FileEntryView,
    name_lower: Seq<char>,
    content: Option<(Seq<char>, Seq<char>)>,
    needle: Seq<char>,
    query_len: int,
) -> Option<SearchResultView> {
    let by_name = contains(name_lower, needle);
    let shown = match (content, content_offset(entry.is_dir, content, needle)) {
        (Some((text, _)), Some(idx)) => Some(snippet(text, idx, query_len)),
        _ => None,
    };
    if is_hidden(entry.name) {
        None
    } else if by_name {
        Some(
            SearchResultView {
                file: entry,
                snippet: match shown {
                    Some(text) => text,
                    None => Seq::empty(),
                },
                match_type: MatchType::Name,
                score: if shown is Some {
                    (NAME_SCORE + CONTENT_SCORE) as u32
                } else {
                    NAME_SCORE
                },
            },
        )
    } else {
        match shown {
            Some(text) => Some(
                SearchResultView {
                    file: entry,
                    snippet: text,
                    match_type: MatchType::Content,
                    score: CONTENT_SCORE,
                },
            ),
            None => None,
        }
    }
}

/// The result for one candidate and a query: `assess` on the lower-case
/// forms of the name, the content and the query.
pub open spec fn evaluate(candidate: CandidateView, query: Seq<char>) -> Option<SearchResultView> {
    assess(
        candidate.entry,
        lowercase(candidate.entry.name),
        match candidate.content {
            Some(text) => Some((text, lowercase(text))),
            None => None,
        },
        lowercase(query),
        query.len() as int,
    )
}

/// `evaluate` for a fixed query.
pub open spec fn evaluator(query: Seq<char>) -> spec_fn(CandidateView) -> Option<
    SearchResultView,
> {
    |candidate: CandidateView| evaluate(candidate, query)
}

/// The results of the entries that match, in listing order. The empty
/// query matches nothing.
pub open spec fn matches_of(entries: Seq<CandidateView>, query: Seq<char>) -> Seq<
    SearchResultView,
> {
    if query.len() == 0 {
        Seq::empty()
    } else {
        entries.filter_map(evaluator(query))
    }
}

/// `found` is what a search of `entries` for `query` returns: the matches,
/// by descending score, those of equal score in listing order.
pub open spec fn is_search_result(
    entries: Seq<CandidateView>,
    query: Seq<char>,
    found: Seq<SearchResultView>,
) -> bool {
    is_ranking(matches_of(entries, query), found, by_score())
}

fn assess_with(
    entry: &FileEntry,
    name_lower: &str,
    content: Option<(&str, &str)>,
    needle: &Vec<char>,
    query_len: usize,
) -> (result: Option<SearchResult>)
    ensures
        match result {
            Some(r) => Some(r@),
            None => None,
        } == assess(entry@, name_lower@, text_pair(content), needle@, query_len as int),
{
    if entry.is_hidden() {
        return None;
    }
    let name = chars_of(name_lower);
    let by_name = find(&name, needle).is_some();
    let mut shown: Option<String> = None;
    if !entry.is_dir {
        if let Some((text, lowered)) = content {
            let hay = chars_of(lowered);
            if let Some(idx) = find(&hay, needle) {
                shown = Some(extract_snippet(text, idx, query_len));
            }
        }
    }
    if by_name {
        let score: u32 = if shown.is_some() {
            NAME_SCORE + CONTENT_SCORE
        } else {
            NAME_SCORE
        };
        let snippet = match shown {
            Some(text) => text,
            None => String::new(),
        };
        Some(SearchResult { file: entry.duplicate(), snippet, match_type: MatchType::Name, score })
    } else {
        match shown {
            Some(snippet) => Some(
                SearchResult {
                    file: entry.duplicate(),
                    snippet,
                    match_type: MatchType::Content,
                    score: CONTENT_SCORE,
                },
            ),
            None => None,
        }
    }
}

/// Scores one entry against a query whose lower-case form is `needle` and
/// whose own length is `query_len` characters. `name_lower` is the
/// lower-case form of the entry's name; `content` holds the text of the
/// entry and its lower-case form where the entry could be read as text.
pub fn assess_entry(
    entry: &FileEntry,
    name_lower: &str,
    content: Option<(&str, &str)>,
    needle: &str,
    query_len: usize,
) -> (result: Option<SearchResult>)
    ensures
        match result {
            Some(r) => Some(r@),
            None => None,
        } == assess(entry@, name_lower@, text_pair(content), needle@, query_len as int),
{
    let needle_chars = chars_of(needle);
    assess_with(entry, name_lower, content, &needle_chars, query_len)
}

/// Searches the entries of one directory listing for `query`, without
/// regard to case: one pass over the entries, then the ranking.
pub fn search_entries(entries: &Vec<Candidate>, query: &str) -> (found: Vec<SearchResult>)
    ensures
        is_search_result(candidate_views(entries@), query@, result_views(found@)),
        query@.len() == 0 ==> found@.len() == 0,
{
    let mut matches: Vec<SearchResult> = Vec::new();
    if query.is_empty() {
        assert(result_views(matches@) =~= Seq::empty());
        return matches;
    }
    let lowered_query = query.to_lowercase();
    let needle = chars_of(lowered_query.as_str());
    let query_len: usize = query.unicode_len();
    let ghost listed = candidate_views(entries@);
    let mut at: usize = 0;
    while at < entries.len()
        invariant
            at <= entries.len(),
            listed == candidate_views(entries@),
            needle@ == lowercase(query@),
            query_len == query@.len(),
            result_views(matches@) == listed.take(at as int).filter_map(evaluator(query@)),
        decreases entries.len() - at,
    {
        let candidate = &entries[at];
        let searched = !candidate.entry.is_dir && !candidate.entry.is_hidden();
        let name_lower = candidate.entry.name.as_str().to_lowercase();
        let content_lower: Option<String> = match &candidate.content {
            Some(text) => if searched {
                Some(text.as_str().to_lowercase())
            } else {
                None
            },
            None => None,
        };
        let content: Option<(&str, &str)> = match (&candidate.content, &content_lower) {
            (Some(text), Some(lowered)) => Some((text.as_str(), lowered.as_str())),
            _ => None,
        };
        let result = assess_with(&candidate.entry, name_lower.as_str(), content, &needle, query_len);
        proof {
            assert(listed[at as int] == candidate@);
            assert(match result {
                Some(r) => Some(r@),
                None => None,
            } == evaluate(candidate@, query@));
            listed.lemma_filter_map_take_succ(evaluator(query@), at as int);
        }
        let ghost before = matches@;
        match result {
            Some(r) => {
                matches.push(r);
                assert(result_views(matches@) =~= result_views(before) + seq![r@]);
            },
            None => {},
        }
        at += 1;
    }
    assert(listed.take(at as int) =~= listed);
    rank(matches)
}

/// Searches a directory for `query`, given the outcome of listing it: the
/// entries, or the text of the OS error that kept the directory or one of
/// its entries from being read.
pub fn search_notes(listing: Result<Vec<Candidate>, String>, query: &str) -> (outcome: Result<
    Vec<SearchResult>,
    CoreError,
>)
    ensures
        match listing {
            Ok(entries) => outcome is Ok && is_search_result(
                candidate_views(entries@),
                query@,
                result_views(outcome->Ok_0@),
            ) && (query@.len() == 0 ==> outcome->Ok_0@.len() == 0),
            Err(message) => outcome is Err && outcome->Err_0@ == (CoreErrorView::IOError {
                message: message@,
            }),
        },
{
    match listing {
        Ok(entries) => Ok(search_entries(&entries, query)),
        Err(message) => Err(CoreError::IOError { message }),
    }
}

} // verus!
