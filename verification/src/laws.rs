use crate::entry::{is_hidden, FileEntryView};
use crate::rank::{is_descending, is_ranking, with_score};
use crate::search::{
    assess, by_score, content_offset, evaluate, evaluator, is_search_result, matches_of,
    CandidateView, MatchType, SearchResultView,
};
use crate::text::{contains, lowercase};
use vstd::prelude::*;

verus! {

/// A ranking holds exactly the items of the list it ranks.
pub proof fn lemma_ranking_same_items<T>(
    listed: Seq<T>,
    ranked: Seq<T>,
    score: spec_fn(T) -> u32,
    item: T,
)
    requires
        is_ranking(listed, ranked, score),
    ensures
        ranked.contains(item) <==> listed.contains(item),
{
    let pred = |x: T| score(x) == score(item);
    assert(with_score(ranked, score, score(item)) == with_score(listed, score, score(item)));
    if ranked.contains(item) {
        let j = choose|j: int| 0 <= j < ranked.len() && ranked[j] == item;
        assert(pred(ranked[j]));
        ranked.lemma_filter_contains(pred, j);
        listed.lemma_filter_contains_rev(pred, item);
    }
    if listed.contains(item) {
        let i = choose|i: int| 0 <= i < listed.len() && listed[i] == item;
        assert(pred(listed[i]));
        listed.lemma_filter_contains(pred, i);
        ranked.lemma_filter_contains_rev(pred, item);
    }
}

/// What `filter_map` makes of an item of a sequence is an item of the
/// outcome.
pub proof fn lemma_filter_map_keeps<A, B>(items: Seq<A>, f: spec_fn(A) -> Option<B>, i: int)
    requires
        0 <= i < items.len(),
        f(items[i]) is Some,
    ensures
        items.filter_map(f).contains(f(items[i])->Some_0),
    decreases items.len(),
{
    let front = items.drop_last();
    let kept = f(items[i])->Some_0;
    if i == items.len() - 1 {
        let made = front.filter_map(f) + seq![kept];
        assert(items.filter_map(f) == made);
        assert(made[made.len() - 1] == kept);
    } else {
        lemma_filter_map_keeps(front, f, i);
        let j = choose|j: int|
            0 <= j < front.filter_map(f).len() && front.filter_map(f)[j] == kept;
        assert(items.filter_map(f)[j] == kept);
    }
}

/// A search for the empty query finds nothing, whatever the directory
/// holds.
pub proof fn law_empty_query_finds_nothing(
    entries: Seq<CandidateView>,
    query: Seq<char>,
    found: Seq<SearchResultView>,
)
    requires
        is_search_result(entries, query, found),
        query.len() == 0,
    ensures
        found.len() == 0,
{
}

/// An entry that is not hidden and whose lower-case name holds the
/// lower-case form of a query that is not empty is among the results, as a
/// match by name with a score of at least 10.
pub proof fn law_name_match_is_found(
    entries: Seq<CandidateView>,
    query: Seq<char>,
    found: Seq<SearchResultView>,
    i: int,
)
    requires
        is_search_result(entries, query, found),
        0 <= i < entries.len(),
        query.len() > 0,
        !is_hidden(entries[i].entry.name),
        contains(lowercase(entries[i].entry.name), lowercase(query)),
    ensures
        exists|j: int|
            0 <= j < found.len() && Some(#[trigger] found[j]) == evaluate(entries[i], query)
                && found[j].file == entries[i].entry && found[j].match_type == MatchType::Name
                && found[j].score >= 10,
{
    let made = evaluate(entries[i], query)->Some_0;
    assert(evaluator(query)(entries[i]) == evaluate(entries[i], query));
    lemma_filter_map_keeps(entries, evaluator(query), i);
    lemma_ranking_same_items(matches_of(entries, query), found, by_score(), made);
    let j = choose|j: int| 0 <= j < found.len() && found[j] == made;
    assert(Some(found[j]) == evaluate(entries[i], query));
}

/// An entry that matches by name and by content has a score of exactly 15
/// and counts as a match by name; its snippet is that of the content
/// match.
pub proof fn law_both_matches_score(
    entry: FileEntryView,
    name_lower: Seq<char>,
    content: Option<(Seq<char>, Seq<char>)>,
    needle: Seq<char>,
    query_len: int,
)
    requires
        !is_hidden(entry.name),
        contains(name_lower, needle),
        content_offset(entry.is_dir, content, needle) is Some,
    ensures
        assess(entry, name_lower, content, needle, query_len) is Some,
        assess(entry, name_lower, content, needle, query_len)->Some_0.score == 15,
        assess(entry, name_lower, content, needle, query_len)->Some_0.match_type
            == MatchType::Name,
{
}

/// The results are in the order of descending score, and results of equal
/// score stand in the order in which the listing gave their entries.
pub proof fn law_results_ranked_stably(
    entries: Seq<CandidateView>,
    query: Seq<char>,
    found: Seq<SearchResultView>,
    wanted: u32,
)
    requires
        is_search_result(entries, query, found),
    ensures
        is_descending(found, by_score()),
        with_score(found, by_score(), wanted) == with_score(
            matches_of(entries, query),
            by_score(),
            wanted,
        ),
{
}

/// Every result is what the evaluation of one entry of the listing gave.
pub proof fn law_results_stem_from_entries(
    entries: Seq<CandidateView>,
    query: Seq<char>,
    found: Seq<SearchResultView>,
    j: int,
)
    requires
        is_search_result(entries, query, found),
        0 <= j < found.len(),
    ensures
        exists|i: int|
            0 <= i < entries.len() && evaluate(#[trigger] entries[i], query) == Some(found[j]),
{
    let listed = matches_of(entries, query);
    assert(found.contains(found[j]));
    lemma_ranking_same_items(listed, found, by_score(), found[j]);
    assert(query.len() != 0) by {
        if query.len() == 0 {
            assert(listed.len() == 0);
        }
    }
    entries.lemma_filter_map_contains(evaluator(query), found[j]);
    let origin = choose|t: CandidateView| #[trigger]
        entries.contains(t) && evaluator(query)(t) == Some(found[j]);
    let i = choose|i: int| 0 <= i < entries.len() && entries[i] == origin;
    assert(evaluate(entries[i], query) == Some(found[j]));
}

/// No hidden entry is among the results, whatever its content.
pub proof fn law_hidden_never_found(
    entries: Seq<CandidateView>,
    query: Seq<char>,
    found: Seq<SearchResultView>,
    j: int,
)
    requires
        is_search_result(entries, query, found),
        0 <= j < found.len(),
    ensures
        !is_hidden(found[j].file.name),
{
    law_results_stem_from_entries(entries, query, found, j);
}

} // verus!
