use crate::search::{by_score, result_views, SearchResult};
use vstd::prelude::*;

verus! {

/// The items of `items` whose score is `wanted`, in their order.
pub open spec fn with_score<T>(items: Seq<T>, score: spec_fn(T) -> u32, wanted: u32) -> Seq<T> {
    items.filter(|item: T| score(item) == wanted)
}

/// No item is followed by one of a higher score.
pub open spec fn is_descending<T>(items: Seq<T>, score: spec_fn(T) -> u32) -> bool {
    forall|i: int, j: int| 0 <= i < j < items.len() ==> score(items[i]) >= score(items[j])
}

/// `ranked` is `listed` sorted by descending score, stably: it holds as many
/// items, no item is followed by one of a higher score, and the items of
/// each score are those of `listed` with that score, in the order of
/// `listed`.
pub open spec fn is_ranking<T>(listed: Seq<T>, ranked: Seq<T>, score: spec_fn(T) -> u32) -> bool {
    &&& ranked.len() == listed.len()
    &&& is_descending(ranked, score)
    &&& forall|wanted: u32| #[trigger]
        with_score(ranked, score, wanted) == with_score(listed, score, wanted)
}

/// A sequence none of whose items meets `pred` has an empty filter.
pub proof fn lemma_filter_none<T>(items: Seq<T>, pred: spec_fn(T) -> bool)
    requires
        forall|i: int| 0 <= i < items.len() ==> !pred(#[trigger] items[i]),
    ensures
        items.filter(pred) == Seq::<T>::empty(),
    decreases items.len(),
{
    if items.len() == 0 {
        reveal(Seq::filter);
    } else {
        let front = items.drop_last();
        lemma_filter_none(front, pred);
        front.lemma_filter_push(items.last(), pred);
        assert(front.push(items.last()) =~= items);
    }
}

/// Putting `item` into a ranking, behind every item of a higher score and
/// before every other, gives the ranking of the list with `item` in front.
pub proof fn lemma_rank_insert<T>(
    listed: Seq<T>,
    ranked: Seq<T>,
    score: spec_fn(T) -> u32,
    item: T,
    at: int,
)
    requires
        is_ranking(listed, ranked, score),
        0 <= at <= ranked.len(),
        forall|i: int| 0 <= i < at ==> score(#[trigger] ranked[i]) > score(item),
        at < ranked.len() ==> score(ranked[at]) <= score(item),
    ensures
        is_ranking(seq![item] + listed, ranked.insert(at, item), score),
{
    let grown = ranked.insert(at, item);
    let head = ranked.take(at);
    let tail = ranked.skip(at);
    assert(grown =~= head + seq![item] + tail);
    assert(ranked =~= head + tail);
    assert forall|i: int, j: int| 0 <= i < j < grown.len() implies score(grown[i]) >= score(
        grown[j],
    ) by {
        if j > at {
            assert(grown[j] == ranked[j - 1]);
            assert(score(ranked[at]) >= score(ranked[j - 1]) || at == j - 1);
        }
        if i < at {
            assert(grown[i] == ranked[i]);
        }
    }
    assert forall|wanted: u32| #[trigger]
        with_score(grown, score, wanted) == with_score(seq![item] + listed, score, wanted) by {
        let pred = |x: T| score(x) == wanted;
        Seq::filter_distributes_over_add(head + seq![item], tail, pred);
        Seq::filter_distributes_over_add(head, seq![item], pred);
        Seq::filter_distributes_over_add(head, tail, pred);
        listed.lemma_filter_prepend(item, pred);
        Seq::<T>::empty().lemma_filter_prepend(item, pred);
        assert(seq![item] + Seq::<T>::empty() =~= seq![item]);
        lemma_filter_none(Seq::<T>::empty(), pred);
        assert(with_score(ranked, score, wanted) == with_score(listed, score, wanted));
        if score(item) == wanted {
            lemma_filter_none(head, pred);
            assert(seq![item].filter(pred) =~= seq![item]);
            assert(grown.filter(pred) =~= seq![item] + ranked.filter(pred));
        } else {
            assert(seq![item].filter(pred) =~= Seq::<T>::empty());
            assert(grown.filter(pred) =~= ranked.filter(pred));
        }
    }
}

/// Two descending lists of one length that hold, for each score, the same
/// items in the same order are one list.
proof fn lemma_descending_agree<T>(first: Seq<T>, second: Seq<T>, score: spec_fn(T) -> u32)
    requires
        first.len() == second.len(),
        is_descending(first, score),
        is_descending(second, score),
        forall|wanted: u32| #[trigger]
            with_score(first, score, wanted) == with_score(second, score, wanted),
    ensures
        first == second,
    decreases first.len(),
{
    if first.len() == 0 {
        assert(first =~= second);
    } else {
        let x = first.last();
        let y = second.last();
        let front = first.drop_last();
        let other = second.drop_last();
        assert(front.push(x) =~= first);
        assert(other.push(y) =~= second);
        let at_x = |item: T| score(item) == score(x);
        let at_y = |item: T| score(item) == score(y);
        front.lemma_filter_push(x, at_x);
        other.lemma_filter_push(y, at_y);
        assert(with_score(first, score, score(x)) == with_score(second, score, score(x)));
        assert(with_score(first, score, score(y)) == with_score(second, score, score(y)));
        assert(score(x) >= score(y)) by {
            let group = first.filter(at_x);
            assert(group[group.len() - 1] == x);
            assert(second.filter(at_x).contains(x));
            second.lemma_filter_contains_rev(at_x, x);
            let k = choose|k: int| 0 <= k < second.len() && second[k] == x;
            assert(k < second.len() - 1 ==> score(second[k]) >= score(second[second.len() - 1]));
        }
        assert(score(y) >= score(x)) by {
            let group = second.filter(at_y);
            assert(group[group.len() - 1] == y);
            assert(first.filter(at_y).contains(y));
            first.lemma_filter_contains_rev(at_y, y);
            let k = choose|k: int| 0 <= k < first.len() && first[k] == y;
            assert(k < first.len() - 1 ==> score(first[k]) >= score(first[first.len() - 1]));
        }
        other.lemma_filter_push(y, at_x);
        let group = first.filter(at_x);
        assert(group == front.filter(at_x).push(x));
        assert(group == other.filter(at_x).push(y));
        assert(group[group.len() - 1] == x);
        assert(group[group.len() - 1] == y);
        assert(front.filter(at_x) =~= group.drop_last());
        assert(other.filter(at_x) =~= group.drop_last());
        assert forall|wanted: u32| #[trigger]
            with_score(front, score, wanted) == with_score(other, score, wanted) by {
            let pred = |item: T| score(item) == wanted;
            front.lemma_filter_push(x, pred);
            other.lemma_filter_push(y, pred);
            assert(with_score(first, score, wanted) == with_score(second, score, wanted));
        }
        assert(is_descending(front, score)) by {
            assert forall|i: int, j: int| 0 <= i < j < front.len() implies score(front[i])
                >= score(front[j]) by {
                assert(front[i] == first[i] && front[j] == first[j]);
            }
        }
        assert(is_descending(other, score)) by {
            assert forall|i: int, j: int| 0 <= i < j < other.len() implies score(other[i])
                >= score(other[j]) by {
                assert(other[i] == second[i] && other[j] == second[j]);
            }
        }
        lemma_descending_agree(front, other, score);
        assert(first =~= second);
    }
}

/// A list has one ranking and no other.
pub proof fn law_ranking_unique<T>(
    listed: Seq<T>,
    first: Seq<T>,
    second: Seq<T>,
    score: spec_fn(T) -> u32,
)
    requires
        is_ranking(listed, first, score),
        is_ranking(listed, second, score),
    ensures
        first == second,
{
    assert forall|wanted: u32| #[trigger]
        with_score(first, score, wanted) == with_score(second, score, wanted) by {
        assert(with_score(first, score, wanted) == with_score(listed, score, wanted));
        assert(with_score(second, score, wanted) == with_score(listed, score, wanted));
    }
    lemma_descending_agree(first, second, score);
}

/// Sorts results by descending score; results of equal score keep their
/// order.
pub fn rank(results: Vec<SearchResult>) -> (ranked: Vec<SearchResult>)
    ensures
        is_ranking(result_views(results@), result_views(ranked@), by_score()),
{
    let ghost listed = result_views(results@);
    let mut rest = results;
    let mut ranked: Vec<SearchResult> = Vec::new();
    assert(listed.skip(listed.len() as int) =~= Seq::empty());
    assert(result_views(ranked@) =~= Seq::empty());
    while rest.len() > 0
        invariant
            rest@.len() <= listed.len(),
            result_views(rest@) == listed.take(rest@.len() as int),
            is_ranking(listed.skip(rest@.len() as int), result_views(ranked@), by_score()),
        decreases rest.len(),
    {
        let ghost before = rest@;
        let item = rest.pop().unwrap();
        let mut at: usize = 0;
        while at < ranked.len() && ranked[at].score > item.score
            invariant
                at <= ranked.len(),
                forall|i: int| 0 <= i < at ==> ranked@[i].score > item.score,
            decreases ranked.len() - at,
        {
            at += 1;
        }
        proof {
            let tail = listed.skip(before.len() as int);
            assert(result_views(before)[before.len() - 1] == item@);
            assert(listed[before.len() - 1] == item@);
            lemma_rank_insert(tail, result_views(ranked@), by_score(), item@, at as int);
            assert(seq![item@] + tail =~= listed.skip(rest@.len() as int));
            assert(result_views(ranked@.insert(at as int, item)) =~= result_views(ranked@).insert(
                at as int,
                item@,
            ));
            assert(result_views(rest@) =~= listed.take(rest@.len() as int));
        }
        ranked.insert(at, item);
    }
    assert(listed.skip(0) =~= listed);
    ranked
}

} // verus!
