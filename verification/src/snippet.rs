use vstd::prelude::*;
use vstd::string::*;

verus! {

/// Characters of context shown before a match.
pub const CONTEXT_BEFORE: usize = 20;

/// Characters shown from the end of the query's length on.
pub const CONTEXT_AFTER: usize = 40;

/// The marker that stands where a snippet leaves content out.
pub open spec fn ellipsis() -> Seq<char> {
    seq!['.', '.', '.']
}

/// Where the window round a match at offset `idx` begins.
pub open spec fn window_start(idx: int) -> int {
    if idx > CONTEXT_BEFORE {
        idx - CONTEXT_BEFORE
    } else {
        0
    }
}

/// Where the window round a match at offset `idx` ends, in a content of
/// `len` characters searched for a query of `query_len` characters.
pub open spec fn window_end(len: int, idx: int, query_len: int) -> int {
    if idx + query_len + CONTEXT_AFTER < len {
        idx + query_len + CONTEXT_AFTER
    } else {
        len
    }
}

/// A text with each line break replaced by a space.
pub open spec fn on_one_line(text: Seq<char>) -> Seq<char> {
    text.map_values(
        |ch: char|
            if ch == '\n' {
                ' '
            } else {
                ch
            },
    )
}

/// The content inside the window, on one line. All offsets count
/// characters. A window that begins beyond its end holds nothing.
pub open spec fn excerpt(content: Seq<char>, idx: int, query_len: int) -> Seq<char> {
    let start = window_start(idx);
    let end = window_end(content.len() as int, idx, query_len);
    if start <= end {
        on_one_line(content.subrange(start, end))
    } else {
        Seq::empty()
    }
}

/// The snippet shown for a match at character offset `idx`: the excerpt,
/// after an ellipsis where the window does not begin with the content, and
/// before one where it does not end with it.
pub open spec fn snippet(content: Seq<char>, idx: int, query_len: int) -> Seq<char> {
    let start = window_start(idx);
    let end = window_end(content.len() as int, idx, query_len);
    let lead = if start > 0 {
        ellipsis()
    } else {
        Seq::empty()
    };
    let trail = if end < content.len() {
        ellipsis()
    } else {
        Seq::empty()
    };
    lead + excerpt(content, idx, query_len) + trail
}

/// Builds the snippet for a match at character offset `idx` of `content`,
/// found for a query of `query_len` characters.
pub fn extract_snippet(content: &str, idx: usize, query_len: usize) -> (text: String)
    ensures
        text@ == snippet(content@, idx as int, query_len as int),
{
    let len: usize = content.unicode_len();
    let start: usize = if idx > CONTEXT_BEFORE {
        idx - CONTEXT_BEFORE
    } else {
        0
    };
    let reach: usize = idx.saturating_add(query_len).saturating_add(CONTEXT_AFTER);
    let end: usize = if reach < len {
        reach
    } else {
        len
    };
    assert(start == window_start(idx as int));
    assert(end == window_end(len as int, idx as int, query_len as int));
    proof {
        reveal_strlit("...");
    }
    let mut text = String::new();
    if start > 0 {
        text.append("...");
        assert(text@ =~= ellipsis());
    }
    let ghost lead = text@;
    if start <= end {
        let window = content.substring_char(start, end);
        for ch in it: window.chars()
            invariant
                it.seq() == window@,
                text@ == lead + on_one_line(window@.take(it.index())),
        {
            let shown = if ch == '\n' {
                ' '
            } else {
                ch
            };
            text.push(shown);
            assert(text@ =~= lead + on_one_line(window@.take(it.index() + 1)));
        }
        assert(window@.take(window@.len() as int) =~= window@);
    }
    assert(text@ =~= lead + excerpt(content@, idx as int, query_len as int));
    if end < len {
        text.append("...");
    }
    assert(text@ =~= snippet(content@, idx as int, query_len as int));
    text
}

/// The excerpt of a snippet spans `min(len, idx + q + 40) - max(0, idx - 20)`
/// characters of a content of `len` characters; an ellipsis precedes it
/// exactly when `idx > 20` and follows it exactly when `idx + q + 40 < len`.
/// This holds of every match offset that lies at most 20 characters beyond
/// the end of the content.
pub proof fn law_snippet_shape(content: Seq<char>, idx: int, query_len: int)
    requires
        0 <= idx,
        0 <= query_len,
        idx - 20 <= content.len(),
    ensures
        excerpt(content, idx, query_len).len() == vstd::math::min(
            content.len() as int,
            idx + query_len + 40,
        ) - vstd::math::max(0, idx - 20),
        snippet(content, idx, query_len) == (if idx > 20 {
            ellipsis()
        } else {
            Seq::empty()
        }) + excerpt(content, idx, query_len) + (if idx + query_len + 40 < content.len() {
            ellipsis()
        } else {
            Seq::empty()
        }),
        snippet(content, idx, query_len).len() == excerpt(content, idx, query_len).len() + (if idx
            > 20 {
            3int
        } else {
            0int
        }) + (if idx + query_len + 40 < content.len() {
            3int
        } else {
            0int
        }),
{
}

} // verus!
