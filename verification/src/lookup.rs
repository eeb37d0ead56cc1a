//! Longest-match lookup in the pattern table.
//!
//! At a cursor the scanner takes the longest chunk that is the spelling of a
//! pattern. The table is in order (see [`crate::grammar::sorted`]), so one
//! binary search per chunk length finds the pattern or shows that there is
//! none.
use crate::chars::{compare_window, spelling_before, Relation};
use crate::chars::{lemma_spelling_before_irreflexive, lemma_spelling_before_transitive};
use crate::grammar::{lemma_first_is_longest, lemma_spelling_unique, longest_spelling};
use crate::grammar::{pattern_views, sorted, valid, Grammar, GrammarView, Pattern, PatternView};
use vstd::prelude::*;

verus! {

/// The run of `len` characters of `text` that starts at `start`.
pub open spec fn chunk(text: Seq<char>, start: int, len: int) -> Seq<char> {
    text.subrange(start, start + len)
}

/// The pattern at index `i` of the table has the spelling `s`.
pub open spec fn spelled_at(patterns: Seq<PatternView>, s: Seq<char>, i: int) -> bool {
    0 <= i < patterns.len() && patterns[i].find == s
}

/// Some pattern of the table has the spelling `s`.
pub open spec fn has_spelling(patterns: Seq<PatternView>, s: Seq<char>) -> bool {
    exists|i: int| #[trigger] spelled_at(patterns, s, i)
}

/// The index of a pattern with the spelling `s`. In a table in order there is
/// at most one.
pub open spec fn index_of_spelling(patterns: Seq<PatternView>, s: Seq<char>) -> int {
    choose|i: int| #[trigger] spelled_at(patterns, s, i)
}

/// A chunk of `len` characters, at least one, lies in `text` from `start` on
/// and is the spelling of a pattern of `g`.
pub open spec fn matches_at(g: GrammarView, text: Seq<char>, start: int, len: int) -> bool {
    &&& 0 <= start
    &&& 1 <= len
    &&& start + len <= text.len()
    &&& has_spelling(g.patterns, chunk(text, start, len))
}

/// The greatest length up to `limit` that matches at `start`.
pub open spec fn longest_match_within(
    g: GrammarView,
    text: Seq<char>,
    start: int,
    limit: int,
) -> Option<int>
    decreases limit,
{
    if limit <= 0 {
        None
    } else if matches_at(g, text, start, limit) {
        Some(limit)
    } else {
        longest_match_within(g, text, start, limit - 1)
    }
}

/// The length of the longest chunk at `start` that is the spelling of a
/// pattern. No chunk longer than the first spelling of the table is tried.
pub open spec fn longest_match(g: GrammarView, text: Seq<char>, start: int) -> Option<int> {
    longest_match_within(g, text, start, longest_spelling(g))
}

/// What `longest_match_within` finds matches and lies in `1..=limit`, and no
/// greater length up to `limit` matches.
pub proof fn lemma_longest_match_within(g: GrammarView, text: Seq<char>, start: int, limit: int)
    ensures
        match longest_match_within(g, text, start, limit) {
            Some(len) => {
                &&& 1 <= len <= limit
                &&& matches_at(g, text, start, len)
                &&& forall|m: int| len < m <= limit ==> !matches_at(g, text, start, m)
            },
            None => forall|m: int| m <= limit ==> !matches_at(g, text, start, m),
        },
    decreases limit,
{
    if limit > 0 && !matches_at(g, text, start, limit) {
        lemma_longest_match_within(g, text, start, limit - 1);
    }
}

/// Longest-match precedence: in a usable grammar the length that
/// `longest_match` gives matches and no greater length does, whatever its
/// size; it gives none only where no length matches.
pub proof fn lemma_longest_match(g: GrammarView, text: Seq<char>, start: int)
    requires
        valid(g),
    ensures
        match longest_match(g, text, start) {
            Some(len) => {
                &&& matches_at(g, text, start, len)
                &&& forall|m: int| m > len ==> !matches_at(g, text, start, m)
            },
            None => forall|m: int| !matches_at(g, text, start, m),
        },
{
    lemma_longest_match_within(g, text, start, longest_spelling(g));
    assert forall|m: int| m > longest_spelling(g) implies !matches_at(g, text, start, m) by {
        if matches_at(g, text, start, m) {
            let i = choose|i: int| #[trigger] spelled_at(g.patterns, chunk(text, start, m), i);
            lemma_first_is_longest(g, i);
        }
    }
}

/// Where a shorter and a longer chunk at `start` both are spellings, the
/// longer one is taken: the length found is at least that of every chunk that
/// matches.
pub proof fn lemma_longer_match_wins(g: GrammarView, text: Seq<char>, start: int, len: int)
    requires
        valid(g),
        matches_at(g, text, start, len),
    ensures
        longest_match(g, text, start) matches Some(found) && found >= len,
{
    lemma_longest_match(g, text, start);
}

/// Finds the pattern whose spelling is the chunk of `len` characters of
/// `text` at `start`, by binary search. A chunk that does not lie in the text
/// is no spelling.
pub fn find_spelling(patterns: &Vec<Pattern>, text: &Vec<char>, start: usize, len: usize) -> (r:
    Option<usize>)
    requires
        sorted(pattern_views(patterns@)),
    ensures
        match r {
            Some(i) => {
                &&& start + len <= text.len()
                &&& spelled_at(
                    pattern_views(patterns@),
                    chunk(text@, start as int, len as int),
                    i as int,
                )
            },
            None => start + len > text.len() || !has_spelling(
                pattern_views(patterns@),
                chunk(text@, start as int, len as int),
            ),
        },
{
    if start > text.len() || len > text.len() - start {
        return None;
    }
    let ghost views = pattern_views(patterns@);
    let ghost key = chunk(text@, start as int, len as int);
    let mut left: usize = 0;
    let mut right: usize = patterns.len();
    while left < right
        invariant
            left <= right <= patterns.len(),
            start + len <= text.len(),
            views == pattern_views(patterns@),
            key == chunk(text@, start as int, len as int),
            sorted(views),
            forall|i: int| 0 <= i < left ==> spelling_before(#[trigger] views[i].find, key),
            forall|i: int|
                right <= i < patterns.len() ==> spelling_before(key, #[trigger] views[i].find),
        decreases right - left,
    {
        let mid = left + (right - left) / 2;
        let find = &patterns[mid].find;
        let ghost at_mid = views[mid as int].find;
        assert(at_mid == find@);
        let relation = if find.len() > len {
            Relation::Before
        } else if find.len() < len {
            Relation::After
        } else {
            compare_window(find, text, start)
        };
        match relation {
            Relation::Same => {
                return Some(mid);
            },
            Relation::Before => {
                assert forall|i: int| 0 <= i < mid + 1 implies spelling_before(
                    #[trigger] views[i].find,
                    key,
                ) by {
                    if i < mid {
                        lemma_spelling_before_transitive(views[i].find, at_mid, key);
                    }
                }
                left = mid + 1;
            },
            Relation::After => {
                assert forall|i: int| mid <= i < patterns.len() implies spelling_before(
                    key,
                    #[trigger] views[i].find,
                ) by {
                    if mid < i {
                        lemma_spelling_before_transitive(key, at_mid, views[i].find);
                    }
                }
                right = mid;
            },
        }
    }
    assert forall|i: int| !#[trigger] spelled_at(views, key, i) by {
        lemma_spelling_before_irreflexive(key);
    }
    None
}

/// Lengths that cannot match do not count: where no length in
/// `lo + 1..=hi` matches, the search within `hi` finds what the search within
/// `lo` finds.
pub proof fn lemma_skip_lengths(g: GrammarView, text: Seq<char>, start: int, lo: int, hi: int)
    requires
        lo <= hi,
        forall|m: int| lo < m <= hi ==> !matches_at(g, text, start, m),
    ensures
        longest_match_within(g, text, start, hi) == longest_match_within(g, text, start, lo),
    decreases hi - lo,
{
    if lo < hi {
        lemma_skip_lengths(g, text, start, lo, hi - 1);
    }
}

/// Finds the longest chunk of `text` at `start`, of at most `limit`
/// characters, that is the spelling of a pattern: its length and the
/// pattern's index.
pub fn find_longest(grammar: &Grammar, text: &Vec<char>, start: usize, limit: usize) -> (r: Option<
    (usize, usize),
>)
    requires
        sorted(grammar@.patterns),
    ensures
        match r {
            Some((len, i)) => {
                let key = chunk(text@, start as int, len as int);
                &&& 1 <= len <= limit
                &&& start + len <= text.len()
                &&& i < grammar.patterns.len()
                &&& longest_match_within(grammar@, text@, start as int, limit as int) == Some(
                    len as int,
                )
                &&& spelled_at(grammar@.patterns, key, i as int)
                &&& i == index_of_spelling(grammar@.patterns, key)
            },
            None => longest_match_within(grammar@, text@, start as int, limit as int) is None,
        },
{
    let room = if start < text.len() {
        text.len() - start
    } else {
        0
    };
    let mut len: usize = if limit < room {
        limit
    } else {
        room
    };
    proof {
        lemma_skip_lengths(grammar@, text@, start as int, len as int, limit as int);
    }
    while len > 0
        invariant
            len <= limit,
            len == 0 || start + len <= text.len(),
            sorted(grammar@.patterns),
            longest_match_within(grammar@, text@, start as int, limit as int)
                == longest_match_within(grammar@, text@, start as int, len as int),
        decreases len,
    {
        match find_spelling(&grammar.patterns, text, start, len) {
            Some(i) => {
                proof {
                    let key = chunk(text@, start as int, len as int);
                    lemma_spelling_unique(
                        grammar@.patterns,
                        i as int,
                        index_of_spelling(grammar@.patterns, key),
                    );
                }
                return Some((len, i));
            },
            None => {},
        }
        len -= 1;
    }
    None
}

} // verus!
