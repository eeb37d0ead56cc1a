//! Context checks: what a clause asks of the text around a matched chunk,
//! and which replacement a pattern gives there.
//!
//! A chunk is the run `text[start..end]`. A `Prefix` clause looks at the
//! character at `start - 1`, a `Suffix` clause at the character at `end`. A
//! neighbour outside the text counts as punctuation and belongs to no class.
use crate::chars::{ascii_lower, class_contains, to_ascii_lower, window_equals};
use crate::grammar::{ClauseView, Direction, Grammar, GrammarView, MatchClause, Pattern};
use crate::grammar::{PatternView, Rule, RuleView, Scope};
use vstd::prelude::*;

verus! {

/// How far an `Exact` clause may reach.
///
/// The two readings differ in one place only: where the literal of a
/// `Suffix` clause ends exactly at the end of the text. Read strictly, the
/// clause does not hold there, as if the literal had to be followed by at
/// least one more character; read inclusively, it holds. A `Prefix` literal
/// ends where the chunk starts, which lies inside the text either way.
#[derive(Clone, Copy, Debug, PartialEq, Eq, Structural)]
pub enum ExactBound {
    /// The literal must end before the end of the text.
    Strict,
    /// The literal may end at the end of the text.
    Inclusive,
}

/// `c`, lower-cased, is a vowel of `g`.
pub open spec fn is_vowel(g: GrammarView, c: char) -> bool {
    g.vowel.contains(ascii_lower(c))
}

/// `c`, lower-cased, is a consonant of `g`.
pub open spec fn is_consonant(g: GrammarView, c: char) -> bool {
    g.consonant.contains(ascii_lower(c))
}

/// `c` is a digit of `g`.
pub open spec fn is_number(g: GrammarView, c: char) -> bool {
    g.number.contains(c)
}

/// `c` is neither a vowel nor a consonant of `g`.
pub open spec fn is_punctuation(g: GrammarView, c: char) -> bool {
    !(is_vowel(g, c) || is_consonant(g, c))
}

/// The index that a clause on the side `direction` of `text[start..end]`
/// looks at.
pub open spec fn neighbor(direction: Direction, start: int, end: int) -> int {
    match direction {
        Direction::Prefix => start - 1,
        Direction::Suffix => end,
    }
}

/// Where the literal `value` has to stand for an `Exact` clause on the side
/// `direction` of `text[start..end]`: right after the chunk, or right before.
pub open spec fn exact_range(value: Seq<char>, direction: Direction, start: int, end: int) -> (
    int,
    int,
) {
    match direction {
        Direction::Prefix => (start - value.len(), start),
        Direction::Suffix => (end, end + value.len()),
    }
}

/// The literal `value` stands next to `text[start..end]` on the side
/// `direction`, within the reach that `bound` allows.
pub open spec fn exact_holds(
    bound: ExactBound,
    value: Seq<char>,
    direction: Direction,
    text: Seq<char>,
    start: int,
    end: int,
) -> bool {
    let (lo, hi) = exact_range(value, direction, start, end);
    &&& 0 <= lo
    &&& match bound {
        ExactBound::Strict => hi < text.len(),
        ExactBound::Inclusive => hi <= text.len(),
    }
    &&& text.subrange(lo, hi) == value
}

/// The condition of `clause` at `text[start..end]`, before negation.
pub open spec fn clause_condition(
    g: GrammarView,
    bound: ExactBound,
    clause: ClauseView,
    text: Seq<char>,
    start: int,
    end: int,
) -> bool {
    let n = neighbor(clause.direction, start, end);
    let inside = 0 <= n < text.len();
    match clause.scope {
        Scope::Punctuation => !inside || is_punctuation(g, text[n]),
        Scope::Vowel => inside && is_vowel(g, text[n]),
        Scope::Consonant => inside && is_consonant(g, text[n]),
        Scope::Number => inside && is_number(g, text[n]),
        Scope::Exact => exact_holds(bound, clause.value, clause.direction, text, start, end),
    }
}

/// `clause` passes at `text[start..end]`: its condition holds, or it is
/// negated and its condition does not hold.
pub open spec fn clause_passes(
    g: GrammarView,
    bound: ExactBound,
    clause: ClauseView,
    text: Seq<char>,
    start: int,
    end: int,
) -> bool {
    clause_condition(g, bound, clause, text, start, end) != clause.negated
}

/// `rule` applies at `text[start..end]`: every one of its clauses passes.
pub open spec fn rule_applies(
    g: GrammarView,
    bound: ExactBound,
    rule: RuleView,
    text: Seq<char>,
    start: int,
    end: int,
) -> bool {
    forall|k: int|
        0 <= k < rule.matches.len() ==> clause_passes(
            g,
            bound,
            #[trigger] rule.matches[k],
            text,
            start,
            end,
        )
}

/// The index of the first of `rules`, from index `from` on, that applies at
/// `text[start..end]`.
pub open spec fn first_applicable(
    g: GrammarView,
    bound: ExactBound,
    rules: Seq<RuleView>,
    from: int,
    text: Seq<char>,
    start: int,
    end: int,
) -> Option<int>
    decreases rules.len() - from,
{
    if from < 0 || from >= rules.len() {
        None
    } else if rule_applies(g, bound, rules[from], text, start, end) {
        Some(from)
    } else {
        first_applicable(g, bound, rules, from + 1, text, start, end)
    }
}

/// What `pattern` puts out for the chunk `text[start..end]`: the replacement
/// of its first rule that applies there, and its default where none does.
pub open spec fn replacement(
    g: GrammarView,
    bound: ExactBound,
    pattern: PatternView,
    text: Seq<char>,
    start: int,
    end: int,
) -> Seq<char> {
    match first_applicable(g, bound, pattern.rules, 0, text, start, end) {
        Some(i) => pattern.rules[i].replace,
        None => pattern.replace,
    }
}

/// What `first_applicable` finds is the least index at or after `from` whose
/// rule applies; it finds nothing only where no rule from `from` on applies.
pub proof fn lemma_first_applicable(
    g: GrammarView,
    bound: ExactBound,
    rules: Seq<RuleView>,
    from: int,
    text: Seq<char>,
    start: int,
    end: int,
)
    requires
        0 <= from,
    ensures
        match first_applicable(g, bound, rules, from, text, start, end) {
            Some(i) => {
                &&& from <= i < rules.len()
                &&& rule_applies(g, bound, rules[i], text, start, end)
                &&& forall|j: int|
                    from <= j < i ==> !rule_applies(g, bound, #[trigger] rules[j], text, start, end)
            },
            None => forall|j: int|
                from <= j < rules.len() ==> !rule_applies(
                    g,
                    bound,
                    #[trigger] rules[j],
                    text,
                    start,
                    end,
                ),
        },
    decreases rules.len() - from,
{
    if from < rules.len() && !rule_applies(g, bound, rules[from], text, start, end) {
        lemma_first_applicable(g, bound, rules, from + 1, text, start, end);
    }
}

/// Rule precedence: where the rule at index `i` applies, the pattern puts out
/// the replacement of a rule at or before `i`, namely of the first rule that
/// applies, so of two rules that both apply the one listed first decides.
pub proof fn lemma_rule_precedence(
    g: GrammarView,
    bound: ExactBound,
    pattern: PatternView,
    i: int,
    text: Seq<char>,
    start: int,
    end: int,
)
    requires
        0 <= i < pattern.rules.len(),
        rule_applies(g, bound, pattern.rules[i], text, start, end),
    ensures
        first_applicable(g, bound, pattern.rules, 0, text, start, end) matches Some(k) && k <= i
            && rule_applies(g, bound, pattern.rules[k], text, start, end) && (forall|j: int|
            0 <= j < k ==> !rule_applies(g, bound, #[trigger] pattern.rules[j], text, start, end))
            && replacement(g, bound, pattern, text, start, end) == pattern.rules[k].replace,
        (forall|j: int|
            0 <= j < i ==> !rule_applies(g, bound, #[trigger] pattern.rules[j], text, start, end))
            ==> replacement(g, bound, pattern, text, start, end) == pattern.rules[i].replace,
{
    lemma_first_applicable(g, bound, pattern.rules, 0, text, start, end);
}

/// Where no rule of `pattern` applies, and so where it has no rule, it puts
/// out its default replacement.
pub proof fn lemma_default_replacement(
    g: GrammarView,
    bound: ExactBound,
    pattern: PatternView,
    text: Seq<char>,
    start: int,
    end: int,
)
    requires
        forall|j: int|
            0 <= j < pattern.rules.len() ==> !rule_applies(
                g,
                bound,
                #[trigger] pattern.rules[j],
                text,
                start,
                end,
            ),
    ensures
        replacement(g, bound, pattern, text, start, end) == pattern.replace,
{
    lemma_first_applicable(g, bound, pattern.rules, 0, text, start, end);
}

/// Negation: a negated clause passes exactly where the same clause without
/// negation fails.
pub proof fn lemma_negation(
    g: GrammarView,
    bound: ExactBound,
    clause: ClauseView,
    text: Seq<char>,
    start: int,
    end: int,
)
    ensures
        clause_passes(g, bound, (ClauseView { negated: true, ..clause }), text, start, end)
            == !clause_passes(
            g,
            bound,
            (ClauseView { negated: false, ..clause }),
            text,
            start,
            end,
        ),
{
}

/// A negated vowel clause on the suffix side, with a character after the
/// chunk: it fails where that character is a vowel and passes where it is
/// not, so in particular where it is a consonant and no vowel.
pub proof fn lemma_not_vowel_suffix(
    g: GrammarView,
    bound: ExactBound,
    clause: ClauseView,
    text: Seq<char>,
    start: int,
    end: int,
)
    requires
        clause.direction == Direction::Suffix,
        clause.scope == Scope::Vowel,
        clause.negated,
        0 <= end < text.len(),
    ensures
        clause_passes(g, bound, clause, text, start, end) == !is_vowel(g, text[end]),
        is_consonant(g, text[end]) && !is_vowel(g, text[end]) ==> clause_passes(
            g,
            bound,
            clause,
            text,
            start,
            end,
        ),
        is_vowel(g, text[end]) ==> !clause_passes(g, bound, clause, text, start, end),
{
}

/// A neighbour outside the text is punctuation and nothing else: there a
/// clause of scope `Punctuation` passes exactly if it is not negated, and a
/// clause of scope `Vowel`, `Consonant` or `Number` exactly if it is. This
/// holds of a `Prefix` clause of a chunk that starts the text, and of a
/// `Suffix` clause of a chunk that ends it.
pub proof fn lemma_boundary(
    g: GrammarView,
    bound: ExactBound,
    clause: ClauseView,
    text: Seq<char>,
    start: int,
    end: int,
)
    requires
        clause.scope != Scope::Exact,
        (clause.direction == Direction::Prefix && start == 0) || (clause.direction
            == Direction::Suffix && end >= text.len()),
    ensures
        clause.scope == Scope::Punctuation ==> clause_passes(g, bound, clause, text, start, end)
            == !clause.negated,
        clause.scope != Scope::Punctuation ==> clause_passes(g, bound, clause, text, start, end)
            == clause.negated,
{
}

/// Whether `c`, lower-cased, is a vowel of `grammar`.
pub fn vowel_char(grammar: &Grammar, c: char) -> (r: bool)
    ensures
        r == is_vowel(grammar@, c),
{
    class_contains(&grammar.vowel, to_ascii_lower(c))
}

/// Whether `c`, lower-cased, is a consonant of `grammar`.
pub fn consonant_char(grammar: &Grammar, c: char) -> (r: bool)
    ensures
        r == is_consonant(grammar@, c),
{
    class_contains(&grammar.consonant, to_ascii_lower(c))
}

/// Whether `c` is a digit of `grammar`.
pub fn number_char(grammar: &Grammar, c: char) -> (r: bool)
    ensures
        r == is_number(grammar@, c),
{
    class_contains(&grammar.number, c)
}

/// Whether `c` is neither a vowel nor a consonant of `grammar`.
pub fn punctuation_char(grammar: &Grammar, c: char) -> (r: bool)
    ensures
        r == is_punctuation(grammar@, c),
{
    !(vowel_char(grammar, c) || consonant_char(grammar, c))
}

/// Whether the literal `value` stands next to `text[start..end]` on the side
/// `direction`, within the reach that `bound` allows.
pub fn test_exact(
    bound: ExactBound,
    value: &Vec<char>,
    direction: Direction,
    text: &Vec<char>,
    start: usize,
    end: usize,
) -> (r: bool)
    ensures
        r == exact_holds(bound, value@, direction, text@, start as int, end as int),
{
    let n = value.len();
    match direction {
        Direction::Prefix => {
            if n > start || start > text.len() {
                return false;
            }
            let within = match bound {
                ExactBound::Strict => start < text.len(),
                ExactBound::Inclusive => true,
            };
            within && window_equals(text, start - n, value)
        },
        Direction::Suffix => {
            if end > text.len() {
                return false;
            }
            let room = text.len() - end;
            let within = match bound {
                ExactBound::Strict => n < room,
                ExactBound::Inclusive => n <= room,
            };
            within && window_equals(text, end, value)
        },
    }
}

/// Whether `clause` passes at `text[start..end]`.
pub fn test_clause(
    grammar: &Grammar,
    bound: ExactBound,
    clause: &MatchClause,
    text: &Vec<char>,
    start: usize,
    end: usize,
) -> (r: bool)
    ensures
        r == clause_passes(grammar@, bound, clause@, text@, start as int, end as int),
{
    let inside = match clause.direction {
        Direction::Prefix => 0 < start && start <= text.len(),
        Direction::Suffix => end < text.len(),
    };
    let condition = match clause.scope {
        Scope::Exact => test_exact(bound, &clause.value, clause.direction, text, start, end),
        scope => {
            if inside {
                let c = match clause.direction {
                    Direction::Prefix => text[start - 1],
                    Direction::Suffix => text[end],
                };
                match scope {
                    Scope::Punctuation => punctuation_char(grammar, c),
                    Scope::Vowel => vowel_char(grammar, c),
                    Scope::Consonant => consonant_char(grammar, c),
                    _ => number_char(grammar, c),
                }
            } else {
                match scope {
                    Scope::Punctuation => true,
                    _ => false,
                }
            }
        },
    };
    condition != clause.negated
}

/// Whether `rule` applies at `text[start..end]`. Stops at the first clause
/// that fails.
pub fn test_rule(
    grammar: &Grammar,
    bound: ExactBound,
    rule: &Rule,
    text: &Vec<char>,
    start: usize,
    end: usize,
) -> (r: bool)
    ensures
        r == rule_applies(grammar@, bound, rule@, text@, start as int, end as int),
{
    let mut k: usize = 0;
    while k < rule.matches.len()
        invariant
            k <= rule.matches.len(),
            forall|m: int|
                0 <= m < k ==> clause_passes(
                    grammar@,
                    bound,
                    #[trigger] rule@.matches[m],
                    text@,
                    start as int,
                    end as int,
                ),
        decreases rule.matches.len() - k,
    {
        if !test_clause(grammar, bound, &rule.matches[k], text, start, end) {
            assert(rule@.matches[k as int] == rule.matches[k as int]@);
            return false;
        }
        assert(rule@.matches[k as int] == rule.matches[k as int]@);
        k += 1;
    }
    true
}

/// The replacement that `pattern` gives for the chunk `text[start..end]`.
pub fn choose_replacement<'a>(
    grammar: &Grammar,
    bound: ExactBound,
    pattern: &'a Pattern,
    text: &Vec<char>,
    start: usize,
    end: usize,
) -> (out: &'a str)
    ensures
        out@ == replacement(grammar@, bound, pattern@, text@, start as int, end as int),
{
    let mut i: usize = 0;
    while i < pattern.rules.len()
        invariant
            i <= pattern.rules.len(),
            first_applicable(
                grammar@,
                bound,
                pattern@.rules,
                0,
                text@,
                start as int,
                end as int,
            ) == first_applicable(
                grammar@,
                bound,
                pattern@.rules,
                i as int,
                text@,
                start as int,
                end as int,
            ),
        decreases pattern.rules.len() - i,
    {
        assert(pattern@.rules[i as int] == pattern.rules[i as int]@);
        if test_rule(grammar, bound, &pattern.rules[i], text, start, end) {
            return pattern.rules[i].replace.as_str();
        }
        i += 1;
    }
    pattern.replace.as_str()
}

} // verus!
