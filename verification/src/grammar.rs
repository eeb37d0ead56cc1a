//! The grammar: a table of spelling patterns with context-sensitive rules,
//! and four character classes.
use crate::chars::{compare_window, spelling_before, to_chars, window_equals, Relation};
use crate::chars::{lemma_spelling_before_asymmetric, lemma_spelling_before_irreflexive};
use crate::chars::{lemma_spelling_before_transitive};
use vstd::prelude::*;
use vstd::string::StringExecFns;

verus! {

/// Why a grammar cannot be used.
#[derive(Clone, Copy, Debug, PartialEq, Eq, Structural)]
pub enum GrammarError {
    /// The grammar text is not a well-formed document.
    Syntax,
    /// A required field is absent or has the wrong type.
    MissingField,
    /// A clause's direction is neither `prefix` nor `suffix`.
    UnknownDirection,
    /// A clause's scope names no known class.
    UnknownScope,
    /// The pattern table has no entry.
    EmptyPatternTable,
    /// The pattern table is not in the required order.
    UnsortedPatterns,
}

/// The side of the matched chunk that a clause inspects.
#[derive(Clone, Copy, Debug, PartialEq, Eq, Structural)]
pub enum Direction {
    /// The character just before the chunk.
    Prefix,
    /// The character just after the chunk.
    Suffix,
}

/// What a clause tests its neighbour against.
#[derive(Clone, Copy, Debug, PartialEq, Eq, Structural)]
pub enum Scope {
    Punctuation,
    Vowel,
    Consonant,
    Number,
    Exact,
}

/// One context condition of a rule.
#[derive(Clone, Debug)]
pub struct MatchClause {
    pub direction: Direction,
    pub scope: Scope,
    /// The clause passes when its condition does not hold.
    pub negated: bool,
    /// The literal that an `Exact` clause expects next to the chunk.
    pub value: Vec<char>,
}

/// A replacement that applies when all of its clauses pass.
#[derive(Clone, Debug)]
pub struct Rule {
    pub matches: Vec<MatchClause>,
    pub replace: String,
}

/// A spelling, its default replacement and its rules in order of priority.
#[derive(Clone, Debug)]
pub struct Pattern {
    pub find: Vec<char>,
    pub replace: String,
    pub rules: Vec<Rule>,
}

/// The character classes and the pattern table.
#[derive(Clone, Debug)]
pub struct Grammar {
    pub vowel: Vec<char>,
    pub consonant: Vec<char>,
    pub number: Vec<char>,
    pub case_sensitive: Vec<char>,
    pub patterns: Vec<Pattern>,
}

/// A [`MatchClause`] as a mathematical value.
pub struct ClauseView {
    pub direction: Direction,
    pub scope: Scope,
    pub negated: bool,
    pub value: Seq<char>,
}

/// A [`Rule`] as a mathematical value.
pub struct RuleView {
    pub matches: Seq<ClauseView>,
    pub replace: Seq<char>,
}

/// A [`Pattern`] as a mathematical value.
pub struct PatternView {
    pub find: Seq<char>,
    pub replace: Seq<char>,
    pub rules: Seq<RuleView>,
}

/// A [`Grammar`] as a mathematical value.
pub struct GrammarView {
    pub vowel: Seq<char>,
    pub consonant: Seq<char>,
    pub number: Seq<char>,
    pub case_sensitive: Seq<char>,
    pub patterns: Seq<PatternView>,
}

impl View for MatchClause {
    type V = ClauseView;

    open spec fn view(&self) -> ClauseView {
        ClauseView {
            direction: self.direction,
            scope: self.scope,
            negated: self.negated,
            value: self.value@,
        }
    }
}

/// The clauses of `v` as mathematical values.
pub open spec fn clause_views(v: Seq<MatchClause>) -> Seq<ClauseView> {
    Seq::new(v.len(), |i: int| v[i]@)
}

impl View for Rule {
    type V = RuleView;

    open spec fn view(&self) -> RuleView {
        RuleView { matches: clause_views(self.matches@), replace: self.replace@ }
    }
}

/// The rules of `v` as mathematical values.
pub open spec fn rule_views(v: Seq<Rule>) -> Seq<RuleView> {
    Seq::new(v.len(), |i: int| v[i]@)
}

impl View for Pattern {
    type V = PatternView;

    open spec fn view(&self) -> PatternView {
        PatternView { find: self.find@, replace: self.replace@, rules: rule_views(self.rules@) }
    }
}

/// The patterns of `v` as mathematical values.
pub open spec fn pattern_views(v: Seq<Pattern>) -> Seq<PatternView> {
    Seq::new(v.len(), |i: int| v[i]@)
}

impl View for Grammar {
    type V = GrammarView;

    open spec fn view(&self) -> GrammarView {
        GrammarView {
            vowel: self.vowel@,
            consonant: self.consonant@,
            number: self.number@,
            case_sensitive: self.case_sensitive@,
            patterns: pattern_views(self.patterns@),
        }
    }
}

/// The table is in order: each spelling comes strictly before every later
/// one, so no spelling occurs twice and the spellings of one length form one
/// block.
pub open spec fn sorted(patterns: Seq<PatternView>) -> bool {
    forall|i: int, j: int|
        0 <= i < j < patterns.len() ==> spelling_before(
            #[trigger] patterns[i].find,
            #[trigger] patterns[j].find,
        )
}

/// Each spelling of the table comes strictly before its successor.
pub open spec fn sorted_stepwise(patterns: Seq<PatternView>, n: int) -> bool {
    forall|i: int|
        0 <= i && i + 1 < n ==> spelling_before(
            #[trigger] patterns[i].find,
            patterns[i + 1].find,
        )
}

/// What makes a grammar usable: a table with at least one pattern, in order.
pub open spec fn valid(g: GrammarView) -> bool {
    g.patterns.len() > 0 && sorted(g.patterns)
}

/// The error that a grammar is refused with, if any: an empty table comes
/// before a table out of order.
pub open spec fn defect(g: GrammarView) -> Option<GrammarError> {
    if g.patterns.len() == 0 {
        Some(GrammarError::EmptyPatternTable)
    } else if !sorted(g.patterns) {
        Some(GrammarError::UnsortedPatterns)
    } else {
        None
    }
}

/// The length of the longest spelling of a table in order: that of its first
/// pattern.
pub open spec fn longest_spelling(g: GrammarView) -> int {
    if g.patterns.len() > 0 {
        g.patterns[0].find.len() as int
    } else {
        0
    }
}

/// A table whose neighbours are in order is in order throughout.
pub proof fn lemma_stepwise_sorted(patterns: Seq<PatternView>)
    requires
        sorted_stepwise(patterns, patterns.len() as int),
    ensures
        sorted(patterns),
{
    assert forall|i: int, j: int| 0 <= i < j < patterns.len() implies spelling_before(
        #[trigger] patterns[i].find,
        #[trigger] patterns[j].find,
    ) by {
        lemma_stepwise_reaches(patterns, i, j);
    }
}

proof fn lemma_stepwise_reaches(patterns: Seq<PatternView>, i: int, j: int)
    requires
        sorted_stepwise(patterns, patterns.len() as int),
        0 <= i < j < patterns.len(),
    ensures
        spelling_before(patterns[i].find, patterns[j].find),
    decreases j - i,
{
    if i + 1 < j {
        lemma_stepwise_reaches(patterns, i, j - 1);
        assert(spelling_before(patterns[j - 1].find, patterns[j - 1 + 1].find));
        lemma_spelling_before_transitive(
            patterns[i].find,
            patterns[j - 1].find,
            patterns[j].find,
        );
    } else {
        assert(spelling_before(patterns[i].find, patterns[i + 1].find));
    }
}

/// In a table in order no pattern is longer than the first.
pub proof fn lemma_first_is_longest(g: GrammarView, i: int)
    requires
        valid(g),
        0 <= i < g.patterns.len(),
    ensures
        g.patterns[i].find.len() <= longest_spelling(g),
{
    if i > 0 {
        assert(spelling_before(g.patterns[0].find, g.patterns[i].find));
    }
}

/// In a table in order two patterns with one spelling are one pattern.
pub proof fn lemma_spelling_unique(patterns: Seq<PatternView>, i: int, j: int)
    requires
        sorted(patterns),
        0 <= i < patterns.len(),
        0 <= j < patterns.len(),
        patterns[i].find == patterns[j].find,
    ensures
        i == j,
{
    if i < j {
        assert(spelling_before(patterns[i].find, patterns[j].find));
        lemma_spelling_before_irreflexive(patterns[i].find);
    } else if j < i {
        assert(spelling_before(patterns[j].find, patterns[i].find));
        lemma_spelling_before_irreflexive(patterns[i].find);
    }
}

/// `r` is the outcome `expected`, with a value taken by its view.
pub open spec fn gives<T: View>(
    r: Result<T, GrammarError>,
    expected: Result<T::V, GrammarError>,
) -> bool {
    match r {
        Ok(x) => expected == Ok::<T::V, GrammarError>(x@),
        Err(e) => expected == Err::<T::V, GrammarError>(e),
    }
}

/// The direction that the word `name` stands for.
pub open spec fn direction_named(name: Seq<char>) -> Option<Direction> {
    if name == "prefix"@ {
        Some(Direction::Prefix)
    } else if name == "suffix"@ {
        Some(Direction::Suffix)
    } else {
        None
    }
}

/// The scope that the word `name` stands for.
pub open spec fn scope_named(name: Seq<char>) -> Option<Scope> {
    if name == "punctuation"@ {
        Some(Scope::Punctuation)
    } else if name == "vowel"@ {
        Some(Scope::Vowel)
    } else if name == "consonant"@ {
        Some(Scope::Consonant)
    } else if name == "number"@ {
        Some(Scope::Number)
    } else if name == "exact"@ {
        Some(Scope::Exact)
    } else {
        None
    }
}

/// A scope as it is written: an exclamation mark for negation, if any, in
/// front of the scope's name.
pub open spec fn scope_written(text: Seq<char>) -> Option<(bool, Scope)> {
    let negated = text.len() > 0 && text[0] == '!';
    let name = if negated {
        text.subrange(1, text.len() as int)
    } else {
        text
    };
    match scope_named(name) {
        Some(scope) => Some((negated, scope)),
        None => None,
    }
}

/// The clause that the words `direction` and `scope` and the literal `value`
/// describe. An unknown direction is reported before an unknown scope.
pub open spec fn clause_written(direction: Seq<char>, scope: Seq<char>, value: Seq<char>) -> Result<
    ClauseView,
    GrammarError,
> {
    match direction_named(direction) {
        None => Err(GrammarError::UnknownDirection),
        Some(d) => match scope_written(scope) {
            None => Err(GrammarError::UnknownScope),
            Some((negated, s)) => Ok(ClauseView { direction: d, scope: s, negated, value }),
        },
    }
}

/// Whether the characters of `text` from index `from` on spell `word`.
fn spells(text: &Vec<char>, from: usize, word: &str) -> (r: bool)
    requires
        from <= text.len(),
    ensures
        r == (text@.subrange(from as int, text.len() as int) == word@),
{
    let letters = to_chars(word);
    if text.len() - from != letters.len() {
        return false;
    }
    window_equals(text, from, &letters)
}

impl Direction {
    /// Reads a direction: `prefix` or `suffix`.
    pub fn parse(name: &str) -> (r: Option<Direction>)
        ensures
            r == direction_named(name@),
    {
        let text = to_chars(name);
        assert(text@.subrange(0, text.len() as int) =~= name@);
        if spells(&text, 0, "prefix") {
            Some(Direction::Prefix)
        } else if spells(&text, 0, "suffix") {
            Some(Direction::Suffix)
        } else {
            None
        }
    }
}

impl Scope {
    /// Reads a scope's name: `punctuation`, `vowel`, `consonant`, `number`
    /// or `exact`, with `!` in front for negation. Gives whether the scope is
    /// negated, and the scope.
    pub fn parse(written: &str) -> (r: Option<(bool, Scope)>)
        ensures
            r == scope_written(written@),
    {
        let text = to_chars(written);
        let negated = text.len() > 0 && text[0] == '!';
        let from: usize = if negated {
            1
        } else {
            0
        };
        assert(text@.subrange(0, text.len() as int) =~= written@);
        let scope = if spells(&text, from, "punctuation") {
            Scope::Punctuation
        } else if spells(&text, from, "vowel") {
            Scope::Vowel
        } else if spells(&text, from, "consonant") {
            Scope::Consonant
        } else if spells(&text, from, "number") {
            Scope::Number
        } else if spells(&text, from, "exact") {
            Scope::Exact
        } else {
            return None;
        };
        Some((negated, scope))
    }
}

impl MatchClause {
    /// Reads a clause from the words for its direction and its scope, and
    /// the literal of an `Exact` clause.
    pub fn parse(direction: &str, scope: &str, value: &str) -> (r: Result<Self, GrammarError>)
        ensures
            match r {
                Ok(clause) => clause_written(direction@, scope@, value@) == Ok::<
                    ClauseView,
                    GrammarError,
                >(clause@),
                Err(e) => clause_written(direction@, scope@, value@) == Err::<
                    ClauseView,
                    GrammarError,
                >(e),
            },
    {
        match Direction::parse(direction) {
            None => Err(GrammarError::UnknownDirection),
            Some(d) => match Scope::parse(scope) {
                None => Err(GrammarError::UnknownScope),
                Some((negated, s)) => Ok(
                    MatchClause { direction: d, scope: s, negated, value: to_chars(value) },
                ),
            },
        }
    }

    /// A clause that tests the neighbour on the side `direction` against
    /// `scope`, with `value` as the literal of an `Exact` clause.
    pub fn new(direction: Direction, scope: Scope, negated: bool, value: &str) -> (clause: Self)
        ensures
            clause@ == (ClauseView { direction, scope, negated, value: value@ }),
    {
        MatchClause { direction, scope, negated, value: to_chars(value) }
    }
}

impl Rule {
    /// A rule that gives `replace` where all of `matches` pass.
    pub fn new(matches: Vec<MatchClause>, replace: &str) -> (rule: Self)
        ensures
            rule@ == (RuleView { matches: clause_views(matches@), replace: replace@ }),
    {
        Rule { matches, replace: String::from_str(replace) }
    }
}

impl Pattern {
    /// A pattern that rewrites `find` by the first of `rules` that applies,
    /// and to `replace` where none does.
    pub fn new(find: &str, replace: &str, rules: Vec<Rule>) -> (pattern: Self)
        ensures
            pattern@ == (PatternView {
                find: find@,
                replace: replace@,
                rules: rule_views(rules@),
            }),
    {
        Pattern { find: to_chars(find), replace: String::from_str(replace), rules }
    }
}

impl Grammar {
    /// A grammar with the given classes, each written as the string of its
    /// members, and the given table.
    pub fn new(
        vowel: &str,
        consonant: &str,
        number: &str,
        case_sensitive: &str,
        patterns: Vec<Pattern>,
    ) -> (grammar: Self)
        ensures
            grammar@ == (GrammarView {
                vowel: vowel@,
                consonant: consonant@,
                number: number@,
                case_sensitive: case_sensitive@,
                patterns: pattern_views(patterns@),
            }),
    {
        Grammar {
            vowel: to_chars(vowel),
            consonant: to_chars(consonant),
            number: to_chars(number),
            case_sensitive: to_chars(case_sensitive),
            patterns,
        }
    }

    /// Tests what makes the grammar usable, and says what is wrong where it
    /// is not.
    pub fn check(&self) -> (r: Result<(), GrammarError>)
        ensures
            r is Ok <==> valid(self@),
            r matches Err(e) ==> defect(self@) == Some(e),
    {
        let n = self.patterns.len();
        if n == 0 {
            return Err(GrammarError::EmptyPatternTable);
        }
        let ghost views = self@.patterns;
        let mut i: usize = 1;
        while i < n
            invariant
                1 <= i <= n,
                n == self.patterns.len(),
                views == self@.patterns,
                sorted_stepwise(views, i as int),
            decreases n - i,
        {
            if !spelling_precedes(&self.patterns[i - 1].find, &self.patterns[i].find) {
                assert(!spelling_before(views[i - 1].find, views[i as int].find));
                return Err(GrammarError::UnsortedPatterns);
            }
            assert(views[i - 1 + 1] == views[i as int]);
            i += 1;
        }
        proof {
            lemma_stepwise_sorted(views);
        }
        Ok(())
    }
}

/// Whether `a` comes strictly before `b` in the order of the pattern table.
pub fn spelling_precedes(a: &Vec<char>, b: &Vec<char>) -> (r: bool)
    ensures
        r == spelling_before(a@, b@),
{
    if a.len() != b.len() {
        return a.len() > b.len();
    }
    assert(b@.subrange(0, 0 + a.len()) =~= b@);
    match compare_window(a, b, 0) {
        Relation::Before => true,
        Relation::Same => {
            proof {
                lemma_spelling_before_irreflexive(a@);
            }
            false
        },
        Relation::After => {
            proof {
                lemma_spelling_before_asymmetric(b@, a@);
            }
            false
        },
    }
}

} // verus!
