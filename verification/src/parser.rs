//! The transliteration engine: case folding and the greedy scan.
use crate::chars::{ascii_lower, ascii_lower_seq, class_contains, contains_lowered, contains_run};
use crate::chars::{lemma_lowered_char_occurs, lemma_single_char_occurs, occurs_in};
use crate::chars::{to_ascii_lower, to_chars};
use crate::context::{choose_replacement, first_applicable, lemma_first_applicable};
use crate::context::{replacement, ExactBound};
use crate::context::{is_consonant, is_number, is_punctuation, is_vowel};
use crate::grammar::{defect, gives, lemma_spelling_unique, longest_spelling, valid, Grammar};
use crate::grammar::{GrammarError, GrammarView, PatternView};
use crate::json::{grammar_of, read_grammar};
use crate::lookup::{chunk, find_longest, index_of_spelling, longest_match, matches_at};
use crate::lookup::{lemma_longest_match, lemma_longest_match_within, spelled_at};
use serde_json::Value;
use vstd::prelude::*;
use vstd::string::StringExecFns;

verus! {

/// `String::push` appends one character to the end of the string.
pub assume_specification[ String::push ](s: &mut String, c: char)
    ensures
        final(s)@ == old(s)@.push(c),
;

/// `c`, lower-cased, is one of the letters of `g` whose case carries meaning.
pub open spec fn is_case_sensitive(g: GrammarView, c: char) -> bool {
    g.case_sensitive.contains(ascii_lower(c))
}

/// `c` after case folding: a letter whose case carries meaning stays as it
/// is, every other character is lower-cased within ASCII.
pub open spec fn fold_char(g: GrammarView, c: char) -> char {
    if is_case_sensitive(g, c) {
        c
    } else {
        ascii_lower(c)
    }
}

/// `input` after case folding, character by character.
pub open spec fn fold_case(g: GrammarView, input: Seq<char>) -> Seq<char> {
    Seq::new(input.len(), |i: int| fold_char(g, input[i]))
}

/// What the scanner does at the cursor `cur`: the text it puts out and the
/// cursor it goes on with. Where a chunk matches, the longest one is
/// rewritten by its pattern; where none does, one character is copied.
pub open spec fn step_at(g: GrammarView, bound: ExactBound, text: Seq<char>, cur: int) -> (
    Seq<char>,
    int,
) {
    match longest_match(g, text, cur) {
        Some(len) => {
            let pattern = g.patterns[index_of_spelling(g.patterns, chunk(text, cur, len))];
            (replacement(g, bound, pattern, text, cur, cur + len), cur + len)
        },
        None => (seq![text[cur]], cur + 1),
    }
}

/// What the scanner puts out from the cursor `cur` to the end of `text`.
pub open spec fn scan_from(g: GrammarView, bound: ExactBound, text: Seq<char>, cur: int) -> Seq<
    char,
>
    decreases text.len() - cur,
    via scan_from_decreases
{
    if cur < 0 || cur >= text.len() {
        Seq::empty()
    } else {
        let (piece, next) = step_at(g, bound, text, cur);
        piece + scan_from(g, bound, text, next)
    }
}

#[via_fn]
proof fn scan_from_decreases(g: GrammarView, bound: ExactBound, text: Seq<char>, cur: int) {
    lemma_longest_match_within(g, text, cur, longest_spelling(g));
}

/// The transliteration of `input`: the scan of the case-folded input from
/// its first character on.
pub open spec fn transliterate(g: GrammarView, bound: ExactBound, input: Seq<char>) -> Seq<char> {
    scan_from(g, bound, fold_case(g, input), 0)
}

/// Longest match at work: where the chunk of `len` characters at `cur` is the
/// spelling of the pattern at index `i` and no longer chunk there is a
/// spelling, the scanner rewrites exactly that chunk by that pattern. A
/// shorter spelling at the same place plays no part.
pub proof fn lemma_step_rewrites(
    g: GrammarView,
    bound: ExactBound,
    text: Seq<char>,
    cur: int,
    len: int,
    i: int,
)
    requires
        valid(g),
        0 <= cur,
        1 <= len,
        cur + len <= text.len(),
        spelled_at(g.patterns, chunk(text, cur, len), i),
        forall|m: int| m > len ==> !matches_at(g, text, cur, m),
    ensures
        longest_match(g, text, cur) == Some(len),
        step_at(g, bound, text, cur) == (
            replacement(g, bound, g.patterns[i], text, cur, cur + len),
            cur + len,
        ),
{
    lemma_longest_match(g, text, cur);
    assert(matches_at(g, text, cur, len));
    lemma_spelling_unique(
        g.patterns,
        i,
        index_of_spelling(g.patterns, chunk(text, cur, len)),
    );
}

/// Input that, case-folded, is as a whole the spelling of a pattern is
/// converted by that pattern alone, whatever shorter spellings it holds: with
/// patterns for `a` and `aa` the input `aa` is rewritten once, not twice.
pub proof fn lemma_whole_spelling(g: GrammarView, bound: ExactBound, input: Seq<char>, i: int)
    requires
        valid(g),
        input.len() >= 1,
        spelled_at(g.patterns, fold_case(g, input), i),
    ensures
        transliterate(g, bound, input) == replacement(
            g,
            bound,
            g.patterns[i],
            fold_case(g, input),
            0,
            input.len() as int,
        ),
{
    let text = fold_case(g, input);
    let len = text.len() as int;
    assert(chunk(text, 0, len) =~= text);
    lemma_step_rewrites(g, bound, text, 0, len, i);
    let piece = replacement(g, bound, g.patterns[i], text, 0, len);
    assert(scan_from(g, bound, text, len) =~= Seq::<char>::empty());
    assert(piece + Seq::<char>::empty() =~= piece);
}

/// Where a chunk at `cur` is a spelling, the scanner consumes at least that
/// chunk in one step: of two spellings at one place the longer is taken.
pub proof fn lemma_step_takes_longest(
    g: GrammarView,
    bound: ExactBound,
    text: Seq<char>,
    cur: int,
    len: int,
)
    requires
        valid(g),
        matches_at(g, text, cur, len),
    ensures
        step_at(g, bound, text, cur).1 >= cur + len,
{
    lemma_longest_match(g, text, cur);
}

/// Where no chunk at `cur` is a spelling, the scanner copies one character.
pub proof fn lemma_step_copies(g: GrammarView, bound: ExactBound, text: Seq<char>, cur: int)
    requires
        forall|m: int| !matches_at(g, text, cur, m),
    ensures
        step_at(g, bound, text, cur) == (seq![text[cur]], cur + 1),
{
    lemma_longest_match_within(g, text, cur, longest_spelling(g));
}

/// No replacement of `pattern`, by rule or by default, has more than `most`
/// characters.
pub open spec fn pattern_within(pattern: PatternView, most: int) -> bool {
    &&& pattern.replace.len() <= most
    &&& forall|j: int|
        0 <= j < pattern.rules.len() ==> (#[trigger] pattern.rules[j]).replace.len() <= most
}

/// No replacement of `g` has more than `most` characters.
pub open spec fn replacements_within(g: GrammarView, most: int) -> bool {
    forall|i: int| 0 <= i < g.patterns.len() ==> pattern_within(#[trigger] g.patterns[i], most)
}

/// One step puts out no more than `most` characters, where `most` is at
/// least one and bounds every replacement.
pub proof fn lemma_step_bound(
    g: GrammarView,
    bound: ExactBound,
    text: Seq<char>,
    cur: int,
    most: int,
)
    requires
        0 <= cur < text.len(),
        1 <= most,
        replacements_within(g, most),
    ensures
        step_at(g, bound, text, cur).0.len() <= most,
        cur < step_at(g, bound, text, cur).1 <= text.len(),
{
    lemma_longest_match_within(g, text, cur, longest_spelling(g));
    match longest_match(g, text, cur) {
        Some(len) => {
            let key = chunk(text, cur, len);
            let i = index_of_spelling(g.patterns, key);
            assert(spelled_at(g.patterns, key, i));
            let pattern = g.patterns[i];
            lemma_first_applicable(g, bound, pattern.rules, 0, text, cur, cur + len);
            assert(pattern_within(pattern, most));
            match first_applicable(g, bound, pattern.rules, 0, text, cur, cur + len) {
                Some(j) => {
                    assert(pattern.rules[j].replace.len() <= most);
                },
                None => {},
            }
        },
        None => {},
    }
}

/// The output grows at most linearly with the text: from the cursor `cur` on
/// the scanner puts out no more than `most` characters for each character
/// left, where `most` is at least one and bounds every replacement.
pub proof fn lemma_scan_bound(
    g: GrammarView,
    bound: ExactBound,
    text: Seq<char>,
    cur: int,
    most: int,
)
    requires
        0 <= cur <= text.len(),
        1 <= most,
        replacements_within(g, most),
    ensures
        scan_from(g, bound, text, cur).len() <= most * (text.len() - cur),
    decreases text.len() - cur,
{
    if cur < text.len() {
        lemma_step_bound(g, bound, text, cur, most);
        let (piece, next) = step_at(g, bound, text, cur);
        lemma_scan_bound(g, bound, text, next, most);
        let rest = text.len() - next;
        let taken = next - cur;
        assert(most + most * rest <= most * (taken + rest)) by (nonlinear_arith)
            requires
                1 <= taken,
                0 <= rest,
                1 <= most,
        ;
    } else {
        assert(most * (text.len() - cur) == 0) by (nonlinear_arith)
            requires
                text.len() - cur == 0,
        ;
    }
}

/// The output of a conversion has at most `most` characters for each
/// character of the input, where `most` is at least one and bounds every
/// replacement of the grammar.
pub proof fn lemma_output_bound(g: GrammarView, bound: ExactBound, input: Seq<char>, most: int)
    requires
        1 <= most,
        replacements_within(g, most),
    ensures
        transliterate(g, bound, input).len() <= most * input.len(),
{
    lemma_scan_bound(g, bound, fold_case(g, input), 0, most);
}

/// Text in which no chunk is the spelling of a pattern is copied from the
/// cursor on.
pub proof fn lemma_scan_copies(g: GrammarView, bound: ExactBound, text: Seq<char>, cur: int)
    requires
        0 <= cur <= text.len(),
        forall|start: int, len: int| !matches_at(g, text, start, len),
    ensures
        scan_from(g, bound, text, cur) == text.subrange(cur, text.len() as int),
    decreases text.len() - cur,
{
    if cur < text.len() {
        lemma_longest_match_within(g, text, cur, longest_spelling(g));
        lemma_scan_copies(g, bound, text, cur + 1);
        assert(seq![text[cur]] + text.subrange(cur + 1, text.len() as int) =~= text.subrange(
            cur,
            text.len() as int,
        ));
    } else {
        assert(text.subrange(cur, text.len() as int) =~= Seq::<char>::empty());
    }
}

/// Stable text: input whose case-folded form holds no spelling of a pattern
/// anywhere is returned as that form, unchanged but for the folding.
pub proof fn lemma_stable_text(g: GrammarView, bound: ExactBound, input: Seq<char>)
    requires
        forall|start: int, len: int| !matches_at(g, fold_case(g, input), start, len),
    ensures
        transliterate(g, bound, input) == fold_case(g, input),
{
    let text = fold_case(g, input);
    lemma_scan_copies(g, bound, text, 0);
    assert(text.subrange(0, text.len() as int) =~= text);
}

/// A grammar that was found usable, together with how far its `Exact`
/// clauses may reach.
pub struct ParserView {
    pub grammar: GrammarView,
    pub exact_bound: ExactBound,
}

/// The parser that a grammar gives, or the error that it is refused with;
/// a grammar that could not be read gives the error of the reading. A parser
/// reads `Exact` clauses strictly unless it is told otherwise.
pub open spec fn parser_of(g: Result<GrammarView, GrammarError>) -> Result<
    ParserView,
    GrammarError,
> {
    match g {
        Err(e) => Err(e),
        Ok(g) => match defect(g) {
            Some(e) => Err(e),
            None => Ok(ParserView { grammar: g, exact_bound: ExactBound::Strict }),
        },
    }
}

/// Converts text by the rules of a grammar.
///
/// A parser holds a grammar that has passed [`Grammar::check`]; it cannot be
/// made from any other.
pub struct PhoneticParser {
    grammar: Grammar,
    max_pattern_len: usize,
    exact_bound: ExactBound,
}

impl View for PhoneticParser {
    type V = ParserView;

    closed spec fn view(&self) -> ParserView {
        ParserView { grammar: self.grammar@, exact_bound: self.exact_bound }
    }
}

impl PhoneticParser {
    /// What every parser keeps: a usable grammar, and the length of its
    /// longest spelling at hand.
    #[verifier::type_invariant]
    spec fn well_formed(&self) -> bool {
        &&& valid(self.grammar@)
        &&& self.max_pattern_len == longest_spelling(self.grammar@)
    }

    /// Makes a parser from the grammar that the JSON value `rule` describes,
    /// if it describes one and the grammar is usable, and says what is wrong
    /// if not.
    pub fn new(rule: &Value) -> (r: Result<PhoneticParser, GrammarError>)
        ensures
            gives(r, parser_of(grammar_of(*rule))),
    {
        match read_grammar(rule) {
            Ok(grammar) => PhoneticParser::from_grammar(grammar),
            Err(e) => Err(e),
        }
    }

    /// Makes a parser from `grammar` if the grammar is usable, and says what
    /// is wrong with it if not. The parser reads `Exact` clauses strictly.
    pub fn from_grammar(grammar: Grammar) -> (r: Result<PhoneticParser, GrammarError>)
        ensures
            gives(r, parser_of(Ok(grammar@))),
            r is Ok <==> valid(grammar@),
    {
        match grammar.check() {
            Ok(()) => {
                let max_pattern_len = grammar.patterns[0].find.len();
                Ok(PhoneticParser { grammar, max_pattern_len, exact_bound: ExactBound::Strict })
            },
            Err(e) => Err(e),
        }
    }

    /// The same parser with `Exact` clauses read as `bound` says.
    pub fn with_exact_bound(self, bound: ExactBound) -> (r: PhoneticParser)
        ensures
            r@ == (ParserView { grammar: self@.grammar, exact_bound: bound }),
    {
        proof {
            use_type_invariant(&self);
        }
        PhoneticParser {
            grammar: self.grammar,
            max_pattern_len: self.max_pattern_len,
            exact_bound: bound,
        }
    }

    /// The grammar of this parser, which is usable.
    pub fn grammar(&self) -> (g: &Grammar)
        ensures
            g@ == self@.grammar,
            valid(g@),
    {
        proof {
            use_type_invariant(self);
        }
        &self.grammar
    }

    /// How far the `Exact` clauses of this parser may reach.
    pub fn exact_bound(&self) -> (bound: ExactBound)
        ensures
            bound == self@.exact_bound,
    {
        self.exact_bound
    }

    /// Converts `input` according to the grammar.
    ///
    /// The result is a function of the grammar, of the reading of `Exact`
    /// clauses and of the input alone: the parser keeps nothing between
    /// calls, and equal arguments give equal results.
    pub fn convert(&self, input: &str) -> (output: String)
        ensures
            output@ == transliterate(self@.grammar, self@.exact_bound, input@),
    {
        proof {
            use_type_invariant(self);
        }
        let text = self.fold(input);
        let ghost g = self.grammar@;
        let ghost bound = self.exact_bound;
        let mut output = String::new();
        let mut cur: usize = 0;
        while cur < text.len()
            invariant
                cur <= text.len(),
                g == self.grammar@,
                bound == self.exact_bound,
                valid(g),
                self.max_pattern_len == longest_spelling(g),
                output@ + scan_from(g, bound, text@, cur as int) == scan_from(g, bound, text@, 0),
            decreases text.len() - cur,
        {
            let ghost before = output@;
            let ghost (piece, next) = step_at(g, bound, text@, cur as int);
            match find_longest(&self.grammar, &text, cur, self.max_pattern_len) {
                Some((len, i)) => {
                    assert(g.patterns[i as int] == self.grammar.patterns[i as int]@);
                    let out = choose_replacement(
                        &self.grammar,
                        self.exact_bound,
                        &self.grammar.patterns[i],
                        &text,
                        cur,
                        cur + len,
                    );
                    output.append(out);
                    cur = cur + len;
                },
                None => {
                    output.push(text[cur]);
                    assert(before.push(text@[cur as int]) =~= before + seq![text@[cur as int]]);
                    cur = cur + 1;
                },
            }
            assert(output@ == before + piece);
            assert(cur == next);
            assert((before + piece) + scan_from(g, bound, text@, next) =~= before + (piece
                + scan_from(g, bound, text@, next)));
        }
        assert(output@ + Seq::<char>::empty() =~= output@);
        output
    }

    /// The case-folded form of `string`: letters whose case carries meaning
    /// stay as typed, every other character is lower-cased within ASCII.
    pub fn fix_string(&self, string: &str) -> (fixed: String)
        ensures
            fixed@ == fold_case(self@.grammar, string@),
    {
        let mut fixed = String::new();
        for c in it: string.chars()
            invariant
                it.seq() == string@,
                fixed@ == fold_case(self@.grammar, string@.take(it.index() as int)),
        {
            fixed.push(self.fold_one(c));
            assert(fixed@ =~= fold_case(self@.grammar, string@.take(it.index() + 1)));
        }
        assert(string@.take(string@.len() as int) =~= string@);
        fixed
    }

    /// Whether `character`, lower-cased, is one of the letters whose case
    /// carries meaning.
    pub fn is_case_sensitive(&self, character: char) -> (r: bool)
        ensures
            r == is_case_sensitive(self@.grammar, character),
    {
        class_contains(&self.grammar.case_sensitive, to_ascii_lower(character))
    }

    /// Whether `string`, lower-cased, occurs in the string of vowels; of a
    /// single character: whether it is a vowel.
    pub fn is_vowel(&self, string: &str) -> (r: bool)
        ensures
            r == occurs_in(ascii_lower_seq(string@), self@.grammar.vowel),
            string@.len() == 1 ==> r == is_vowel(self@.grammar, string@[0]),
    {
        proof {
            lemma_lowered_char_occurs(string@, self@.grammar.vowel);
        }
        contains_lowered(&self.grammar.vowel, &to_chars(string))
    }

    /// Whether `string`, lower-cased, occurs in the string of consonants; of
    /// a single character: whether it is a consonant.
    pub fn is_consonant(&self, string: &str) -> (r: bool)
        ensures
            r == occurs_in(ascii_lower_seq(string@), self@.grammar.consonant),
            string@.len() == 1 ==> r == is_consonant(self@.grammar, string@[0]),
    {
        proof {
            lemma_lowered_char_occurs(string@, self@.grammar.consonant);
        }
        contains_lowered(&self.grammar.consonant, &to_chars(string))
    }

    /// Whether `character` occurs in the string of digits as it is; of a
    /// single character: whether it is a digit.
    pub fn is_number(&self, character: &str) -> (r: bool)
        ensures
            r == occurs_in(character@, self@.grammar.number),
            character@.len() == 1 ==> r == is_number(self@.grammar, character@[0]),
    {
        proof {
            if character@.len() == 1 {
                assert(character@ =~= seq![character@[0]]);
                lemma_single_char_occurs(character@[0], self@.grammar.number);
            }
        }
        contains_run(&self.grammar.number, &to_chars(character))
    }

    /// Whether `character` is neither a vowel nor a consonant.
    pub fn is_punctuation(&self, character: &str) -> (r: bool)
        ensures
            r == !(occurs_in(ascii_lower_seq(character@), self@.grammar.vowel) || occurs_in(
                ascii_lower_seq(character@),
                self@.grammar.consonant,
            )),
            character@.len() == 1 ==> r == is_punctuation(self@.grammar, character@[0]),
    {
        !(self.is_vowel(character) || self.is_consonant(character))
    }

    fn fold_one(&self, c: char) -> (r: char)
        ensures
            r == fold_char(self@.grammar, c),
    {
        if self.is_case_sensitive(c) {
            c
        } else {
            to_ascii_lower(c)
        }
    }

    fn fold(&self, input: &str) -> (text: Vec<char>)
        ensures
            text@ == fold_case(self@.grammar, input@),
    {
        let mut text: Vec<char> = Vec::new();
        for c in it: input.chars()
            invariant
                it.seq() == input@,
                text@ == fold_case(self@.grammar, input@.take(it.index() as int)),
        {
            text.push(self.fold_one(c));
            assert(text@ =~= fold_case(self@.grammar, input@.take(it.index() + 1)));
        }
        assert(input@.take(input@.len() as int) =~= input@);
        text
    }
}

} // verus!
