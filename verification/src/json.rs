//! Reading a grammar from a JSON document.
//!
//! A grammar is written as an object with the members `vowel`, `consonant`,
//! `number` and `casesensitive`, each a string of the class's characters, and
//! `patterns`, an array. A pattern is an object with the strings `find` and
//! `replace` and the array `rules`; a rule is an object with the string
//! `replace` and the array `matches`; a clause is an object with the strings
//! `type` and `scope` and, for an `exact` clause, `value`.
//!
//! The document itself is parsed and held by `serde_json`. What this module
//! knows of a `serde_json::Value` it knows through four names, one for each
//! function of `serde_json` that it calls.
use crate::chars::to_chars;
use crate::grammar::{clause_views, clause_written, gives, pattern_views, rule_views};
use crate::grammar::{ClauseView, Grammar, GrammarError, GrammarView, MatchClause, Pattern};
use crate::grammar::{PatternView, Rule, RuleView};
use serde_json::Value;
use vstd::prelude::*;
use vstd::string::StringExecFns;

verus! {

/// `serde_json::Value`: a JSON value. Nothing of its inside is known here
/// but what the names below say.
#[verifier::external_type_specification]
#[verifier::external_body]
pub struct ExValue(serde_json::Value);

/// `serde_json::Error`: why a text is no JSON document. It is carried, never
/// looked into.
#[verifier::external_type_specification]
#[verifier::external_body]
pub struct ExError(serde_json::Error);

/// The value that `serde_json::from_str` reads from `text`, if `text` is a
/// JSON document.
pub uninterp spec fn json_document(text: Seq<char>) -> Option<Value>;

/// The member that `Value::get` finds in `v` under the string `key`, if `v`
/// is an object that has it.
pub uninterp spec fn json_member(v: Value, key: Seq<char>) -> Option<Value>;

/// The string that `Value::as_str` finds in `v`, if `v` is a string.
pub uninterp spec fn json_text(v: Value) -> Option<Seq<char>>;

/// The elements that `Value::as_array` finds in `v`, if `v` is an array.
pub uninterp spec fn json_items(v: Value) -> Option<Seq<Value>>;

/// `serde_json::from_str`, read at the type `Value`: parses `text` as one
/// JSON document. The outcome depends on the text alone; it is `Ok` with the
/// document's value exactly where the text is a document.
#[verifier::external_body]
fn parse_document(text: &str) -> (r: Result<Value, serde_json::Error>)
    ensures
        match r {
            Ok(v) => json_document(text@) == Some(v),
            Err(_) => json_document(text@) is None,
        },
{
    serde_json::from_str(text)
}

/// `Value::get` with a string index: the member of an object under `key`.
/// It is `None` where `v` is no object or has no such member.
#[verifier::external_body]
fn member<'a>(v: &'a Value, key: &str) -> (r: Option<&'a Value>)
    ensures
        match r {
            Some(m) => json_member(*v, key@) == Some(*m),
            None => json_member(*v, key@) is None,
        },
{
    v.get(key)
}

/// `Value::as_str`: the string slice of a JSON string, `None` for every
/// other kind of value.
pub assume_specification<'a>[ Value::as_str ](v: &'a Value) -> (r: Option<&'a str>)
    ensures
        match r {
            Some(s) => json_text(*v) == Some(s@),
            None => json_text(*v) is None,
        },
;

/// `Value::as_array`: the vector of a JSON array, `None` for every other
/// kind of value.
pub assume_specification<'a>[ Value::as_array ](v: &'a Value) -> (r: Option<&'a Vec<Value>>)
    ensures
        match r {
            Some(items) => json_items(*v) == Some(items@),
            None => json_items(*v) is None,
        },
;

/// The string member `key` of `v`, which has to be there.
pub open spec fn text_member(v: Value, key: Seq<char>) -> Result<Seq<char>, GrammarError> {
    match json_member(v, key) {
        Some(m) => match json_text(m) {
            Some(s) => Ok(s),
            None => Err(GrammarError::MissingField),
        },
        None => Err(GrammarError::MissingField),
    }
}

/// The string member `key` of `v`, or the empty string where `v` has no such
/// member or it is no string.
pub open spec fn optional_text_member(v: Value, key: Seq<char>) -> Seq<char> {
    match text_member(v, key) {
        Ok(s) => s,
        Err(_) => Seq::empty(),
    }
}

/// The array member `key` of `v`, which has to be there.
pub open spec fn array_member(v: Value, key: Seq<char>) -> Result<Seq<Value>, GrammarError> {
    match json_member(v, key) {
        Some(m) => match json_items(m) {
            Some(items) => Ok(items),
            None => Err(GrammarError::MissingField),
        },
        None => Err(GrammarError::MissingField),
    }
}

/// The first `n` of `items`, each read by `read`: all of them where every
/// one can be read, else the error of the first that cannot.
pub open spec fn read_all<T>(
    items: Seq<Value>,
    read: spec_fn(Value) -> Result<T, GrammarError>,
    n: int,
) -> Result<Seq<T>, GrammarError>
    decreases n,
{
    if n <= 0 {
        Ok(Seq::empty())
    } else {
        match read_all(items, read, n - 1) {
            Err(e) => Err(e),
            Ok(front) => match read(items[n - 1]) {
                Err(e) => Err(e),
                Ok(item) => Ok(front.push(item)),
            },
        }
    }
}

/// Reads a clause: [`clause_of`] as a value.
pub open spec fn clause_reader() -> spec_fn(Value) -> Result<ClauseView, GrammarError> {
    |c: Value| clause_of(c)
}

/// Reads a rule: [`rule_of`] as a value.
pub open spec fn rule_reader() -> spec_fn(Value) -> Result<RuleView, GrammarError> {
    |r: Value| rule_of(r)
}

/// Reads a pattern: [`pattern_of`] as a value.
pub open spec fn pattern_reader() -> spec_fn(Value) -> Result<PatternView, GrammarError> {
    |p: Value| pattern_of(p)
}

/// The clause that the object `v` describes. Its `type` and `scope` have to
/// be there, in this order; `value` may be left out.
pub open spec fn clause_of(v: Value) -> Result<ClauseView, GrammarError> {
    match text_member(v, "type"@) {
        Err(e) => Err(e),
        Ok(direction) => match text_member(v, "scope"@) {
            Err(e) => Err(e),
            Ok(scope) => clause_written(direction, scope, optional_text_member(v, "value"@)),
        },
    }
}

/// The rule that the object `v` describes: its `matches`, then its
/// `replace`.
pub open spec fn rule_of(v: Value) -> Result<RuleView, GrammarError> {
    match array_member(v, "matches"@) {
        Err(e) => Err(e),
        Ok(items) => match read_all(items, clause_reader(), items.len() as int) {
            Err(e) => Err(e),
            Ok(matches) => match text_member(v, "replace"@) {
                Err(e) => Err(e),
                Ok(replace) => Ok(RuleView { matches, replace }),
            },
        },
    }
}

/// The pattern that the object `v` describes: its `find`, its `replace`,
/// then its `rules`.
pub open spec fn pattern_of(v: Value) -> Result<PatternView, GrammarError> {
    match text_member(v, "find"@) {
        Err(e) => Err(e),
        Ok(find) => match text_member(v, "replace"@) {
            Err(e) => Err(e),
            Ok(replace) => match array_member(v, "rules"@) {
                Err(e) => Err(e),
                Ok(items) => match read_all(items, rule_reader(), items.len() as int) {
                    Err(e) => Err(e),
                    Ok(rules) => Ok(PatternView { find, replace, rules }),
                },
            },
        },
    }
}

/// The grammar that the object `v` describes: that `patterns` is an array,
/// the four classes, then the patterns one by one.
pub open spec fn grammar_of(v: Value) -> Result<GrammarView, GrammarError> {
    match array_member(v, "patterns"@) {
        Err(e) => Err(e),
        Ok(items) => match text_member(v, "vowel"@) {
            Err(e) => Err(e),
            Ok(vowel) => match text_member(v, "consonant"@) {
                Err(e) => Err(e),
                Ok(consonant) => match text_member(v, "number"@) {
                    Err(e) => Err(e),
                    Ok(number) => match text_member(v, "casesensitive"@) {
                        Err(e) => Err(e),
                        Ok(case_sensitive) => match read_all(
                            items,
                            pattern_reader(),
                            items.len() as int,
                        ) {
                            Err(e) => Err(e),
                            Ok(patterns) => Ok(
                                GrammarView { vowel, consonant, number, case_sensitive, patterns },
                            ),
                        },
                    },
                },
            },
        },
    }
}

/// The grammar that the text `text` describes where it is a JSON document,
/// and `Syntax` where it is none.
pub open spec fn grammar_written(text: Seq<char>) -> Result<GrammarView, GrammarError> {
    match json_document(text) {
        Some(v) => grammar_of(v),
        None => Err(GrammarError::Syntax),
    }
}

fn read_text<'a>(v: &'a Value, key: &str) -> (r: Result<&'a str, GrammarError>)
    ensures
        match r {
            Ok(s) => text_member(*v, key@) == Ok::<Seq<char>, GrammarError>(s@),
            Err(e) => text_member(*v, key@) == Err::<Seq<char>, GrammarError>(e),
        },
{
    match member(v, key) {
        Some(m) => match m.as_str() {
            Some(s) => Ok(s),
            None => Err(GrammarError::MissingField),
        },
        None => Err(GrammarError::MissingField),
    }
}

fn read_array<'a>(v: &'a Value, key: &str) -> (r: Result<&'a Vec<Value>, GrammarError>)
    ensures
        match r {
            Ok(items) => array_member(*v, key@) == Ok::<Seq<Value>, GrammarError>(items@),
            Err(e) => array_member(*v, key@) == Err::<Seq<Value>, GrammarError>(e),
        },
{
    match member(v, key) {
        Some(m) => match m.as_array() {
            Some(items) => Ok(items),
            None => Err(GrammarError::MissingField),
        },
        None => Err(GrammarError::MissingField),
    }
}

/// Reads a clause from the object `v`.
pub fn read_clause(v: &Value) -> (r: Result<MatchClause, GrammarError>)
    ensures
        gives(r, clause_of(*v)),
{
    let direction = match read_text(v, "type") {
        Ok(s) => s,
        Err(e) => { return Err(e); },
    };
    let scope = match read_text(v, "scope") {
        Ok(s) => s,
        Err(e) => { return Err(e); },
    };
    let value = match read_text(v, "value") {
        Ok(s) => s,
        Err(_) => "",
    };
    proof {
        reveal_strlit("");
        assert(""@ =~= Seq::<char>::empty());
    }
    MatchClause::parse(direction, scope, value)
}

/// Reads a rule from the object `v`.
#[verifier::loop_isolation(false)]
pub fn read_rule(v: &Value) -> (r: Result<Rule, GrammarError>)
    ensures
        gives(r, rule_of(*v)),
{
    let items = match read_array(v, "matches") {
        Ok(items) => items,
        Err(e) => { return Err(e); },
    };
    let ghost read = clause_reader();
    let mut matches: Vec<MatchClause> = Vec::new();
    let mut i: usize = 0;
    assert(clause_views(matches@) =~= Seq::empty());
    while i < items.len()
        invariant
            i <= items.len(),
            read == clause_reader(),
            read_all(items@, read, i as int) == Ok::<Seq<ClauseView>, GrammarError>(
                clause_views(matches@),
            ),
        decreases items.len() - i,
    {
        match read_clause(&items[i]) {
            Ok(clause) => {
                let ghost before = clause_views(matches@);
                matches.push(clause);
                assert(clause_views(matches@) =~= before.push(clause@));
            },
            Err(e) => {
                proof {
                    assert(read(items@[i as int]) is Err);
                    assert(read_all(items@, read, i as int + 1) is Err);
                    lemma_read_all_fails(items@, read, i as int + 1, items.len() as int);
                }
                return Err(e);
            },
        }
        i += 1;
    }
    let replace = match read_text(v, "replace") {
        Ok(s) => s,
        Err(e) => { return Err(e); },
    };
    Ok(Rule { matches, replace: String::from_str(replace) })
}

/// Reads a pattern from the object `v`.
#[verifier::loop_isolation(false)]
pub fn read_pattern(v: &Value) -> (r: Result<Pattern, GrammarError>)
    ensures
        gives(r, pattern_of(*v)),
{
    let find = match read_text(v, "find") {
        Ok(s) => s,
        Err(e) => { return Err(e); },
    };
    let replace = match read_text(v, "replace") {
        Ok(s) => s,
        Err(e) => { return Err(e); },
    };
    let items = match read_array(v, "rules") {
        Ok(items) => items,
        Err(e) => { return Err(e); },
    };
    let ghost read = rule_reader();
    let mut rules: Vec<Rule> = Vec::new();
    let mut i: usize = 0;
    assert(rule_views(rules@) =~= Seq::empty());
    while i < items.len()
        invariant
            i <= items.len(),
            read == rule_reader(),
            read_all(items@, read, i as int) == Ok::<Seq<RuleView>, GrammarError>(
                rule_views(rules@),
            ),
        decreases items.len() - i,
    {
        match read_rule(&items[i]) {
            Ok(rule) => {
                let ghost before = rule_views(rules@);
                rules.push(rule);
                assert(rule_views(rules@) =~= before.push(rule@));
            },
            Err(e) => {
                proof {
                    assert(read(items@[i as int]) is Err);
                    assert(read_all(items@, read, i as int + 1) is Err);
                    lemma_read_all_fails(items@, read, i as int + 1, items.len() as int);
                }
                return Err(e);
            },
        }
        i += 1;
    }
    Ok(Pattern { find: to_chars(find), replace: String::from_str(replace), rules })
}

/// Reads a grammar from the object `v`. The grammar is as written: whether
/// its table is usable is for [`Grammar::check`] to say.
#[verifier::loop_isolation(false)]
pub fn read_grammar(v: &Value) -> (r: Result<Grammar, GrammarError>)
    ensures
        gives(r, grammar_of(*v)),
{
    let items = match read_array(v, "patterns") {
        Ok(items) => items,
        Err(e) => { return Err(e); },
    };
    let vowel = match read_text(v, "vowel") {
        Ok(s) => s,
        Err(e) => { return Err(e); },
    };
    let consonant = match read_text(v, "consonant") {
        Ok(s) => s,
        Err(e) => { return Err(e); },
    };
    let number = match read_text(v, "number") {
        Ok(s) => s,
        Err(e) => { return Err(e); },
    };
    let case_sensitive = match read_text(v, "casesensitive") {
        Ok(s) => s,
        Err(e) => { return Err(e); },
    };
    let ghost read = pattern_reader();
    let mut patterns: Vec<Pattern> = Vec::new();
    let mut i: usize = 0;
    assert(pattern_views(patterns@) =~= Seq::empty());
    while i < items.len()
        invariant
            i <= items.len(),
            read == pattern_reader(),
            read_all(items@, read, i as int) == Ok::<Seq<PatternView>, GrammarError>(
                pattern_views(patterns@),
            ),
        decreases items.len() - i,
    {
        match read_pattern(&items[i]) {
            Ok(pattern) => {
                let ghost before = pattern_views(patterns@);
                patterns.push(pattern);
                assert(pattern_views(patterns@) =~= before.push(pattern@));
            },
            Err(e) => {
                proof {
                    assert(read(items@[i as int]) is Err);
                    assert(read_all(items@, read, i as int + 1) is Err);
                    lemma_read_all_fails(items@, read, i as int + 1, items.len() as int);
                }
                return Err(e);
            },
        }
        i += 1;
    }
    Ok(Grammar::new(vowel, consonant, number, case_sensitive, patterns))
}

/// The grammar that the outcome of parsing a text gives: the grammar read
/// from the document where the text was one, and `Syntax` where it was none.
pub fn grammar_from_document(document: Result<Value, serde_json::Error>) -> (r: Result<
    Grammar,
    GrammarError,
>)
    ensures
        match document {
            Ok(v) => gives(r, grammar_of(v)),
            Err(_) => r matches Err(e) && e == GrammarError::Syntax,
        },
{
    match document {
        Ok(v) => read_grammar(&v),
        Err(_) => Err(GrammarError::Syntax),
    }
}

/// Reads a grammar from the JSON text `text`.
pub fn parse_grammar(text: &str) -> (r: Result<Grammar, GrammarError>)
    ensures
        gives(r, grammar_written(text@)),
{
    grammar_from_document(parse_document(text))
}

/// Once reading has failed within the first `n` items it has failed for
/// every greater number of items, with the same error.
pub proof fn lemma_read_all_fails<T>(
    items: Seq<Value>,
    read: spec_fn(Value) -> Result<T, GrammarError>,
    n: int,
    m: int,
)
    requires
        n <= m,
        read_all(items, read, n) is Err,
    ensures
        read_all(items, read, m) == read_all(items, read, n),
    decreases m - n,
{
    if n < m {
        lemma_read_all_fails(items, read, n, m - 1);
    }
}

} // verus!
