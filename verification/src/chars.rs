//! Characters, character classes and the order on spellings.
use vstd::prelude::*;

verus! {

/// The ASCII lower-case form of `c`: `'A'..='Z'` map to `'a'..='z'`, every
/// other character is itself.
pub open spec fn ascii_lower(c: char) -> char {
    if 'A' <= c && c <= 'Z' {
        ((c as u8) + 32) as char
    } else {
        c
    }
}

/// `s` with every character lower-cased within ASCII.
pub open spec fn ascii_lower_seq(s: Seq<char>) -> Seq<char> {
    Seq::new(s.len(), |i: int| ascii_lower(s[i]))
}

/// `needle` occurs in `hay` as a contiguous run. The empty sequence occurs in
/// every sequence.
pub open spec fn occurs_in(needle: Seq<char>, hay: Seq<char>) -> bool {
    exists|i: int| #[trigger] occurs_at(needle, hay, i)
}

/// `needle` occurs in `hay` starting at index `i`.
pub open spec fn occurs_at(needle: Seq<char>, hay: Seq<char>, i: int) -> bool {
    &&& 0 <= i
    &&& i + needle.len() <= hay.len()
    &&& hay.subrange(i, i + needle.len()) == needle
}

/// How two spellings stand to each other.
#[derive(Clone, Copy, Debug, PartialEq, Eq, Structural)]
pub enum Relation {
    Before,
    Same,
    After,
}

/// `a` and `b` have the same characters at every index below `k`.
pub open spec fn agree_below(a: Seq<char>, b: Seq<char>, k: int) -> bool {
    forall|m: int| 0 <= m < k ==> a[m] == b[m]
}

/// `k` is the first index at which `a` falls behind `b`: they agree below
/// `k`, and there `a` either ends while `b` goes on, or holds the smaller
/// character.
pub open spec fn lex_lt_at(a: Seq<char>, b: Seq<char>, k: int) -> bool {
    &&& 0 <= k <= a.len()
    &&& k < b.len()
    &&& agree_below(a, b, k)
    &&& (k < a.len() ==> a[k] < b[k])
}

/// `a` comes strictly before `b` in the lexicographic order by code point.
pub open spec fn lex_lt(a: Seq<char>, b: Seq<char>) -> bool {
    exists|k: int| #[trigger] lex_lt_at(a, b, k)
}

/// The order of the pattern table: longer spellings first, and among
/// spellings of one length the lexicographically smaller first.
pub open spec fn spelling_before(a: Seq<char>, b: Seq<char>) -> bool {
    a.len() > b.len() || (a.len() == b.len() && lex_lt(a, b))
}

/// No spelling comes before itself.
pub proof fn lemma_spelling_before_irreflexive(a: Seq<char>)
    ensures
        !spelling_before(a, a),
{
    if lex_lt(a, a) {
        let k = choose|k: int| #[trigger] lex_lt_at(a, a, k);
        assert(lex_lt_at(a, a, k));
    }
}

/// Of two spellings at most one comes before the other.
pub proof fn lemma_spelling_before_asymmetric(a: Seq<char>, b: Seq<char>)
    requires
        spelling_before(a, b),
    ensures
        !spelling_before(b, a),
{
    if a.len() == b.len() && lex_lt(b, a) {
        let k = choose|k: int| #[trigger] lex_lt_at(a, b, k);
        let j = choose|j: int| #[trigger] lex_lt_at(b, a, j);
        assert(lex_lt_at(a, b, k));
        assert(lex_lt_at(b, a, j));
        if k < j {
            assert(b[k] == a[k]);
        } else if j < k {
            assert(a[j] == b[j]);
        }
    }
}

/// The table order is transitive.
pub proof fn lemma_spelling_before_transitive(a: Seq<char>, b: Seq<char>, c: Seq<char>)
    requires
        spelling_before(a, b),
        spelling_before(b, c),
    ensures
        spelling_before(a, c),
{
    if a.len() == b.len() && b.len() == c.len() {
        let k = choose|k: int| #[trigger] lex_lt_at(a, b, k);
        let j = choose|j: int| #[trigger] lex_lt_at(b, c, j);
        assert(lex_lt_at(a, b, k));
        assert(lex_lt_at(b, c, j));
        let m = if k <= j { k } else { j };
        assert(agree_below(a, c, m)) by {
            assert forall|i: int| 0 <= i < m implies a[i] == c[i] by {
                assert(a[i] == b[i]);
                assert(b[i] == c[i]);
            }
        }
        if k < j {
            assert(b[k] == c[k]);
        } else if j < k {
            assert(a[j] == b[j]);
        }
        assert(lex_lt_at(a, c, m));
    }
}

/// A single character occurs in a class as a run exactly if it is a member.
pub proof fn lemma_single_char_occurs(c: char, class: Seq<char>)
    ensures
        occurs_in(seq![c], class) == class.contains(c),
{
    if class.contains(c) {
        let i = choose|i: int| 0 <= i < class.len() && class[i] == c;
        assert(class.subrange(i, i + 1) =~= seq![c]);
        assert(occurs_at(seq![c], class, i));
    }
    if occurs_in(seq![c], class) {
        let i = choose|i: int| #[trigger] occurs_at(seq![c], class, i);
        assert(class.subrange(i, i + 1)[0] == c);
    }
}

/// A string of one character, lower-cased, occurs in a class exactly if the
/// character, lower-cased, is a member.
pub proof fn lemma_lowered_char_occurs(s: Seq<char>, class: Seq<char>)
    ensures
        s.len() == 1 ==> occurs_in(ascii_lower_seq(s), class) == class.contains(ascii_lower(s[0])),
{
    if s.len() == 1 {
        assert(ascii_lower_seq(s) =~= seq![ascii_lower(s[0])]);
        lemma_single_char_occurs(ascii_lower(s[0]), class);
    }
}

/// Lower-cases one character within ASCII.
pub fn to_ascii_lower(c: char) -> (r: char)
    ensures
        r == ascii_lower(c),
{
    if 'A' <= c && c <= 'Z' {
        let b: u8 = c as u8;
        (b + 32) as char
    } else {
        c
    }
}

/// The characters of `s`, in order.
pub fn to_chars(s: &str) -> (v: Vec<char>)
    ensures
        v@ == s@,
{
    let mut v: Vec<char> = Vec::new();
    for c in it: s.chars()
        invariant
            it.seq() == s@,
            v@ == s@.take(it.index() as int),
    {
        v.push(c);
    }
    v
}

/// Whether `c` is one of the characters of `class`.
pub fn class_contains(class: &Vec<char>, c: char) -> (found: bool)
    ensures
        found == class@.contains(c),
{
    let mut i: usize = 0;
    while i < class.len()
        invariant
            i <= class.len(),
            forall|j: int| 0 <= j < i ==> class@[j] != c,
        decreases class.len() - i,
    {
        if class[i] == c {
            return true;
        }
        i += 1;
    }
    false
}

/// Whether `hay` holds the characters of `needle` from index `at` on.
pub fn window_equals(hay: &Vec<char>, at: usize, needle: &Vec<char>) -> (same: bool)
    ensures
        same == occurs_at(needle@, hay@, at as int),
{
    if at > hay.len() || needle.len() > hay.len() - at {
        return false;
    }
    let mut k: usize = 0;
    while k < needle.len()
        invariant
            k <= needle.len(),
            at + needle.len() <= hay.len(),
            forall|m: int| 0 <= m < k ==> hay@[at + m] == needle@[m],
        decreases needle.len() - k,
    {
        if hay[at + k] != needle[k] {
            assert(hay@.subrange(at as int, at + needle.len())[k as int] != needle@[k as int]);
            return false;
        }
        k += 1;
    }
    assert(hay@.subrange(at as int, at + needle.len()) =~= needle@);
    true
}

/// Whether `needle`, lower-cased within ASCII, occurs in `hay` as a
/// contiguous run.
pub fn contains_lowered(hay: &Vec<char>, needle: &Vec<char>) -> (found: bool)
    ensures
        found == occurs_in(ascii_lower_seq(needle@), hay@),
{
    let lowered = lower_all(needle);
    contains_run(hay, &lowered)
}

/// Lower-cases every character of `s` within ASCII.
pub fn lower_all(s: &Vec<char>) -> (r: Vec<char>)
    ensures
        r@ == ascii_lower_seq(s@),
{
    let mut r: Vec<char> = Vec::new();
    let mut i: usize = 0;
    while i < s.len()
        invariant
            i <= s.len(),
            r@.len() == i,
            forall|j: int| 0 <= j < i ==> r@[j] == ascii_lower(s@[j]),
        decreases s.len() - i,
    {
        r.push(to_ascii_lower(s[i]));
        i += 1;
    }
    assert(r@ =~= ascii_lower_seq(s@));
    r
}

/// Whether `needle` occurs in `hay` as a contiguous run.
pub fn contains_run(hay: &Vec<char>, needle: &Vec<char>) -> (found: bool)
    ensures
        found == occurs_in(needle@, hay@),
{
    if needle.len() > hay.len() {
        assert forall|i: int| !#[trigger] occurs_at(needle@, hay@, i) by {}
        return false;
    }
    let last: usize = hay.len() - needle.len();
    let mut i: usize = 0;
    loop
        invariant
            i <= last,
            last == hay.len() - needle.len(),
            forall|j: int| 0 <= j < i ==> !#[trigger] occurs_at(needle@, hay@, j),
        decreases last - i,
    {
        if window_equals(hay, i, needle) {
            assert(occurs_at(needle@, hay@, i as int));
            return true;
        }
        if i == last {
            assert forall|j: int| !#[trigger] occurs_at(needle@, hay@, j) by {}
            return false;
        }
        i += 1;
    }
}

/// Compares the spelling `a` with the run of `b` that starts at `at` and has
/// the length of `a`, character by character.
pub fn compare_window(a: &Vec<char>, b: &Vec<char>, at: usize) -> (r: Relation)
    requires
        at + a.len() <= b.len(),
    ensures
        ({
            let w = b@.subrange(at as int, at + a.len());
            match r {
                Relation::Before => lex_lt(a@, w),
                Relation::Same => a@ == w,
                Relation::After => lex_lt(w, a@),
            }
        }),
{
    let ghost w = b@.subrange(at as int, at + a.len());
    let mut k: usize = 0;
    while k < a.len()
        invariant
            k <= a.len(),
            at + a.len() <= b.len(),
            w == b@.subrange(at as int, at + a.len()),
            agree_below(a@, w, k as int),
        decreases a.len() - k,
    {
        let x = a[k];
        let y = b[at + k];
        assert(y == w[k as int]);
        if x < y {
            assert(lex_lt_at(a@, w, k as int));
            return Relation::Before;
        }
        if y < x {
            assert(agree_below(w, a@, k as int));
            assert(lex_lt_at(w, a@, k as int));
            return Relation::After;
        }
        k += 1;
    }
    assert(a@ =~= w);
    Relation::Same
}

} // verus!
