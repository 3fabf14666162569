//! Text as a sequence of characters: searching, trimming, splitting and joining.
//!
//! Every function works on whole characters, so no result ever depends on where
//! a byte of an encoding falls.
use vstd::prelude::*;
use crate::outside::{is_alphanumeric, is_alphanumeric_char};

verus! {

broadcast use vstd::seq_lib::group_seq_properties;

// ---------------------------------------------------------------------------
// Characters
// ---------------------------------------------------------------------------

/// The characters with the Unicode property `White_Space`.
pub open spec fn is_white(c: char) -> bool {
    ||| '\u{9}' <= c <= '\u{d}'
    ||| c == ' '
    ||| c == '\u{85}'
    ||| c == '\u{a0}'
    ||| c == '\u{1680}'
    ||| '\u{2000}' <= c <= '\u{200a}'
    ||| c == '\u{2028}'
    ||| c == '\u{2029}'
    ||| c == '\u{202f}'
    ||| c == '\u{205f}'
    ||| c == '\u{3000}'
}

/// Whether a character is white space.
pub fn white(c: char) -> (r: bool)
    ensures
        r == is_white(c),
{
    ('\u{9}' <= c && c <= '\u{d}') || c == ' ' || c == '\u{85}' || c == '\u{a0}' || c == '\u{1680}'
        || ('\u{2000}' <= c && c <= '\u{200a}') || c == '\u{2028}' || c == '\u{2029}' || c
        == '\u{202f}' || c == '\u{205f}' || c == '\u{3000}'
}

/// The characters of the general category `Cc`.
pub open spec fn is_control(c: char) -> bool {
    c <= '\u{1f}' || '\u{7f}' <= c <= '\u{9f}'
}

/// The decimal digits of ASCII.
pub open spec fn is_digit(c: char) -> bool {
    '0' <= c <= '9'
}

/// Whether a character is an ASCII digit.
pub fn digit(c: char) -> (r: bool)
    ensures
        r == is_digit(c),
{
    '0' <= c && c <= '9'
}

/// An ASCII capital in lower case, any other character unchanged.
pub open spec fn lower(c: char) -> char {
    if 'A' <= c <= 'Z' {
        (c as u8 + 32) as u8 as char
    } else {
        c
    }
}

/// An ASCII small letter in upper case, any other character unchanged.
pub open spec fn upper(c: char) -> char {
    if 'a' <= c <= 'z' {
        (c as u8 - 32) as u8 as char
    } else {
        c
    }
}

/// Lower-cases one ASCII character.
pub fn lower_char(c: char) -> (r: char)
    ensures
        r == lower(c),
{
    if 'A' <= c && c <= 'Z' {
        (c as u8 + 32) as char
    } else {
        c
    }
}

/// Upper-cases one ASCII character.
pub fn upper_char(c: char) -> (r: char)
    ensures
        r == upper(c),
{
    if 'a' <= c && c <= 'z' {
        (c as u8 - 32) as char
    } else {
        c
    }
}

/// A set of characters at which text is trimmed or cut.
#[derive(Clone, Copy)]
pub enum CharClass {
    /// White space.
    White,
    /// Anything that is neither a letter nor a number.
    NotAlphanumeric,
    /// Anything that is not an ASCII digit.
    NotDigit,
    /// Dots, blanks and underscores.
    StemEdge,
    /// The start of the query or of the fragment of a URL.
    UrlTail,
    /// The slash and the dot.
    SlashOrDot,
    /// One character.
    Is(char),
}

impl CharClass {
    /// Membership in the class.
    pub open spec fn holds(self, c: char) -> bool {
        match self {
            CharClass::White => is_white(c),
            CharClass::NotAlphanumeric => !is_alphanumeric(c),
            CharClass::NotDigit => !is_digit(c),
            CharClass::StemEdge => c == '.' || c == ' ' || c == '_',
            CharClass::UrlTail => c == '?' || c == '#',
            CharClass::SlashOrDot => c == '/' || c == '.',
            CharClass::Is(x) => c == x,
        }
    }

    /// Whether a character belongs to the class.
    pub fn has(self, c: char) -> (r: bool)
        ensures
            r == self.holds(c),
    {
        match self {
            CharClass::White => white(c),
            CharClass::NotAlphanumeric => !is_alphanumeric_char(c),
            CharClass::NotDigit => !digit(c),
            CharClass::StemEdge => c == '.' || c == ' ' || c == '_',
            CharClass::UrlTail => c == '?' || c == '#',
            CharClass::SlashOrDot => c == '/' || c == '.',
            CharClass::Is(x) => c == x,
        }
    }
}

// ---------------------------------------------------------------------------
// Between text and characters
// ---------------------------------------------------------------------------

/// The characters of a text.
pub fn chars_of(s: &str) -> (v: Vec<char>)
    ensures
        v@ == s@,
{
    let mut v: Vec<char> = Vec::new();
    for c in it: s.chars()
        invariant
            it.seq() == s@,
            v@ == s@.take(it.index() as int),
    {
        v.push(c);
    }
    proof {
        assert(s@.take(s@.len() as int) =~= s@);
    }
    v
}

/// The text that a run of characters spells, from `from` up to `to`.
pub fn text_range(v: &[char], from: usize, to: usize) -> (s: String)
    requires
        from <= to <= v@.len(),
    ensures
        s@ == v@.subrange(from as int, to as int),
{
    let mut s = String::new();
    let mut i: usize = from;
    while i < to
        invariant
            from <= i <= to <= v@.len(),
            s@ == v@.subrange(from as int, i as int),
        decreases to - i,
    {
        s.push(v[i]);
        i = i + 1;
        assert(v@.subrange(from as int, i as int) =~= v@.subrange(from as int, i - 1).push(
            v@[i - 1],
        ));
    }
    s
}

/// The text that a run of characters spells.
pub fn text_of(v: &[char]) -> (s: String)
    ensures
        s@ == v@,
{
    let s = text_range(v, 0, v.len());
    proof {
        assert(v@.subrange(0, v@.len() as int) =~= v@);
    }
    s
}

/// An owned copy of a text.
pub fn copy_text(s: &str) -> (r: String)
    ensures
        r@ == s@,
{
    text_of(chars_of(s).as_slice())
}

/// The contents of a list of texts.
pub open spec fn texts(v: Seq<String>) -> Seq<Seq<char>> {
    Seq::new(v.len(), |i: int| v[i]@)
}

/// The contents of an optional text.
pub open spec fn text_opt(v: Option<String>) -> Option<Seq<char>> {
    match v {
        Some(s) => Some(s@),
        None => None,
    }
}

/// A copy of an optional text.
pub fn copy_opt(s: &Option<String>) -> (r: Option<String>)
    ensures
        text_opt(r) == text_opt(*s),
{
    match s {
        Some(s) => Some(copy_text(s.as_str())),
        None => None,
    }
}

// ---------------------------------------------------------------------------
// Equality
// ---------------------------------------------------------------------------

/// Whether two runs of characters are equal.
pub fn same_chars(a: &[char], b: &[char]) -> (r: bool)
    ensures
        r == (a@ == b@),
{
    if a.len() != b.len() {
        return false;
    }
    let mut i: usize = 0;
    while i < a.len()
        invariant
            i <= a@.len() == b@.len(),
            forall|j: int| 0 <= j < i ==> a@[j] == b@[j],
        decreases a@.len() - i,
    {
        if a[i] != b[i] {
            return false;
        }
        i = i + 1;
    }
    assert(a@ =~= b@);
    true
}

/// Whether two texts are equal.
pub fn same_text(a: &str, b: &str) -> (r: bool)
    ensures
        r == (a@ == b@),
{
    same_chars(chars_of(a).as_slice(), chars_of(b).as_slice())
}

/// Whether two optional texts are equal.
pub fn same_text_opt(a: &Option<String>, b: &Option<String>) -> (r: bool)
    ensures
        r == (text_opt(*a) == text_opt(*b)),
{
    match (a, b) {
        (Some(a), Some(b)) => same_text(a.as_str(), b.as_str()),
        (None, None) => true,
        _ => false,
    }
}

/// A text with its ASCII capitals in lower case.
pub open spec fn lower_text(s: Seq<char>) -> Seq<char> {
    s.map_values(|c: char| lower(c))
}

/// A text with its ASCII small letters in upper case.
pub open spec fn upper_text(s: Seq<char>) -> Seq<char> {
    s.map_values(|c: char| upper(c))
}

/// Lower-cases the ASCII letters of a text.
pub fn to_lower(s: &str) -> (r: String)
    ensures
        r@ == lower_text(s@),
{
    let v = chars_of(s);
    let mut r = String::new();
    let mut i: usize = 0;
    while i < v.len()
        invariant
            v@ == s@,
            i <= v@.len(),
            r@ =~= lower_text(s@).take(i as int),
        decreases v@.len() - i,
    {
        r.push(lower_char(v[i]));
        i = i + 1;
    }
    assert(lower_text(s@).take(s@.len() as int) =~= lower_text(s@));
    r
}

/// Upper-cases the ASCII letters of a text.
pub fn to_upper(s: &str) -> (r: String)
    ensures
        r@ == upper_text(s@),
{
    let v = chars_of(s);
    let mut r = String::new();
    let mut i: usize = 0;
    while i < v.len()
        invariant
            v@ == s@,
            i <= v@.len(),
            r@ =~= upper_text(s@).take(i as int),
        decreases v@.len() - i,
    {
        r.push(upper_char(v[i]));
        i = i + 1;
    }
    assert(upper_text(s@).take(s@.len() as int) =~= upper_text(s@));
    r
}

/// Equality up to the case of ASCII letters.
pub open spec fn eq_no_case(a: Seq<char>, b: Seq<char>) -> bool {
    lower_text(a) == lower_text(b)
}

/// Whether two texts are equal up to the case of ASCII letters.
pub fn same_no_case(a: &str, b: &str) -> (r: bool)
    ensures
        r == eq_no_case(a@, b@),
{
    same_text(to_lower(a).as_str(), to_lower(b).as_str())
}

// ---------------------------------------------------------------------------
// Searching
// ---------------------------------------------------------------------------

/// Whether `pat` stands in `s` at position `i`.
pub open spec fn occurs_at(s: Seq<char>, pat: Seq<char>, i: int) -> bool {
    0 <= i && i + pat.len() <= s.len() && s.subrange(i, i + pat.len()) == pat
}

/// Whether `pat` stands in `s` anywhere.
pub open spec fn has(s: Seq<char>, pat: Seq<char>) -> bool {
    exists|i: int| occurs_at(s, pat, i)
}

/// Whether `s` begins with `pat`.
pub open spec fn begins(s: Seq<char>, pat: Seq<char>) -> bool {
    occurs_at(s, pat, 0)
}

/// The first position at or after `from` at which `pat` stands in `s`.
pub open spec fn first_at(s: Seq<char>, pat: Seq<char>, from: int) -> Option<int>
    decreases s.len() + 1 - from,
{
    if from < 0 || from + pat.len() > s.len() {
        None
    } else if occurs_at(s, pat, from) {
        Some(from)
    } else {
        first_at(s, pat, from + 1)
    }
}

/// The last position at or before `from` at which `pat` stands in `s`.
pub open spec fn last_at(s: Seq<char>, pat: Seq<char>, from: int) -> Option<int>
    decreases from + 1,
{
    if from < 0 {
        None
    } else if occurs_at(s, pat, from) {
        Some(from)
    } else {
        last_at(s, pat, from - 1)
    }
}

/// `last_at` finds an occurrence if there is one up to `from`, and then the last.
pub proof fn lemma_last_at(s: Seq<char>, pat: Seq<char>, from: int)
    ensures
        match last_at(s, pat, from) {
            Some(i) => 0 <= i <= from && occurs_at(s, pat, i) && forall|j: int|
                i < j <= from ==> !occurs_at(s, pat, j),
            None => forall|j: int| 0 <= j <= from ==> !occurs_at(s, pat, j),
        },
    decreases from + 1,
{
    if from >= 0 && !occurs_at(s, pat, from) {
        lemma_last_at(s, pat, from - 1);
    }
}

/// The first position of `pat` in `s`.
pub open spec fn find(s: Seq<char>, pat: Seq<char>) -> Option<int> {
    first_at(s, pat, 0)
}

/// The last position of `pat` in `s`.
pub open spec fn rfind(s: Seq<char>, pat: Seq<char>) -> Option<int> {
    last_at(s, pat, s.len() as int)
}

/// `first_at` finds an occurrence if there is one from `from` on, and then the first.
pub proof fn lemma_first_at(s: Seq<char>, pat: Seq<char>, from: int)
    requires
        0 <= from,
    ensures
        match first_at(s, pat, from) {
            Some(i) => from <= i && occurs_at(s, pat, i) && forall|j: int|
                from <= j < i ==> !occurs_at(s, pat, j),
            None => forall|j: int| from <= j ==> !occurs_at(s, pat, j),
        },
    decreases s.len() + 1 - from,
{
    if from + pat.len() > s.len() {
    } else if occurs_at(s, pat, from) {
    } else {
        lemma_first_at(s, pat, from + 1);
    }
}

/// A text holds a pattern exactly when the pattern has a first position in it.
pub proof fn lemma_has_find(s: Seq<char>, pat: Seq<char>)
    ensures
        has(s, pat) <==> find(s, pat) is Some,
        find(s, pat) matches Some(i) ==> 0 <= i && i + pat.len() <= s.len(),
{
    lemma_first_at(s, pat, 0);
    if find(s, pat) is Some {
        assert(occurs_at(s, pat, find(s, pat)->0));
    }
}

/// Whether `pat` stands in `s` at position `i`.
pub fn stands_at(s: &[char], pat: &[char], i: usize) -> (r: bool)
    ensures
        r == occurs_at(s@, pat@, i as int),
{
    if pat.len() > s.len() || i > s.len() - pat.len() {
        return false;
    }
    let mut j: usize = 0;
    while j < pat.len()
        invariant
            j <= pat@.len(),
            i + pat@.len() <= s@.len() <= usize::MAX,
            forall|k: int| 0 <= k < j ==> s@[i + k] == pat@[k],
        decreases pat@.len() - j,
    {
        if s[i + j] != pat[j] {
            proof {
                assert(s@.subrange(i as int, i + pat@.len())[j as int] != pat@[j as int]);
            }
            return false;
        }
        j = j + 1;
    }
    assert(s@.subrange(i as int, i + pat@.len()) =~= pat@);
    true
}

/// The first position at or after `from` at which `pat` stands in `s`.
pub fn find_from(s: &[char], pat: &[char], from: usize) -> (r: Option<usize>)
    ensures
        match r {
            Some(i) => first_at(s@, pat@, from as int) == Some(i as int) && i + pat@.len()
                <= s@.len(),
            None => first_at(s@, pat@, from as int) is None,
        },
{
    if pat.len() > s.len() {
        return None;
    }
    let last: usize = s.len() - pat.len();
    let mut i: usize = from;
    while i <= last
        invariant
            last == s@.len() - pat@.len(),
            first_at(s@, pat@, from as int) == first_at(s@, pat@, i as int),
        decreases s@.len() + 1 - i,
    {
        if stands_at(s, pat, i) {
            return Some(i);
        }
        if i == last {
            proof {
                assert(first_at(s@, pat@, i + 1) is None);
            }
            return None;
        }
        i = i + 1;
    }
    None
}

/// The last position of `pat` in `s`.
pub fn find_last(s: &[char], pat: &[char]) -> (r: Option<usize>)
    ensures
        match r {
            Some(i) => rfind(s@, pat@) == Some(i as int) && i + pat@.len() <= s@.len(),
            None => rfind(s@, pat@) is None,
        },
{
    let mut i: usize = s.len();
    loop
        invariant
            i <= s@.len(),
            rfind(s@, pat@) == last_at(s@, pat@, i as int),
        decreases i,
    {
        if stands_at(s, pat, i) {
            return Some(i);
        }
        if i == 0 {
            proof {
                assert(last_at(s@, pat@, -1) is None);
            }
            return None;
        }
        i = i - 1;
    }
}

/// Whether `pat` stands in `s` anywhere.
pub fn holds_text(s: &str, pat: &str) -> (r: bool)
    ensures
        r == has(s@, pat@),
{
    proof {
        lemma_has_find(s@, pat@);
    }
    find_from(chars_of(s).as_slice(), chars_of(pat).as_slice(), 0).is_some()
}

/// Whether `s` begins with `pat`.
pub fn begins_with(s: &str, pat: &str) -> (r: bool)
    ensures
        r == begins(s@, pat@),
{
    stands_at(chars_of(s).as_slice(), chars_of(pat).as_slice(), 0)
}

/// The rest of `s` behind a leading `pat`, if `s` begins with it.
pub fn without_prefix(s: &str, pat: &str) -> (r: Option<String>)
    ensures
        match r {
            Some(rest) => begins(s@, pat@) && rest@ == s@.skip(pat@.len() as int),
            None => !begins(s@, pat@),
        },
{
    let v = chars_of(s);
    let p = chars_of(pat);
    if stands_at(v.as_slice(), p.as_slice(), 0) {
        Some(text_range(v.as_slice(), p.len(), v.len()))
    } else {
        None
    }
}

// ---------------------------------------------------------------------------
// Trimming and cutting
// ---------------------------------------------------------------------------

/// A text without the characters of a class at its front.
pub open spec fn trim_start(s: Seq<char>, k: CharClass) -> Seq<char>
    decreases s.len(),
{
    if s.len() > 0 && k.holds(s[0]) {
        trim_start(s.skip(1), k)
    } else {
        s
    }
}

/// A text without the characters of a class at its back.
pub open spec fn trim_end(s: Seq<char>, k: CharClass) -> Seq<char>
    decreases s.len(),
{
    if s.len() > 0 && k.holds(s.last()) {
        trim_end(s.drop_last(), k)
    } else {
        s
    }
}

/// A text without the characters of a class at either end.
pub open spec fn trim(s: Seq<char>, k: CharClass) -> Seq<char> {
    trim_end(trim_start(s, k), k)
}

/// The part of a text before its first character of a class; all of it if there is none.
pub open spec fn before(s: Seq<char>, k: CharClass) -> Seq<char>
    decreases s.len(),
{
    if s.len() == 0 || k.holds(s[0]) {
        Seq::empty()
    } else {
        seq![s[0]] + before(s.skip(1), k)
    }
}

/// The part of a text behind its last character of a class; all of it if there is none.
pub open spec fn after_last(s: Seq<char>, k: CharClass) -> Seq<char>
    decreases s.len(),
{
    if s.len() == 0 || k.holds(s.last()) {
        Seq::empty()
    } else {
        after_last(s.drop_last(), k).push(s.last())
    }
}

/// Where a text is cut by the first character of a class.
pub proof fn lemma_before(s: Seq<char>, k: CharClass, n: int)
    requires
        0 <= n <= s.len(),
        forall|j: int| 0 <= j < n ==> !k.holds(s[j]),
        n == s.len() || k.holds(s[n]),
    ensures
        before(s, k) == s.take(n),
    decreases n,
{
    if n > 0 {
        lemma_before(s.skip(1), k, n - 1);
        assert(s.take(n) =~= seq![s[0]] + s.skip(1).take(n - 1));
    } else {
        assert(s.take(0) =~= Seq::empty());
    }
}

/// `before` is the longest beginning free of the class.
pub proof fn lemma_before_prefix(s: Seq<char>, k: CharClass)
    ensures
        before(s, k).len() <= s.len(),
        before(s, k) == s.take(before(s, k).len() as int),
        forall|j: int| 0 <= j < before(s, k).len() ==> !k.holds(#[trigger] s[j]),
        before(s, k).len() < s.len() ==> k.holds(s[before(s, k).len() as int]),
    decreases s.len(),
{
    if s.len() == 0 || k.holds(s[0]) {
        assert(s.take(0) =~= Seq::empty());
    } else {
        lemma_before_prefix(s.skip(1), k);
        let n = before(s.skip(1), k).len() as int;
        assert(s.take(n + 1) =~= seq![s[0]] + s.skip(1).take(n));
        assert forall|j: int| 0 <= j < n + 1 implies !k.holds(#[trigger] s[j]) by {
            if j > 0 {
                assert(s[j] == s.skip(1)[j - 1]);
            }
        }
    }
}

/// A text without an edge of the class is not shortened by trimming.
pub proof fn lemma_nothing_to_trim(s: Seq<char>, k: CharClass)
    requires
        s.len() > 0,
        !k.holds(s[0]),
        !k.holds(s.last()),
    ensures
        trim(s, k) == s,
{
}

/// Where a text is cut by the last character of a class.
pub proof fn lemma_after_last(s: Seq<char>, k: CharClass, n: int)
    requires
        0 <= n <= s.len(),
        forall|j: int| n <= j < s.len() ==> !k.holds(s[j]),
        n == 0 || k.holds(s[n - 1]),
    ensures
        after_last(s, k) == s.skip(n),
    decreases s.len(),
{
    if n == s.len() {
        assert(s.skip(n) =~= Seq::empty());
    } else {
        lemma_after_last(s.drop_last(), k, n);
        assert(s.skip(n) =~= s.drop_last().skip(n).push(s.last()));
    }
}

/// The bounds of a text trimmed at both ends.
pub fn trim_bounds(v: &[char], k: CharClass) -> (r: (usize, usize))
    ensures
        r.0 <= r.1 <= v@.len(),
        trim_start(v@, k) == v@.skip(r.0 as int),
        trim(v@, k) == v@.subrange(r.0 as int, r.1 as int),
{
    let mut a: usize = 0;
    assert(v@.skip(0) =~= v@);
    while a < v.len() && k.has(v[a])
        invariant
            a <= v@.len(),
            trim_start(v@, k) == trim_start(v@.skip(a as int), k),
        decreases v@.len() - a,
    {
        proof {
            assert(v@.skip(a as int).skip(1) =~= v@.skip(a + 1));
        }
        a = a + 1;
    }
    let mut b: usize = v.len();
    assert(v@.skip(a as int) =~= v@.subrange(a as int, b as int));
    while a < b && k.has(v[b - 1])
        invariant
            a <= b <= v@.len(),
            trim(v@, k) == trim_end(v@.subrange(a as int, b as int), k),
        decreases b,
    {
        proof {
            assert(v@.subrange(a as int, b as int).drop_last() =~= v@.subrange(a as int, b - 1));
        }
        b = b - 1;
    }
    (a, b)
}

/// A text without the characters of a class at either end.
pub fn trimmed(s: &str, k: CharClass) -> (r: String)
    ensures
        r@ == trim(s@, k),
{
    let v = chars_of(s);
    let (a, b) = trim_bounds(v.as_slice(), k);
    text_range(v.as_slice(), a, b)
}

/// A text without the characters of a class at its front.
pub fn trimmed_start(s: &str, k: CharClass) -> (r: String)
    ensures
        r@ == trim_start(s@, k),
{
    let v = chars_of(s);
    let (a, _) = trim_bounds(v.as_slice(), k);
    text_range(v.as_slice(), a, v.len())
}

/// A text without the characters of a class at its back.
pub fn trimmed_end(s: &str, k: CharClass) -> (r: String)
    ensures
        r@ == trim_end(s@, k),
{
    let v = chars_of(s);
    let mut b: usize = v.len();
    assert(v@.take(b as int) =~= v@);
    while 0 < b && k.has(v[b - 1])
        invariant
            b <= v@.len(),
            trim_end(v@, k) == trim_end(v@.take(b as int), k),
        decreases b,
    {
        proof {
            assert(v@.take(b as int).drop_last() =~= v@.take(b - 1));
        }
        b = b - 1;
    }
    text_range(v.as_slice(), 0, b)
}

/// The first position at or after `from` that holds a character of a class, else the length.
pub fn class_from(v: &[char], k: CharClass, from: usize) -> (r: usize)
    requires
        from <= v@.len(),
    ensures
        from <= r <= v@.len(),
        forall|j: int| from <= j < r ==> !k.holds(#[trigger] v@[j]),
        r < v@.len() ==> k.holds(v@[r as int]),
        before(v@.skip(from as int), k) == v@.subrange(from as int, r as int),
{
    let mut i: usize = from;
    while i < v.len() && !k.has(v[i])
        invariant
            from <= i <= v@.len(),
            forall|j: int| from <= j < i ==> !k.holds(#[trigger] v@[j]),
        decreases v@.len() - i,
    {
        i = i + 1;
    }
    proof {
        lemma_before(v@.skip(from as int), k, i - from);
        assert(v@.skip(from as int).take(i - from) =~= v@.subrange(from as int, i as int));
    }
    i
}

/// The part of a text before its first character of a class; all of it if there is none.
pub fn text_before(s: &str, k: CharClass) -> (r: String)
    ensures
        r@ == before(s@, k),
{
    let v = chars_of(s);
    let n = class_from(v.as_slice(), k, 0);
    assert(v@.skip(0) =~= v@);
    text_range(v.as_slice(), 0, n)
}

/// The part of a text behind its last character of a class; all of it if there is none.
pub fn text_after_last(s: &str, k: CharClass) -> (r: String)
    ensures
        r@ == after_last(s@, k),
{
    let v = chars_of(s);
    let mut n: usize = v.len();
    while 0 < n && !k.has(v[n - 1])
        invariant
            n <= v@.len(),
            forall|j: int| n <= j < v@.len() ==> !k.holds(v@[j]),
        decreases n,
    {
        n = n - 1;
    }
    proof {
        lemma_after_last(v@, k, n as int);
    }
    text_range(v.as_slice(), n, v.len())
}

/// The first characters of a text, at most `n`.
pub open spec fn take_at_most(s: Seq<char>, n: int) -> Seq<char> {
    if s.len() <= n {
        s
    } else {
        s.take(n)
    }
}

/// The first characters of a text, at most `n`.
pub fn first_chars(s: &str, n: usize) -> (r: String)
    ensures
        r@ == take_at_most(s@, n as int),
{
    let v = chars_of(s);
    let m: usize = if v.len() <= n { v.len() } else { n };
    assert(v@.take(v@.len() as int) =~= v@);
    text_range(v.as_slice(), 0, m)
}

// ---------------------------------------------------------------------------
// Splitting and joining
// ---------------------------------------------------------------------------

/// The pieces of a text between the characters of a class, empty pieces kept.
pub open spec fn split(s: Seq<char>, k: CharClass) -> Seq<Seq<char>>
    decreases s.len(),
{
    let head = before(s, k);
    if head.len() >= s.len() {
        seq![s]
    } else {
        seq![head] + split(s.skip(head.len() as int + 1), k)
    }
}

/// The pieces of two texts with a character of the class between them are the pieces of the one and
/// then those of the other.
pub proof fn law_split_joined(a: Seq<char>, c: char, b: Seq<char>, k: CharClass)
    requires
        k.holds(c),
    ensures
        split(a + seq![c] + b, k) == split(a, k) + split(b, k),
    decreases a.len(),
{
    let whole = a + seq![c] + b;
    lemma_before_prefix(a, k);
    let n = before(a, k).len() as int;
    assert(whole[a.len() as int] == c);
    assert forall|j: int| 0 <= j < n implies !k.holds(whole[j]) by {
        assert(whole[j] == a[j]);
    }
    if n == a.len() {
        lemma_before(whole, k, n);
        assert(whole.take(n) =~= a);
        assert(whole.skip(n + 1) =~= b);
    } else {
        assert(whole[n] == a[n]);
        lemma_before(whole, k, n);
        assert(whole.take(n) =~= a.take(n));
        let rest = a.skip(n + 1);
        law_split_joined(rest, c, b, k);
        assert(whole.skip(n + 1) =~= rest + seq![c] + b);
        assert(seq![a.take(n)] + (split(rest, k) + split(b, k)) =~= (seq![a.take(n)] + split(
            rest,
            k,
        )) + split(b, k));
    }
}

/// The pieces of a text between the characters of a class, empty pieces kept.
pub fn split_text(s: &str, k: CharClass) -> (r: Vec<String>)
    ensures
        texts(r@) == split(s@, k),
{
    let v = chars_of(s);
    let mut out: Vec<String> = Vec::new();
    let mut start: usize = 0;
    assert(v@.skip(0) =~= v@);
    assert(texts(out@) + split(v@, k) =~= split(v@, k));
    loop
        invariant
            v@ == s@,
            start <= v@.len(),
            texts(out@) + split(v@.skip(start as int), k) == split(s@, k),
        decreases v@.len() - start,
    {
        let end = class_from(v.as_slice(), k, start);
        let ghost tail = v@.skip(start as int);
        let ghost done = texts(out@);
        let piece = text_range(v.as_slice(), start, end);
        out.push(piece);
        assert(texts(out@) =~= done.push(piece@));
        if end == v.len() {
            proof {
                assert(v@.subrange(start as int, end as int) =~= tail);
                assert(split(tail, k) =~= seq![tail]);
                assert(texts(out@) =~= done + seq![tail]);
            }
            return out;
        }
        proof {
            assert(tail.skip(end - start + 1) =~= v@.skip(end + 1));
            assert(split(tail, k) =~= seq![piece@] + split(v@.skip(end + 1), k));
            assert(texts(out@) + split(v@.skip(end + 1), k) =~= done + split(tail, k));
        }
        start = end + 1;
    }
}

/// The runs of characters between white space.
pub open spec fn words(s: Seq<char>) -> Seq<Seq<char>>
    decreases s.len(),
{
    if s.len() == 0 {
        Seq::empty()
    } else if is_white(s[0]) {
        words(s.skip(1))
    } else {
        let w = before(s, CharClass::White);
        if w.len() >= s.len() {
            seq![s]
        } else {
            seq![w] + words(s.skip(w.len() as int + 1))
        }
    }
}

/// The runs of characters between white space.
pub fn words_of(s: &str) -> (r: Vec<String>)
    ensures
        texts(r@) == words(s@),
{
    let v = chars_of(s);
    let mut out: Vec<String> = Vec::new();
    let mut i: usize = 0;
    assert(v@.skip(0) =~= v@);
    assert(texts(out@) + words(v@) =~= words(v@));
    while i < v.len()
        invariant
            v@ == s@,
            i <= v@.len(),
            texts(out@) + words(v@.skip(i as int)) == words(s@),
        decreases v@.len() - i,
    {
        let ghost tail = v@.skip(i as int);
        if white(v[i]) {
            proof {
                assert(tail.skip(1) =~= v@.skip(i + 1));
            }
            i = i + 1;
        } else {
            let end = class_from(v.as_slice(), CharClass::White, i);
            let ghost done = texts(out@);
            let piece = text_range(v.as_slice(), i, end);
            out.push(piece);
            assert(texts(out@) =~= done.push(piece@));
            if end == v.len() {
                proof {
                    assert(piece@ =~= tail);
                    assert(words(tail) =~= seq![tail]);
                    assert(texts(out@) =~= done + seq![tail]);
                }
                return out;
            }
            proof {
                assert(tail.skip(end - i + 1) =~= v@.skip(end + 1));
                assert(words(tail) =~= seq![piece@] + words(v@.skip(end + 1)));
                assert(texts(out@) + words(v@.skip(end + 1)) =~= done + words(tail));
            }
            i = end + 1;
        }
    }
    proof {
        assert(v@.skip(i as int) =~= Seq::empty());
        assert(texts(out@) + words(v@.skip(i as int)) =~= texts(out@));
    }
    out
}

/// Texts one behind the other, with a separator between each two.
pub open spec fn join(parts: Seq<Seq<char>>, sep: Seq<char>) -> Seq<char>
    decreases parts.len(),
{
    if parts.len() == 0 {
        Seq::empty()
    } else if parts.len() == 1 {
        parts[0]
    } else {
        join(parts.drop_last(), sep) + sep + parts.last()
    }
}

/// Texts one behind the other, with a separator between each two.
pub fn join_texts(parts: &Vec<String>, sep: &str) -> (r: String)
    ensures
        r@ == join(texts(parts@), sep@),
{
    let mut r = String::new();
    let mut i: usize = 0;
    while i < parts.len()
        invariant
            i <= parts@.len(),
            r@ == join(texts(parts@).take(i as int), sep@),
        decreases parts@.len() - i,
    {
        if i > 0 {
            r.append(sep);
        }
        r.append(parts[i].as_str());
        proof {
            let t = texts(parts@).take(i + 1);
            assert(t.drop_last() =~= texts(parts@).take(i as int));
            assert(t.last() == parts@[i as int]@);
            if i == 0 {
                assert(r@ =~= t[0]);
            }
        }
        i = i + 1;
    }
    assert(texts(parts@).take(parts@.len() as int) =~= texts(parts@));
    r
}

/// Whether a list of texts holds a given one.
pub fn holds_entry(v: &Vec<String>, s: &str) -> (r: bool)
    ensures
        r == texts(v@).contains(s@),
{
    let mut i: usize = 0;
    while i < v.len()
        invariant
            i <= v@.len(),
            forall|j: int| 0 <= j < i ==> texts(v@)[j] != s@,
        decreases v@.len() - i,
    {
        if same_text(v[i].as_str(), s) {
            assert(texts(v@)[i as int] == s@);
            return true;
        }
        i = i + 1;
    }
    false
}

/// A copy of a list of texts.
pub fn copy_texts(v: &Vec<String>) -> (r: Vec<String>)
    ensures
        texts(r@) == texts(v@),
{
    let mut r: Vec<String> = Vec::new();
    let mut i: usize = 0;
    while i < v.len()
        invariant
            i <= v@.len(),
            texts(r@) =~= texts(v@).take(i as int),
        decreases v@.len() - i,
    {
        let s = copy_text(v[i].as_str());
        let ghost done = texts(r@);
        r.push(s);
        i = i + 1;
        assert(texts(r@) =~= done.push(s@));
    }
    assert(texts(v@).take(v@.len() as int) =~= texts(v@));
    r
}

// ---------------------------------------------------------------------------
// Order
// ---------------------------------------------------------------------------

/// The order of texts, by the first character in which they differ.
pub open spec fn text_less(a: Seq<char>, b: Seq<char>) -> bool
    decreases a.len(),
{
    if b.len() == 0 {
        false
    } else if a.len() == 0 {
        true
    } else if a[0] != b[0] {
        a[0] < b[0]
    } else {
        text_less(a.skip(1), b.skip(1))
    }
}

/// Whether a text comes before another.
pub fn comes_before(a: &str, b: &str) -> (r: bool)
    ensures
        r == text_less(a@, b@),
{
    let x = chars_of(a);
    let y = chars_of(b);
    let mut i: usize = 0;
    assert(x@.skip(0) =~= x@);
    assert(y@.skip(0) =~= y@);
    while i < x.len() && i < y.len()
        invariant
            i <= x@.len(),
            i <= y@.len(),
            x@ == a@,
            y@ == b@,
            text_less(a@, b@) == text_less(x@.skip(i as int), y@.skip(i as int)),
        decreases x@.len() - i,
    {
        if x[i] != y[i] {
            return x[i] < y[i];
        }
        assert(x@.skip(i as int).skip(1) =~= x@.skip(i + 1));
        assert(y@.skip(i as int).skip(1) =~= y@.skip(i + 1));
        i = i + 1;
    }
    i < y.len()
}

/// Of two texts at most one comes before the other, and only where they differ.
pub proof fn lemma_text_less(a: Seq<char>, b: Seq<char>)
    ensures
        !(text_less(a, b) && text_less(b, a)),
        !text_less(a, b) && !text_less(b, a) ==> a == b,
    decreases a.len(),
{
    if a.len() > 0 && b.len() > 0 && a[0] == b[0] {
        lemma_text_less(a.skip(1), b.skip(1));
        if a.skip(1) == b.skip(1) {
            assert(a =~= seq![a[0]] + a.skip(1));
            assert(b =~= seq![b[0]] + b.skip(1));
        }
    } else if a.len() == 0 && b.len() == 0 {
        assert(a =~= b);
    }
}

/// If a text comes before another, and that before a third, the first comes before the third.
pub proof fn lemma_text_less_chain(a: Seq<char>, b: Seq<char>, c: Seq<char>)
    requires
        text_less(a, b),
        text_less(b, c),
    ensures
        text_less(a, c),
    decreases a.len(),
{
    if a.len() > 0 && a[0] == b[0] && b[0] == c[0] {
        lemma_text_less_chain(a.skip(1), b.skip(1), c.skip(1));
    }
}

// ---------------------------------------------------------------------------
// Putting together
// ---------------------------------------------------------------------------

/// Two texts one behind the other.
pub fn cat2(a: &str, b: &str) -> (r: String)
    ensures
        r@ == a@ + b@,
{
    let mut r = copy_text(a);
    r.append(b);
    r
}

/// Three texts one behind the other.
pub fn cat3(a: &str, b: &str, c: &str) -> (r: String)
    ensures
        r@ == a@ + b@ + c@,
{
    let mut r = cat2(a, b);
    r.append(c);
    r
}

/// Four texts one behind the other.
pub fn cat4(a: &str, b: &str, c: &str, d: &str) -> (r: String)
    ensures
        r@ == a@ + b@ + c@ + d@,
{
    let mut r = cat3(a, b, c);
    r.append(d);
    r
}

/// Five texts one behind the other.
pub fn cat5(a: &str, b: &str, c: &str, d: &str, e: &str) -> (r: String)
    ensures
        r@ == a@ + b@ + c@ + d@ + e@,
{
    let mut r = cat4(a, b, c, d);
    r.append(e);
    r
}

/// Whether a text has no characters.
pub fn is_blank(s: &str) -> (r: bool)
    ensures
        r == (s@.len() == 0),
{
    chars_of(s).len() == 0
}

} // verus!
