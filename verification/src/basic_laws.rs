//! What holds of texts, numbers and JSON values.
use vstd::prelude::*;
use crate::json::{JsonV, get_either, int_in, item_in, list_in, member, text_in};
use crate::numbers::{
    all_digits, capital_hex, decimal, decimal2, digits_value, hex, hex_char, lemma_decimal,
    parse_int, parse_nat,
};
use crate::strings::{
    CharClass, after_last, before, begins, eq_no_case, find, has, is_control, is_digit, is_white,
    join, lemma_after_last, lemma_before, lemma_first_at, lemma_last_at, lower, lower_text,
    occurs_at, rfind, split, take_at_most, text_less, trim, trim_end, trim_start, upper, words,
};

verus! {

// ---------------------------------------------------------------------------
// Texts
// ---------------------------------------------------------------------------

/// What is found is the first place at which the pattern stands, or nothing if it stands nowhere.
pub proof fn law_first_place(s: Seq<char>, pat: Seq<char>, j: int)
    ensures
        find(s, pat) matches Some(i) ==> 0 <= i && i + pat.len() <= s.len() && s.subrange(
            i,
            i + pat.len(),
        ) == pat,
        0 <= j && j + pat.len() <= s.len() && s.subrange(j, j + pat.len()) == pat ==> (find(s, pat)
            matches Some(i) && i <= j),
{
    lemma_first_at(s, pat, 0);
    if 0 <= j && j + pat.len() <= s.len() && s.subrange(j, j + pat.len()) == pat {
        assert(occurs_at(s, pat, j));
    }
}

/// What is found from the end is the last place at which the pattern stands, or nothing if it stands
/// nowhere.
pub proof fn law_last_place(s: Seq<char>, pat: Seq<char>, j: int)
    ensures
        rfind(s, pat) matches Some(i) ==> 0 <= i && i + pat.len() <= s.len() && s.subrange(
            i,
            i + pat.len(),
        ) == pat,
        0 <= j && j + pat.len() <= s.len() && s.subrange(j, j + pat.len()) == pat ==> (rfind(s, pat)
            matches Some(i) && i >= j),
{
    lemma_last_at(s, pat, s.len() as int);
    if 0 <= j && j + pat.len() <= s.len() && s.subrange(j, j + pat.len()) == pat {
        assert(occurs_at(s, pat, j));
    }
}

/// A text holds every pattern around which it is put together, and begins with every beginning.
pub proof fn law_holds_its_parts(a: Seq<char>, pat: Seq<char>, b: Seq<char>)
    ensures
        has(a + pat + b, pat),
        begins(pat + b, pat),
        has(a, pat) ==> pat.len() <= a.len(),
        begins(a, pat) ==> a == pat + a.skip(pat.len() as int),
{
    let s = a + pat + b;
    assert(s.subrange(a.len() as int, (a.len() + pat.len()) as int) =~= pat);
    assert(occurs_at(s, pat, a.len() as int));
    assert((pat + b).subrange(0, pat.len() as int) =~= pat);
    if begins(a, pat) {
        assert(a =~= a.subrange(0, pat.len() as int) + a.skip(pat.len() as int));
    }
}

/// Whatever of a class stands around a text is trimmed off, and the text itself stays.
pub proof fn law_trimmed(a: Seq<char>, s: Seq<char>, b: Seq<char>, k: CharClass)
    requires
        forall|i: int| 0 <= i < a.len() ==> k.holds(#[trigger] a[i]),
        forall|i: int| 0 <= i < b.len() ==> k.holds(#[trigger] b[i]),
        s.len() > 0,
        !k.holds(s[0]),
        !k.holds(s.last()),
    ensures
        trim_start(a + s + b, k) == s + b,
        trim_end(s + b, k) == s,
        trim(a + s + b, k) == s,
    decreases a.len() + b.len(),
{
    if a.len() > 0 {
        let t = a + s + b;
        assert(t[0] == a[0]);
        assert(t.skip(1) =~= a.skip(1) + s + b);
        assert forall|i: int| 0 <= i < a.skip(1).len() implies k.holds(#[trigger] a.skip(1)[i]) by {
            assert(a.skip(1)[i] == a[i + 1]);
        }
        law_trimmed(a.skip(1), s, b, k);
    } else {
        assert(a + s + b =~= s + b);
        assert((s + b)[0] == s[0]);
        if b.len() > 0 {
            let u = b.drop_last();
            assert((s + b).last() == b[b.len() - 1]);
            assert((s + b).drop_last() =~= s + u);
            assert forall|i: int| 0 <= i < u.len() implies k.holds(#[trigger] u[i]) by {
                assert(u[i] == b[i]);
            }
            law_trimmed(a, s, u, k);
            assert(trim_end(s + b, k) == trim_end(s + u, k));
        } else {
            assert(s + b =~= s);
        }
    }
}

/// A text that is all of a class is trimmed to nothing.
pub proof fn law_trimmed_to_nothing(s: Seq<char>, k: CharClass)
    requires
        forall|i: int| 0 <= i < s.len() ==> k.holds(#[trigger] s[i]),
    ensures
        trim(s, k).len() == 0,
    decreases s.len(),
{
    if s.len() > 0 {
        assert forall|i: int| 0 <= i < s.skip(1).len() implies k.holds(#[trigger] s.skip(1)[i]) by {
            assert(s.skip(1)[i] == s[i + 1]);
        }
        law_trimmed_to_nothing(s.skip(1), k);
        assert(k.holds(s[0]));
    }
}

/// The part before a sign and the part behind it, where the sign stands in neither.
pub proof fn law_around_a_sign(a: Seq<char>, c: char, b: Seq<char>)
    requires
        !a.contains(c),
        !b.contains(c),
    ensures
        before(a + seq![c] + b, CharClass::Is(c)) == a,
        after_last(a + seq![c] + b, CharClass::Is(c)) == b,
        before(a, CharClass::Is(c)) == a,
        after_last(a, CharClass::Is(c)) == a,
{
    let k = CharClass::Is(c);
    let s = a + seq![c] + b;
    assert forall|j: int| 0 <= j < a.len() implies !k.holds(s[j]) && !k.holds(a[j]) by {
        assert(s[j] == a[j]);
        assert(a.contains(a[j]));
    }
    assert forall|j: int| a.len() + 1 <= j < s.len() implies !k.holds(s[j]) by {
        assert(s[j] == b[j - a.len() - 1]);
        assert(b.contains(b[j - a.len() - 1]));
    }
    lemma_before(s, k, a.len() as int);
    assert(s.take(a.len() as int) =~= a);
    lemma_after_last(s, k, a.len() as int + 1);
    assert(s.skip(a.len() as int + 1) =~= b);
    lemma_before(a, k, a.len() as int);
    assert(a.take(a.len() as int) =~= a);
    lemma_after_last(a, k, 0);
    assert(a.skip(0) =~= a);
}

/// A text without a sign is split at the sign into itself alone; a first part without the sign comes
/// first, before the parts of the rest.
pub proof fn law_split_at_a_sign(a: Seq<char>, c: char, b: Seq<char>)
    requires
        !a.contains(c),
    ensures
        split(a, CharClass::Is(c)) == seq![a],
        split(a + seq![c] + b, CharClass::Is(c)) == seq![a] + split(b, CharClass::Is(c)),
{
    let k = CharClass::Is(c);
    let s = a + seq![c] + b;
    assert forall|j: int| 0 <= j < a.len() implies !k.holds(s[j]) && !k.holds(a[j]) by {
        assert(s[j] == a[j]);
        assert(a.contains(a[j]));
    }
    lemma_before(a, k, a.len() as int);
    assert(a.take(a.len() as int) =~= a);
    assert(k.holds(s[a.len() as int]));
    lemma_before(s, k, a.len() as int);
    assert(s.take(a.len() as int) =~= a);
    assert(s.skip(a.len() as int + 1) =~= b);
}

/// A word without white space comes first of the words, whatever space follows it; space in front is
/// passed over.
pub proof fn law_words(w: Seq<char>, c: char, rest: Seq<char>)
    requires
        w.len() > 0,
        forall|i: int| 0 <= i < w.len() ==> !is_white(#[trigger] w[i]),
        is_white(c),
    ensures
        words(w) == seq![w],
        words(w + seq![c] + rest) == seq![w] + words(rest),
        words(seq![c] + rest) == words(rest),
        words(Seq::empty()).len() == 0,
{
    let k = CharClass::White;
    let s = w + seq![c] + rest;
    assert forall|j: int| 0 <= j < w.len() implies !k.holds(s[j]) && !k.holds(w[j]) by {
        assert(s[j] == w[j]);
    }
    lemma_before(w, k, w.len() as int);
    assert(w.take(w.len() as int) =~= w);
    assert(k.holds(s[w.len() as int]));
    lemma_before(s, k, w.len() as int);
    assert(s.take(w.len() as int) =~= w);
    assert(s.skip(w.len() as int + 1) =~= rest);
    assert(s[0] == w[0]);
    assert((seq![c] + rest).skip(1) =~= rest);
}

/// Texts are joined with the separator between every two of them.
pub proof fn law_joined(parts: Seq<Seq<char>>, last: Seq<char>, sep: Seq<char>)
    ensures
        join(Seq::empty(), sep).len() == 0,
        join(seq![last], sep) == last,
        parts.len() > 0 ==> join(parts.push(last), sep) == join(parts, sep) + sep + last,
{
    assert(parts.push(last).drop_last() =~= parts);
}

/// Texts are ordered by the first character in which they differ; a beginning comes before what it is
/// the beginning of.
pub proof fn law_order_of_texts(p: Seq<char>, a: char, x: Seq<char>, b: char, y: Seq<char>)
    requires
        a != b,
    ensures
        text_less(p + seq![a] + x, p + seq![b] + y) == (a < b),
        text_less(p, p + seq![a] + x),
        !text_less(p + seq![a] + x, p),
        !text_less(p, p),
    decreases p.len(),
{
    let s = p + seq![a] + x;
    let t = p + seq![b] + y;
    if p.len() > 0 {
        law_order_of_texts(p.skip(1), a, x, b, y);
        assert(s.skip(1) =~= p.skip(1) + seq![a] + x);
        assert(t.skip(1) =~= p.skip(1) + seq![b] + y);
    } else {
        assert(s[0] == a && t[0] == b);
    }
}

/// The letters of the Latin alphabet have a small and a capital form, thirty-two apart; nothing else
/// changes.
pub proof fn law_small_and_capital(c: char)
    ensures
        'A' <= c <= 'Z' ==> lower(c) as u32 == c as u32 + 32 && upper(lower(c)) == c,
        'a' <= c <= 'z' ==> upper(c) as u32 == c as u32 - 32 && lower(upper(c)) == c,
        !('A' <= c <= 'Z') ==> lower(c) == c,
        !('a' <= c <= 'z') ==> upper(c) == c,
{
}

/// Texts are alike but for capitals if they are so character by character.
pub proof fn law_alike(a: Seq<char>, b: Seq<char>, i: int)
    ensures
        eq_no_case(a, b) && 0 <= i < a.len() ==> a.len() == b.len() && lower(a[i]) == lower(b[i]),
        eq_no_case(a, lower_text(a)),
        lower_text(a).len() == a.len(),
        0 <= i < a.len() ==> lower_text(a)[i] == lower(a[i]),
{
    assert(lower_text(lower_text(a)) =~= lower_text(a));
    if eq_no_case(a, b) && 0 <= i < a.len() {
        assert(lower_text(a).len() == lower_text(b).len());
        assert(lower_text(a)[i] == lower_text(b)[i]);
    }
}

/// White space among the first 128 characters; what is a control character and what a digit.
pub proof fn law_kinds_of_characters(c: char)
    requires
        (c as u32) < 128,
    ensures
        is_white(c) == (c == ' ' || c == '\t' || c == '\n' || c == '\r' || c == '\u{b}' || c
            == '\u{c}'),
        is_control(c) == ((c as u32) < 32 || c as u32 == 127),
        is_digit(c) == (48 <= c as u32 <= 57),
{
}

/// A text is cut to its first characters if it has more.
pub proof fn law_cut_to_length(s: Seq<char>, n: int)
    requires
        0 <= n,
    ensures
        s.len() <= n ==> take_at_most(s, n) == s,
        s.len() > n ==> take_at_most(s, n) == s.subrange(0, n),
{
    if s.len() > n {
        assert(take_at_most(s, n) =~= s.subrange(0, n));
    }
}

// ---------------------------------------------------------------------------
// Numbers
// ---------------------------------------------------------------------------

/// One more digit behind a number makes ten times it and the digit.
pub proof fn law_one_more_digit(s: Seq<char>, d: nat)
    requires
        d < 10,
    ensures
        digits_value(s.push((48 + d) as u8 as char)) == 10 * digits_value(s) + d,
        digits_value(Seq::empty()) == 0,
{
    assert(s.push((48 + d) as u8 as char).drop_last() =~= s);
}

/// A number is written without zeros in front, except that zero is one; with two digits it has at
/// least two.
pub proof fn law_written_numbers(n: nat)
    ensures
        parse_nat(decimal(n), n) == Some(n),
        n > 0 ==> decimal(n)[0] != '0',
        n == 0 ==> decimal(n) == seq!['0'],
        n < 10 ==> decimal2(n) == seq!['0'] + decimal(n) && decimal2(n).len() == 2,
        10 <= n < 100 ==> decimal2(n).len() == 2 && decimal2(n) == decimal(n),
        n >= 10 ==> decimal2(n) == decimal(n),
    decreases n,
{
    lemma_decimal(n);
    crate::numbers::lemma_decimal_round_trip(n, n);
    if n >= 10 {
        law_written_numbers(n / 10);
        lemma_decimal(n / 10);
        assert(decimal(n)[0] == decimal(n / 10)[0]);
        if n < 100 {
            assert(decimal(n / 10).len() == 1);
        }
    } else {
        assert(decimal(n) =~= seq![(48 + n) as u8 as char]);
    }
}

/// A number is read from digits alone, with a plus sign before them or not, if it is not too large.
pub proof fn law_read_numbers(d: Seq<char>, max: nat)
    requires
        d.len() > 0,
        forall|i: int| 0 <= i < d.len() ==> '0' <= #[trigger] d[i] <= '9',
    ensures
        digits_value(d) <= max ==> parse_nat(d, max) == Some(digits_value(d)) && parse_nat(
            seq!['+'] + d,
            max,
        ) == Some(digits_value(d)),
        digits_value(d) > max ==> parse_nat(d, max) is None,
        digits_value(d) <= 0x8000_0000_0000_0000 ==> parse_int(seq!['-'] + d) == Some(
            -(digits_value(d) as int),
        ),
        digits_value(d) <= 0x7fff_ffff_ffff_ffff ==> parse_int(d) == Some(digits_value(d) as int),
{
    assert(all_digits(d));
    assert(d[0] != '+' && d[0] != '-');
    assert((seq!['+'] + d).skip(1) =~= d);
    assert((seq!['-'] + d).skip(1) =~= d);
}

/// Nothing else is read as a number.
pub proof fn law_no_numbers(s: Seq<char>, i: int, max: nat)
    requires
        0 < i < s.len(),
        !('0' <= s[i] <= '9'),
    ensures
        parse_nat(s, max) is None,
        parse_int(s) is None,
        parse_nat(Seq::empty(), max) is None,
        parse_int(Seq::empty()) is None,
{
    assert(!is_digit(s[i]));
    assert(s.skip(1)[i - 1] == s[i]);
    assert(!all_digits(s));
    assert(!all_digits(s.skip(1)));
}

/// A byte is written with two digits to the base of sixteen, the higher first.
pub proof fn law_two_hex_digits(b: Seq<u8>, x: u8)
    ensures
        hex(b.push(x)) == hex(b) + seq![hex_char(x as nat / 16), hex_char(x as nat % 16)],
        hex(Seq::empty()).len() == 0,
{
    assert(b.push(x).drop_last() =~= b);
    assert(hex(b.push(x)) =~= hex(b) + seq![hex_char(x as nat / 16), hex_char(x as nat % 16)]);
}

/// The digits to the base of sixteen, in small letters and in capitals.
pub proof fn law_hex_signs(d: nat)
    requires
        d < 16,
    ensures
        d < 10 ==> hex_char(d) as u32 == '0' as u32 + d && capital_hex(d) == hex_char(d),
        d >= 10 ==> hex_char(d) as u32 == 'a' as u32 + (d - 10) && capital_hex(d) as u32 == 'A' as u32
            + (d - 10),
{
}

// ---------------------------------------------------------------------------
// JSON values
// ---------------------------------------------------------------------------

/// A member is the first of its name; a name that no member has gives none.
pub proof fn law_first_member(v: Seq<(Seq<char>, JsonV)>, key: Seq<char>, k: int)
    requires
        0 <= k <= v.len(),
        forall|i: int| 0 <= i < k ==> (#[trigger] v[i]).0 != key,
    ensures
        k < v.len() && v[k].0 == key ==> JsonV::Object(v).get(key) == Some(v[k].1),
        k == v.len() ==> JsonV::Object(v).get(key) is None,
    decreases k,
{
    if k > 0 {
        let t = v.skip(1);
        assert forall|i: int| 0 <= i < k - 1 implies (#[trigger] t[i]).0 != key by {
            assert(t[i] == v[i + 1]);
        }
        law_first_member(t, key, k - 1);
        assert(v[0].0 != key);
    }
}

/// Only objects have members.
pub proof fn law_members_of_objects(j: JsonV, key: Seq<char>)
    requires
        !(j is Object),
    ensures
        j.get(key) is None,
{
}

/// What is a text, a list, a whole number and a truth value, and what is none.
pub proof fn law_kinds_of_values(s: Seq<char>, v: Seq<JsonV>, n: u64, m: i64, b: bool)
    ensures
        text_in(Some(JsonV::Text(s))) == Some(s),
        text_in(Some(JsonV::Unsigned(n))) is None,
        text_in(Some(JsonV::Null)) is None,
        text_in(None) is None,
        list_in(Some(JsonV::List(v))) == Some(v),
        list_in(Some(JsonV::Text(s))) is None,
        list_in(None) is None,
        n <= 0x7fff_ffff_ffff_ffff ==> int_in(Some(JsonV::Unsigned(n))) == Some(n as i64),
        n > 0x7fff_ffff_ffff_ffff ==> int_in(Some(JsonV::Unsigned(n))) is None,
        int_in(Some(JsonV::Negative(m))) == Some(m),
        int_in(Some(JsonV::Text(s))) is None,
        int_in(Some(JsonV::Decimal(s))) is None,
        int_in(None) is None,
        JsonV::Unsigned(n).unsigned() == Some(n),
        JsonV::Negative(m).unsigned() is None,
        JsonV::Bool(b).truth() == Some(b),
        JsonV::Text(s).truth() is None,
{
}

/// Of two members the first is taken, and the second only where the first is missing.
pub proof fn law_one_member_or_another(j: JsonV, key: Seq<char>, other: Seq<char>, v: JsonV)
    ensures
        j.get(key) == Some(v) ==> get_either(Some(j), key, other) == Some(v),
        j.get(key) is None && j.get(other) == Some(v) ==> get_either(Some(j), key, other) == Some(v),
        j.get(key) is None && j.get(other) is None ==> get_either(Some(j), key, other) is None,
        get_either(None, key, other) is None,
{
}

/// An item of a list is found by its place.
pub proof fn law_item_of_list(v: Seq<JsonV>, i: int)
    ensures
        0 <= i < v.len() ==> item_in(Some(v), i) == Some(v[i]),
        i < 0 || i >= v.len() ==> item_in(Some(v), i) is None,
        item_in(None, i) is None,
{
}

} // verus!
