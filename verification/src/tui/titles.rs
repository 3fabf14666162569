//! Titles as the catalogues write them, and the markers of subtitles.
use vstd::prelude::*;
use crate::numbers::{decimal, lemma_decimal, parse_nat, read_number};
use crate::outside::{is_alphanumeric, is_alphanumeric_char, lowercase, to_lowercase};
use crate::strings::{
    CharClass, before, begins, chars_of, class_from, copy_text, digit, find, find_from, find_last,
    has, holds_text, is_digit, is_white, lemma_before, lemma_first_at, lemma_last_at, occurs_at, rfind, text_of, text_range, trim_end, trimmed_end,
    without_prefix,
};

verus! {

broadcast use vstd::seq_lib::group_seq_properties;

/// A title up to the first bracketed remark.
pub open spec fn cut_bracket(s: Seq<char>) -> Seq<char> {
    match find(s, " ["@) {
        Some(i) => s.take(i),
        None => s,
    }
}

/// Whether a remark says that the title is dubbed.
pub open spec fn says_dubbed(s: Seq<char>) -> bool {
    has(lowercase(s), "dub"@) || has(lowercase(s), "hindi"@)
}

/// A title up to the first parenthesis, if what follows says that it is dubbed.
pub open spec fn cut_dub(s: Seq<char>) -> Seq<char> {
    match find(s, " ("@) {
        Some(i) => if says_dubbed(s.skip(i)) {
            s.take(i)
        } else {
            s
        },
        None => s,
    }
}

/// Whether a text is the number of a season, or a range of such numbers.
pub open spec fn is_season_suffix(s: Seq<char>) -> bool {
    &&& s.len() > 0
    &&& is_digit(s[0])
    &&& forall|i: int| 0 <= i < s.len() ==> is_digit(#[trigger] s[i]) || s[i] == '-' || s[i] == 'S'
}

/// A title without the number of a season behind it.
pub open spec fn cut_season(s: Seq<char>) -> Seq<char> {
    match rfind(s, " S"@) {
        Some(i) => if is_season_suffix(s.skip(i + 2)) {
            s.take(i)
        } else {
            s
        },
        None => s,
    }
}

/// A title without remarks on brackets, dubbing and seasons.
pub open spec fn clean_title(s: Seq<char>) -> Seq<char> {
    trim_end(cut_season(cut_dub(cut_bracket(s))), CharClass::White)
}

/// Whether a text is the number of a season, or a range of such numbers.
fn season_suffix(v: &[char], from: usize) -> (r: bool)
    requires
        from <= v@.len(),
    ensures
        r == is_season_suffix(v@.skip(from as int)),
{
    let ghost s = v@.skip(from as int);
    if from == v.len() || !digit(v[from]) {
        return false;
    }
    let mut i: usize = from;
    while i < v.len()
        invariant
            from <= i <= v@.len(),
            s == v@.skip(from as int),
            forall|j: int| 0 <= j < i - from ==> is_digit(#[trigger] s[j]) || s[j] == '-' || s[j] == 'S',
        decreases v@.len() - i,
    {
        let c = v[i];
        assert(s[i - from] == c);
        if !(digit(c) || c == '-' || c == 'S') {
            return false;
        }
        i = i + 1;
    }
    true
}

/// A title without remarks on brackets, dubbing and seasons.
pub fn clean_moviebox_title(raw_title: &str) -> (r: String)
    ensures
        r@ == clean_title(raw_title@),
{
    proof {
        reveal_strlit(" [");
        reveal_strlit(" (");
        reveal_strlit(" S");
    }
    let mut v = chars_of(raw_title);
    match find_from(v.as_slice(), chars_of(" [").as_slice(), 0) {
        Some(i) => {
            v.truncate(i);
        },
        None => {},
    }
    assert(v@ =~= cut_bracket(raw_title@));
    match find_from(v.as_slice(), chars_of(" (").as_slice(), 0) {
        Some(i) => {
            let inside = to_lowercase(text_range(v.as_slice(), i, v.len()).as_str());
            assert(v@.subrange(i as int, v@.len() as int) =~= v@.skip(i as int));
            if holds_text(inside.as_str(), "dub") || holds_text(inside.as_str(), "hindi") {
                v.truncate(i);
            }
        },
        None => {},
    }
    assert(v@ =~= cut_dub(cut_bracket(raw_title@)));
    match find_last(v.as_slice(), chars_of(" S").as_slice()) {
        Some(i) => {
            let end: usize = v.len();
            assert(i + 2 <= end);
            if season_suffix(v.as_slice(), i + 2) {
                v.truncate(i);
            }
        },
        None => {},
    }
    assert(v@ =~= cut_season(cut_dub(cut_bracket(raw_title@))));
    trimmed_end(text_of(v.as_slice()).as_str(), CharClass::White)
}

/// A text cut where another stands in it first does not hold that other.
proof fn lemma_cut_at_find(s: Seq<char>, pat: Seq<char>, t: Seq<char>, n: int)
    requires
        0 <= n <= t.len(),
        t == (match find(s, pat) {
            Some(i) => s.take(i),
            None => s,
        }),
        pat.len() > 0,
    ensures
        !(has(t.take(n), pat)),
{
    lemma_first_at(s, pat, 0);
    assert forall|i: int| !occurs_at(t.take(n), pat, i) by {
        if occurs_at(t.take(n), pat, i) {
            assert(t.take(n).subrange(i, i + pat.len()) =~= s.subrange(i, i + pat.len()));
            assert(occurs_at(s, pat, i));
        }
    }
}

/// What is trimmed at its end is a beginning of the text.
proof fn lemma_trimmed_end(s: Seq<char>, k: CharClass)
    ensures
        trim_end(s, k).len() <= s.len(),
        trim_end(s, k) == s.take(trim_end(s, k).len() as int),
    decreases s.len(),
{
    if s.len() > 0 && k.holds(s.last()) {
        lemma_trimmed_end(s.drop_last(), k);
        let n = trim_end(s, k).len() as int;
        assert(s.drop_last().take(n) =~= s.take(n));
    } else {
        assert(s.take(s.len() as int) =~= s);
    }
}

/// A cleaned title is a beginning of the title, and holds no blank with a square bracket behind it.
pub proof fn law_clean_title_is_beginning(s: Seq<char>)
    ensures
        clean_title(s).len() <= s.len(),
        clean_title(s) == s.take(clean_title(s).len() as int),
        !(has(clean_title(s), " ["@)),
{
    reveal_strlit(" [");
    reveal_strlit(" (");
    reveal_strlit(" S");
    let a = cut_bracket(s);
    let b = cut_dub(a);
    let c = cut_season(b);
    let d = clean_title(s);
    lemma_first_at(s, " ["@, 0);
    lemma_first_at(a, " ("@, 0);
    lemma_last_at(b, " S"@, b.len() as int);
    lemma_trimmed_end(c, CharClass::White);
    assert(a == s.take(a.len() as int)) by {
        assert(s.take(s.len() as int) =~= s);
    }
    assert(b =~= a.take(b.len() as int));
    assert(c =~= b.take(c.len() as int));
    assert(d =~= a.take(d.len() as int));
    assert(d =~= s.take(d.len() as int));
    lemma_cut_at_find(s, " ["@, a, d.len() as int);
}

/// What is left of a text in lower case once all but letters and numbers are taken out.
pub open spec fn only_alphanumeric(s: Seq<char>) -> Seq<char>
    decreases s.len(),
{
    if s.len() == 0 {
        Seq::empty()
    } else if is_alphanumeric(s.last()) {
        only_alphanumeric(s.drop_last()).push(s.last())
    } else {
        only_alphanumeric(s.drop_last())
    }
}

/// A text as titles and queries are compared: in lower case, letters and numbers only.
pub open spec fn normal_form(s: Seq<char>) -> Seq<char> {
    only_alphanumeric(lowercase(s))
}

/// A text as titles and queries are compared: in lower case, letters and numbers only.
pub fn normalized(s: &str) -> (r: String)
    ensures
        r@ == normal_form(s@),
{
    let v = chars_of(to_lowercase(s).as_str());
    let mut r = String::new();
    let mut i: usize = 0;
    while i < v.len()
        invariant
            i <= v@.len(),
            r@ == only_alphanumeric(v@.take(i as int)),
        decreases v@.len() - i,
    {
        assert(v@.take(i + 1).drop_last() =~= v@.take(i as int));
        assert(v@.take(i + 1).last() == v@[i as int]);
        if is_alphanumeric_char(v[i]) {
            r.push(v[i]);
        }
        i = i + 1;
    }
    assert(v@.take(v@.len() as int) =~= v@);
    r
}

/// The number and the language of a marker `os:{number}:{language}`; the language is `id` where
/// the marker gives none.
pub open spec fn os_marker(s: Seq<char>) -> Option<(nat, Seq<char>)> {
    if !begins(s, "os:"@) {
        None
    } else {
        let rest = s.skip(3);
        let number = before(rest, CharClass::Is(':'));
        match parse_nat(number, u32::MAX as nat) {
            Some(id) => Some(
                (
                    id,
                    if number.len() < rest.len() {
                        rest.skip(number.len() as int + 1)
                    } else {
                        "id"@
                    },
                ),
            ),
            None => None,
        }
    }
}

/// The number and the language of a marker `os:{number}:{language}`; the language is `id` where
/// the marker gives none.
pub fn parse_os_marker(marker: &str) -> (r: Option<(u32, String)>)
    ensures
        match r {
            Some((id, lang)) => os_marker(marker@) == Some((id as nat, lang@)),
            None => os_marker(marker@) is None,
        },
{
    proof {
        reveal_strlit("os:");
    }
    let rest = match without_prefix(marker, "os:") {
        Some(rest) => rest,
        None => {
            return None;
        },
    };
    let v = chars_of(rest.as_str());
    assert(v@.skip(0) =~= v@);
    let n = class_from(v.as_slice(), CharClass::Is(':'), 0);
    assert(before(rest@, CharClass::Is(':')) =~= v@.subrange(0, n as int));
    match read_number(text_range(v.as_slice(), 0, n).as_str(), u32::MAX as u64) {
        Some(id) => {
            let lang = if n < v.len() {
                text_range(v.as_slice(), n + 1, v.len())
            } else {
                copy_text("id")
            };
            Some((id as u32, lang))
        },
        None => None,
    }
}

/// The marker of a subtitle of OpenSubtitles.
pub open spec fn marker_of(id: nat, lang: Seq<char>) -> Seq<char> {
    "os:"@ + decimal(id) + ":"@ + lang
}

/// The marker of a subtitle is read back as its number and its language.
pub proof fn law_marker_round_trip(id: u32, lang: Seq<char>)
    ensures
        os_marker(marker_of(id as nat, lang)) == Some((id as nat, lang)),
{
    reveal_strlit("os:");
    reveal_strlit(":");
    lemma_decimal(id as nat);
    let d = decimal(id as nat);
    let s = marker_of(id as nat, lang);
    let rest = s.skip(3);
    assert(s.subrange(0, 3) =~= "os:"@);
    assert(rest =~= d + ":"@ + lang);
    assert forall|j: int| 0 <= j < d.len() implies !CharClass::Is(':').holds(rest[j]) by {
        assert(rest[j] == d[j]);
        assert(is_digit(d[j]));
    }
    assert(rest[d.len() as int] == ':');
    lemma_before(rest, CharClass::Is(':'), d.len() as int);
    assert(rest.take(d.len() as int) =~= d);
    assert(is_digit(d[0]));
    assert(rest.skip(d.len() as int + 1) =~= lang);
}

/// Of a text in lower case only letters and digits are compared: characters of these classes are
/// kept in their order, and all others are passed over.
pub proof fn law_letters_and_digits(s: Seq<char>, c: char)
    ensures
        is_alphanumeric(c) ==> only_alphanumeric(s.push(c)) == only_alphanumeric(s).push(c),
        !is_alphanumeric(c) ==> only_alphanumeric(s.push(c)) == only_alphanumeric(s),
        only_alphanumeric(Seq::empty()).len() == 0,
        normal_form(s) == only_alphanumeric(lowercase(s)),
{
    assert(s.push(c).drop_last() =~= s);
}

/// What is cut off a title: everything from a blank with a square bracket on.
pub proof fn law_brackets_are_cut(name: Seq<char>, rest: Seq<char>)
    requires
        !(has(name + " "@, " ["@)),
        name.len() > 0,
        !CharClass::White.holds(name.last()),
        cut_season(cut_dub(name)) == name,
    ensures
        clean_title(name + " ["@ + rest) == name,
{
    reveal_strlit(" [");
    reveal_strlit(" ");
    let s = name + " ["@ + rest;
    lemma_first_at(s, " ["@, 0);
    assert(s.subrange(name.len() as int, name.len() as int + 2) =~= " ["@);
    assert(occurs_at(s, " ["@, name.len() as int));
    assert forall|i: int| 0 <= i < name.len() implies !occurs_at(s, " ["@, i) by {
        if occurs_at(s, " ["@, i) {
            assert((name + " "@).subrange(i, i + 2) =~= s.subrange(i, i + 2));
            assert(occurs_at(name + " "@, " ["@, i));
        }
    }
    assert(s.take(name.len() as int) =~= name);
}

/// A season at the end of a title is cut off: a blank, an `S` and digits.
pub proof fn law_seasons_are_cut(name: Seq<char>, digits: Seq<char>)
    requires
        digits.len() > 0,
        forall|i: int| 0 <= i < digits.len() ==> is_digit(#[trigger] digits[i]),
    ensures
        cut_season(name + " S"@ + digits) == name,
{
    reveal_strlit(" S");
    let s = name + " S"@ + digits;
    let n = name.len() as int;
    lemma_last_at(s, " S"@, s.len() as int);
    assert(s.subrange(n, n + 2) =~= " S"@);
    assert(occurs_at(s, " S"@, n));
    assert forall|i: int| n < i <= s.len() implies !occurs_at(s, " S"@, i) by {
        if occurs_at(s, " S"@, i) {
            assert(s.subrange(i, i + 2)[0] == ' ' && s.subrange(i, i + 2)[1] == 'S');
            assert(s[i] == ' ');
            if i >= n + 2 {
                assert(s[i] == digits[i - n - 2]);
            }
        }
    }
    assert(s.skip(n + 2) =~= digits);
    assert(is_digit(digits[0]));
    assert(s.take(n) =~= name);
}

/// A remark in parentheses is cut off if it says that the title is dubbed or in Hindi, and kept
/// otherwise.
pub proof fn law_dubs_are_cut(s: Seq<char>, i: int)
    requires
        find(s, " ("@) == Some(i),
    ensures
        has(lowercase(s.skip(i)), "dub"@) ==> cut_dub(s) == s.take(i),
        has(lowercase(s.skip(i)), "hindi"@) ==> cut_dub(s) == s.take(i),
        !(has(lowercase(s.skip(i)), "dub"@)) && !(has(lowercase(s.skip(i)), "hindi"@)) ==> cut_dub(s)
            == s,
{
}

/// What is cut off a title: first what stands in brackets, then a remark on dubbing, then a season, and
/// last the blanks at its end; a title with none of these stays as it is.
pub proof fn law_title_is_cleaned(s: Seq<char>)
    ensures
        find(s, " ["@) is None && find(s, " ("@) is None && rfind(s, " S"@) is None && s.len() > 0
            && !is_white(s.last()) ==> clean_title(s) == s,
        find(s, " ["@) is None && find(s, " ("@) is None ==> clean_title(s) == trim_end(
            cut_season(s),
            CharClass::White,
        ),
        find(s, " ["@) is None && rfind(cut_dub(s), " S"@) is None ==> clean_title(s) == trim_end(
            cut_dub(s),
            CharClass::White,
        ),
{
}

/// Seasons may be given as a range.
pub proof fn law_ranges_of_seasons(a: char, b: char)
    requires
        '0' <= a <= '9',
        '0' <= b <= '9',
    ensures
        is_season_suffix(seq![a, '-', b]),
        is_season_suffix(seq![a, '-', 'S', b]),
        !is_season_suffix(seq!['S', a]),
        !is_season_suffix(seq![a, 'x']),
        !is_season_suffix(Seq::empty()),
{
    assert(seq![a, 'x'][1] == 'x');
}

} // verus!
