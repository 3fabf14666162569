//! Text on a terminal: its width, cutting it to a width, and making it safe to show.
use vstd::prelude::*;
use crate::outside::{clusters, columns, display_width, flat, graphemes};
use crate::strings::{cat2, cat3, chars_of, copy_text, texts};

verus! {

/// The columns that a text takes on a terminal.
pub fn width(value: &str) -> (r: usize)
    ensures
        r == display_width(value@),
{
    columns(value)
}

// ---------------------------------------------------------------------------
// The last cluster
// ---------------------------------------------------------------------------

/// A text without its last cluster, from its clusters.
pub open spec fn all_but_last(v: Seq<Seq<char>>) -> Seq<char> {
    if v.len() == 0 {
        Seq::empty()
    } else {
        flat(v.drop_last())
    }
}

/// Texts one behind the other, up to one of them.
fn flat_text(v: &Vec<String>, n: usize) -> (r: String)
    requires
        n <= v@.len(),
    ensures
        r@ == flat(texts(v@).take(n as int)),
{
    let mut r = String::new();
    let mut i: usize = 0;
    assert(texts(v@).take(0) =~= Seq::empty());
    while i < n
        invariant
            i <= n <= v@.len(),
            r@ == flat(texts(v@).take(i as int)),
        decreases n - i,
    {
        proof {
            assert(texts(v@).take(i + 1).drop_last() =~= texts(v@).take(i as int));
            assert(texts(v@).take(i + 1).last() == v@[i as int]@);
        }
        r.append(v[i].as_str());
        i = i + 1;
    }
    r
}

/// A text without its last cluster, from its clusters.
pub fn without_last_cluster(v: &Vec<String>) -> (r: String)
    ensures
        r@ == all_but_last(texts(v@)),
{
    if v.len() == 0 {
        String::new()
    } else {
        proof {
            assert(texts(v@).take(v@.len() - 1) =~= texts(v@).drop_last());
        }
        flat_text(v, v.len() - 1)
    }
}

/// Takes the last cluster off a text. What is left is the beginning of the text, and shorter than
/// it unless it was empty.
pub fn remove_last_grapheme(value: &mut String)
    ensures
        final(value)@ == all_but_last(graphemes(old(value)@)),
        final(value)@ == old(value)@.take(final(value)@.len() as int),
        final(value)@.len() <= old(value)@.len(),
        old(value)@.len() > 0 ==> final(value)@.len() < old(value)@.len(),
{
    let v = clusters(value.as_str());
    let ghost given = value@;
    *value = without_last_cluster(&v);
    proof {
        let t = texts(v@);
        if t.len() > 0 {
            assert(flat(t) == flat(t.drop_last()) + t.last());
            assert(t[t.len() - 1].len() > 0);
        }
        assert(value@ =~= given.take(value@.len() as int));
    }
}

// ---------------------------------------------------------------------------
// Cutting to a width
// ---------------------------------------------------------------------------

/// How many of the first widths fit into `max` columns.
pub open spec fn fitting(w: Seq<usize>, max: int) -> int
    decreases w.len(),
{
    if w.len() == 0 || w[0] > max {
        0
    } else {
        1 + fitting(w.skip(1), max - w[0])
    }
}

/// How many of the last widths fit into `max` columns.
pub open spec fn fitting_back(w: Seq<usize>, max: int) -> int
    decreases w.len(),
{
    if w.len() == 0 || w.last() > max {
        0
    } else {
        1 + fitting_back(w.drop_last(), max - w.last())
    }
}

/// The sum of widths.
pub open spec fn total_width(w: Seq<usize>) -> int
    decreases w.len(),
{
    if w.len() == 0 {
        0
    } else {
        w[0] + total_width(w.skip(1))
    }
}

/// The widths of texts.
pub open spec fn widths_of(v: Seq<Seq<char>>) -> Seq<usize> {
    Seq::new(v.len(), |i: int| display_width(v[i]))
}

/// A number of dots.
pub open spec fn dots(n: nat) -> Seq<char> {
    Seq::new(n, |i: int| '.')
}

/// A text cut at its end to a number of columns, from its width, its clusters and their widths.
pub open spec fn cut_end(
    value: Seq<char>,
    total: usize,
    parts: Seq<Seq<char>>,
    widths: Seq<usize>,
    max: usize,
) -> Seq<char> {
    if total <= max {
        value
    } else if max <= 3 {
        dots(max as nat)
    } else {
        flat(parts.take(fitting(widths, max - 3))) + "..."@
    }
}

/// A text cut in its middle to a number of columns, from its width, its clusters and their widths.
pub open spec fn cut_middle(
    value: Seq<char>,
    total: usize,
    parts: Seq<Seq<char>>,
    widths: Seq<usize>,
    max: usize,
) -> Seq<char> {
    if total <= max {
        value
    } else if max <= 3 {
        dots(max as nat)
    } else {
        let front = max / 2;
        let back = max - 1 - front;
        flat(parts.take(fitting(widths, front as int))) + "\u{2026}"@ + flat(
            parts.skip(parts.len() - fitting_back(widths, back as int)),
        )
    }
}

/// The number of widths that fit is at most their number.
pub proof fn lemma_fitting(w: Seq<usize>, max: int)
    ensures
        0 <= fitting(w, max) <= w.len(),
    decreases w.len(),
{
    if w.len() > 0 && w[0] <= max {
        lemma_fitting(w.skip(1), max - w[0]);
    }
}

/// What fits into a number of columns takes no more of them, and the next part would take more.
pub proof fn law_fitting_is_longest(w: Seq<usize>, max: int)
    requires
        0 <= max,
    ensures
        total_width(w.take(fitting(w, max))) <= max,
        fitting(w, max) < w.len() ==> total_width(w.take(fitting(w, max) + 1)) > max,
    decreases w.len(),
{
    let n = fitting(w, max);
    if w.len() == 0 {
        assert(w.take(0) =~= Seq::empty());
    } else if w[0] > max {
        assert(w.take(0) =~= Seq::empty());
        assert(w.take(1).skip(1) =~= Seq::empty());
        assert(w.take(1)[0] == w[0]);
        reveal_with_fuel(total_width, 2);
    } else {
        let t = w.skip(1);
        law_fitting_is_longest(t, max - w[0]);
        lemma_fitting(t, max - w[0]);
        assert(w.take(n).skip(1) =~= t.take(n - 1));
        assert(w.take(n)[0] == w[0]);
        if n < w.len() {
            assert(w.take(n + 1).skip(1) =~= t.take(n));
            assert(w.take(n + 1)[0] == w[0]);
        }
    }
}

/// How many of the first widths fit into `max` columns.
fn count_fitting(w: &Vec<usize>, max: usize) -> (r: usize)
    ensures
        r == fitting(w@, max as int),
        r <= w@.len(),
{
    let mut n: usize = 0;
    let mut left: usize = max;
    assert(w@.skip(0) =~= w@);
    while n < w.len() && w[n] <= left
        invariant
            n <= w@.len(),
            fitting(w@, max as int) == n + fitting(w@.skip(n as int), left as int),
        decreases w@.len() - n,
    {
        assert(w@.skip(n as int).skip(1) =~= w@.skip(n + 1));
        left = left - w[n];
        n = n + 1;
    }
    n
}

/// How many of the last widths fit into `max` columns.
fn count_fitting_back(w: &Vec<usize>, max: usize) -> (r: usize)
    ensures
        r == fitting_back(w@, max as int),
        r <= w@.len(),
{
    let mut n: usize = 0;
    let mut left: usize = max;
    assert(w@.take(w@.len() as int) =~= w@);
    while n < w.len() && w[w.len() - 1 - n] <= left
        invariant
            n <= w@.len(),
            fitting_back(w@, max as int) == n + fitting_back(w@.take(w@.len() - n), left as int),
        decreases w@.len() - n,
    {
        assert(w@.take(w@.len() - n).drop_last() =~= w@.take(w@.len() - n - 1));
        left = left - w[w.len() - 1 - n];
        n = n + 1;
    }
    n
}

/// A number of dots.
fn dot_text(n: usize) -> (r: String)
    ensures
        r@ == dots(n as nat),
{
    let mut r = String::new();
    let mut i: usize = 0;
    while i < n
        invariant
            i <= n,
            r@ =~= dots(i as nat),
        decreases n - i,
    {
        r.push('.');
        i = i + 1;
    }
    r
}

/// The last texts one behind the other.
fn flat_tail(v: &Vec<String>, from: usize) -> (r: String)
    requires
        from <= v@.len(),
    ensures
        r@ == flat(texts(v@).skip(from as int)),
{
    let mut r = String::new();
    let mut i: usize = from;
    let ghost tail = texts(v@).skip(from as int);
    assert(tail.take(0) =~= Seq::empty());
    while i < v.len()
        invariant
            from <= i <= v@.len(),
            tail == texts(v@).skip(from as int),
            r@ == flat(tail.take(i - from)),
        decreases v@.len() - i,
    {
        proof {
            assert(tail.take(i - from + 1).drop_last() =~= tail.take(i - from));
            assert(tail.take(i - from + 1).last() == v@[i as int]@);
        }
        r.append(v[i].as_str());
        i = i + 1;
    }
    assert(tail.take(tail.len() as int) =~= tail);
    r
}

/// A text cut at its end to a number of columns, from its width, its clusters and their widths.
pub fn shorten_end(
    value: &str,
    total: usize,
    parts: &Vec<String>,
    widths: &Vec<usize>,
    max_width: usize,
) -> (r: String)
    requires
        parts@.len() == widths@.len(),
    ensures
        r@ == cut_end(value@, total, texts(parts@), widths@, max_width),
{
    if total <= max_width {
        copy_text(value)
    } else if max_width <= 3 {
        dot_text(max_width)
    } else {
        let n = count_fitting(widths, max_width - 3);
        cat2(flat_text(parts, n).as_str(), "...")
    }
}

/// A text cut in its middle to a number of columns, from its width, its clusters and their widths.
pub fn shorten_middle(
    value: &str,
    total: usize,
    parts: &Vec<String>,
    widths: &Vec<usize>,
    max_width: usize,
) -> (r: String)
    requires
        parts@.len() == widths@.len(),
    ensures
        r@ == cut_middle(value@, total, texts(parts@), widths@, max_width),
{
    if total <= max_width {
        copy_text(value)
    } else if max_width <= 3 {
        dot_text(max_width)
    } else {
        let front: usize = max_width / 2;
        let back: usize = max_width - 1 - front;
        let n = count_fitting(widths, front);
        let k = count_fitting_back(widths, back);
        cat3(
            flat_text(parts, n).as_str(),
            "\u{2026}",
            flat_tail(parts, parts.len() - k).as_str(),
        )
    }
}

/// The widths of texts.
fn measure(v: &Vec<String>) -> (r: Vec<usize>)
    ensures
        r@ == widths_of(texts(v@)),
{
    let mut r: Vec<usize> = Vec::new();
    let mut i: usize = 0;
    while i < v.len()
        invariant
            i <= v@.len(),
            r@ =~= widths_of(texts(v@)).take(i as int),
        decreases v@.len() - i,
    {
        r.push(columns(v[i].as_str()));
        i = i + 1;
    }
    assert(r@ =~= widths_of(texts(v@)));
    r
}

/// A text cut at its end to a number of columns: as many clusters as leave room for three dots.
pub fn truncate_width(value: &str, max_width: usize) -> (r: String)
    ensures
        r@ == cut_end(
            value@,
            display_width(value@),
            graphemes(value@),
            widths_of(graphemes(value@)),
            max_width,
        ),
{
    let parts = clusters(value);
    let widths = measure(&parts);
    shorten_end(value, columns(value), &parts, &widths, max_width)
}

/// A text cut in its middle to a number of columns: clusters from its front and from its back, and
/// an ellipsis between them.
pub fn truncate_middle_width(value: &str, max_width: usize) -> (r: String)
    ensures
        r@ == cut_middle(
            value@,
            display_width(value@),
            graphemes(value@),
            widths_of(graphemes(value@)),
            max_width,
        ),
{
    let parts = clusters(value);
    let widths = measure(&parts);
    shorten_middle(value, columns(value), &parts, &widths, max_width)
}

// ---------------------------------------------------------------------------
// Safe to show
// ---------------------------------------------------------------------------

/// Whether a terminal shows a character rather than acts on it: it is a tab or ends a line, or it
/// is no control character.
pub open spec fn is_showable(c: char) -> bool {
    (c > '\u{1f}' || c == '\t' || c == '\n' || c == '\r') && !('\u{80}' <= c <= '\u{9f}')
}

/// The characters of a text that a terminal shows.
pub open spec fn showable(s: Seq<char>) -> Seq<char>
    decreases s.len(),
{
    if s.len() == 0 {
        Seq::empty()
    } else if is_showable(s.last()) {
        showable(s.drop_last()).push(s.last())
    } else {
        showable(s.drop_last())
    }
}

/// The characters of a text that a terminal shows.
pub fn sanitize_terminal_text(value: &str) -> (r: String)
    ensures
        r@ == showable(value@),
{
    let v = chars_of(value);
    let mut r = String::new();
    let mut i: usize = 0;
    assert(v@.take(0) =~= Seq::empty());
    while i < v.len()
        invariant
            i <= v@.len(),
            r@ == showable(v@.take(i as int)),
        decreases v@.len() - i,
    {
        let c = v[i];
        assert(v@.take(i + 1).drop_last() =~= v@.take(i as int));
        assert(v@.take(i + 1).last() == c);
        if (c > '\u{1f}' || c == '\t' || c == '\n' || c == '\r') && !('\u{80}' <= c && c
            <= '\u{9f}') {
            r.push(c);
        }
        i = i + 1;
    }
    assert(v@.take(v@.len() as int) =~= v@);
    r
}

/// What is made safe to show holds nothing that a terminal acts on, and making it safe again
/// changes nothing.
pub proof fn law_sanitized(s: Seq<char>)
    ensures
        forall|i: int| 0 <= i < showable(s).len() ==> is_showable(#[trigger] showable(s)[i]),
        showable(showable(s)) == showable(s),
    decreases s.len(),
{
    if s.len() > 0 {
        law_sanitized(s.drop_last());
        let t = showable(s.drop_last());
        if is_showable(s.last()) {
            assert(t.push(s.last()).drop_last() =~= t);
        }
    }
}

/// A text that is safe to show stays as it is.
pub proof fn law_safe_text_unchanged(s: Seq<char>)
    requires
        forall|i: int| 0 <= i < s.len() ==> is_showable(#[trigger] s[i]),
    ensures
        showable(s) == s,
    decreases s.len(),
{
    if s.len() > 0 {
        let t = s.drop_last();
        assert forall|i: int| 0 <= i < t.len() implies is_showable(#[trigger] t[i]) by {
            assert(t[i] == s[i]);
        }
        law_safe_text_unchanged(t);
        assert(is_showable(s[s.len() - 1]));
        assert(t.push(s.last()) =~= s);
    } else {
        assert(s =~= Seq::empty());
    }
}

} // verus!
