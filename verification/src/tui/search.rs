//! Results: how titles are read from an answer, merged, ranked and listed.
use vstd::prelude::*;
use crate::json::{
    Json, JsonV, either_of, get_either, get_in, get_of, int_in, int_of, json_list, text_in,
    text_of_json,
};
use crate::outside::{lowercase, to_lowercase};
use crate::strings::{
    CharClass, before, begins, begins_with, comes_before, copy_text, has, holds_text, same_text,
    text_before, text_less, text_opt,
};
use crate::tui::state::{SearchResult, SearchResultOf, SearchResultV, results};
use crate::tui::titles::{clean_moviebox_title, clean_title, normal_form, normalized};

verus! {

/// A title as an answer gives it.
pub struct ItemOf<T> {
    /// The identifier.
    pub id: T,
    /// The title with its remarks.
    pub raw_title: T,
    /// The kind of title.
    pub stype: i64,
    /// The release date.
    pub release_year: T,
    /// The address of a poster.
    pub cover_url: Option<T>,
    /// The latest season.
    pub season: usize,
}

/// A title as an answer gives it.
pub type Item = ItemOf<String>;

/// What a title as an answer gives it means.
pub type ItemV = ItemOf<Seq<char>>;

impl View for Item {
    type V = ItemV;

    open spec fn view(&self) -> ItemV {
        ItemOf {
            id: self.id@,
            raw_title: self.raw_title@,
            stype: self.stype,
            release_year: self.release_year@,
            cover_url: text_opt(self.cover_url),
            season: self.season,
        }
    }
}

/// A text, or another where there is none.
pub open spec fn text_or(t: Option<Seq<char>>, other: Seq<char>) -> Seq<char> {
    match t {
        Some(s) => s,
        None => other,
    }
}

/// A text, or another where there is none.
pub fn or_text(t: Option<String>, other: &str) -> (r: String)
    ensures
        r@ == text_or(text_opt(t), other@),
{
    match t {
        Some(s) => s,
        None => copy_text(other),
    }
}

/// The season that an answer gives.
pub open spec fn season_of(j: JsonV) -> usize {
    match j.get("season"@) {
        Some(s) => match s.unsigned() {
            Some(n) => n as usize,
            None => 0,
        },
        None => 0,
    }
}

/// The kind of title that an answer gives.
pub open spec fn kind_of(j: JsonV) -> i64 {
    match int_in(j.get("subjectType"@)) {
        Some(n) => n,
        None => 0,
    }
}

/// The address of the poster that a search result gives, as a text or as an object with a text.
pub open spec fn search_cover(j: JsonV) -> Option<Seq<char>> {
    let c = match get_either(Some(j), "poster"@, "cover"@) {
        Some(c) => Some(c),
        None => j.get("pic"@),
    };
    match c {
        Some(c) => match c.text() {
            Some(s) => Some(s),
            None => text_in(c.get("url"@)),
        },
        None => None,
    }
}

/// A title as a search gives it.
pub open spec fn search_item(j: JsonV) -> ItemV {
    ItemOf {
        id: text_or(text_in(j.get("subjectId"@)), ""@),
        raw_title: text_or(text_in(j.get("title"@)), "Unknown"@),
        stype: kind_of(j),
        release_year: text_or(text_in(j.get("releaseDate"@)), "N/A"@),
        cover_url: search_cover(j),
        season: season_of(j),
    }
}

/// A title as the home page gives it.
pub open spec fn home_item(j: JsonV) -> ItemV {
    ItemOf {
        id: text_or(text_in(j.get("subjectId"@)), ""@),
        raw_title: text_or(text_in(j.get("title"@)), "Unknown"@),
        stype: kind_of(j),
        release_year: before(text_or(text_in(j.get("releaseDate"@)), ""@), CharClass::Is('-')),
        cover_url: text_in(get_in(j.get("cover"@), "url"@)),
        season: season_of(j),
    }
}

/// The season that an answer gives.
fn read_season(j: &Json) -> (r: usize)
    ensures
        r == season_of(j@),
{
    match j.get("season") {
        Some(s) => match s.as_unsigned() {
            Some(n) => #[verifier::truncate] (n as usize),
            None => 0,
        },
        None => 0,
    }
}

/// The kind of title that an answer gives.
fn read_kind(j: &Json) -> (r: i64)
    ensures
        r == kind_of(j@),
{
    match int_of(j.get("subjectType")) {
        Some(n) => n,
        None => 0,
    }
}

/// A title as a search gives it.
pub fn read_search_item(j: &Json) -> (r: Item)
    ensures
        r@ == search_item(j@),
{
    let c = match either_of(Some(j), "poster", "cover") {
        Some(c) => Some(c),
        None => j.get("pic"),
    };
    let cover_url = match c {
        Some(c) => match c.as_text() {
            Some(s) => Some(copy_text(s.as_str())),
            None => text_of_json(c.get("url")),
        },
        None => None,
    };
    ItemOf {
        id: or_text(text_of_json(j.get("subjectId")), ""),
        raw_title: or_text(text_of_json(j.get("title")), "Unknown"),
        stype: read_kind(j),
        release_year: or_text(text_of_json(j.get("releaseDate")), "N/A"),
        cover_url,
        season: read_season(j),
    }
}

/// A title as the home page gives it.
pub fn read_home_item(j: &Json) -> (r: Item)
    ensures
        r@ == home_item(j@),
{
    let date = or_text(text_of_json(j.get("releaseDate")), "");
    ItemOf {
        id: or_text(text_of_json(j.get("subjectId")), ""),
        raw_title: or_text(text_of_json(j.get("title")), "Unknown"),
        stype: read_kind(j),
        release_year: text_before(date.as_str(), CharClass::Is('-')),
        cover_url: text_of_json(get_of(j.get("cover"), "url")),
        season: read_season(j),
    }
}

// ---------------------------------------------------------------------------
// Merging
// ---------------------------------------------------------------------------

/// The first result with an identifier, from `from` on.
pub open spec fn id_at(v: Seq<SearchResultV>, id: Seq<char>, from: int) -> Option<int>
    decreases v.len() - from,
{
    if from < 0 || from >= v.len() {
        None
    } else if v[from].id == id {
        Some(from)
    } else {
        id_at(v, id, from + 1)
    }
}

/// Whether a result has a title and a kind.
pub open spec fn has_title(v: Seq<SearchResultV>, title: Seq<char>, stype: i64) -> bool {
    exists|i: int| 0 <= i < v.len() && #[trigger] v[i].title == title && v[i].stype == stype
}

/// Whether a result has a title, a date and a kind.
pub open spec fn has_dated_title(
    v: Seq<SearchResultV>,
    title: Seq<char>,
    year: Seq<char>,
    stype: i64,
) -> bool {
    exists|i: int|
        0 <= i < v.len() && #[trigger] v[i].title == title && v[i].release_year == year
            && v[i].stype == stype
}

/// Whether a title says that it is dubbed into one of four languages.
pub open spec fn is_dub(raw_title: Seq<char>) -> bool {
    let t = lowercase(raw_title);
    has(t, "[hindi]"@) || has(t, "[tamil]"@) || has(t, "[telugu]"@) || has(t, "[english]"@)
}

/// The result that a title becomes.
pub open spec fn as_result(it: ItemV) -> SearchResultV {
    SearchResultOf {
        id: it.id,
        title: clean_title(it.raw_title),
        stype: it.stype,
        release_year: it.release_year,
        cover_url: it.cover_url,
        season: it.season,
    }
}

/// The results with one more title.
///
/// A title whose identifier is known takes the place of the known one if its season is later, and
/// is dropped otherwise. A dubbed version of a known title, a known title of the same date and
/// a title without identifier are dropped; any other is put behind the rest.
pub open spec fn merged(v: Seq<SearchResultV>, it: ItemV) -> Seq<SearchResultV> {
    let r = as_result(it);
    match id_at(v, it.id, 0) {
        Some(i) => if it.season > v[i].season {
            v.update(i, r)
        } else {
            v
        },
        None => if is_dub(it.raw_title) && has_title(v, r.title, it.stype) {
            v
        } else if has_dated_title(v, r.title, it.release_year, it.stype) {
            v
        } else if it.id.len() == 0 {
            v
        } else {
            v.push(r)
        },
    }
}

/// The position of the first result with an identifier.
fn position_of_id(v: &Vec<SearchResult>, id: &str) -> (r: Option<usize>)
    ensures
        match r {
            Some(i) => i < v@.len() && id_at(results(v@), id@, 0) == Some(i as int),
            None => id_at(results(v@), id@, 0) is None,
        },
{
    let mut i: usize = 0;
    while i < v.len()
        invariant
            i <= v@.len(),
            id_at(results(v@), id@, 0) == id_at(results(v@), id@, i as int),
        decreases v@.len() - i,
    {
        assert(results(v@)[i as int] == v@[i as int]@);
        if same_text(v[i].id.as_str(), id) {
            return Some(i);
        }
        i = i + 1;
    }
    None
}

/// Whether a result has a title and a kind.
fn any_title(v: &Vec<SearchResult>, title: &str, stype: i64) -> (r: bool)
    ensures
        r == has_title(results(v@), title@, stype),
{
    let mut i: usize = 0;
    while i < v.len()
        invariant
            i <= v@.len(),
            forall|j: int|
                0 <= j < i ==> !(#[trigger] results(v@)[j].title == title@ && results(v@)[j].stype
                    == stype),
        decreases v@.len() - i,
    {
        assert(results(v@)[i as int] == v@[i as int]@);
        if same_text(v[i].title.as_str(), title) && v[i].stype == stype {
            assert(results(v@)[i as int].title == title@);
            return true;
        }
        i = i + 1;
    }
    false
}

/// Whether a result has a title, a date and a kind.
fn any_dated_title(v: &Vec<SearchResult>, title: &str, year: &str, stype: i64) -> (r: bool)
    ensures
        r == has_dated_title(results(v@), title@, year@, stype),
{
    let mut i: usize = 0;
    while i < v.len()
        invariant
            i <= v@.len(),
            forall|j: int|
                0 <= j < i ==> !(#[trigger] results(v@)[j].title == title@
                    && results(v@)[j].release_year == year@ && results(v@)[j].stype == stype),
        decreases v@.len() - i,
    {
        assert(results(v@)[i as int] == v@[i as int]@);
        if same_text(v[i].title.as_str(), title) && same_text(v[i].release_year.as_str(), year)
            && v[i].stype == stype {
            assert(results(v@)[i as int].title == title@);
            return true;
        }
        i = i + 1;
    }
    false
}

/// Puts one more title among the results.
pub fn merge_item(v: &mut Vec<SearchResult>, it: Item)
    ensures
        results(final(v)@) == merged(results(old(v)@), it@),
{
    let title = clean_moviebox_title(it.raw_title.as_str());
    let ghost known = results(v@);
    match position_of_id(v, it.id.as_str()) {
        Some(i) => {
            if it.season > v[i].season {
                let r = SearchResultOf {
                    id: it.id,
                    title,
                    stype: it.stype,
                    release_year: it.release_year,
                    cover_url: it.cover_url,
                    season: it.season,
                };
                v.set(i, r);
                assert(results(v@) =~= known.update(i as int, r@));
            }
        },
        None => {
            let low = to_lowercase(it.raw_title.as_str());
            let dub = holds_text(low.as_str(), "[hindi]") || holds_text(low.as_str(), "[tamil]")
                || holds_text(low.as_str(), "[telugu]") || holds_text(low.as_str(), "[english]");
            if dub && any_title(v, title.as_str(), it.stype) {
                return ;
            }
            if any_dated_title(v, title.as_str(), it.release_year.as_str(), it.stype) {
                return ;
            }
            if !same_text(it.id.as_str(), "") {
                let r = SearchResultOf {
                    id: it.id,
                    title,
                    stype: it.stype,
                    release_year: it.release_year,
                    cover_url: it.cover_url,
                    season: it.season,
                };
                v.push(r);
                assert(it@.id.len() > 0) by {
                    reveal_strlit("");
                    assert(it@.id.len() == 0 ==> it@.id =~= ""@);
                }
                assert(results(v@) =~= known.push(r@));
            } else {
                assert(it@.id.len() == 0) by {
                    reveal_strlit("");
                }
            }
        },
    }
}

/// Whether a title is an answer to a query: its normal form holds that of the query.
pub open spec fn answers(raw_title: Seq<char>, query: Seq<char>) -> bool {
    normal_form(query).len() == 0 || has(normal_form(raw_title), normal_form(query))
}

/// The results with the titles of an answer to a query.
pub open spec fn merged_search(v: Seq<SearchResultV>, items: Seq<JsonV>, query: Seq<char>) -> Seq<
    SearchResultV,
>
    decreases items.len(),
{
    if items.len() == 0 {
        v
    } else {
        let m = merged_search(v, items.drop_last(), query);
        let it = search_item(items.last());
        if answers(it.raw_title, query) {
            merged(m, it)
        } else {
            m
        }
    }
}

/// The results with the titles of the home page.
pub open spec fn merged_home(v: Seq<SearchResultV>, items: Seq<JsonV>) -> Seq<SearchResultV>
    decreases items.len(),
{
    if items.len() == 0 {
        v
    } else {
        merged(merged_home(v, items.drop_last()), home_item(items.last()))
    }
}

/// Whether a title is an answer to a query.
pub fn is_answer(raw_title: &str, query: &str) -> (r: bool)
    ensures
        r == answers(raw_title@, query@),
{
    let q = normalized(query);
    let t = normalized(raw_title);
    if same_text(q.as_str(), "") {
        proof {
            reveal_strlit("");
        }
        true
    } else {
        proof {
            reveal_strlit("");
            assert(q@.len() == 0 ==> q@ =~= ""@);
        }
        holds_text(t.as_str(), q.as_str())
    }
}

/// Puts the titles of an answer to a query among the results.
pub fn merge_search(v: &mut Vec<SearchResult>, items: &Vec<Json>, query: &str)
    ensures
        results(final(v)@) == merged_search(results(old(v)@), json_list(items@), query@),
{
    let ghost known = results(v@);
    let ghost list = json_list(items@);
    let mut i: usize = 0;
    assert(list.take(0) =~= Seq::empty());
    while i < items.len()
        invariant
            i <= items@.len(),
            list == json_list(items@),
            results(v@) == merged_search(known, list.take(i as int), query@),
        decreases items@.len() - i,
    {
        proof {
            assert(list.take(i + 1).drop_last() =~= list.take(i as int));
            assert(list.take(i + 1).last() == items@[i as int]@);
        }
        let it = read_search_item(&items[i]);
        if is_answer(it.raw_title.as_str(), query) {
            merge_item(v, it);
        }
        i = i + 1;
    }
    assert(list.take(list.len() as int) =~= list);
}

/// Puts the titles of the home page among the results.
pub fn merge_home(v: &mut Vec<SearchResult>, items: &Vec<Json>)
    ensures
        results(final(v)@) == merged_home(results(old(v)@), json_list(items@)),
{
    let ghost known = results(v@);
    let ghost list = json_list(items@);
    let mut i: usize = 0;
    assert(list.take(0) =~= Seq::empty());
    while i < items.len()
        invariant
            i <= items@.len(),
            list == json_list(items@),
            results(v@) == merged_home(known, list.take(i as int)),
        decreases items@.len() - i,
    {
        proof {
            assert(list.take(i + 1).drop_last() =~= list.take(i as int));
            assert(list.take(i + 1).last() == items@[i as int]@);
        }
        let it = read_home_item(&items[i]);
        merge_item(v, it);
        i = i + 1;
    }
    assert(list.take(list.len() as int) =~= list);
}

/// Whether no two results have the same identifier.
pub open spec fn distinct_ids(v: Seq<SearchResultV>) -> bool {
    forall|i: int, j: int| 0 <= i < j < v.len() ==> #[trigger] v[i].id != #[trigger] v[j].id
}

/// What `id_at` finds.
proof fn lemma_id_at(v: Seq<SearchResultV>, id: Seq<char>, from: int)
    requires
        0 <= from,
    ensures
        match id_at(v, id, from) {
            Some(i) => from <= i < v.len() && v[i].id == id && forall|j: int|
                from <= j < i ==> #[trigger] v[j].id != id,
            None => forall|j: int| from <= j < v.len() ==> #[trigger] v[j].id != id,
        },
    decreases v.len() - from,
{
    if from < v.len() && v[from].id != id {
        lemma_id_at(v, id, from + 1);
    }
}

/// A title that is merged in never makes an identifier occur twice, never takes a result away and
/// adds at most one.
pub proof fn law_merge_keeps_ids_distinct(v: Seq<SearchResultV>, it: ItemV)
    requires
        distinct_ids(v),
    ensures
        distinct_ids(merged(v, it)),
        v.len() <= merged(v, it).len() <= v.len() + 1,
        forall|i: int| 0 <= i < v.len() ==> merged(v, it)[i].id == #[trigger] v[i].id,
{
    lemma_id_at(v, it.id, 0);
    let m = merged(v, it);
    assert forall|i: int| 0 <= i < v.len() implies m[i].id == #[trigger] v[i].id by {}
    assert forall|i: int, j: int| 0 <= i < j < m.len() implies #[trigger] m[i].id
        != #[trigger] m[j].id by {
        if j < v.len() {
            assert(v[i].id != v[j].id);
        }
    }
}

// ---------------------------------------------------------------------------
// Ranking
// ---------------------------------------------------------------------------

/// Whether a result is ranked before another for a query in lower case: an exact title before
/// others, then a title that begins with the query, then the higher kind, then the later date.
pub open spec fn ranks_before(a: SearchResultV, b: SearchResultV, query: Seq<char>) -> bool {
    let (at, bt) = (lowercase(a.title), lowercase(b.title));
    if (at == query) != (bt == query) {
        at == query
    } else if begins(at, query) != begins(bt, query) {
        begins(at, query)
    } else if a.stype != b.stype {
        a.stype > b.stype
    } else {
        text_less(b.release_year, a.release_year)
    }
}

/// Where a result is put among the first `n` ranked ones: behind all that it is not ranked before.
pub open spec fn rank_of(v: Seq<SearchResultV>, r: SearchResultV, query: Seq<char>, n: int) -> int
    decreases n,
{
    if n <= 0 {
        0
    } else if ranks_before(r, v[n - 1], query) {
        rank_of(v, r, query, n - 1)
    } else {
        n
    }
}

/// The results in the order of their ranks, those of the same rank in the order they had.
pub open spec fn ranked(v: Seq<SearchResultV>, query: Seq<char>) -> Seq<SearchResultV>
    decreases v.len(),
{
    if v.len() == 0 {
        v
    } else {
        let s = ranked(v.drop_last(), query);
        s.insert(rank_of(s, v.last(), query, s.len() as int), v.last())
    }
}

/// Whether a result is ranked before another for a query in lower case.
fn is_ranked_before(a: &SearchResult, b: &SearchResult, query: &str) -> (r: bool)
    ensures
        r == ranks_before(a@, b@, query@),
{
    let at = to_lowercase(a.title.as_str());
    let bt = to_lowercase(b.title.as_str());
    let ax = same_text(at.as_str(), query);
    let bx = same_text(bt.as_str(), query);
    let ab = begins_with(at.as_str(), query);
    let bb = begins_with(bt.as_str(), query);
    if ax != bx {
        ax
    } else if ab != bb {
        ab
    } else if a.stype != b.stype {
        a.stype > b.stype
    } else {
        comes_before(b.release_year.as_str(), a.release_year.as_str())
    }
}

/// Puts the results in the order of their ranks for a query in lower case.
pub fn rank_results(v: Vec<SearchResult>, query: &str) -> (r: Vec<SearchResult>)
    ensures
        results(r@) == ranked(results(v@), query@),
{
    let ghost given = results(v@);
    let mut rest: Vec<SearchResult> = v;
    let mut queue: Vec<SearchResult> = Vec::new();
    // The results in reverse, so that they can be taken from the back in their order.
    while rest.len() > 0
        invariant
            queue@.len() + rest@.len() == given.len(),
            results(rest@) =~= given.take(rest@.len() as int),
            forall|j: int|
                0 <= j < queue@.len() ==> #[trigger] results(queue@)[j] == given[given.len() - 1 - j],
        decreases rest@.len(),
    {
        let ghost before_queue = results(queue@);
        let ghost before_rest = results(rest@);
        match rest.pop() {
            Some(x) => {
                proof {
                    assert(before_rest.last() == x@);
                }
                queue.push(x);
                proof {
                    assert(results(queue@) =~= before_queue.push(x@));
                    assert(results(rest@) =~= before_rest.drop_last());
                }
            },
            None => {},
        }
    }
    let mut out: Vec<SearchResult> = Vec::new();
    proof {
        assert(results(out@) =~= given.take(0));
    }
    while queue.len() > 0
        invariant
            queue@.len() <= given.len(),
            forall|j: int|
                0 <= j < queue@.len() ==> #[trigger] results(queue@)[j] == given[given.len() - 1 - j],
            results(out@) == ranked(given.take(given.len() - queue@.len()), query@),
        decreases queue@.len(),
    {
        let ghost n = given.len() - queue@.len();
        let ghost before_queue = results(queue@);
        let ghost sorted = results(out@);
        match queue.pop() {
            Some(x) => {
                proof {
                    assert(before_queue.last() == x@);
                    assert(results(queue@) =~= before_queue.drop_last());
                    assert(given.take(n + 1).drop_last() =~= given.take(n));
                    assert(given.take(n + 1).last() == x@);
                }
                let mut i: usize = out.len();
                while i > 0 && is_ranked_before(&x, &out[i - 1], query)
                    invariant
                        i <= out@.len(),
                        results(out@) == sorted,
                        rank_of(sorted, x@, query@, sorted.len() as int) == rank_of(
                            sorted,
                            x@,
                            query@,
                            i as int,
                        ),
                    decreases i,
                {
                    i = i - 1;
                }
                out.insert(i, x);
                proof {
                    assert(results(out@) =~= sorted.insert(i as int, x@));
                }
            },
            None => {},
        }
    }
    assert(given.take(given.len() as int) =~= given);
    out
}

/// Whether no result is ranked before one that stands ahead of it.
pub open spec fn in_rank_order(v: Seq<SearchResultV>, query: Seq<char>) -> bool {
    forall|i: int, j: int|
        0 <= i < j < v.len() ==> !ranks_before(#[trigger] v[j], #[trigger] v[i], query)
}

/// Being ranked before is passed on, and so is not being ranked before.
proof fn lemma_ranks_chain(
    a: SearchResultV,
    b: SearchResultV,
    c: SearchResultV,
    query: Seq<char>,
)
    requires
        !ranks_before(b, a, query),
        !ranks_before(c, b, query),
    ensures
        !ranks_before(c, a, query),
{
    crate::strings::lemma_text_less(a.release_year, b.release_year);
    crate::strings::lemma_text_less(b.release_year, c.release_year);
    crate::strings::lemma_text_less(a.release_year, c.release_year);
    if text_less(a.release_year, c.release_year) && ranks_before(c, a, query) {
        if text_less(c.release_year, b.release_year) {
            crate::strings::lemma_text_less_chain(a.release_year, c.release_year, b.release_year);
        }
        if text_less(b.release_year, a.release_year) {
            crate::strings::lemma_text_less_chain(b.release_year, a.release_year, c.release_year);
        }
    }
}

/// Being ranked before has no two sides.
proof fn lemma_ranks_one_way(a: SearchResultV, b: SearchResultV, query: Seq<char>)
    ensures
        !(ranks_before(a, b, query) && ranks_before(b, a, query)),
{
    crate::strings::lemma_text_less(a.release_year, b.release_year);
}

/// What stands ahead of a result's place, and what stands behind it.
proof fn lemma_rank_place(v: Seq<SearchResultV>, r: SearchResultV, query: Seq<char>, n: int)
    requires
        0 <= n <= v.len(),
    ensures
        ({
            let p = rank_of(v, r, query, n);
            &&& 0 <= p <= n
            &&& forall|i: int| p <= i < n ==> ranks_before(r, #[trigger] v[i], query)
            &&& p > 0 ==> !ranks_before(r, v[p - 1], query)
        }),
    decreases n,
{
    if n > 0 && ranks_before(r, v[n - 1], query) {
        lemma_rank_place(v, r, query, n - 1);
    }
}

/// The results after a ranking are those before it, in the order of their ranks.
pub proof fn law_ranked(v: Seq<SearchResultV>, query: Seq<char>)
    ensures
        in_rank_order(ranked(v, query), query),
        ranked(v, query).to_multiset() == v.to_multiset(),
    decreases v.len(),
{
    if v.len() > 0 {
        law_ranked(v.drop_last(), query);
        let s = ranked(v.drop_last(), query);
        let r = v.last();
        let p = rank_of(s, r, query, s.len() as int);
        lemma_rank_place(s, r, query, s.len() as int);
        let out = s.insert(p, r);
        assert forall|i: int, j: int| 0 <= i < j < out.len() implies !ranks_before(
            #[trigger] out[j],
            #[trigger] out[i],
            query,
        ) by {
            if i == p {
                assert(out[j] == s[j - 1]);
                lemma_ranks_one_way(r, s[j - 1], query);
            } else if j == p {
                assert(out[i] == s[i]);
                if i < p - 1 {
                    assert(!ranks_before(s[p - 1], s[i], query));
                    lemma_ranks_chain(s[i], s[p - 1], r, query);
                }
            } else {
                let a = if i < p { i } else { i - 1 };
                let b = if j < p { j } else { j - 1 };
                assert(out[i] == s[a] && out[j] == s[b]);
                assert(!ranks_before(s[b], s[a], query));
            }
        }
        vstd::seq_lib::to_multiset_insert(s, p, r);
        vstd::seq_lib::to_multiset_build(v.drop_last(), r);
        assert(v =~= v.drop_last().push(r));
    }
}

// ---------------------------------------------------------------------------
// What becomes of a title
// ---------------------------------------------------------------------------

/// Whether a title says in square brackets that it is dubbed.
pub open spec fn says_dub(raw_title: Seq<char>) -> bool {
    let t = lowercase(raw_title);
    ||| has(t, "[hindi]"@)
    ||| has(t, "[tamil]"@)
    ||| has(t, "[telugu]"@)
    ||| has(t, "[english]"@)
}

/// A title with an identifier that is new, not marked as a dub, and different from every known result
/// in title, kind or release date, is put behind the results, under its cleaned title and with all
/// else as it was given.
pub proof fn law_new_title_is_listed(v: Seq<SearchResultV>, it: ItemV)
    requires
        it.id.len() > 0,
        forall|i: int| 0 <= i < v.len() ==> (#[trigger] v[i]).id != it.id,
        !says_dub(it.raw_title),
        forall|i: int|
            0 <= i < v.len() ==> (#[trigger] v[i]).title != clean_title(it.raw_title) || v[i].stype
                != it.stype || v[i].release_year != it.release_year,
    ensures
        merged(v, it) == v.push(
            (SearchResultOf {
                id: it.id,
                title: clean_title(it.raw_title),
                stype: it.stype,
                release_year: it.release_year,
                cover_url: it.cover_url,
                season: it.season,
            }),
        ),
{
    lemma_id_at(v, it.id, 0);
}

/// A dub whose title and kind no known result has is listed like any other title.
pub proof fn law_new_dub_is_listed(v: Seq<SearchResultV>, it: ItemV)
    requires
        it.id.len() > 0,
        forall|i: int| 0 <= i < v.len() ==> (#[trigger] v[i]).id != it.id,
        forall|i: int|
            0 <= i < v.len() ==> (#[trigger] v[i]).title != clean_title(it.raw_title) || v[i].stype
                != it.stype,
    ensures
        merged(v, it).len() == v.len() + 1,
        merged(v, it).last().id == it.id,
{
    lemma_id_at(v, it.id, 0);
}

/// A title is passed over if a result with another identifier has its title, kind and release date; a
/// dub already if one has its title and kind; and any title without an identifier.
pub proof fn law_duplicates_are_passed_over(v: Seq<SearchResultV>, it: ItemV, i: int)
    requires
        forall|k: int| 0 <= k < v.len() ==> (#[trigger] v[k]).id != it.id,
    ensures
        0 <= i < v.len() && v[i].title == clean_title(it.raw_title) && v[i].stype == it.stype
            && v[i].release_year == it.release_year ==> merged(v, it) == v,
        0 <= i < v.len() && v[i].title == clean_title(it.raw_title) && v[i].stype == it.stype
            && says_dub(it.raw_title) ==> merged(v, it) == v,
        it.id.len() == 0 ==> merged(v, it) == v,
{
    lemma_id_at(v, it.id, 0);
}

/// A title whose identifier is known takes the place of the result if it has a later season, and
/// leaves it as it is otherwise.
pub proof fn law_later_season_replaces(v: Seq<SearchResultV>, it: ItemV, i: int)
    requires
        0 <= i < v.len(),
        v[i].id == it.id,
        forall|k: int| 0 <= k < i ==> (#[trigger] v[k]).id != it.id,
    ensures
        it.season <= v[i].season ==> merged(v, it) == v,
        it.season > v[i].season ==> {
            let m = merged(v, it);
            &&& m.len() == v.len()
            &&& m[i].id == it.id && m[i].title == clean_title(it.raw_title)
            &&& m[i].season == it.season && m[i].stype == it.stype
            &&& m[i].release_year == it.release_year && m[i].cover_url == it.cover_url
            &&& forall|k: int| 0 <= k < v.len() && k != i ==> #[trigger] m[k] == v[k]
        },
{
    lemma_id_at(v, it.id, 0);
    let found = id_at(v, it.id, 0);
    assert(found is Some) by {
        if found is None {
            assert(v[i].id != it.id);
        }
    }
    if found->0 < i {
        assert(v[found->0].id != it.id);
    } else if found->0 > i {
        assert(v[i].id != it.id);
    }
}

/// Of the subjects of an answer those whose title holds the letters and digits of the query, in
/// whatever case, are merged one after the other, and the others are passed over.
pub proof fn law_answers_are_merged(
    v: Seq<SearchResultV>,
    items: Seq<JsonV>,
    j: JsonV,
    query: Seq<char>,
)
    ensures
        normal_form(query).len() == 0 || has(
            normal_form(search_item(j).raw_title),
            normal_form(query),
        ) ==> merged_search(v, items.push(j), query) == merged(
            merged_search(v, items, query),
            search_item(j),
        ),
        normal_form(query).len() > 0 && !(has(
            normal_form(search_item(j).raw_title),
            normal_form(query),
        )) ==> merged_search(v, items.push(j), query) == merged_search(v, items, query),
        merged_search(v, Seq::empty(), query) == v,
        merged_home(v, items.push(j)) == merged(merged_home(v, items), home_item(j)),
        merged_home(v, Seq::empty()) == v,
{
    assert(items.push(j).drop_last() =~= items);
}

/// What is read of a subject of an answer, and what stands in for what is missing.
pub proof fn law_subjects_are_read(j: JsonV, s: Seq<char>, n: u64)
    ensures
        j.get("subjectId"@) == Some(JsonV::Text(s)) ==> search_item(j).id == s && home_item(j).id
            == s,
        j.get("title"@) == Some(JsonV::Text(s)) ==> search_item(j).raw_title == s && home_item(
            j,
        ).raw_title == s,
        j.get("title"@) is None ==> search_item(j).raw_title == "Unknown"@,
        j.get("subjectType"@) == Some(JsonV::Unsigned(n)) && n <= i64::MAX ==> search_item(j).stype
            == n && home_item(j).stype == n,
        j.get("subjectType"@) is None ==> search_item(j).stype == 0,
        j.get("releaseDate"@) == Some(JsonV::Text(s)) ==> search_item(j).release_year == s,
        j.get("releaseDate"@) is None ==> search_item(j).release_year == "N/A"@,
        j.get("releaseDate"@) == Some(JsonV::Text(s)) ==> home_item(j).release_year == before(
            s,
            CharClass::Is('-'),
        ),
        j.get("season"@) == Some(JsonV::Unsigned(n)) ==> search_item(j).season == n as usize,
        j.get("season"@) is None ==> search_item(j).season == 0,
        j.get("poster"@) == Some(JsonV::Text(s)) ==> search_item(j).cover_url == Some(s),
        j.get("poster"@) is None && j.get("cover"@) is Some && j.get("cover"@)->0.get("url"@)
            == Some(JsonV::Text(s)) ==> search_item(j).cover_url == Some(s) && home_item(
            j,
        ).cover_url == Some(s),
        j.get("poster"@) is None && j.get("cover"@) is None && j.get("pic"@) == Some(
            JsonV::Text(s),
        ) ==> search_item(j).cover_url == Some(s),
{
}

/// The order of results: a title that is the query comes first, then one that begins with it, then the
/// higher kind, then the later date.
pub proof fn law_order_of_results(a: SearchResultV, b: SearchResultV, query: Seq<char>)
    ensures
        ({
            let (s, t) = (lowercase(a.title), lowercase(b.title));
            &&& s == query && t != query ==> ranks_before(a, b, query)
            &&& s != query && t != query && begins(s, query) && !begins(t, query) ==> ranks_before(
                a,
                b,
                query,
            )
            &&& (s == query) == (t == query) && begins(s, query) == begins(t, query) && a.stype
                > b.stype ==> ranks_before(a, b, query)
            &&& (s == query) == (t == query) && begins(s, query) == begins(t, query) && a.stype
                == b.stype ==> (ranks_before(a, b, query) <==> text_less(
                b.release_year,
                a.release_year,
            ))
            &&& ranks_before(a, b, query) ==> !ranks_before(b, a, query)
        }),
{
    lemma_ranks_one_way(a, b, query);
}

/// A result that comes last stands behind all that it does not go before, and before all that it goes before.
pub proof fn law_place_by_rank(v: Seq<SearchResultV>, x: SearchResultV, query: Seq<char>)
    ensures
        exists|p: int|
            0 <= p <= ranked(v, query).len() && #[trigger] ranked(v, query).insert(p, x) == ranked(v.push(x), query)
                && (forall|i: int| 0 <= i < p ==> !ranks_before(x, #[trigger] ranked(v, query)[i], query)) && (forall|i: int|
                p <= i < ranked(v, query).len() ==> ranks_before(x, #[trigger] ranked(v, query)[i], query)),
{
    assert(v.push(x).drop_last() =~= v);
    let s = ranked(v, query);
    lemma_rank_place(s, x, query, s.len() as int);
    let p = rank_of(s, x, query, s.len() as int);
    assert(s.insert(p, x) == ranked(v.push(x), query));
    law_ranked(v, query);
    assert forall|i: int| 0 <= i < p implies !ranks_before(x, #[trigger] s[i], query) by {
        if i < p - 1 {
            assert(!ranks_before(s[p - 1], s[i], query));
            lemma_ranks_chain(s[i], s[p - 1], x, query);
        }
    }
}

} // verus!
