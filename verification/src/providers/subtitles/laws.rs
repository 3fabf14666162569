//! What holds of the subtitles that are searched for, found and fetched.
use vstd::prelude::*;
use vstd::utf8::encode_utf8;
use crate::json::JsonV;
use crate::numbers::{all_digits, capital_hex, decimal, decimal_int};
use crate::outside::{archive_entry_bytes, archive_entry_name, archive_len, form_encoded, lowercase};
use crate::providers::models::ProviderKind;
use crate::providers::subtitles::cache::{
    extension_of, file_path, search_parts, sibling, stem_of, subtitle_parts,
};
use crate::providers::subtitles::opensubtitles::{
    OpenSubtitlesClient, OpenSubtitlesConfig, OpenSubtitlesError, SubtitleItemV, all_candidates,
    best_candidate, encoded, encoded_byte, first_indonesian, friendly, item_candidates,
    languages_in, listed, refusal, search_params, snippet, switched_on, wait_of,
};
use crate::providers::subtitles::subdl::{
    EntryV, SubdlCandidateV, SubdlConfig, SubdlErrorV, SubdlItemV, all_subdl_candidates,
    archive_entries, basename_of, best_place, first_in_archive, first_subtitle, id_in_url, slashed,
    subdl_candidate_of, subdl_label_of, subdl_options, subdl_params, subdl_score, subtitle_ext,
    usable_entry, with_pairs, year_wanted,
};
use crate::providers::subtitles::{
    Lookup, OsCandidateV, SubtitleContextV, first_text, fresh_candidates, has_label, imdb_id_of,
    imdb_keys, is_indonesian, label_of, lookup_for, names_indonesian, score_of, title_in_release,
    token_in,
};
use crate::strings::{
    CharClass, before, begins, has, is_white, join, lemma_after_last, lemma_nothing_to_trim,
    lower_text, occurs_at, split, take_at_most, trim, words,
};

verus! {

// ---------------------------------------------------------------------------
// Languages
// ---------------------------------------------------------------------------

/// Indonesian is the language `id` or `indonesian`, in whatever case, and no other.
pub proof fn law_indonesian_by_code_or_name(language: Seq<char>)
    ensures
        is_indonesian(language) <==> lower_text(language) == "id"@ || lower_text(language)
            == "indonesian"@,
{
    reveal_strlit("id");
    reveal_strlit("indonesian");
    assert(lower_text("id"@) =~= "id"@);
    assert(lower_text("indonesian"@) =~= "indonesian"@);
}

/// A caption is Indonesian if its name, in whatever case, holds `indo` or `bahasa` or is `id`, and not
/// otherwise.
pub proof fn law_indonesian_captions(name: Seq<char>)
    ensures
        has(lower_text(name), "indo"@) ==> names_indonesian(name),
        has(lower_text(name), "bahasa"@) ==> names_indonesian(name),
        trim(lower_text(name), CharClass::White) == "id"@ ==> names_indonesian(name),
        names_indonesian(name) && !(has(lower_text(name), "indo"@)) && trim(
            lower_text(name),
            CharClass::White,
        ) != "id"@ ==> has(lower_text(name), "bahasa"@),
{
}

/// A service is switched off by `false`, in whatever case, or by `0`, and by nothing else; left alone
/// it is on.
pub proof fn law_switches(v: Seq<char>)
    ensures
        switched_on(None),
        switched_on(Some(v)) <==> lower_text(v) != "false"@ && v != "0"@,
{
    reveal_strlit("false");
    assert(lower_text("false"@) =~= "false"@);
}

/// The languages wanted are those listed between commas, trimmed, without empty ones; if there are
/// none, Indonesian and English in this order.
pub proof fn law_languages_wanted(s: Seq<char>, i: int)
    requires
        0 <= i < split(s, CharClass::Is(',')).len(),
    ensures
        ({
            let word = trim(split(s, CharClass::Is(','))[i], CharClass::White);
            word.len() > 0 ==> languages_in(Some(s)).contains(word)
        }),
        languages_in(None) == seq!["id"@, "en"@],
        forall|k: int|
            0 <= k < languages_in(Some(s)).len() ==> (#[trigger] languages_in(Some(s))[k]).len() > 0,
        languages_in(Some(s)).len() > 0,
{
    reveal_strlit("id");
    reveal_strlit("en");
    lemma_listed(split(s, CharClass::Is(',')), i);
}

/// What is listed are the entries, trimmed, that are not empty.
proof fn lemma_listed(v: Seq<Seq<char>>, i: int)
    requires
        0 <= i < v.len(),
    ensures
        trim(v[i], CharClass::White).len() > 0 ==> listed(v).contains(
            trim(v[i], CharClass::White),
        ),
        forall|k: int| 0 <= k < listed(v).len() ==> (#[trigger] listed(v)[k]).len() > 0,
    decreases v.len(),
{
    let t = v.drop_last();
    let s = trim(v.last(), CharClass::White);
    if t.len() > 0 {
        let j = if i < t.len() {
            i
        } else {
            0
        };
        lemma_listed(t, j);
    } else {
        assert(listed(t) =~= Seq::empty());
    }
    if s.len() > 0 {
        assert(listed(v)[listed(t).len() as int] == s);
        assert forall|x: Seq<char>| listed(t).contains(x) implies listed(v).contains(x) by {
            let k = choose|k: int| 0 <= k < listed(t).len() && listed(t)[k] == x;
            assert(listed(v)[k] == x);
        }
    }
}

// ---------------------------------------------------------------------------
// Scores
// ---------------------------------------------------------------------------

/// What a match is worth to a subtitle of OpenSubtitles: Indonesian 50, the year in the name of the
/// release 15, a word of the title in it 20, not being translated by a machine 10, and every ten
/// thousand downloads 1, up to 10.
pub proof fn law_worth_of_matches(item: SubtitleItemV, ctx: SubtitleContextV, release: Seq<char>)
    requires
        item.release_name == Some(release),
    ensures
        ctx.year is Some && has(release, ctx.year->0) ==> score_of(item, ctx) == score_of(
            item,
            (SubtitleContextV { year: None, ..ctx }),
        ) + 15,
        ctx.year is Some && !(has(release, ctx.year->0)) ==> score_of(item, ctx) == score_of(
            item,
            (SubtitleContextV { year: None, ..ctx }),
        ),
        title_in_release(ctx.title, release) ==> score_of(item, ctx) == score_of(
            (SubtitleItemV { release_name: None, ..item }),
            (SubtitleContextV { year: None, ..ctx }),
        ) + 20 + (if ctx.year is Some && has(release, ctx.year->0) {
            15int
        } else {
            0
        }),
        score_of(
            (SubtitleItemV { ai_translated: None, machine_translated: None, ..item }),
            ctx,
        ) == score_of((SubtitleItemV { ai_translated: Some(true), ..item }), ctx) + 10,
        score_of(
            (SubtitleItemV { ai_translated: None, machine_translated: None, ..item }),
            ctx,
        ) == score_of((SubtitleItemV { machine_translated: Some(true), ..item }), ctx) + 10,
        score_of(
            (SubtitleItemV { ai_translated: Some(false), machine_translated: Some(false), ..item }),
            ctx,
        ) == score_of(
            (SubtitleItemV { ai_translated: None, machine_translated: None, ..item }),
            ctx,
        ),
        score_of((SubtitleItemV { language: Some("id"@), ..item }), ctx) == score_of(
            (SubtitleItemV { language: None, ..item }),
            ctx,
        ) + 50,
        score_of((SubtitleItemV { language: Some("en"@), ..item }), ctx) == score_of(
            (SubtitleItemV { language: None, ..item }),
            ctx,
        ),
{
    law_indonesian_by_code_or_name("id"@);
    law_indonesian_by_code_or_name("en"@);
    law_indonesian_by_code_or_name(Seq::empty());
    reveal_strlit("id");
    reveal_strlit("en");
    reveal_strlit("indonesian");
    assert(lower_text("id"@) =~= "id"@);
    assert(lower_text("en"@).len() == 2);
    assert(lower_text("en"@)[0] == 'e');
    assert(lower_text(Seq::empty()).len() == 0);
}

/// Downloads add one for every ten thousand, and ten at most; more of them never lower a score.
pub proof fn law_worth_of_downloads(item: SubtitleItemV, ctx: SubtitleContextV, n: u32)
    ensures
        ({
            let none = SubtitleItemV { download_count: None, ..item };
            let some = SubtitleItemV { download_count: Some(n), ..item };
            &&& n < 10_000 ==> score_of(some, ctx) == score_of(none, ctx)
            &&& n >= 100_000 ==> score_of(some, ctx) == score_of(none, ctx) + 10
            &&& n < 100_000 ==> {
                let more = score_of(some, ctx) - score_of(none, ctx);
                more * 10_000 <= n < (more + 1) * 10_000
            }
        }),
{
}

/// What a match is worth to a subtitle of SubDL: Indonesian 50, the year in the name of the release 15,
/// a word of the title in it 20, every ten thousand downloads 1 up to 10, and each half point of its
/// rating 1 up to 20. Where no year is searched for, that of the title found counts.
pub proof fn law_worth_of_subdl_matches(
    item: SubdlItemV,
    ctx: SubtitleContextV,
    title_year: Option<i64>,
    release: Seq<char>,
)
    requires
        item.release_name == Some(release),
    ensures
        ctx.year is Some ==> subdl_score(item, ctx, title_year) == subdl_score(item, ctx, None),
        ctx.year is Some && has(release, ctx.year->0) ==> subdl_score(item, ctx, None)
            == subdl_score(item, (SubtitleContextV { year: None, ..ctx }), None) + 15,
        title_in_release(ctx.title, release) ==> subdl_score(
            item,
            (SubtitleContextV { year: None, ..ctx }),
            None,
        ) == subdl_score(
            (SubdlItemV { release_name: None, ..item }),
            (SubtitleContextV { year: None, ..ctx }),
            None,
        ) + 20,
        subdl_score((SubdlItemV { language: Some("id"@), ..item }), ctx, title_year) == subdl_score(
            (SubdlItemV { language: None, ..item }),
            ctx,
            title_year,
        ) + 50,
{
    law_indonesian_by_code_or_name("id"@);
    law_indonesian_by_code_or_name(Seq::empty());
    reveal_strlit("id");
    reveal_strlit("indonesian");
    assert(lower_text("id"@) =~= "id"@);
    assert(lower_text(Seq::empty()).len() == 0);
}

/// What rating and downloads are worth to a subtitle of SubDL.
pub proof fn law_worth_of_ratings(
    item: SubdlItemV,
    ctx: SubtitleContextV,
    title_year: Option<i64>,
    doubled: i32,
    text: Seq<char>,
    n: u32,
)
    ensures
        ({
            let none = SubdlItemV { rating: None, ..item };
            let rated = SubdlItemV { rating: Some((doubled, text)), ..item };
            let more = subdl_score(rated, ctx, title_year) - subdl_score(none, ctx, title_year);
            &&& 0 <= doubled <= 20 ==> more == doubled
            &&& doubled < 0 ==> more == 0
            &&& doubled > 20 ==> more == 20
        }),
        ({
            let none = SubdlItemV { download_count: None, ..item };
            let some = SubdlItemV { download_count: Some(n), ..item };
            let more = subdl_score(some, ctx, title_year) - subdl_score(none, ctx, title_year);
            &&& n >= 100_000 ==> more == 10
            &&& n < 100_000 ==> more * 10_000 <= n < (more + 1) * 10_000
        }),
{
}

/// A release is of a title if one of the first three words of the title, without what is neither
/// letter nor number around it and in lower case, has at least four bytes and stands in its name;
/// later words do not count.
pub proof fn law_words_of_the_title(title: Seq<char>, release: Seq<char>, i: int)
    requires
        0 <= i < words(title).len(),
    ensures
        i < 3 && token_in(words(title)[i], release) ==> title_in_release(title, release),
        (forall|k: int| 0 <= k < 3 && k < words(title).len() ==> !token_in(words(title)[k], release))
            ==> !title_in_release(title, release),
{
}

// ---------------------------------------------------------------------------
// Candidates
// ---------------------------------------------------------------------------

/// Every file of every subtitle found is a candidate, with the number of the file, and the language and
/// the score of the subtitle; without a language it counts as undetermined.
pub proof fn law_every_file_is_a_candidate(
    v: Seq<SubtitleItemV>,
    ctx: SubtitleContextV,
    i: int,
    k: int,
)
    requires
        0 <= i < v.len(),
        0 <= k < v[i].files.len(),
    ensures
        exists|j: int|
            0 <= j < all_candidates(v, ctx).len() && {
                let c = #[trigger] all_candidates(v, ctx)[j];
                &&& c.file_id == v[i].files[k]
                &&& v[i].language is Some ==> c.language == v[i].language->0
                &&& v[i].language is None ==> c.language == "und"@
                &&& c.score == score_of(v[i], ctx) as i32
                &&& c.release_name == v[i].release_name
                &&& c.download_count == v[i].download_count
                &&& c.machine_translated <==> v[i].ai_translated == Some(true)
                    || v[i].machine_translated == Some(true)
            },
    decreases v.len(),
{
    let t = v.drop_last();
    let head = all_candidates(t, ctx);
    let all = all_candidates(v, ctx);
    if i < t.len() {
        law_every_file_is_a_candidate(t, ctx, i, k);
        let j = choose|j: int|
            0 <= j < head.len() && {
                let c = #[trigger] head[j];
                &&& c.file_id == t[i].files[k]
                &&& t[i].language is Some ==> c.language == t[i].language->0
                &&& t[i].language is None ==> c.language == "und"@
                &&& c.score == score_of(t[i], ctx) as i32
                &&& c.release_name == t[i].release_name
                &&& c.download_count == t[i].download_count
                &&& c.machine_translated <==> t[i].ai_translated == Some(true)
                    || t[i].machine_translated == Some(true)
            };
        assert(all[j] == head[j]);
    } else {
        assert(v.last() == v[i]);
        let j = head.len() as int + k;
        assert(all[j] == item_candidates(v[i], ctx)[k]);
    }
}

/// There are no more candidates than files.
pub proof fn law_candidates_are_files(v: Seq<SubtitleItemV>, item: SubtitleItemV, ctx: SubtitleContextV)
    ensures
        all_candidates(v.push(item), ctx).len() == all_candidates(v, ctx).len() + item.files.len(),
        all_candidates(Seq::empty(), ctx).len() == 0,
{
    assert(v.push(item).drop_last() =~= v);
}

/// The subtitle that is taken unasked is the first in Indonesian; where there is none, the first of
/// all; and none only if there is none at all.
pub proof fn law_best_is_indonesian(v: Seq<OsCandidateV>, i: int)
    requires
        0 <= i < v.len(),
    ensures
        best_candidate(Seq::empty()) is None,
        best_candidate(v) is Some,
        v.contains(best_candidate(v)->0),
        (lower_text(v[i].language) == "id"@ || lower_text(v[i].language) == "indonesian"@) && (
        forall|j: int|
            0 <= j < i ==> lower_text(#[trigger] v[j].language) != "id"@ && lower_text(v[j].language)
                != "indonesian"@) ==> best_candidate(v) == Some(v[i]),
        (forall|j: int|
            0 <= j < v.len() ==> lower_text(#[trigger] v[j].language) != "id"@ && lower_text(
                v[j].language,
            ) != "indonesian"@) ==> best_candidate(v) == Some(v[0]),
{
    lemma_first_indonesian(v, i);
    assert(v[0] == v[0]);
    assert(first_indonesian(Seq::<OsCandidateV>::empty()) is None);
}

/// What the first Indonesian candidate is.
proof fn lemma_first_indonesian(v: Seq<OsCandidateV>, i: int)
    requires
        0 <= i < v.len(),
    ensures
        first_indonesian(v) is Some ==> v.contains(first_indonesian(v)->0),
        (lower_text(v[i].language) == "id"@ || lower_text(v[i].language) == "indonesian"@) && (
        forall|j: int|
            0 <= j < i ==> lower_text(#[trigger] v[j].language) != "id"@ && lower_text(v[j].language)
                != "indonesian"@) ==> first_indonesian(v) == Some(v[i]),
        (forall|j: int|
            0 <= j < v.len() ==> lower_text(#[trigger] v[j].language) != "id"@ && lower_text(
                v[j].language,
            ) != "indonesian"@) ==> first_indonesian(v) is None,
    decreases v.len(),
{
    law_indonesian_by_code_or_name(v[0].language);
    if is_indonesian(v[0].language) {
        assert(v.contains(v[0]));
        if i > 0 {
            assert(lower_text(v[0].language) == "id"@ || lower_text(v[0].language)
                == "indonesian"@);
        }
    } else {
        let t = v.skip(1);
        if t.len() > 0 {
            let k = if i > 0 {
                i - 1
            } else {
                0
            };
            lemma_first_indonesian(t, k);
            assert forall|x: OsCandidateV| t.contains(x) implies v.contains(x) by {
                let j = choose|j: int| 0 <= j < t.len() && t[j] == x;
                assert(v[j + 1] == x);
            }
            if forall|j: int|
                0 <= j < i ==> lower_text(#[trigger] v[j].language) != "id"@ && lower_text(
                    v[j].language,
                ) != "indonesian"@ {
                assert forall|j: int| 0 <= j < k implies lower_text(#[trigger] t[j].language)
                    != "id"@ && lower_text(t[j].language) != "indonesian"@ by {
                    assert(t[j] == v[j + 1]);
                }
            }
            if forall|j: int|
                0 <= j < v.len() ==> lower_text(#[trigger] v[j].language) != "id"@ && lower_text(
                    v[j].language,
                ) != "indonesian"@ {
                assert forall|j: int| 0 <= j < t.len() implies lower_text(
                    #[trigger] t[j].language,
                ) != "id"@ && lower_text(t[j].language) != "indonesian"@ by {
                    assert(t[j] == v[j + 1]);
                }
            }
        } else {
            assert(first_indonesian(t) is None);
        }
    }
}

/// The candidate of SubDL that is taken unasked is the first in Indonesian, or else the first of all.
pub proof fn law_best_of_subdl(v: Seq<SubdlCandidateV>, from: int)
    requires
        0 <= from <= v.len(),
        v.len() > 0,
    ensures
        best_place(v, from) matches Some(i) && 0 <= i < v.len() && {
            ||| from <= i && is_indonesian(v[i].language) && forall|j: int|
                from <= j < i ==> !is_indonesian(#[trigger] v[j].language)
            ||| i == 0 && forall|j: int|
                from <= j < v.len() ==> !is_indonesian(#[trigger] v[j].language)
        },
        best_place(Seq::empty(), 0) is None,
    decreases v.len() - from,
{
    if from < v.len() && !is_indonesian(v[from].language) {
        law_best_of_subdl(v, from + 1);
    }
}

/// A subtitle of SubDL with an identifier is a candidate with that identifier, its language and its
/// release; without a language it counts as Indonesian. The identifier given first counts before the
/// other, and both before the one in the path.
pub proof fn law_subdl_candidate(
    item: SubdlItemV,
    ctx: SubtitleContextV,
    title_year: Option<i64>,
    id: Seq<char>,
)
    requires
        trim(id, CharClass::White).len() > 0,
    ensures
        item.n_id == Some(id) ==> item.archive_id() == Some(trim(id, CharClass::White)),
        item.n_id is None && item.id == Some(id) ==> item.archive_id() == Some(
            trim(id, CharClass::White),
        ),
        item.n_id is None && item.id is None && item.url is None ==> item.archive_id() is None,
        item.archive_id() is Some <==> subdl_candidate_of(item, ctx, title_year) is Some,
        item.archive_id() is Some ==> {
            let c = subdl_candidate_of(item, ctx, title_year)->0;
            &&& c.subtitle_id == item.archive_id()->0
            &&& item.language is Some ==> c.language == item.language->0
            &&& item.language is None ==> c.language == "id"@
            &&& c.score == subdl_score(item, ctx, title_year) as i32
            &&& c.release_name == item.release_name
            &&& c.rating == item.rating
            &&& c.download_count == item.download_count
        },
{
}

/// Every subtitle of SubDL whose archive is known is a candidate, and no other is.
pub proof fn law_subdl_candidates(
    v: Seq<SubdlItemV>,
    item: SubdlItemV,
    ctx: SubtitleContextV,
    title_year: Option<i64>,
)
    ensures
        item.archive_id() is Some ==> all_subdl_candidates(v.push(item), ctx, title_year)
            == all_subdl_candidates(v, ctx, title_year).push(
            subdl_candidate_of(item, ctx, title_year)->0,
        ),
        item.archive_id() is None ==> all_subdl_candidates(v.push(item), ctx, title_year)
            == all_subdl_candidates(v, ctx, title_year),
{
    assert(v.push(item).drop_last() =~= v);
}

// ---------------------------------------------------------------------------
// Names
// ---------------------------------------------------------------------------

/// A subtitle is named by its language, `Indonesian` for Indonesian, and its source; then come, each
/// behind a dot and where they are known, the first forty characters of its release, its downloads,
/// and that a machine has translated it.
pub proof fn law_names_of_subtitles(c: OsCandidateV, release: Seq<char>, n: u32)
    ensures
        ({
            let bare = OsCandidateV {
                release_name: None,
                download_count: None,
                machine_translated: false,
                ..c
            };
            let released = OsCandidateV { release_name: Some(release), ..bare };
            let counted = OsCandidateV { download_count: Some(n), ..released };
            let translated = OsCandidateV { machine_translated: true, ..counted };
            &&& is_indonesian(c.language) ==> label_of(bare) == "Indonesian [OS]"@
            &&& !is_indonesian(c.language) ==> label_of(bare) == c.language + " [OS]"@
            &&& release.len() <= 40 ==> label_of(released) == label_of(bare) + " \u{b7} "@ + release
            &&& release.len() > 40 ==> label_of(released) == label_of(bare) + " \u{b7} "@
                + release.take(40)
            &&& label_of(counted) == label_of(released) + " \u{b7} "@ + decimal(n as nat) + " dl"@
            &&& label_of(translated) == label_of(counted) + " \u{b7} MT"@
        }),
{
    reveal_strlit("Indonesian");
    reveal_strlit(" [OS]");
    reveal_strlit("Indonesian [OS]");
    let bare = OsCandidateV {
        release_name: None,
        download_count: None,
        machine_translated: false,
        ..c
    };
    let released = OsCandidateV { release_name: Some(release), ..bare };
    let counted = OsCandidateV { download_count: Some(n), ..released };
    let translated = OsCandidateV { machine_translated: true, ..counted };
    let part = " \u{b7} "@ + take_at_most(release, 40);
    let count = " \u{b7} "@ + decimal(n as nat) + " dl"@;
    assert(label_of(bare) =~= (if is_indonesian(c.language) {
        "Indonesian"@
    } else {
        c.language
    }) + " [OS]"@);
    assert("Indonesian"@ + " [OS]"@ =~= "Indonesian [OS]"@);
    assert(label_of(released) =~= label_of(bare) + part);
    assert(label_of(bare) + part =~= label_of(bare) + " \u{b7} "@ + take_at_most(release, 40));
    assert(label_of(counted) =~= label_of(released) + count);
    assert(label_of(released) + count =~= label_of(released) + " \u{b7} "@ + decimal(n as nat)
        + " dl"@);
    assert(label_of(translated) =~= label_of(counted) + " \u{b7} MT"@);
}

/// A candidate whose name is new is put behind the list with its name and the marker of its file; one
/// whose name is there already, in whatever case, is not.
pub proof fn law_candidates_are_merged(
    base: Seq<(Seq<char>, Seq<char>)>,
    v: Seq<OsCandidateV>,
    c: OsCandidateV,
)
    ensures
        !has_label(base, label_of(c)) ==> fresh_candidates(base, v.push(c)) == fresh_candidates(
            base,
            v,
        ).push((label_of(c), "os:"@ + decimal(c.file_id as nat) + ":"@ + c.language)),
        has_label(base, label_of(c)) ==> fresh_candidates(base, v.push(c)) == fresh_candidates(
            base,
            v,
        ),
        forall|i: int|
            0 <= i < base.len() && (#[trigger] base[i]).0 == label_of(c) ==> has_label(
                base,
                label_of(c),
            ),
{
    assert(v.push(c).drop_last() =~= v);
}

/// A subtitle of SubDL is named like one of OpenSubtitles, but for its source and its rating.
pub proof fn law_names_of_subdl(c: SubdlCandidateV, release: Seq<char>, n: u32)
    ensures
        ({
            let bare = SubdlCandidateV {
                release_name: None,
                download_count: None,
                rating: None,
                ..c
            };
            let released = SubdlCandidateV { release_name: Some(release), ..bare };
            let counted = SubdlCandidateV { download_count: Some(n), ..released };
            &&& is_indonesian(c.language) ==> subdl_label_of(bare) == "Indonesian [SubDL]"@
            &&& !is_indonesian(c.language) ==> subdl_label_of(bare) == c.language + " [SubDL]"@
            &&& release.len() <= 40 ==> subdl_label_of(released) == subdl_label_of(bare)
                + " \u{b7} "@ + release
            &&& subdl_label_of(counted) == subdl_label_of(released) + " \u{b7} "@ + decimal(
                n as nat,
            ) + " dl"@
        }),
{
    reveal_strlit("Indonesian");
    reveal_strlit(" [SubDL]");
    reveal_strlit("Indonesian [SubDL]");
    let bare = SubdlCandidateV { release_name: None, download_count: None, rating: None, ..c };
    let released = SubdlCandidateV { release_name: Some(release), ..bare };
    let counted = SubdlCandidateV { download_count: Some(n), ..released };
    let part = " \u{b7} "@ + take_at_most(release, 40);
    let count = " \u{b7} "@ + decimal(n as nat) + " dl"@;
    assert(subdl_label_of(bare) =~= (if is_indonesian(c.language) {
        "Indonesian"@
    } else {
        c.language
    }) + " [SubDL]"@);
    assert("Indonesian"@ + " [SubDL]"@ =~= "Indonesian [SubDL]"@);
    assert(subdl_label_of(released) =~= subdl_label_of(bare) + part);
    assert(subdl_label_of(bare) + part =~= subdl_label_of(bare) + " \u{b7} "@ + take_at_most(
        release,
        40,
    ));
    assert(subdl_label_of(counted) =~= subdl_label_of(released) + count);
    assert(subdl_label_of(released) + count =~= subdl_label_of(released) + " \u{b7} "@ + decimal(
        n as nat,
    ) + " dl"@);
}

// ---------------------------------------------------------------------------
// Requests
// ---------------------------------------------------------------------------

/// A title with a number at IMDb is searched for by that number alone, an episode with its season and
/// its number.
pub proof fn law_asks_by_number(
    ctx: SubtitleContextV,
    languages: Seq<char>,
    id: Seq<char>,
    season: usize,
    episode: usize,
)
    requires
        ctx.imdb_id == Some(id),
    ensures
        ctx.is_episode && ctx.season == Some(season) && ctx.episode == Some(episode)
            ==> search_params(ctx, languages) == seq![
            ("languages"@, languages),
            ("imdb_id"@, id),
            ("type"@, "episode"@),
            ("season_number"@, decimal(season as nat)),
            ("episode_number"@, decimal(episode as nat)),
        ],
        !ctx.is_episode ==> search_params(ctx, languages) == seq![
            ("languages"@, languages),
            ("imdb_id"@, id),
            ("type"@, "movie"@),
        ],
        ctx.is_episode && ctx.season == Some(season) && ctx.episode == Some(episode)
            ==> subdl_params(ctx, languages) == seq![
            ("languages"@, languages),
            ("imdb_id"@, id),
            ("type"@, "tv"@),
            ("season"@, decimal(season as nat)),
            ("episode"@, decimal(episode as nat)),
            ("subs_per_page"@, "30"@),
        ],
        !ctx.is_episode ==> subdl_params(ctx, languages) == seq![
            ("languages"@, languages),
            ("imdb_id"@, id),
            ("type"@, "movie"@),
            ("subs_per_page"@, "30"@),
        ],
{
    if ctx.is_episode && ctx.season == Some(season) && ctx.episode == Some(episode) {
        assert(search_params(ctx, languages) =~= seq![
            ("languages"@, languages),
            ("imdb_id"@, id),
            ("type"@, "episode"@),
            ("season_number"@, decimal(season as nat)),
            ("episode_number"@, decimal(episode as nat)),
        ]);
        assert(subdl_params(ctx, languages) =~= seq![
            ("languages"@, languages),
            ("imdb_id"@, id),
            ("type"@, "tv"@),
            ("season"@, decimal(season as nat)),
            ("episode"@, decimal(episode as nat)),
            ("subs_per_page"@, "30"@),
        ]);
    }
    if !ctx.is_episode {
        assert(search_params(ctx, languages) =~= seq![
            ("languages"@, languages),
            ("imdb_id"@, id),
            ("type"@, "movie"@),
        ]);
        assert(subdl_params(ctx, languages) =~= seq![
            ("languages"@, languages),
            ("imdb_id"@, id),
            ("type"@, "movie"@),
            ("subs_per_page"@, "30"@),
        ]);
    }
}

/// A title without such a number is searched for by its name, and its year if that is known.
pub proof fn law_asks_by_title(
    ctx: SubtitleContextV,
    languages: Seq<char>,
    year: Seq<char>,
    season: usize,
    episode: usize,
)
    requires
        ctx.imdb_id is None,
    ensures
        !ctx.is_episode && ctx.year == Some(year) ==> search_params(ctx, languages) == seq![
            ("languages"@, languages),
            ("query"@, ctx.title),
            ("year"@, year),
            ("type"@, "movie"@),
        ],
        !ctx.is_episode && ctx.year is None ==> search_params(ctx, languages) == seq![
            ("languages"@, languages),
            ("query"@, ctx.title),
            ("type"@, "movie"@),
        ],
        ctx.is_episode && ctx.year is None && ctx.season == Some(season) && ctx.episode == Some(
            episode,
        ) ==> search_params(ctx, languages) == seq![
            ("languages"@, languages),
            ("query"@, ctx.title),
            ("type"@, "episode"@),
            ("season_number"@, decimal(season as nat)),
            ("episode_number"@, decimal(episode as nat)),
        ],
        !ctx.is_episode && ctx.year == Some(year) ==> subdl_params(ctx, languages) == seq![
            ("languages"@, languages),
            ("film_name"@, ctx.title),
            ("year"@, year),
            ("type"@, "movie"@),
            ("subs_per_page"@, "30"@),
        ],
        ctx.is_episode && ctx.year is None && ctx.season == Some(season) && ctx.episode == Some(
            episode,
        ) ==> subdl_params(ctx, languages) == seq![
            ("languages"@, languages),
            ("film_name"@, ctx.title),
            ("type"@, "tv"@),
            ("season"@, decimal(season as nat)),
            ("episode"@, decimal(episode as nat)),
            ("subs_per_page"@, "30"@),
        ],
{
    if !ctx.is_episode && ctx.year == Some(year) {
        assert(search_params(ctx, languages) =~= seq![
            ("languages"@, languages),
            ("query"@, ctx.title),
            ("year"@, year),
            ("type"@, "movie"@),
        ]);
        assert(subdl_params(ctx, languages) =~= seq![
            ("languages"@, languages),
            ("film_name"@, ctx.title),
            ("year"@, year),
            ("type"@, "movie"@),
            ("subs_per_page"@, "30"@),
        ]);
    }
    if !ctx.is_episode && ctx.year is None {
        assert(search_params(ctx, languages) =~= seq![
            ("languages"@, languages),
            ("query"@, ctx.title),
            ("type"@, "movie"@),
        ]);
    }
    if ctx.is_episode && ctx.year is None && ctx.season == Some(season) && ctx.episode == Some(
        episode,
    ) {
        assert(search_params(ctx, languages) =~= seq![
            ("languages"@, languages),
            ("query"@, ctx.title),
            ("type"@, "episode"@),
            ("season_number"@, decimal(season as nat)),
            ("episode_number"@, decimal(episode as nat)),
        ]);
        assert(subdl_params(ctx, languages) =~= seq![
            ("languages"@, languages),
            ("film_name"@, ctx.title),
            ("type"@, "tv"@),
            ("season"@, decimal(season as nat)),
            ("episode"@, decimal(episode as nat)),
            ("subs_per_page"@, "30"@),
        ]);
    }
}

/// The value of a hexadecimal digit in upper case.
pub open spec fn hex_value(c: char) -> int {
    if '0' <= c <= '9' {
        c as int - 48
    } else {
        c as int - 55
    }
}

/// In a query a letter, a digit and each of `-_.~` stands for itself, the blank is a plus sign, and any
/// other byte is a percent sign with two digits that give the byte back.
pub proof fn law_encoded_bytes(b: u8)
    ensures
        48 <= b <= 57 || 65 <= b <= 90 || 97 <= b <= 122 || b == 45 || b == 95 || b == 46 || b == 126
            ==> encoded_byte(b) == seq![b as char],
        b == 32 ==> encoded_byte(b) == seq!['+'],
        encoded_byte(b).len() == 1 || (encoded_byte(b).len() == 3 && encoded_byte(b)[0] == '%'
            && hex_value(encoded_byte(b)[1]) * 16 + hex_value(encoded_byte(b)[2]) == b),
        b == 38 || b == 61 || b == 43 || b == 37 || b == 47 || b >= 128 ==> encoded_byte(b).len()
            == 3,
{
}

/// Bytes are encoded one by one, in their order.
pub proof fn law_encoded_one_by_one(a: Seq<u8>, b: u8)
    ensures
        encoded(a.push(b)) == encoded(a) + encoded_byte(b),
        encoded(Seq::empty()) == Seq::<char>::empty(),
{
    assert(a.push(b).drop_last() =~= a);
}

/// A token of OpenSubtitles holds for twenty hours from the login, and no longer.
pub proof fn law_token_holds_for_twenty_hours(c: OpenSubtitlesClient, now: u64, login: u64)
    requires
        c.last_login_at == Some(login),
        c.token is Some,
    ensures
        c.token_holds(now) <==> now < login + 72_000,
{
}

/// The words of the service that a request was refused with are put plainly, and others are kept.
pub proof fn law_plain_words(body: Seq<char>)
    ensures
        has(lower_text(body), "kong-user-agent-block"@) ==> friendly(body)
            == "User-Agent diblokir gateway OpenSubtitles (perlu User-Agent browser/valid)"@,
        !(has(lower_text(body), "kong-user-agent-block"@)) && has(
            lower_text(body),
            "you cannot consume this service"@,
        ) ==> friendly(body) == "API key tidak valid atau tidak terdaftar di OpenSubtitles"@,
        !(has(lower_text(body), "kong-user-agent-block"@)) && !(has(
            lower_text(body),
            "you cannot consume this service"@,
        )) && !(has(lower_text(body), "missing username and password"@)) && !(has(
            lower_text(body),
            "<html"@,
        )) && !(has(lower_text(body), "<!doctype"@)) ==> friendly(body) == body,
{
}

/// The wait that a service asks for is the number it gives, and three seconds where it gives none.
pub proof fn law_wait_asked_for(n: u64)
    ensures
        wait_of(Some(decimal(n as nat))) == n,
        wait_of(None) == 3,
{
    crate::numbers::lemma_decimal_round_trip(n as nat, u64::MAX as nat);
}

// ---------------------------------------------------------------------------
// Places
// ---------------------------------------------------------------------------

/// Where a subtitle is looked up unasked. SubDL comes first where it can be used; OpenSubtitles is used
/// only if more than three downloads remain or it is not known how many do.
pub proof fn law_places_of_lookup(subdl: bool, os: bool, n: u32)
    ensures
        lookup_for(subdl, os, Some(n), false, false) == Lookup::Nowhere,
        lookup_for(subdl, os, Some(n), true, true) == Lookup::Nowhere,
        n > 3 ==> lookup_for(true, os, Some(n), true, false) == (Lookup::Subdl { fallback: os }),
        n <= 3 ==> lookup_for(true, os, Some(n), true, false) == (Lookup::Subdl { fallback: false }),
        lookup_for(true, os, None, true, false) == (Lookup::Subdl { fallback: os }),
        n > 3 ==> lookup_for(false, true, Some(n), true, false) == Lookup::OpenSubtitles,
        n <= 3 ==> lookup_for(false, true, Some(n), true, false) == Lookup::Nowhere,
        lookup_for(false, true, None, true, false) == Lookup::OpenSubtitles,
        lookup_for(false, false, Some(n), true, false) == Lookup::Nowhere,
        (Lookup::Subdl { fallback: true }).next() == Lookup::OpenSubtitles,
        (Lookup::Subdl { fallback: false }).next() == Lookup::Nowhere,
        Lookup::OpenSubtitles.next() == Lookup::Nowhere,
{
}

/// A number at IMDb is taken from the first of the known keys that holds a text, and only if it is `tt`
/// with digits behind it.
pub proof fn law_number_at_imdb(details: JsonV, s: Seq<char>)
    ensures
        details.get("imdbId"@) == Some(JsonV::Text(s)) ==> imdb_id_of(details) == (if s.len() > 2
            && s[0] == 't' && s[1] == 't' && all_digits(s.skip(2)) {
            Some(s)
        } else {
            None
        }),
        details.get("imdbId"@) is None && details.get("imdb_id"@) == Some(JsonV::Text(s))
            ==> imdb_id_of(details) == (if s.len() > 2 && s[0] == 't' && s[1] == 't' && all_digits(
            s.skip(2),
        ) {
            Some(s)
        } else {
            None
        }),
{
    reveal_strlit("tt");
    reveal_with_fuel(first_text, 3);
    let keys = imdb_keys();
    assert(keys.skip(1)[0] == keys[1]);
    if s.len() > 2 {
        if s[0] == 't' && s[1] == 't' {
            assert(s.subrange(0, 2) =~= "tt"@);
        }
        if s.subrange(0, 2) == "tt"@ {
            assert(s.subrange(0, 2)[0] == 't' && s.subrange(0, 2)[1] == 't');
        }
    }
}

/// A subtitle is cached under its provider, title, season, episode, file and language; a search under
/// number, title, year, season, episode and languages.
pub proof fn law_cache_keys(
    provider: ProviderKind,
    id: Seq<char>,
    season: usize,
    episode: usize,
    file: Seq<char>,
    lang: Seq<char>,
    ctx: SubtitleContextV,
    languages: Seq<char>,
)
    ensures
        ({
            let p = subtitle_parts(provider, id, season, episode, file, lang);
            &&& p.len() == 7
            &&& p[1] == id && p[2] == decimal(season as nat) && p[3] == decimal(episode as nat)
            &&& p[4] == file && p[5] == lang
            &&& provider == ProviderKind::MovieBox ==> p[0] == "moviebox"@
            &&& provider == ProviderKind::FourKHdHub ==> p[0] == "4khdhub"@
        }),
        ({
            let q = search_parts(ctx, languages);
            &&& q.len() == 6
            &&& ctx.imdb_id is Some ==> q[0] == ctx.imdb_id->0
            &&& q[1] == ctx.title
            &&& ctx.year is Some ==> q[2] == ctx.year->0
            &&& ctx.season is Some ==> q[3] == decimal(ctx.season->0 as nat)
            &&& ctx.episode is Some ==> q[4] == decimal(ctx.episode->0 as nat)
            &&& q[5] == languages
        }),
        file_path(id, lang) == "moviebox-tui/subtitles"@ + "/"@ + id + "."@ + lang,
{
}

/// The extension behind the last dot of a file's name is that of a subtitle if it is one of five, in
/// whatever case; a subtitle of another is cached as `srt`.
pub proof fn law_extensions(stem: Seq<char>, ext: Seq<char>)
    requires
        forall|i: int| 0 <= i < ext.len() ==> (#[trigger] ext[i]) != '.',
    ensures
        ({
            let name = stem + "."@ + ext;
            let low = lower_text(ext);
            let known = low == "srt"@ || low == "vtt"@ || low == "ass"@ || low == "ssa"@ || low
                == "sub"@;
            &&& known ==> subtitle_ext(name) == Some(low)
            &&& known ==> extension_of(Some(name)) == low
            &&& !known ==> subtitle_ext(name) is None
            &&& !known ==> extension_of(Some(name)) == "srt"@
        }),
        extension_of(None) == "srt"@,
{
    reveal_strlit(".");
    let name = stem + "."@ + ext;
    let n = stem.len() as int + 1;
    assert(name[n - 1] == '.');
    assert forall|j: int| n <= j < name.len() implies !CharClass::Is('.').holds(name[j]) by {
        assert(name[j] == ext[j - n]);
    }
    lemma_after_last(name, CharClass::Is('.'), n);
    assert(name.skip(n) =~= ext);
}

/// Of the entries of an archive the first that is a subtitle is taken, if its contents can be read; the
/// ones before it are passed over.
pub proof fn law_first_subtitle_is_taken(v: Seq<EntryV>, i: int, ext: Seq<char>, bytes: Seq<u8>)
    requires
        0 <= i < v.len(),
        forall|j: int|
            0 <= j < i ==> (#[trigger] v[j]).name is Ok && usable_entry(v[j].name->Ok_0) is None,
        v[i].name is Ok && usable_entry(v[i].name->Ok_0) == Some(ext),
    ensures
        v[i].contents == Ok::<Seq<u8>, Seq<char>>(bytes) ==> first_subtitle(v) == Ok::<
            (Seq<char>, Seq<u8>),
            SubdlErrorV,
        >((ext, bytes)),
        v[i].contents is Err ==> first_subtitle(v) is Err,
    decreases i,
{
    if i > 0 {
        assert(v[0].name is Ok && usable_entry(v[0].name->Ok_0) is None);
        let t = v.skip(1);
        assert forall|j: int| 0 <= j < i - 1 implies (#[trigger] t[j]).name is Ok && usable_entry(
            t[j].name->Ok_0,
        ) is None by {
            assert(t[j] == v[j + 1]);
        }
        law_first_subtitle_is_taken(t, i - 1, ext, bytes);
    }
}

/// An archive without a subtitle gives none.
pub proof fn law_no_subtitle_in_archive(v: Seq<EntryV>)
    requires
        forall|j: int|
            0 <= j < v.len() ==> (#[trigger] v[j]).name is Ok && usable_entry(v[j].name->Ok_0) is None,
    ensures
        first_subtitle(v) == Err::<(Seq<char>, Seq<u8>), SubdlErrorV>(SubdlErrorV::NoSubtitleInZip),
    decreases v.len(),
{
    if v.len() > 0 {
        assert(v[0].name is Ok && usable_entry(v[0].name->Ok_0) is None);
        let t = v.skip(1);
        assert forall|j: int| 0 <= j < t.len() implies (#[trigger] t[j]).name is Ok && usable_entry(
            t[j].name->Ok_0,
        ) is None by {
            assert(t[j] == v[j + 1]);
        }
        law_no_subtitle_in_archive(t);
    }
}

/// An entry of an archive is a subtitle by the extension of its name, unless it is a directory, its
/// path begins with a slash or two dots stand in it.
pub proof fn law_usable_entries(stem: Seq<char>, ext: Seq<char>)
    requires
        stem.len() > 0,
        forall|i: int| 0 <= i < stem.len() ==> (#[trigger] stem[i]) != '/' && stem[i] != '\\' && stem[i]
            != '.',
        ext == "srt"@ || ext == "vtt"@ || ext == "ass"@ || ext == "ssa"@ || ext == "sub"@,
    ensures
        usable_entry(stem + "."@ + ext) == Some(ext),
        usable_entry(seq!['/'] + stem + "."@ + ext) is None,
        usable_entry(stem + "/"@) is None,
{
    reveal_strlit("srt");
    reveal_strlit("vtt");
    reveal_strlit("ass");
    reveal_strlit("ssa");
    reveal_strlit("sub");
    reveal_strlit(".");
    reveal_strlit("..");
    reveal_strlit("/");
    let name = stem + "."@ + ext;
    law_extensions(stem, ext);
    assert(lower_text(ext) =~= ext);
    let path = crate::providers::subtitles::subdl::slashed(name);
    assert(path =~= name);
    assert(name.len() == stem.len() + 4);
    assert forall|i: int| 0 <= i < name.len() implies name[i] != '/' && name[i] != '\\' by {
        if i < stem.len() {
            assert(name[i] == stem[i]);
        }
    }
    assert forall|i: int| !occurs_at(name, ".."@, i) by {
        if occurs_at(name, ".."@, i) {
            assert(name.subrange(i, i + 2)[0] == '.' && name.subrange(i, i + 2)[1] == '.');
            assert(name[i] == '.' && name[i + 1] == '.');
        }
    }
    assert(!occurs_at(name, "/"@, 0)) by {
        if occurs_at(name, "/"@, 0) {
            assert(name.subrange(0, 1)[0] == '/');
        }
    }
    lemma_after_last(name, CharClass::Is('/'), 0);
    assert(name.skip(0) =~= name);
    let rooted = seq!['/'] + stem + "."@ + ext;
    let rooted_path = crate::providers::subtitles::subdl::slashed(rooted);
    assert(rooted_path.subrange(0, 1) =~= "/"@);
    assert(begins(rooted_path, "/"@));
    assert((stem + "/"@).last() == '/');
}

/// A cached subtitle is found under another extension by its name without it.
pub proof fn law_siblings(v: Seq<Seq<char>>, name: Seq<char>, i: int)
    requires
        0 <= i < v.len(),
    ensures
        sibling(v, name) is Some ==> v.contains(sibling(v, name)->0) && stem_of(
            sibling(v, name)->0,
        ) == stem_of(name),
        stem_of(v[i]) == stem_of(name) ==> sibling(v, name) is Some,
    decreases v.len(),
{
    if stem_of(v[0]) == stem_of(name) {
        assert(v.contains(v[0]));
    } else {
        let t = v.skip(1);
        if t.len() > 0 {
            let k = if i > 0 {
                i - 1
            } else {
                0
            };
            law_siblings(t, name, k);
            assert forall|x: Seq<char>| t.contains(x) implies v.contains(x) by {
                let j = choose|j: int| 0 <= j < t.len() && t[j] == x;
                assert(v[j + 1] == x);
            }
        } else {
            assert(sibling(t, name) is None);
        }
    }
}

// ---------------------------------------------------------------------------
// Answers and archives
// ---------------------------------------------------------------------------

/// In a query a letter, a digit and a few signs stand for themselves, a blank is a plus sign, and any
/// other byte is written with two digits.
pub proof fn law_queries_are_encoded(v: Seq<u8>, b: u8)
    ensures
        48 <= b <= 57 || 65 <= b <= 90 || 97 <= b <= 122 || b == 42 || b == 45 || b == 46 || b == 95
            ==> form_encoded(v.push(b)) == form_encoded(v) + seq![b as char],
        b == 32 ==> form_encoded(v.push(b)) == form_encoded(v) + seq!['+'],
        b == 38 || b == 61 || b == 43 || b == 37 || b == 35 || b >= 128 ==> form_encoded(v.push(b))
            == form_encoded(v) + seq![
            '%',
            capital_hex(b as nat / 16),
            capital_hex(b as nat % 16),
        ],
        form_encoded(Seq::empty()).len() == 0,
{
    assert(v.push(b).drop_last() =~= v);
}

/// The pairs of a query come in order, with an ampersand between every two.
pub proof fn law_pairs_of_query(
    query: Seq<char>,
    v: Seq<(Seq<char>, Seq<char>)>,
    name: Seq<char>,
    value: Seq<char>,
)
    ensures
        with_pairs(query, Seq::empty()) == query,
        with_pairs(query, v).len() > 0 ==> with_pairs(query, v.push((name, value))) == with_pairs(
            query,
            v,
        ) + "&"@ + form_encoded(encode_utf8(name)) + "="@ + form_encoded(encode_utf8(value)),
        with_pairs(Seq::empty(), seq![(name, value)]) == form_encoded(encode_utf8(name)) + "="@
            + form_encoded(encode_utf8(value)),
{
    assert(v.push((name, value)).drop_last() =~= v);
    let one = seq![(name, value)];
    assert(one.drop_last() =~= Seq::empty());
    assert(with_pairs(Seq::empty(), one.drop_last()) =~= Seq::<char>::empty());
    assert(with_pairs(Seq::empty(), one) =~= form_encoded(encode_utf8(name)) + "="@ + form_encoded(
        encode_utf8(value),
    ));
}

/// An answer is refused unless its status is one of success, and one of too many requests says how
/// long to wait.
pub proof fn law_refusals(
    login: bool,
    status: u16,
    retry_after: Option<Seq<char>>,
    body: Seq<char>,
    e: Option<OpenSubtitlesError>,
)
    requires
        refusal(login, status, retry_after, body, e),
    ensures
        e is None <==> 200 <= status <= 299,
        status == 429 ==> e == Some(OpenSubtitlesError::RateLimited(wait_of(retry_after))),
        !(200 <= status <= 299) && status != 429 && login ==> (e matches Some(
            OpenSubtitlesError::LoginHttp(n, _),
        ) && n == status),
        !(200 <= status <= 299) && status != 429 && !login ==> (e matches Some(
            OpenSubtitlesError::Http(n, _),
        ) && n == status),
{
}

/// The year that is searched for is that of the title, or else the one that SubDL gives.
pub proof fn law_year_searched_for(ctx: SubtitleContextV, year: Option<i64>, s: Seq<char>, n: i64)
    ensures
        ctx.year == Some(s) ==> year_wanted(ctx, year) == Some(s),
        ctx.year is None && year == Some(n) ==> year_wanted(ctx, year) == Some(
            decimal_int(n as int),
        ),
        ctx.year is None && year is None ==> year_wanted(ctx, year) is None,
{
}

/// An archive that cannot be opened gives its error; of any other the first subtitle is taken, as its
/// entries come.
pub proof fn law_archives(bytes: Seq<u8>, e: Seq<char>, n: usize, i: int)
    ensures
        archive_len(bytes) == Err::<usize, Seq<char>>(e) ==> first_in_archive(bytes) == Err::<
            (Seq<char>, Seq<u8>),
            SubdlErrorV,
        >(SubdlErrorV::Zip(e)),
        archive_len(bytes) == Ok::<usize, Seq<char>>(n) ==> first_in_archive(bytes)
            == first_subtitle(archive_entries(bytes, n)),
        0 <= i < n ==> archive_entries(bytes, n).len() == n && archive_entries(bytes, n)[i].name
            == archive_entry_name(bytes, i as usize) && archive_entries(bytes, n)[i].contents
            == archive_entry_bytes(bytes, i as usize),
{
}

/// OpenSubtitles can be used where it is switched on and key, name and password are given; SubDL where
/// it is switched on and a key is given.
pub proof fn law_usable_services(os: OpenSubtitlesConfig, subdl: SubdlConfig)
    ensures
        os.usable() ==> os.enabled && os.api_key is Some && os.username is Some && os.password is Some,
        os.enabled && os.api_key is Some && os.username is Some && os.password is Some
            && os.api_key->0@.len() > 0 && os.username->0@.len() > 0 && os.password->0@.len() > 0
            ==> os.usable(),
        os.api_key is Some && os.api_key->0@.len() == 0 ==> !os.usable(),
        os.username is Some && os.username->0@.len() == 0 ==> !os.usable(),
        os.password is Some && os.password->0@.len() == 0 ==> !os.usable(),
        subdl.usable() ==> subdl.enabled && subdl.api_key is Some,
        subdl.enabled && subdl.api_key is Some && subdl.api_key->0@.len() > 0 ==> subdl.usable(),
        subdl.api_key is Some && subdl.api_key->0@.len() == 0 ==> !subdl.usable(),
{
}

/// Every candidate of SubDL is offered, in order, under its label and with its identifier and its
/// language in its marker.
pub proof fn law_subdl_offers(v: Seq<SubdlCandidateV>, i: int)
    requires
        0 <= i < v.len(),
    ensures
        subdl_options(v).len() == v.len(),
        subdl_options(v)[i].0 == subdl_label_of(v[i]),
        subdl_options(v)[i].1 == "subdl:"@ + v[i].subtitle_id + ":"@ + v[i].language,
{
}

/// The identifier of an archive is the one that is given, that of the archive first, and else the one
/// in its address.
pub proof fn law_identifier_of_archive(item: SubdlItemV, s: Seq<char>)
    requires
        s.len() > 0,
        !is_white(s[0]),
        !is_white(s.last()),
    ensures
        item.n_id == Some(s) ==> item.archive_id() == Some(s),
        item.n_id is None && item.id == Some(s) ==> item.archive_id() == Some(s),
        item.n_id is None && item.id is None && item.url == Some(s) ==> item.archive_id()
            == id_in_url(s),
        item.n_id is None && item.id is None && item.url is None ==> item.archive_id() is None,
{
    lemma_nothing_to_trim(s, CharClass::White);
}

/// An entry of an archive that leads out of it is never used.
pub proof fn law_paths_that_lead_out(name: Seq<char>)
    ensures
        name.len() > 0 && (name[0] == '/' || name[0] == '\\') ==> basename_of(name) is None,
        has(name, ".."@) ==> basename_of(name) is None,
        name.len() > 0 && (name.last() == '/' || name.last() == '\\') ==> usable_entry(name) is None,
{
    reveal_strlit("/");
    reveal_strlit("..");
    let path = slashed(name);
    if name.len() > 0 && (name[0] == '/' || name[0] == '\\') {
        assert(path[0] == '/');
        assert(path.subrange(0, 1) =~= "/"@);
        assert(begins(path, "/"@));
    }
    if has(name, ".."@) {
        let i = choose|i: int| occurs_at(name, ".."@, i);
        assert(name.subrange(i, i + 2)[0] == '.' && name.subrange(i, i + 2)[1] == '.');
        assert(name[i] == '.' && name[i + 1] == '.');
        assert(path.subrange(i, i + 2) =~= ".."@);
        assert(occurs_at(path, ".."@, i));
    }
}

/// The words of errors.
pub proof fn law_words_of_refusals(n: u16, s: String, wait: u64)
    ensures
        OpenSubtitlesError::LoginHttp(n, s).words() == "login failed: HTTP "@ + decimal(n as nat)
            + ": "@ + s@,
        OpenSubtitlesError::MissingToken.words() == "login response has no token"@,
        OpenSubtitlesError::Http(n, s).words() == "OpenSubtitles API error: HTTP "@ + decimal(
            n as nat,
        ) + ": "@ + s@,
        OpenSubtitlesError::RateLimited(wait).words() == "rate limited (retry after ~"@ + decimal(
            wait as nat,
        ) + "s)"@,
        OpenSubtitlesError::Quota(s).words() == "download quota exhausted: "@ + s@,
        OpenSubtitlesError::BodyTooLarge(wait).words() == "subtitle file too large (over "@ + decimal(
            wait as nat,
        ) + " MB)"@,
        OpenSubtitlesError::NotFound.words() == "subtitle not found"@,
{
}

/// A word counts if it has four bytes or more without the signs around it, and stands in the release,
/// whatever their capitals.
pub proof fn law_words_that_count(word: Seq<char>, release: Seq<char>)
    ensures
        ({
            let t = lowercase(trim(word, CharClass::NotAlphanumeric));
            &&& encode_utf8(t).len() < 4 ==> !token_in(word, release)
            &&& encode_utf8(t).len() >= 4 && has(lowercase(release), t) ==> token_in(word, release)
            &&& !(has(lowercase(release), t)) ==> !token_in(word, release)
        }),
{
}

/// A body is shown as its words on one line, three hundred characters at most, and as a remark where
/// it has none.
pub proof fn law_bodies_are_shown(body: Seq<char>)
    ensures
        ({
            let line = join(words(body), " "@);
            &&& 0 < line.len() <= 300 ==> snippet(body) == line
            &&& line.len() > 300 ==> snippet(body) == line.subrange(0, 300)
            &&& line.len() == 0 ==> snippet(body) == "(no response body)"@
        }),
{
    let line = join(words(body), " "@);
    if line.len() > 300 {
        assert(take_at_most(line, 300) =~= line.subrange(0, 300));
    }
}

} // verus!
