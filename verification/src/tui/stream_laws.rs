//! What holds of the streams of an episode, and of the details they are listed under.
use vstd::prelude::*;
use crate::json::{Json, JsonV, member, text_in};
use crate::numbers::{decimal, lemma_decimal_round_trip, parse_nat};
use crate::providers::iptv_org::m3u::ChannelV;
use crate::providers::models::{ProviderKind, RequestContext};
use crate::strings::{CharClass, begins, split, trim};
use crate::tui::details::{
    all_episodes, dub_place, episodes_of, kept_keys, logo_of, loose_id, numbers_in, only_season,
    seasons_of, taken_over, title_kind, with_member,
};
use crate::tui::hunt::{
    PageV, Releases, StreamHuntV, all_items, any_more, caption_in, has_more, hunt_result, is_of,
    releases_result, season_captions,
};
use crate::tui::pool::{
    PoolV, added, by_resolution, episode_of, falling, has_link, known_streams, law_by_resolution,
    law_falling, link_of, loose_number, resolution_of, resolutions_of, stream_added, streams_added,
    with_streams, without_streams,
};
use crate::tui::state::{
    ActionOf, ActionV, AppV, DetailsPane, EffectOf, EffectV, NotificationKind, Picture, Pictures,
    Screen,
};
use crate::tui::streams::{episodes_ahead, episodes_before, expected_page};

verus! {

// ---------------------------------------------------------------------------
// Pages
// ---------------------------------------------------------------------------

/// Only the episodes of earlier seasons come before an episode: a season whose number is not lower adds
/// nothing to the page on which the episode is expected, and one whose number is lower adds its
/// episodes.
pub proof fn law_earlier_seasons_come_before(
    seasons: Seq<JsonV>,
    s: JsonV,
    number: u64,
    count: u64,
    season: usize,
    episode: usize,
)
    requires
        number <= i64::MAX && number <= usize::MAX,
        count <= i64::MAX && count <= usize::MAX,
        s.get("se"@) == Some(JsonV::Unsigned(number)),
        s.get("maxEp"@) == Some(JsonV::Unsigned(count)),
    ensures
        number >= season ==> expected_page(seasons.push(s), season, episode) == expected_page(
            seasons,
            season,
            episode,
        ),
        number < season ==> episodes_ahead(seasons.push(s), season, episode) == episodes_ahead(
            seasons,
            season,
            episode,
        ) + count,
{
    assert(seasons.push(s).drop_last() =~= seasons);
}

/// It does not matter where among the seasons an earlier one stands.
pub proof fn law_order_of_seasons(a: Seq<JsonV>, b: Seq<JsonV>, season: usize)
    ensures
        episodes_before(a + b, season) == episodes_before(a, season) + episodes_before(b, season),
    decreases b.len(),
{
    if b.len() == 0 {
        assert(a + b =~= a);
    } else {
        law_order_of_seasons(a, b.drop_last(), season);
        assert((a + b).drop_last() =~= a + b.drop_last());
        assert((a + b).last() == b.last());
    }
}

/// Whether a season has a number that is not lower than another.
pub open spec fn at_least(s: JsonV, season: usize) -> bool {
    match s.get("se"@) {
        Some(JsonV::Unsigned(n)) => season <= n && n <= i64::MAX && n <= usize::MAX,
        _ => false,
    }
}

/// Without an earlier season the first twenty episodes are expected on the first page, the next twenty
/// on the second, and so on.
pub proof fn law_pages_of_lowest_season(seasons: Seq<JsonV>, season: usize, episode: usize)
    requires
        forall|i: int|
            0 <= i < seasons.len() ==> at_least(#[trigger] seasons[i], season),
    ensures
        episodes_before(seasons, season) == 0,
        episode <= 20 ==> expected_page(seasons, season, episode) == 1,
        20 < episode <= 40 ==> expected_page(seasons, season, episode) == 2,
    decreases seasons.len(),
{
    if seasons.len() > 0 {
        let t = seasons.drop_last();
        assert forall|i: int| 0 <= i < t.len() implies at_least(#[trigger] t[i], season) by {
            assert(t[i] == seasons[i]);
        }
        law_pages_of_lowest_season(t, season, episode);
        assert(seasons[seasons.len() - 1] == seasons.last());
    }
}

/// Twenty episodes later is one page later.
pub proof fn law_twenty_to_a_page(seasons: Seq<JsonV>, season: usize, episode: usize)
    requires
        1 <= episode,
        episode + 20 <= usize::MAX,
    ensures
        expected_page(seasons, season, (episode + 20) as usize) == expected_page(
            seasons,
            season,
            episode,
        ) + 1,
{
}

// ---------------------------------------------------------------------------
// What is marked
// ---------------------------------------------------------------------------

/// The episode that is marked has the number of the season that is marked and the number that this
/// season lists for it; a film has neither.
pub proof fn law_marked_episode(m: AppV, details: JsonV, s: usize, e: usize, number: u64)
    requires
        m.selected_details == Some(details),
        m.ui.season_selected == Some(s),
        m.ui.episode_selected == Some(e),
        s < m.available_seasons.len(),
        m.available_seasons[s as int].get("se"@) == Some(JsonV::Unsigned(number)),
        number <= i64::MAX && number <= usize::MAX,
        e < usize::MAX,
    ensures
        details.get("subjectType"@) == Some(JsonV::Unsigned(2)) ==> m.episode_marked().0 == number,
        details.get("subjectType"@) is None && details.get("stype"@) == Some(JsonV::Unsigned(2))
            ==> m.episode_marked().0 == number,
        details.get("subjectType"@) == Some(JsonV::Unsigned(2)) && s
            < m.available_episode_numbers.len() && e < m.available_episode_numbers[s as int].len()
            ==> m.episode_marked().1 == m.available_episode_numbers[s as int][e as int],
        details.get("subjectType"@) == Some(JsonV::Unsigned(2)) && s
            >= m.available_episode_numbers.len() ==> m.episode_marked().1 == e + 1,
        details.get("subjectType"@) == Some(JsonV::Unsigned(1)) ==> m.episode_marked() == (
            0usize,
            0usize,
        ),
{
}

/// The stream that is marked is the one at the mark in the list that is shown, and the first where
/// none is marked.
pub proof fn law_marked_stream(m: AppV, v: Seq<JsonV>, i: usize)
    requires
        m.selected_resources is Some,
        m.selected_resources->0.get("list"@) == Some(JsonV::List(v)),
    ensures
        m.ui.resource_selected == Some(i) && i < v.len() ==> m.stream_marked() == Some(v[i as int]),
        m.ui.resource_selected == Some(i) && i >= v.len() ==> m.stream_marked() is None,
        m.ui.resource_selected is None && v.len() > 0 ==> m.stream_marked() == Some(v[0]),
{
}

// ---------------------------------------------------------------------------
// Asking for streams
// ---------------------------------------------------------------------------

/// Choosing an episode shows that it is loaded, counts a new request, and takes its streams from those
/// known if there are any; else they are looked for in the cache.
pub proof fn law_episode_is_fetched(m: AppV, id: Seq<char>)
    requires
        m.active_subject_id == Some(id),
    ensures
        ({
            let n = m.episode_triggered();
            let (season, episode) = m.episode_marked();
            let known = known_streams(m.stream_pool, id, season, episode);
            &&& n.ui.selected_season == season && n.ui.selected_episode == episode
            &&& n.ui.is_loading && n.ui.is_fetching_streams
            &&& n.selected_resources is None && n.stream_error is None
            &&& m.ui.active_resource_request < u64::MAX ==> n.ui.active_resource_request
                == m.ui.active_resource_request + 1
            &&& known is Some && known->0.len() > 0 ==> n.effects.last() == EffectV::SendAfter(
                120,
                ActionOf::EpisodeStreamsReady(
                    m.context(),
                    n.ui.active_resource_request,
                    id,
                    season,
                    episode,
                    JsonV::List(known->0),
                ),
            )
            &&& known is None || known->0.len() == 0 ==> n.effects.last()
                == EffectV::ReadStreamCache(m.ui.active_provider, id, season, episode)
        }),
{
}

/// Streams in the cache are shown in a moment; where there are none, the episode waits until the user
/// rests.
pub proof fn law_cache_is_read(m: AppV, id: Seq<char>, season: usize, episode: usize, v: Seq<JsonV>)
    ensures
        ({
            let n = m.cache_read(id, season, episode, Some(JsonV::List(v)));
            &&& n.pending_episode_fetch is None
            &&& n.effects.last() == EffectV::SendAfter(
                120,
                ActionOf::EpisodeStreamsReady(
                    m.context(),
                    m.ui.active_resource_request,
                    id,
                    season,
                    episode,
                    JsonV::List(v),
                ),
            )
        }),
        ({
            let n = m.cache_read(id, season, episode, None);
            &&& n.pending_episode_fetch == Some((id, season, episode))
            &&& n.ui.last_episode_nav == m.ui.now
            &&& n.effects == m.effects
        }),
{
}

/// Streams that are wanted are asked of 4KHDHub as releases; of MovieBox they are looked for from the
/// page on which they are expected, unless they are known.
pub proof fn law_streams_are_asked_for(
    m: AppV,
    id: Seq<char>,
    season: usize,
    episode: usize,
    force_refresh: bool,
)
    ensures
        ({
            let n = m.streams_wanted(id, season, episode, force_refresh);
            let request = n.ui.active_resource_request;
            &&& n.ui.is_loading && n.ui.is_fetching_streams && n.selected_resources is None
            &&& m.ui.active_resource_request < u64::MAX ==> request
                == m.ui.active_resource_request + 1
            &&& m.ui.active_provider == ProviderKind::FourKHdHub ==> n.effects == m.effects.push(
                EffectOf::FetchReleases(m.context(), request, id, season, episode),
            )
            &&& m.ui.active_provider == ProviderKind::MovieBox && m.stream_pool.contains_key(id)
                && known_streams(m.stream_pool, id, season, episode) is None ==> n.effects
                == m.effects.push(
                EffectOf::HuntStreams {
                    context: m.context(),
                    request,
                    subject_id: id,
                    season,
                    episode,
                    force_refresh,
                    page: expected_page(m.available_seasons, season, episode) as usize,
                },
            )
            &&& m.ui.active_provider == ProviderKind::MovieBox && !force_refresh && known_streams(
                m.stream_pool,
                id,
                season,
                episode,
            ) is Some ==> n.effects.last() == EffectV::SendAfter(
                120,
                ActionOf::EpisodeStreamsReady(
                    m.context(),
                    request,
                    id,
                    season,
                    episode,
                    JsonV::List(known_streams(m.stream_pool, id, season, episode)->0),
                ),
            )
        }),
{
}

/// The episode to begin with: the one shown, or the first where none is; a film has none.
pub proof fn law_starting_episode(m: AppV, details: JsonV)
    requires
        m.selected_details == Some(details),
    ensures
        details.get("subjectType"@) == Some(JsonV::Unsigned(2)) && m.ui.selected_season > 0
            && m.ui.selected_episode > 0 ==> m.starting_episode() == (
            m.ui.selected_season,
            m.ui.selected_episode,
        ),
        details.get("subjectType"@) == Some(JsonV::Unsigned(2)) && m.ui.selected_season == 0
            && m.ui.selected_episode == 0 ==> m.starting_episode() == (1usize, 1usize),
        details.get("subjectType"@) == Some(JsonV::Unsigned(1)) ==> m.starting_episode() == (
            0usize,
            0usize,
        ),
{
}

/// Once the resolutions of the title shown are known, its streams are asked for, or those shown are
/// kept as known; those of another title change nothing.
pub proof fn law_pool_begins(m: AppV, id: Seq<char>, resolutions: Seq<u32>)
    ensures
        m.active_subject_id != Some(id) ==> m.pool_initialized(id, resolutions) == m,
        m.active_subject_id == Some(id) && m.selected_resources is None ==> {
            let n = m.pool_initialized(id, resolutions);
            let (season, episode) = m.starting_episode();
            &&& n.stream_pool.contains_key(id) && n.stream_pool[id].resolutions == resolutions
            &&& n.ui.selected_season == season && n.ui.selected_episode == episode
            &&& n.effects == m.effects.push(
                EffectOf::Send(
                    ActionOf::FetchEpisodeStreams {
                        subject_id: id,
                        season,
                        episode,
                        force_refresh: false,
                    },
                ),
            )
        },
{
}

// ---------------------------------------------------------------------------
// Streams that have come
// ---------------------------------------------------------------------------

/// Streams that were asked for earlier, of another provider, or for another title, season or episode
/// than is shown change nothing; nor do their failures.
pub proof fn law_stale_streams_are_dropped(
    m: AppV,
    context: RequestContext,
    request: u64,
    id: Seq<char>,
    season: usize,
    episode: usize,
    payload: JsonV,
    error: Seq<char>,
)
    requires
        request != m.ui.active_resource_request || context.provider != m.ui.active_provider
            || context.generation != m.ui.provider_generation || m.active_subject_id != Some(id)
            || season != m.ui.selected_season || episode != m.ui.selected_episode,
    ensures
        m.streams_came(context, request, id, season, episode, payload) == m,
        m.streams_failed(context, request, id, season, episode, error) == m,
{
}

/// Streams that are awaited are shown from the highest resolution down, the first marked: those of the
/// episode among all that are known of the title, or all that have come where none are collected.
pub proof fn law_streams_are_shown(m: AppV, id: Seq<char>, items: Seq<JsonV>)
    requires
        m.active_subject_id == Some(id),
        !m.ui.is_waiting_for_download_stream,
    ensures
        ({
            let (season, episode) = (m.ui.selected_season, m.ui.selected_episode);
            let n = m.streams_came(
                m.context(),
                m.ui.active_resource_request,
                id,
                season,
                episode,
                JsonV::List(items),
            );
            let film = season == 0 && episode == 0;
            let known = if !m.stream_pool.contains_key(id) {
                items
            } else {
                let pool = streams_added(m.stream_pool[id].episodes, items, film);
                if pool.contains_key((season, episode)) {
                    pool[(season, episode)]
                } else {
                    Seq::empty()
                }
            };
            let shown = by_resolution(known);
            &&& n.selected_resources == Some(JsonV::Object(seq![("list"@, JsonV::List(shown))]))
            &&& !n.ui.is_loading && !n.ui.is_fetching_streams && n.stream_error is None
            &&& shown.len() > 0 ==> n.ui.resource_selected == Some(0usize)
            &&& shown.len() == 0 ==> n.ui.resource_selected is None
        }),
{
}

/// Streams are ordered from the highest resolution down, and none is lost or made up.
pub proof fn law_best_stream_first(v: Seq<JsonV>, i: int, j: int, x: u64, y: u64)
    requires
        0 <= i < j < v.len(),
        x <= i64::MAX && y <= i64::MAX,
        by_resolution(v)[i].get("resolution"@) == Some(JsonV::Unsigned(x)),
        by_resolution(v)[j].get("resolution"@) == Some(JsonV::Unsigned(y)),
    ensures
        x >= y,
        by_resolution(v).to_multiset() == v.to_multiset(),
{
    law_by_resolution(v);
    assert(resolution_of(by_resolution(v)[i]) >= resolution_of(by_resolution(v)[j]));
}

/// Whether one of some streams has an address.
pub open spec fn has_address(v: Seq<JsonV>, link: Seq<char>) -> bool {
    exists|i: int|
        0 <= i < v.len() && (#[trigger] v[i]).get("resourceLink"@) == Some(JsonV::Text(link))
}

/// A stream is put behind those of its season and episode, as it says, or of the film; the streams of
/// all other episodes stay as they are. One whose address is there already is passed over.
pub proof fn law_streams_go_to_their_episode(
    m: Map<(usize, usize), Seq<JsonV>>,
    items: Seq<JsonV>,
    item: JsonV,
    film: bool,
    season: u64,
    episode: u64,
    link: Seq<char>,
)
    requires
        season <= i64::MAX && season <= usize::MAX,
        episode <= i64::MAX && episode <= usize::MAX,
        item.get("se"@) == Some(JsonV::Unsigned(season)),
        item.get("ep"@) == Some(JsonV::Unsigned(episode)),
        item.get("resourceLink"@) == Some(JsonV::Text(link)),
    ensures
        ({
            let before = streams_added(m, items, film);
            let after = streams_added(m, items.push(item), film);
            let key = if film {
                (0usize, 0usize)
            } else {
                (season as usize, episode as usize)
            };
            let known = if before.contains_key(key) {
                before[key]
            } else {
                Seq::empty()
            };
            let there = has_address(known, link);
            &&& there ==> after == before
            &&& !there && link.len() > 0 ==> after == before.insert(key, known.push(item))
        }),
        streams_added(m, Seq::empty(), film) == m,
{
    assert(items.push(item).drop_last() =~= items);
    reveal_strlit("");
    let before = streams_added(m, items, film);
    let key = episode_of(item, film);
    let known = if before.contains_key(key) {
        before[key]
    } else {
        Seq::empty()
    };
    let there = has_address(known, link);
    if there {
        let i = choose|i: int|
            0 <= i < known.len() && (#[trigger] known[i]).get("resourceLink"@) == Some(
                JsonV::Text(link),
            );
        assert(link_of(known[i]) == link);
        assert(has_link(known, link));
    }
    assert(link_of(item) == link);
    assert(key == (if film {
        (0usize, 0usize)
    } else {
        (season as usize, episode as usize)
    }));
    assert(streams_added(m, items.push(item), film) == stream_added(before, item, film));
    if link.len() > 0 && has_link(known, link) {
        let i = choose|i: int| 0 <= i < known.len() && link_of(#[trigger] known[i]) == link;
        assert(known[i].get("resourceLink"@) == Some(JsonV::Text(link))) by {
            let t = text_in(known[i].get("resourceLink"@));
            assert(t is Some);
        }
        assert(there);
    }
}

/// A season or an episode that a stream gives as a text is read as a number.
pub proof fn law_numbers_in_texts(item: JsonV, season: u32, episode: u32)
    requires
        item.get("se"@) == Some(JsonV::Text(decimal(season as nat))),
        item.get("ep"@) == Some(JsonV::Text(decimal(episode as nat))),
        season <= usize::MAX && episode <= usize::MAX,
    ensures
        episode_of(item, false) == (season as usize, episode as usize),
        episode_of(item, true) == (0usize, 0usize),
{
    crate::numbers::law_int_read_back(season as i64);
    crate::numbers::law_int_read_back(episode as i64);
}

/// The resolutions of a title are those known and those of the streams that have come, from the
/// highest down and each once.
pub proof fn law_resolutions_are_collected(p: PoolV, items: Seq<JsonV>, film: bool, i: int, r: u32)
    requires
        0 <= i < items.len(),
        items[i].get("resolution"@) == Some(JsonV::Unsigned(r as u64)),
    ensures
        added(p, items, film).resolutions.contains(r),
        forall|x: u32| p.resolutions.contains(x) ==> added(p, items, film).resolutions.contains(x),
        forall|a: int, b: int|
            0 <= a < b < added(p, items, film).resolutions.len() ==> #[trigger] added(
                p,
                items,
                film,
            ).resolutions[a] > #[trigger] added(p, items, film).resolutions[b],
{
    lemma_resolutions_of(items, i, r);
    let found = resolutions_of(items);
    let all = p.resolutions + found;
    law_falling(all);
    let k = choose|k: int| 0 <= k < found.len() && found[k] == r;
    assert(all[p.resolutions.len() + k] == r);
    assert forall|x: u32| p.resolutions.contains(x) implies falling(all).contains(x) by {
        let n = choose|n: int| 0 <= n < p.resolutions.len() && p.resolutions[n] == x;
        assert(all[n] == x);
        assert(all.contains(x));
    }
    assert(all.contains(r));
}

/// The resolution of every stream that gives one is found.
proof fn lemma_resolutions_of(items: Seq<JsonV>, i: int, r: u32)
    requires
        0 <= i < items.len(),
        items[i].get("resolution"@) == Some(JsonV::Unsigned(r as u64)),
    ensures
        resolutions_of(items).contains(r),
    decreases items.len(),
{
    let t = items.drop_last();
    let rest = resolutions_of(t);
    let all = resolutions_of(items);
    if i < t.len() {
        lemma_resolutions_of(t, i, r);
        let k = choose|k: int| 0 <= k < rest.len() && rest[k] == r;
        assert(all[k] == r);
    } else {
        assert(all == rest.push(r));
        assert(all[rest.len() as int] == r);
    }
}

// ---------------------------------------------------------------------------
// Hunting
// ---------------------------------------------------------------------------

/// A page says that more follow by `hasMore`, and nothing else does.
pub proof fn law_more_pages(pager: JsonV)
    ensures
        pager.get("hasMore"@) == Some(JsonV::Bool(true)) ==> has_more(pager),
        pager.get("hasMore"@) == Some(JsonV::Bool(false)) ==> !has_more(pager),
        pager.get("hasMore"@) is None ==> !has_more(pager),
{
}

/// A hunt for an episode has found it once a page holds a stream of its season and number, and is then
/// over; the streams of all pages are kept in their order.
pub proof fn law_hunt_finds_episode(h: StreamHuntV, answers: Seq<PageV>, p: int, k: int)
    requires
        h.season > 0 || h.episode > 0,
        h.season <= i64::MAX && h.episode <= i64::MAX,
        0 <= p < answers.len(),
        0 <= k < answers[p].items.len(),
        answers[p].items[k].get("se"@) == Some(JsonV::Unsigned(h.season as u64)),
        answers[p].items[k].get("ep"@) == Some(JsonV::Unsigned(h.episode as u64)),
    ensures
        h.answered(answers).found,
        h.answered(answers).done,
        h.answered(answers).items == h.items + all_items(answers),
        h.answered(answers).outcome() == Some(JsonV::List(h.items + all_items(answers))),
{
    lemma_all_items(answers, p, k);
    let all = all_items(answers);
    let i = choose|i: int| 0 <= i < all.len() && #[trigger] all[i] == answers[p].items[k];
    assert(is_of(all[i], h.season, h.episode));
}

/// Every stream of every page is among those of all pages.
proof fn lemma_all_items(v: Seq<PageV>, p: int, k: int)
    requires
        0 <= p < v.len(),
        0 <= k < v[p].items.len(),
    ensures
        exists|i: int| 0 <= i < all_items(v).len() && #[trigger] all_items(v)[i] == v[p].items[k],
    decreases v.len(),
{
    let t = v.drop_last();
    let head = all_items(t);
    let all = all_items(v);
    if p < t.len() {
        lemma_all_items(t, p, k);
        let i = choose|i: int| 0 <= i < head.len() && #[trigger] head[i] == t[p].items[k];
        assert(all[i] == head[i]);
    } else {
        assert(all[head.len() as int + k] == v[p].items[k]);
    }
}

/// Pages are read in their order.
pub proof fn law_pages_in_order(v: Seq<PageV>, p: PageV)
    ensures
        all_items(v.push(p)) == all_items(v) + p.items,
        all_items(Seq::empty()).len() == 0,
{
    assert(v.push(p).drop_last() =~= v);
}

/// A hunt goes on with the next page while more follow: for a film up to the tenth page, for an episode
/// up to the sixtieth while it is not found and pages are not empty.
pub proof fn law_hunt_goes_on_while_more(h: StreamHuntV, items: Seq<JsonV>, more: bool)
    requires
        !h.done,
        h.page < 100,
    ensures
        ({
            let pager = JsonV::Object(seq![("hasMore"@, JsonV::Bool(more))]);
            let n = h.answered(seq![PageV { items, pager }]);
            let film = h.season == 0 && h.episode == 0;
            &&& film && more && h.page < 10 ==> !n.done && n.page == h.page + 1
            &&& film && (!more || h.page >= 10) ==> n.done
            &&& !film && !n.found && more && items.len() > 0 && h.page < 60 ==> !n.done && n.page
                == h.page + 1
            &&& !film && (!more || items.len() == 0 || h.page >= 60) ==> n.done
            &&& n.items == h.items + items
        }),
{
    let pager = JsonV::Object(seq![("hasMore"@, JsonV::Bool(more))]);
    let v = seq![PageV { items, pager }];
    assert(pager.get("hasMore"@) == Some(JsonV::Bool(more)));
    assert(v.drop_last() =~= Seq::empty());
    assert(all_items(v.drop_last()) =~= Seq::empty());
    assert(all_items(v) =~= items);
    assert(v[0].pager == pager);
    assert(any_more(v) == more) by {
        if more {
            assert(has_more(v[0].pager));
        }
    }
}

/// A hunt that has found nothing gives no streams, and one for a film gives all it has seen.
pub proof fn law_outcome_of_hunt(h: StreamHuntV)
    ensures
        h.items.len() == 0 ==> h.outcome() is None,
        (h.season > 0 || h.episode > 0) && !h.found ==> h.outcome() is None,
        h.season == 0 && h.episode == 0 && h.items.len() > 0 ==> h.outcome() == Some(
            JsonV::List(h.items),
        ),
        h.found && h.items.len() > 0 ==> h.outcome() == Some(JsonV::List(h.items)),
        h.season == 0 && h.episode == 0 ==> h.asked() == seq![0u32],
        (h.season > 0 || h.episode > 0) && h.resolutions.len() > 0 ==> h.asked() == h.resolutions,
        h.resolutions.len() == 0 ==> h.asked() == seq![0u32],
{
}

/// The subtitle that an episode of a season gets is the first in the language that was chosen.
pub proof fn law_caption_of_chosen_language(
    v: Seq<JsonV>,
    i: int,
    language: Seq<char>,
    url: Seq<char>,
)
    requires
        0 <= i < v.len(),
        v[i].get("language"@) == Some(JsonV::Text(language)),
        v[i].get("url"@) == Some(JsonV::Text(url)),
        forall|j: int|
            0 <= j < i ==> text_in((#[trigger] v[j]).get("language"@)) != Some(language),
    ensures
        season_captions(Some(JsonV::List(v)), Some(language)) == ActionV::DownloadStream(
            Some(url),
        ),
{
    lemma_caption_in(v, i, language, url);
}

/// The caption that is found.
proof fn lemma_caption_in(v: Seq<JsonV>, i: int, language: Seq<char>, url: Seq<char>)
    requires
        0 <= i < v.len(),
        v[i].get("language"@) == Some(JsonV::Text(language)),
        v[i].get("url"@) == Some(JsonV::Text(url)),
        forall|j: int|
            0 <= j < i ==> text_in((#[trigger] v[j]).get("language"@)) != Some(language),
    ensures
        caption_in(v, language) == Some(url),
    decreases i,
{
    if i > 0 {
        assert(text_in(v[0].get("language"@)) != Some(language));
        let t = v.skip(1);
        assert forall|j: int| 0 <= j < i - 1 implies text_in((#[trigger] t[j]).get("language"@))
            != Some(language) by {
            assert(t[j] == v[j + 1]);
        }
        lemma_caption_in(t, i - 1, language, url);
    }
}

/// Without a caption in that language the episode is downloaded without one; and while none was
/// chosen, one is picked.
pub proof fn law_no_caption_of_chosen_language(v: Seq<JsonV>, language: Seq<char>)
    requires
        forall|j: int|
            0 <= j < v.len() ==> text_in((#[trigger] v[j]).get("language"@)) != Some(language),
    ensures
        caption_in(v, language) is None,
        season_captions(Some(JsonV::List(v)), Some(language)) == ActionV::DownloadStream(None),
        season_captions(Some(JsonV::List(v)), None) == ActionV::ShowDownloadSubtitlePopup(
            JsonV::List(v),
        ),
        season_captions(None, Some(language)) == ActionV::DownloadStream(None),
    decreases v.len(),
{
    if v.len() > 0 {
        assert(text_in(v[0].get("language"@)) != Some(language));
        let t = v.skip(1);
        assert forall|j: int| 0 <= j < t.len() implies text_in((#[trigger] t[j]).get("language"@))
            != Some(language) by {
            assert(t[j] == v[j + 1]);
        }
        law_no_caption_of_chosen_language(t, language);
    }
}

/// The outcome of a hunt is told for the request and the episode it was made for.
pub proof fn law_hunt_is_answered(
    context: RequestContext,
    request: u64,
    id: Seq<char>,
    season: usize,
    episode: usize,
    list: JsonV,
)
    ensures
        hunt_result(context, request, id, season, episode, Some(list))
            == ActionV::EpisodeStreamsReady(context, request, id, season, episode, list),
        hunt_result(context, request, id, season, episode, None)
            == ActionV::EpisodeStreamsFailed(context, request, id, season, episode, "Rate Limit"@),
{
}

// ---------------------------------------------------------------------------
// Details
// ---------------------------------------------------------------------------

/// The kind of a title is what its details call `subjectType`, or else `stype`, or else a film.
pub proof fn law_kind_of_title(details: JsonV, n: u64)
    requires
        n <= i64::MAX,
    ensures
        details.get("subjectType"@) == Some(JsonV::Unsigned(n)) ==> title_kind(details) == n,
        details.get("subjectType"@) is None && details.get("stype"@) == Some(JsonV::Unsigned(n))
            ==> title_kind(details) == n,
        details.get("subjectType"@) is None && details.get("stype"@) is None ==> title_kind(details)
            == 1,
{
}

/// The seasons of a title are those its details list; a series that lists none has one, and a film
/// none.
pub proof fn law_seasons_of_title(details: JsonV, list: JsonV, v: Seq<JsonV>)
    ensures
        details.get("seasons"@) == Some(list) && list.get("seasons"@) == Some(JsonV::List(v))
            ==> seasons_of(details) == v,
        details.get("seasons"@) is None && details.get("subjectType"@) == Some(JsonV::Unsigned(1))
            ==> seasons_of(details).len() == 0,
        details.get("seasons"@) is None && details.get("subjectType"@) == Some(JsonV::Unsigned(2))
            ==> seasons_of(details).len() == 1 && seasons_of(details)[0] == only_season(details),
{
}

/// The one season of a series that lists none is the first, with the episodes of its first source.
pub proof fn law_only_season(details: JsonV, sources: Seq<JsonV>, n: u64)
    requires
        n <= i64::MAX,
        details.get("resourceDetectors"@) == Some(JsonV::List(sources)),
        sources.len() > 0,
        sources[0].get("totalEpisode"@) == Some(JsonV::Unsigned(n)),
    ensures
        only_season(details).get("se"@) == Some(JsonV::Unsigned(1)),
        only_season(details).get("maxEp"@) == Some(JsonV::Unsigned(n)),
{
    reveal_strlit("allEp");
    reveal_strlit("maxEp");
    reveal_strlit("se");
    assert("allEp"@[0] == 'a' && "maxEp"@[0] == 'm' && "se"@.len() == 2);
    reveal_with_fuel(crate::json::member, 4);
    let v = only_season(details)->Object_0;
    assert(v.skip(1)[0] == v[1]);
    assert(v.skip(1).skip(1)[0] == v[2]);
}

/// A season without a list of its episodes has those from the first to the last it counts.
pub proof fn law_counted_episodes(season: JsonV, n: u64, i: int)
    requires
        season.get("allEp"@) is None,
        season.get("maxEp"@) == Some(JsonV::Unsigned(n)),
        n <= i64::MAX && n <= usize::MAX,
        0 <= i < n,
    ensures
        episodes_of(season).len() == n,
        episodes_of(season)[i] == i + 1,
{
    reveal_strlit("");
}

/// A season with a list of its episodes has the numbers in the list, in their order; what is no number
/// is passed over.
pub proof fn law_listed_episodes(season: JsonV, list: Seq<char>, v: Seq<Seq<char>>, s: Seq<char>, n: u32)
    requires
        n <= usize::MAX,
    ensures
        season.get("allEp"@) == Some(JsonV::Text(list)) && list.len() > 0 ==> episodes_of(season)
            == numbers_in(split(list, CharClass::Is(','))),
        trim(s, CharClass::White) == decimal(n as nat) ==> numbers_in(v.push(s)) == numbers_in(
            v,
        ).push(n as usize),
        parse_nat(trim(s, CharClass::White), usize::MAX as nat) is None ==> numbers_in(v.push(s))
            == numbers_in(v),
        numbers_in(Seq::empty()).len() == 0,
{
    assert(v.push(s).drop_last() =~= v);
    lemma_decimal_round_trip(n as nat, usize::MAX as nat);
}

/// Each season has its own list of episodes.
pub proof fn law_episodes_by_season(seasons: Seq<JsonV>, i: int)
    requires
        0 <= i < seasons.len(),
    ensures
        all_episodes(seasons).len() == seasons.len(),
        all_episodes(seasons)[i] == episodes_of(seasons[i]),
{
}

/// The language that is marked is that of the title shown, and the first where it is not listed.
pub proof fn law_language_of_title(dubs: Seq<JsonV>, id: Seq<char>, i: int)
    requires
        0 <= i < dubs.len(),
    ensures
        dubs[i].get("subjectId"@) == Some(JsonV::Text(id)) && (forall|j: int|
            i < j < dubs.len() ==> loose_id((#[trigger] dubs[j]).get("subjectId"@)) != Some(id))
            ==> dub_place(dubs, id) == i,
        (forall|j: int|
            0 <= j < dubs.len() ==> loose_id((#[trigger] dubs[j]).get("subjectId"@)) != Some(id))
            ==> dub_place(dubs, id) == 0,
    decreases dubs.len(),
{
    let t = dubs.drop_last();
    assert(dubs[dubs.len() - 1] == dubs.last());
    if t.len() > 0 {
        let k = if i < t.len() {
            i
        } else {
            0
        };
        law_language_of_title(t, id, k);
        assert forall|j: int| 0 <= j < t.len() implies t[j] == dubs[j] by {}
        if forall|j: int|
            i < j < dubs.len() ==> loose_id((#[trigger] dubs[j]).get("subjectId"@)) != Some(id) {
            assert forall|j: int| k < j < t.len() && i < t.len() implies loose_id(
                (#[trigger] t[j]).get("subjectId"@),
            ) != Some(id) by {
                assert(t[j] == dubs[j]);
            }
        }
        if forall|j: int|
            0 <= j < dubs.len() ==> loose_id((#[trigger] dubs[j]).get("subjectId"@)) != Some(id) {
            assert forall|j: int| 0 <= j < t.len() implies loose_id(
                (#[trigger] t[j]).get("subjectId"@),
            ) != Some(id) by {
                assert(t[j] == dubs[j]);
            }
        }
    } else {
        assert(dub_place(t, id) == 0);
    }
}

/// The keys of the details that stay when another language of the title is chosen.
pub proof fn law_kept_keys()
    ensures
        kept_keys() == seq![
            "title"@,
            "synopsis"@,
            "cover"@,
            "year"@,
            "releaseDate"@,
            "duration"@,
            "countryName"@,
            "genre"@,
            "imdbRatingValue"@,
            "intro"@,
            "description"@,
            "dubs"@,
        ],
{
}

/// Details of another provider, or that come when they are no longer looked at, change nothing.
pub proof fn law_stale_details_are_dropped(
    m: AppV,
    context: RequestContext,
    id: Seq<char>,
    payload: JsonV,
    pictures: Pictures,
    error: Seq<char>,
)
    ensures
        context.provider != m.ui.active_provider || context.generation != m.ui.provider_generation
            || m.ui.active_screen != Screen::Details ==> m.details_came(
            context,
            id,
            payload,
            pictures,
        ) == m,
        context.provider != m.ui.active_provider || context.generation != m.ui.provider_generation
            ==> m.details_failed(context, error) == m,
{
}

/// Details that are awaited are shown with their seasons and episodes, the first of each marked.
pub proof fn law_details_are_shown(m: AppV, id: Seq<char>, payload: JsonV, pictures: Pictures)
    requires
        m.ui.active_screen == Screen::Details,
        !m.ui.language_chosen,
    ensures
        ({
            let n = m.details_came(m.context(), id, payload, pictures);
            &&& n.active_subject_id == Some(id)
            &&& n.selected_details == Some(payload)
            &&& n.available_seasons == seasons_of(payload)
            &&& n.available_episode_numbers == all_episodes(seasons_of(payload))
            &&& n.ui.season_selected == Some(0usize) && n.ui.episode_selected == Some(0usize)
            &&& n.ui.selected_season == 1 && n.ui.selected_episode == 1
        }),
{
    reveal(AppV::poster_missed);
    reveal(AppV::title_shown);
}

/// Where a title has several languages and none was chosen, one has to be; else its streams are asked
/// for, from the seasons of a series or from the streams of a film.
pub proof fn law_language_before_streams(m: AppV, id: Seq<char>, details: JsonV, dubs: Seq<JsonV>)
    ensures
        details.get("dubs"@) == Some(JsonV::List(dubs)) && dubs.len() > 1 && !m.ui.language_chosen
            ==> m.title_shown(id, details).ui.details_pane == DetailsPane::Languages
            && m.title_shown(id, details).effects == m.effects,
        details.get("dubs"@) is None || m.ui.language_chosen ==> {
            let n = m.title_shown(id, details);
            &&& n.effects.last() == EffectV::Send(ActionOf::InitStreamPool(id))
            &&& details.get("subjectType"@) == Some(JsonV::Unsigned(2)) && m.available_seasons.len()
                > 0 ==> n.ui.details_pane == DetailsPane::Seasons
            &&& details.get("subjectType"@) == Some(JsonV::Unsigned(1)) ==> n.ui.details_pane
                == DetailsPane::Streams
        },
{
    reveal(AppV::title_shown);
}

/// A preview is shown only for the result that is marked; one for another result changes nothing.
pub proof fn law_preview_of_marked_result(
    m: AppV,
    i: usize,
    id: Seq<char>,
    preview: JsonV,
    kept: bool,
)
    requires
        m.ui.active_screen == Screen::Home,
        m.ui.search_selected == Some(i),
        i < m.search_results.len(),
    ensures
        id != m.search_results[i as int].id ==> m.preview_came(id, preview, kept) == m,
        id == m.search_results[i as int].id ==> m.preview_came(id, preview, kept).search_preview
            == Some(preview),
        id != m.search_results[i as int].id ==> m.poster_came(id) == m,
{
}

/// The streams that are kept for an episode are those last put there; others are untouched.
pub proof fn law_pool_read_back(
    m: Map<Seq<char>, PoolV>,
    id: Seq<char>,
    season: usize,
    episode: usize,
    streams: Seq<JsonV>,
    other: (usize, usize),
)
    requires
        m.contains_key(id),
        other != (season, episode),
    ensures
        known_streams(with_streams(m, id, season, episode, streams), id, season, episode) == Some(
            streams,
        ),
        known_streams(with_streams(m, id, season, episode, streams), id, other.0, other.1)
            == known_streams(m, id, other.0, other.1),
        known_streams(without_streams(m, id, season, episode), id, season, episode) is None,
        known_streams(without_streams(m, id, season, episode), id, other.0, other.1)
            == known_streams(m, id, other.0, other.1),
{
}

/// A title without a pool has no streams kept, and none can be put.
pub proof fn law_no_pool(
    m: Map<Seq<char>, PoolV>,
    id: Seq<char>,
    season: usize,
    episode: usize,
    streams: Seq<JsonV>,
)
    requires
        !m.contains_key(id),
    ensures
        known_streams(m, id, season, episode) is None,
        with_streams(m, id, season, episode, streams) == m,
        without_streams(m, id, season, episode) == m,
{
}

/// A member that is set is the one that is read, and all others stay.
pub proof fn law_member_is_set(
    v: Seq<(Seq<char>, JsonV)>,
    key: Seq<char>,
    value: JsonV,
    other: Seq<char>,
)
    requires
        other != key,
    ensures
        member(with_member(v, key, value), key) == Some(value),
        member(with_member(v, key, value), other) == member(v, other),
    decreases v.len(),
{
    if v.len() == 0 {
        let w = seq![(key, value)];
        assert(w[0].0 == key);
        assert(w.skip(1) =~= Seq::empty());
        reveal_with_fuel(member, 2);
    } else if v[0].0 == key {
        let w = v.update(0, (key, value));
        assert(w.skip(1) =~= v.skip(1));
    } else {
        law_member_is_set(v.skip(1), key, value, other);
        let w = seq![v[0]] + with_member(v.skip(1), key, value);
        assert(w.skip(1) =~= with_member(v.skip(1), key, value));
        assert(w[0] == v[0]);
    }
}

/// What follows an answer of 4KHDHub: its releases are the streams of the episode that was asked for,
/// and that there are none is a failure.
pub proof fn law_after_releases(
    context: RequestContext,
    request: u64,
    id: Seq<char>,
    season: usize,
    episode: usize,
    list: Json,
    e: String,
)
    ensures
        releases_result(context, request, id, season, episode, Releases::Found(list))
            == ActionV::EpisodeStreamsReady(context, request, id, season, episode, list@),
        releases_result(context, request, id, season, episode, Releases::Nothing)
            == ActionV::EpisodeStreamsFailed(
            context,
            request,
            id,
            season,
            episode,
            "No exact release found"@,
        ),
        releases_result(context, request, id, season, episode, Releases::Failed(e))
            == ActionV::EpisodeStreamsFailed(context, request, id, season, episode, e@),
{
}

/// A channel shows the logo of the first of the channels with its address.
pub proof fn law_logo_of_channel(v: Seq<ChannelV>, id: Seq<char>, k: int)
    requires
        0 <= k <= v.len(),
        forall|i: int| 0 <= i < k ==> (#[trigger] v[i]).stream_url != id,
    ensures
        k < v.len() && v[k].stream_url == id ==> logo_of(v, id) == Some(v[k].logo),
        k == v.len() ==> logo_of(v, id) is None,
    decreases k,
{
    if k > 0 {
        let t = v.skip(1);
        assert forall|i: int| 0 <= i < k - 1 implies (#[trigger] t[i]).stream_url != id by {
            assert(t[i] == v[i + 1]);
        }
        law_logo_of_channel(t, id, k - 1);
        assert(v[0].stream_url != id);
    }
}

/// A number in a title may be written as a number or as a text.
pub proof fn law_loose_numbers(n: u64)
    requires
        n <= i64::MAX && n <= usize::MAX,
    ensures
        loose_number(Some(JsonV::Unsigned(n))) == n,
        loose_number(Some(JsonV::Text(decimal(n as nat)))) == n,
        loose_number(None) == 0,
        loose_number(Some(JsonV::Null)) == 0,
{
    crate::numbers::law_int_read_back(n as i64);
}

/// A preview that is kept is shown; one that is not is fetched.
pub proof fn law_preview_is_fetched(m: AppV, id: Seq<char>, kept: bool)
    requires
        !m.ui.is_tv_mode,
    ensures
        m.preview_looked_up(id, None, kept).effects == m.effects.push(EffectOf::FetchPreview(id)),
        m.preview_looked_up(id, None, kept).ui.preview_loading,
{
}

/// A status that begins as an error is shown as one, without that beginning; any other is said.
pub proof fn law_statuses(m: AppV, text: Seq<char>)
    ensures
        !begins(text, "Error:"@) ==> m.status_set(text).status_message == text && m.status_set(
            text,
        ).effects == m.effects && m.status_set(text).ui.status_timer == 150,
        begins(text, "Error:"@) ==> (m.status_set(text).effects.last() matches EffectOf::Notify(k, _, _)
            && k == NotificationKind::Error),
{
}

// ---------------------------------------------------------------------------
// What is not said
// ---------------------------------------------------------------------------

/// A title that does not say what it is counts as a film, and a season without a number as the first;
/// a film has no episodes to mark.
pub proof fn law_unsaid_kind(m: AppV, details: JsonV)
    requires
        m.selected_details == Some(details),
    ensures
        details.get("subjectType"@) is None && details.get("stype"@) is None ==> m.episode_marked()
            == (0usize, 0usize),
        details.get("subjectType"@) == Some(JsonV::Unsigned(1)) ==> m.episode_marked() == (
            0usize,
            0usize,
        ),
        details.get("subjectType"@) == Some(JsonV::Unsigned(2)) && m.available_seasons.len() == 0
            ==> m.episode_marked().0 == 1,
        details.get("subjectType"@) == Some(JsonV::Unsigned(2)) && m.ui.season_selected == Some(
            0usize,
        ) && m.available_seasons.len() > 0 && m.available_seasons[0].get("se"@) is None
            ==> m.episode_marked().0 == 1,
{
}

/// A refresh forgets the streams that are kept for the episode before it asks for them.
pub proof fn law_refresh_forgets(m: AppV, id: Seq<char>, season: usize, episode: usize)
    requires
        m.ui.active_provider == ProviderKind::MovieBox,
        m.stream_pool.contains_key(id),
    ensures
        ({
            let n = m.streams_wanted(id, season, episode, true);
            &&& known_streams(n.stream_pool, id, season, episode) is None
            &&& n.effects.last() is HuntStreams
            &&& n.selected_resources is None && n.stream_error is None
        }),
        m.streams_wanted(id, season, episode, false).stream_pool == m.stream_pool,
{
}

/// A download that waited for its stream starts when the streams are there: for one of a season its
/// captions are asked for first.
pub proof fn law_waiting_download(m: AppV, id: Seq<char>, stream: JsonV, rid: Seq<char>)
    requires
        m.stream_marked() == Some(stream),
    ensures
        !m.waiting_download_started(id).ui.is_waiting_for_download_stream,
        stream.get("resourceId"@) == Some(JsonV::Text(rid)) && m.ui.download_queue_total > 0
            ==> m.waiting_download_started(id).effects == m.effects.push(
            EffectOf::FetchSeasonCaptions {
                subject_id: id,
                resource_id: rid,
                preference: m.season_subtitle_preference,
            },
        ),
        stream.get("resourceId"@) is None || m.ui.download_queue_total == 0
            ==> m.waiting_download_started(id).effects == m.effects.push(
            EffectOf::Send(ActionOf::DownloadStream(None)),
        ),
{
}

/// That the streams of the episode shown cannot be had is told, and none are shown; that those of
/// another cannot be had is not.
pub proof fn law_streams_cannot_be_had(
    m: AppV,
    context: RequestContext,
    request: u64,
    id: Seq<char>,
    season: usize,
    episode: usize,
    error: Seq<char>,
)
    ensures
        ({
            let n = m.streams_failed(context, request, id, season, episode, error);
            let awaited = request == m.ui.active_resource_request && context.provider
                == m.ui.active_provider && context.generation == m.ui.provider_generation
                && m.active_subject_id == Some(id) && season == m.ui.selected_season && episode
                == m.ui.selected_episode;
            &&& awaited ==> n.selected_resources is None && n.stream_error == Some(error)
                && !n.ui.is_loading && !n.ui.is_fetching_streams && n.status_message == "Error: "@
                + error
            &&& !awaited ==> n == m
        }),
{
}

/// Without details, and for a series, the streams begin with the selected episode, and with the first
/// of the first season where none is; a film has neither.
pub proof fn law_streams_begin(m: AppV)
    ensures
        m.selected_details is None && m.ui.selected_season > 0 && m.ui.selected_episode > 0
            ==> m.starting_episode() == (m.ui.selected_season, m.ui.selected_episode),
        m.selected_details is None && m.ui.selected_season == 0 && m.ui.selected_episode == 0
            ==> m.starting_episode() == (1usize, 1usize),
        m.selected_details is Some && m.selected_details->0.get("subjectType"@) is None
            && m.selected_details->0.get("stype"@) is None ==> m.starting_episode() == (
            0usize,
            0usize,
        ),
{
}

/// Streams that are shown already are kept for the episode; where none are they are asked for.
pub proof fn law_shown_streams_are_kept(
    m: AppV,
    id: Seq<char>,
    resolutions: Seq<u32>,
    resources: JsonV,
    shown: Seq<JsonV>,
)
    requires
        m.active_subject_id == Some(id),
        m.selected_resources == Some(resources),
        resources.get("list"@) == Some(JsonV::List(shown)),
    ensures
        ({
            let n = m.pool_initialized(id, resolutions);
            let (season, episode) = m.starting_episode();
            &&& n.ui.selected_season == season && n.ui.selected_episode == episode
            &&& shown.len() > 0 ==> known_streams(n.stream_pool, id, season, episode) == Some(shown)
                && n.effects == m.effects && !n.ui.is_loading && !n.ui.is_fetching_streams
            &&& shown.len() == 0 ==> n.effects == m.effects.push(
                EffectOf::Send(
                    ActionOf::FetchEpisodeStreams {
                        subject_id: id,
                        season,
                        episode,
                        force_refresh: false,
                    },
                ),
            )
        }),
{
}

/// Streams that came are saved for their episode, unless there are none.
pub proof fn law_streams_are_saved(
    m: AppV,
    id: Seq<char>,
    season: usize,
    episode: usize,
    streams: Seq<JsonV>,
)
    ensures
        streams.len() > 0 ==> m.streams_saved(id, season, episode, streams) == m.ask(
            EffectOf::SaveStreamCache(
                m.ui.active_provider,
                id,
                season,
                episode,
                JsonV::List(streams),
            ),
        ),
        streams.len() == 0 ==> m.streams_saved(id, season, episode, streams) == m,
{
}

/// What is listed is saved and shown, the first stream marked, and what waits for it starts.
pub proof fn law_streams_are_listed(
    m: AppV,
    id: Seq<char>,
    season: usize,
    episode: usize,
    streams: Seq<JsonV>,
)
    requires
        !m.ui.is_waiting_for_download_stream,
        streams.len() > 0,
    ensures
        ({
            let n = m.streams_listed(id, season, episode, streams);
            &&& n.effects == m.effects.push(
                EffectOf::SaveStreamCache(
                    m.ui.active_provider,
                    id,
                    season,
                    episode,
                    JsonV::List(streams),
                ),
            )
            &&& n.ui.resource_selected == Some(0usize)
            &&& n.stream_error is None
            &&& n.status_message == decimal(streams.len()) + " streams available."@
        }),
{
}

/// A poster is taken from what is kept, or else fetched from the address of the cover.
pub proof fn law_posters(m: AppV, id: Seq<char>, details: JsonV, cover: JsonV, url: Seq<char>)
    ensures
        m.poster_asked(id, details, true) == m.ask(EffectOf::UsePoster(id)),
        details.get("cover"@) == Some(cover) && cover.get("url"@) == Some(JsonV::Text(url))
            ==> m.poster_asked(id, details, false) == m.ask(EffectOf::FetchPoster { id, url }),
        details.get("cover"@) is None ==> m.poster_asked(id, details, false) == m,
{
}

/// A poster that came is used only where it is that of the marked result.
pub proof fn law_poster_came(m: AppV, id: Seq<char>, i: usize)
    requires
        m.ui.search_selected == Some(i),
        i < m.search_results.len(),
    ensures
        m.search_results[i as int].id == id ==> m.poster_came(id).effects == m.effects.push(
            EffectOf::UsePoster(id),
        ).push(EffectOf::Forget(Picture::PosterProtocol)),
        m.search_results[i as int].id != id ==> m.poster_came(id) == m,
{
}

/// A preview is taken for the title whose details are shown, or for the marked result; it is kept and
/// shown, and that of any other title is dropped.
pub proof fn law_preview_came(m: AppV, id: Seq<char>, details: JsonV, preview: JsonV, i: usize)
    requires
        m.selected_details == Some(details),
        m.ui.search_selected == Some(i),
        i < m.search_results.len(),
    ensures
        ({
            let n = m.preview_came(id, preview, true);
            let expected = if m.ui.active_screen == Screen::Details {
                details.get("id"@) == Some(JsonV::Text(id))
            } else {
                m.search_results[i as int].id == id
            };
            &&& expected ==> n.search_preview == Some(preview) && n.effects[m.effects.len() as int]
                == EffectV::KeepPreview(id, preview) && !n.ui.preview_loading
            &&& expected ==> n.effects.last() == EffectV::UsePoster(id)
            &&& m.ui.active_screen != Screen::Details && !expected ==> n == m
            &&& m.ui.active_screen == Screen::Details && details.get("id"@) is None ==> n == m
        }),
{
}

/// A preview is looked up, except of 4KHDHub, which has none.
pub proof fn law_preview_is_wanted(m: AppV, id: Seq<char>)
    ensures
        m.ui.is_tv_mode || m.ui.active_provider == ProviderKind::MovieBox ==> m.preview_wanted(id)
            == m.ask(EffectOf::LookUpPreview(id)),
        !m.ui.is_tv_mode && m.ui.active_provider == ProviderKind::FourKHdHub ==> m.preview_wanted(
            id,
        ).search_preview is None && m.preview_wanted(id).effects == m.effects,
{
}

/// In television mode the logo of a channel is fetched, where it has one that is not kept.
pub proof fn law_logos_are_fetched(m: AppV, id: Seq<char>, url: Seq<char>, preview: Option<JsonV>)
    requires
        m.ui.is_tv_mode,
        logo_of(m.tv_channels, id) == Some(url),
    ensures
        url.len() > 0 ==> m.preview_looked_up(id, preview, false).effects == m.effects.push(
            EffectOf::FetchSearchPoster { id, url },
        ),
        url.len() == 0 ==> m.preview_looked_up(id, preview, false).effects == m.effects,
        m.preview_looked_up(id, preview, true).effects == m.effects,
{
}

/// A preview that was found is shown.
pub proof fn law_found_preview_is_shown(m: AppV, id: Seq<char>, preview: JsonV, kept: bool)
    requires
        !m.ui.is_tv_mode,
    ensures
        m.preview_looked_up(id, Some(preview), kept).search_preview == Some(preview),
        !m.preview_looked_up(id, Some(preview), kept).ui.preview_loading,
{
}

/// Details are asked for of a title, and no streams are kept from before.
pub proof fn law_details_are_wanted(m: AppV, id: Seq<char>, force: bool)
    ensures
        m.details_wanted(id, force).stream_pool == Map::<Seq<char>, PoolV>::empty(),
        m.details_wanted(id, force).ui.is_loading,
        m.details_wanted(id, force).effects.last() == EffectV::FetchDetails(m.context(), id, force),
        m.context().provider == m.ui.active_provider,
        m.context().generation == m.ui.provider_generation,
{
}

/// A series that does not list its seasons has one, the first, with one episode where nothing says how
/// many; a film has none.
pub proof fn law_unlisted_seasons(details: JsonV)
    requires
        details.get("seasons"@) is None,
    ensures
        details.get("subjectType"@) == Some(JsonV::Unsigned(2)) ==> seasons_of(details) == seq![
            only_season(details),
        ],
        details.get("subjectType"@) == Some(JsonV::Unsigned(1)) ==> seasons_of(details).len() == 0,
        details.get("resourceDetectors"@) is None ==> only_season(details).get("maxEp"@) == Some(
            JsonV::Unsigned(1),
        ),
        only_season(details).get("se"@) == Some(JsonV::Unsigned(1)),
{
    reveal_with_fuel(member, 4);
    reveal_strlit("allEp");
    reveal_strlit("maxEp");
    reveal_strlit("se");
    assert("allEp"@[0] == 'a' && "maxEp"@[0] == 'm' && "se"@.len() == 2);
    let v = only_season(details)->Object_0;
    assert(v.skip(1)[0] == v[1]);
    assert(v.skip(1).skip(1)[0] == v[2]);
}

/// A series is opened at its seasons where it has any, and any other title at its streams.
pub proof fn law_pane_of_title(m: AppV, details: JsonV)
    ensures
        details.get("subjectType"@) == Some(JsonV::Unsigned(2)) && m.available_seasons.len() > 0
            ==> m.opening_pane(details) == DetailsPane::Seasons,
        details.get("subjectType"@) == Some(JsonV::Unsigned(2)) && m.available_seasons.len() == 0
            ==> m.opening_pane(details) == DetailsPane::Streams,
        details.get("subjectType"@) == Some(JsonV::Unsigned(1)) ==> m.opening_pane(details)
            == DetailsPane::Streams,
{
}

/// A language is to be chosen first where there are two or more; else, and once one was chosen, the
/// streams are opened.
pub proof fn law_language_comes_first(m: AppV, id: Seq<char>, details: JsonV, dubs: Seq<JsonV>)
    requires
        details.get("dubs"@) == Some(JsonV::List(dubs)),
    ensures
        dubs.len() >= 2 && !m.ui.language_chosen ==> m.title_shown(id, details).ui.details_pane
            == DetailsPane::Languages && m.title_shown(id, details).effects == m.effects,
        dubs.len() < 2 || m.ui.language_chosen ==> m.title_shown(id, details).ui.details_pane
            == m.opening_pane(details) && m.title_shown(id, details).effects.last()
            == EffectV::Send(ActionOf::InitStreamPool(id)),
{
    reveal(AppV::title_shown);
}

/// Details of a language keep what was known of the title.
pub proof fn law_details_in_another_language(m: AppV, payload: JsonV, known: JsonV)
    requires
        m.selected_details == Some(known),
    ensures
        !m.ui.language_chosen ==> m.details_to_show(payload) == payload,
        m.ui.language_chosen && known is Object && payload is Object ==> m.details_to_show(payload)
            == JsonV::Object(taken_over(payload->Object_0, known, kept_keys())),
        m.ui.language_chosen && !(known is Object) ==> m.details_to_show(payload) == payload,
{
}

/// A poster that is shown is not asked for again.
pub proof fn law_shown_poster_stays(m: AppV, id: Seq<char>, details: JsonV, pictures: Pictures)
    ensures
        pictures.shown ==> m.poster_missed(id, details, pictures) == m,
        !pictures.shown ==> m.poster_missed(id, details, pictures) == m.poster_asked(
            id,
            details,
            pictures.kept,
        ),
{
    reveal(AppV::poster_missed);
}

} // verus!
