//! What holds of moving through lists, of choosing, and of downloads.
use vstd::prelude::*;
use crate::json::JsonV;
use crate::numbers::{decimal, decimal2};
use crate::providers::models::ProviderKind;
use crate::outside::lowercase;
use crate::strings::{
    CharClass, begins, lemma_after_last, lemma_last_at, lower_text, occurs_at, rfind, trim,
};
use crate::tui::browse::{channel_results, law_tabs, page_of, poster_requests};
use crate::tui::search::merged_home;
use crate::tui::commands::{block_subjects, blocks_subjects, entry_subjects, home_subjects};
use crate::tui::downloads::{
    download_captions, extension_in, file_name, release_download, season_place, video_extension,
    without_tail,
};
use crate::tui::navigate::{player_above, player_below};
use crate::tui::state::{
    ActionOf, ActionV, AppV, DetailsPane, EffectOf, EffectV, NotificationKind, Progress, Screen,
};

verus! {

// ---------------------------------------------------------------------------
// Moves
// ---------------------------------------------------------------------------

/// The marked player goes up and down by one, from the one end of the list to the other.
pub proof fn law_players_go_round(n: int, i: usize)
    requires
        0 < n <= usize::MAX,
        i < n,
    ensures
        player_above(Some(player_below(Some(i), n)), n) == i,
        player_below(Some(player_above(Some(i), n)), n) == i,
        i + 1 < n ==> player_below(Some(i), n) == i + 1,
        player_below(Some((n - 1) as usize), n) == 0,
        player_below(None, n) == 0,
        player_above(None, n) == 0,
{
}

/// A move in the results marks the result above or below and asks for its preview; the first has none
/// above.
pub proof fn law_moves_in_results(m: AppV, i: usize)
    requires
        m.ui.search_selected == Some(i),
        i < m.search_results.len(),
        m.search_results.len() <= usize::MAX,
    ensures
        i > 0 ==> {
            let n = m.up_in_results();
            &&& n.ui.search_selected == Some((i - 1) as usize)
            &&& n.effects == m.effects.push(
                EffectOf::Send(ActionOf::FetchPreview(m.search_results[i - 1].id)),
            )
        },
        i == 0 ==> m.up_in_results() == m,
        i + 1 < m.search_results.len() ==> {
            let n = m.down_in_results();
            &&& n.ui.search_selected == Some((i + 1) as usize)
            &&& n.effects == m.effects.push(
                EffectOf::Send(ActionOf::FetchPreview(m.search_results[i + 1].id)),
            )
        },
{
}

/// Below the last result the next page is asked for, of the tab or of the search that is shown.
pub proof fn law_next_page(m: AppV, i: usize)
    requires
        m.ui.search_selected == Some(i),
        i + 1 == m.search_results.len(),
        m.search_results.len() <= usize::MAX,
        m.ui.current_page < usize::MAX,
    ensures
        m.ui.is_tv_mode || m.ui.is_loading ==> m.down_in_results() == m,
        !m.ui.is_tv_mode && !m.ui.is_loading && m.ui.is_homepage_mode ==> m.down_in_results().effects
            == m.effects.push(
            EffectOf::Send(
                ActionOf::FetchHomepage {
                    tab_id: m.current_tab_id,
                    page: (m.ui.current_page + 1) as usize,
                },
            ),
        ),
        !m.ui.is_tv_mode && !m.ui.is_loading && !m.ui.is_homepage_mode ==> {
            let n = m.down_in_results();
            &&& n.ui.current_page == m.ui.current_page + 1 && n.ui.is_loading
            &&& n.effects == m.effects.push(
                EffectOf::SearchPage {
                    context: m.context(),
                    query: m.search_query,
                    page: (m.ui.current_page + 1) as usize,
                },
            )
        },
{
}

/// A move to the side goes a screenful, and no further than the ends.
pub proof fn law_moves_to_the_side(m: AppV, i: usize)
    requires
        m.ui.active_screen == Screen::Home,
        m.ui.search_selected == Some(i),
        m.ui.visible_items > 0,
        0 < m.search_results.len() <= usize::MAX,
    ensures
        i >= m.ui.visible_items ==> m.moved_left().ui.search_selected == Some(
            (i - m.ui.visible_items) as usize,
        ),
        i < m.ui.visible_items ==> m.moved_left().ui.search_selected == Some(0usize),
        i + m.ui.visible_items < m.search_results.len() ==> m.moved_right().ui.search_selected
            == Some((i + m.ui.visible_items) as usize),
        i + m.ui.visible_items >= m.search_results.len() ==> m.moved_right().ui.search_selected
            == Some((m.search_results.len() - 1) as usize),
{
}

/// A move in the streams marks the stream above or below.
pub proof fn law_moves_in_streams(m: AppV, list: Seq<JsonV>, i: usize, resources: JsonV)
    requires
        m.ui.details_pane == DetailsPane::Streams,
        m.ui.resource_selected == Some(i),
        m.selected_resources == Some(resources),
        resources.get("list"@) == Some(JsonV::List(list)),
        i < list.len() <= usize::MAX,
    ensures
        i > 0 ==> m.up_in_details().ui.resource_selected == Some((i - 1) as usize),
        i == 0 ==> m.up_in_details() == m,
        i + 1 < list.len() ==> m.down_in_details().ui.resource_selected == Some((i + 1) as usize),
        i + 1 == list.len() ==> m.down_in_details() == m,
        m.up_in_details().effects == m.effects,
        m.down_in_details().effects == m.effects,
{
}

/// A move in the languages marks and chooses the language above or below.
pub proof fn law_moves_in_languages(m: AppV, i: usize)
    requires
        m.ui.details_pane == DetailsPane::Languages,
        m.ui.language_selected == Some(i),
        i < m.language_count() <= usize::MAX,
    ensures
        i > 0 ==> m.up_in_details().ui.language_selected == Some((i - 1) as usize)
            && m.up_in_details().effects == m.effects.push(
            EffectOf::Send(ActionOf::SelectLanguage((i - 1) as usize)),
        ),
        i == 0 ==> m.up_in_details() == m,
        i + 1 < m.language_count() ==> m.down_in_details().ui.language_selected == Some(
            (i + 1) as usize,
        ) && m.down_in_details().effects == m.effects.push(
            EffectOf::Send(ActionOf::SelectLanguage((i + 1) as usize)),
        ),
        i + 1 == m.language_count() ==> m.down_in_details() == m,
{
}

/// A move in the seasons or the episodes stops at the ends.
pub proof fn law_ends_of_episodes(m: AppV, i: usize)
    ensures
        m.ui.details_pane == DetailsPane::Seasons && m.ui.season_selected == Some(0usize)
            ==> m.up_in_details() == m,
        m.ui.details_pane == DetailsPane::Seasons && m.ui.season_selected == Some(i) && i + 1
            == m.available_seasons.len() ==> m.down_in_details() == m,
        m.ui.details_pane == DetailsPane::Episodes && m.ui.episode_selected == Some(0usize)
            ==> m.up_in_details() == m,
        m.ui.details_pane == DetailsPane::Episodes && m.ui.season_selected == Some(0usize)
            && m.available_episode_numbers.len() > 0 && m.ui.episode_selected == Some(i) && i + 1
            == m.available_episode_numbers[0].len() ==> m.down_in_details() == m,
{
}

/// Another season is begun at its first episode.
pub proof fn law_season_from_the_first(m: AppV, i: usize)
    ensures
        m.season_at(i).ui.season_selected == Some(i),
        m.season_at(i).ui.episode_selected == Some(0usize),
        m.episode_at(i).ui.episode_selected == Some(i),
        m.episode_at(i).ui.season_selected == m.ui.season_selected,
{
}

// ---------------------------------------------------------------------------
// Choices
// ---------------------------------------------------------------------------

/// A title that is opened has its details asked for; a channel is played.
pub proof fn law_result_is_opened(m: AppV, i: usize)
    requires
        m.ui.active_screen == Screen::Home,
        m.ui.search_selected == Some(i),
        i < m.search_results.len(),
        !m.ui.is_loading,
        m.ui.now >= m.ui.last_search_edit + 500,
        !m.ui.player_picker_popup,
        !m.ui.subtitle_popup,
        !m.ui.is_download_subtitle_popup,
    ensures
        m.ui.is_tv_mode || m.search_results[i as int].stype == 3 ==> m.submitted() == m.ask(
            EffectOf::Send(ActionOf::LaunchMpv(m.search_results[i as int].id, None)),
        ),
        !m.ui.is_tv_mode && m.search_results[i as int].stype != 3 ==> {
            let n = m.submitted();
            &&& n.effects.last() == EffectV::Send(
                ActionOf::FetchDetails(m.search_results[i as int].id, false),
            )
            &&& n.ui.active_screen == Screen::Details && n.ui.is_loading
            &&& n.selected_details is None && n.selected_resources is None
            &&& n.available_seasons.len() == 0
        },
{
}

/// Nothing is chosen while something loads, or within half a second of an edit.
pub proof fn law_no_hasty_choice(m: AppV)
    ensures
        m.ui.is_loading ==> m.submitted() == m,
        m.ui.now < m.ui.last_search_edit + 500 ==> m.submitted() == m,
{
}

/// What is on top is what a choice is made in: players first, then subtitles to play with, then
/// those to download.
pub proof fn law_choice_on_top(m: AppV)
    requires
        !m.ui.is_loading,
        m.ui.now >= m.ui.last_search_edit + 500,
    ensures
        m.ui.player_picker_popup ==> m.submitted() == m.player_chosen(),
        !m.ui.player_picker_popup && m.ui.subtitle_popup ==> m.submitted() == m.subtitle_chosen(),
        !m.ui.player_picker_popup && !m.ui.subtitle_popup && m.ui.is_download_subtitle_popup
            ==> m.submitted() == m.download_subtitle_chosen(),
{
}

// ---------------------------------------------------------------------------
// Downloads
// ---------------------------------------------------------------------------

/// An episode is saved in a directory of its series and season, under a name with both numbers; a
/// film among the films under its title.
pub proof fn law_where_downloads_go(m: AppV, details: JsonV)
    requires
        m.selected_details == Some(details),
    ensures
        details.get("stype"@) == Some(JsonV::Unsigned(2)) ==> m.download_dir()
            == "MovieBox-TUI/Series/"@ + m.safe_title() + "/Season "@ + decimal(
            m.ui.selected_season as nat,
        ) && m.download_name() == m.safe_title() + "_S"@ + decimal2(m.ui.selected_season as nat)
            + "E"@ + decimal2(m.ui.selected_episode as nat),
        details.get("stype"@) == Some(JsonV::Unsigned(1)) ==> m.download_dir()
            == "MovieBox-TUI/Movies"@ && m.download_name() == m.safe_title(),
{
}

/// A file is named as wished the first time, and with a number behind from the second on.
pub proof fn law_numbered_files(base: Seq<char>, ext: Seq<char>, n: nat)
    ensures
        file_name(base, 1, ext) == base + "."@ + ext,
        n >= 2 ==> file_name(base, n, ext) == base + "_"@ + decimal(n) + "."@ + ext,
{
}

/// A download has the ending of a video that its stream names, and else that of MP4.
pub proof fn law_video_endings(name: Seq<char>, e: Seq<char>)
    requires
        extension_in(name) == Some(e),
    ensures
        lower_text(e) == "mp4"@ || lower_text(e) == "mkv"@ || lower_text(e) == "webm"@ || lower_text(
            e,
        ) == "avi"@ || lower_text(e) == "mov"@ || lower_text(e) == "m4v"@ ==> video_extension(
            Some(name),
        ) == lower_text(e),
        ({
            let v = video_extension(Some(name));
            v == "mp4"@ || v == "mkv"@ || v == "webm"@ || v == "avi"@ || v == "mov"@ || v == "m4v"@
        }),
        video_extension(None) == "mp4"@,
{
}

/// A download starts on the details alone, one at a time, with the address and the subtitle that were
/// given.
pub proof fn law_download_starts(m: AppV, link: Seq<char>, subtitle: Option<Seq<char>>)
    ensures
        m.ui.download_progress is Some || m.ui.active_screen != Screen::Details
            ==> m.download_started(subtitle, Some(link)) == m,
        m.ui.download_progress is None && m.ui.active_screen == Screen::Details ==> {
            let n = m.download_started(subtitle, Some(link));
            &&& n.effects.last() == (EffectV::StartDownload {
                link,
                subtitle,
                dir: m.download_dir(),
                base_name: m.download_name(),
                extension: m.download_extension(),
            })
            &&& n.ui.download_progress == Some(Progress { downloaded: 0, total: 0 })
            &&& !n.ui.is_waiting_for_download_stream
        },
        m.ui.download_progress is None && m.ui.active_screen == Screen::Details
            && m.ui.is_fetching_streams ==> m.download_started(
            subtitle,
            None,
        ).ui.is_waiting_for_download_stream,
{
}

/// The stream that is marked is downloaded by its address.
pub proof fn law_marked_stream_is_downloaded(
    m: AppV,
    stream: JsonV,
    link: Seq<char>,
    subtitle: Option<Seq<char>>,
)
    requires
        m.ui.active_provider != ProviderKind::FourKHdHub,
        m.stream_marked() == Some(stream),
    ensures
        stream.get("resourceLink"@) == Some(JsonV::Text(link)) ==> m.stream_downloaded(subtitle)
            == m.ask(EffectOf::Send(ActionOf::StartDownload(subtitle, Some(link)))),
        stream.get("resourceLink"@) is None ==> m.stream_downloaded(subtitle) == m.ask(
            EffectOf::Send(ActionOf::StartDownload(subtitle, None)),
        ),
{
}

/// Before an episode is downloaded its captions are asked for, with its identifier and the title's.
pub proof fn law_captions_for_download(m: AppV, subject: Seq<char>, stream: JsonV, id: Seq<char>)
    requires
        m.active_subject_id == Some(subject),
        m.stream_marked() == Some(stream),
    ensures
        stream.get("resourceId"@) == Some(JsonV::Text(id))
            ==> m.episode_confirmed().effects.last() == (EffectV::FetchDownloadCaptions {
            subject_id: subject,
            resource_id: id,
        }),
        stream.get("resourceId"@) is None ==> m.episode_confirmed().effects == m.effects.push(
            EffectOf::Send(ActionOf::DownloadStream(None)),
        ),
{
}

/// A season is found by its number, and it is the first with that number.
pub proof fn law_season_is_found(seasons: Seq<JsonV>, number: usize, k: int)
    requires
        0 <= k < seasons.len(),
        forall|i: int|
            0 <= i < k ==> exists|n: u64|
                #[trigger] seasons[i].get("se"@) == Some(JsonV::Unsigned(n)) && n != number && n
                    <= i64::MAX && n <= usize::MAX,
        seasons[k].get("se"@) == Some(JsonV::Unsigned(number as u64)),
        number <= i64::MAX,
    ensures
        season_place(seasons, number) == Some(k),
    decreases k,
{
    if k > 0 {
        let t = seasons.skip(1);
        assert forall|i: int| 0 <= i < k - 1 implies exists|n: u64|
            #[trigger] t[i].get("se"@) == Some(JsonV::Unsigned(n)) && n != number && n
                <= i64::MAX && n <= usize::MAX by {
            assert(t[i] == seasons[i + 1]);
        }
        law_season_is_found(t, number, k - 1);
        assert(exists|n: u64|
            seasons[0].get("se"@) == Some(JsonV::Unsigned(n)) && n != number && n <= i64::MAX
                && n <= usize::MAX);
    }
}

/// Every episode of a season that is to be downloaded is put in the queue, in order.
pub proof fn law_season_is_queued(m: AppV, i: int, j: int)
    requires
        m.shown_season() == Some(i),
        0 <= i < m.available_episode_numbers.len(),
        0 <= j < m.available_episode_numbers[i].len() <= usize::MAX,
    ensures
        ({
            let n = m.season_confirmed();
            let episodes = m.available_episode_numbers[i];
            &&& n.download_queue.len() == episodes.len()
            &&& n.download_queue[j] == (m.ui.selected_season, episodes[j])
            &&& n.ui.download_queue_total == episodes.len()
            &&& n.effects == m.effects.push(EffectOf::Send(ActionOf::ProcessDownloadQueue))
            &&& n.season_subtitle_preference is None
        }),
{
}

/// The first of the queue is taken out, its streams are asked for, and it is to be downloaded; while
/// a download runs the queue waits for two seconds.
pub proof fn law_queue_in_order(m: AppV, subject: Seq<char>)
    requires
        m.active_subject_id == Some(subject),
        m.download_queue.len() > 0,
    ensures
        m.ui.download_progress is Some ==> m.queue_processed() == m.ask(
            EffectOf::SendAfter(2000, ActionOf::ProcessDownloadQueue),
        ),
        m.ui.download_progress is None ==> {
            let n = m.queue_processed();
            &&& n.ui.selected_season == m.download_queue[0].0
            &&& n.ui.selected_episode == m.download_queue[0].1
            &&& n.download_queue == m.download_queue.skip(1)
            &&& n.effects[n.effects.len() - 2] == EffectV::Send(
                ActionOf::FetchEpisodeStreams {
                    subject_id: subject,
                    season: m.download_queue[0].0,
                    episode: m.download_queue[0].1,
                    force_refresh: false,
                },
            )
            &&& n.effects.last() == EffectV::Send(ActionOf::DownloadStream(None))
        },
{
}

/// What a download shows when it ends, and what follows: the queue goes on while there is something
/// in it.
pub proof fn law_download_ends(m: AppV, path: Seq<char>)
    ensures
        m.download_completed(path).effects.last() == EffectV::SendAfter(2000, ActionOf::ClearDownload),
        m.download_completed(path).ui.download_progress == Some(
            Progress { downloaded: 1, total: 1 },
        ),
        m.download_cleared().ui.download_progress is None,
        m.download_cleared().download_status is None,
        m.download_queue.len() > 0 ==> m.download_cleared().effects == m.effects.push(
            EffectOf::Send(ActionOf::ProcessDownloadQueue),
        ),
        m.queue_dropped().download_queue.len() == 0,
        m.queue_dropped().ui.download_queue_total == 0,
        m.queue_dropped().ui.download_progress is None,
{
}

// ---------------------------------------------------------------------------
// Commands
// ---------------------------------------------------------------------------

/// To go back closes what is on top; with nothing on top it leaves the details, or clears the search.
pub proof fn law_gone_back(m: AppV)
    requires
        !m.ui.sixel,
    ensures
        m.ui.player_picker_popup ==> !m.gone_back().ui.player_picker_popup
            && m.gone_back().ui.active_screen == m.ui.active_screen
            && m.gone_back().player_picker_link is None,
        !m.ui.player_picker_popup && (m.ui.subtitle_popup || m.ui.is_download_subtitle_popup)
            ==> !m.gone_back().ui.subtitle_popup && !m.gone_back().ui.is_download_subtitle_popup
            && m.gone_back().ui.active_screen == m.ui.active_screen
            && m.gone_back().pending_play_link is None,
{
}

/// From the details one comes back to the results, and what was fetched for them is cancelled.
pub proof fn law_details_are_left(m: AppV)
    requires
        !m.ui.sixel,
        !m.ui.player_picker_popup,
        !m.ui.subtitle_popup,
        !m.ui.is_download_subtitle_popup,
        !m.ui.show_help,
    ensures
        m.ui.active_screen == Screen::Details ==> {
            let n = m.gone_back();
            &&& n.ui.active_screen == Screen::Home && !n.ui.is_loading
            &&& n.effects == m.effects.push(EffectOf::CancelFetches)
            &&& n.selected_resources is None && n.search_results == m.search_results
        },
        m.ui.active_screen == Screen::Home && m.search_results.len() > 0 ==> {
            let n = m.gone_back();
            n.search_results.len() == 0 && n.search_query.len() == 0
        },
{
}

/// A refresh asks anew for the episode that is selected, past what is kept of it.
pub proof fn law_refreshed(m: AppV, id: Seq<char>)
    requires
        m.active_subject_id == Some(id),
        m.ui.active_screen == Screen::Details,
    ensures
        m.available_seasons.len() > 0 ==> m.refreshed().effects == m.effects.push(
            EffectOf::InvalidateStreamCache(
                m.ui.active_provider,
                id,
                m.ui.selected_season,
                m.ui.selected_episode,
            ),
        ).push(
            EffectOf::Send(
                ActionOf::FetchEpisodeStreams {
                    subject_id: id,
                    season: m.ui.selected_season,
                    episode: m.ui.selected_episode,
                    force_refresh: true,
                },
            ),
        ),
        m.available_seasons.len() == 0 ==> m.refreshed().effects == m.effects.push(
            EffectOf::InvalidateStreamCache(m.ui.active_provider, id, 0, 0),
        ).push(
            EffectOf::Send(
                ActionOf::FetchEpisodeStreams {
                    subject_id: id,
                    season: 0,
                    episode: 0,
                    force_refresh: true,
                },
            ),
        ),
{
}

/// A language is switched by the details of its own title.
pub proof fn law_language_is_switched(
    m: AppV,
    details: JsonV,
    dubs: Seq<JsonV>,
    i: int,
    id: Seq<char>,
)
    requires
        m.selected_details == Some(details),
        details.get("dubs"@) == Some(JsonV::List(dubs)),
        0 <= i < dubs.len(),
    ensures
        dubs[i].get("subjectId"@) == Some(JsonV::Text(id)) ==> {
            let n = m.language_selected(i);
            &&& n.effects == m.effects.push(EffectOf::Send(ActionOf::FetchDetails(id, false)))
            &&& n.ui.language_chosen && n.selected_resources is None
        },
        dubs[i].get("subjectId"@) is None ==> m.language_selected(i) == m,
{
}

/// The titles of a page are those of its blocks, in order: of a block those of its banner, then those
/// of its own entries, then its subjects.
pub proof fn law_titles_of_page(items: Seq<JsonV>, block: JsonV, v: Seq<JsonV>, payload: JsonV)
    ensures
        blocks_subjects(items.push(block)) == blocks_subjects(items) + block_subjects(block),
        blocks_subjects(Seq::empty()).len() == 0,
        block.get("banner"@) is None && block.get("customData"@) is None && block.get("subjects"@)
            == Some(JsonV::List(v)) ==> block_subjects(block) == v,
        payload.get("items"@) == Some(JsonV::List(items)) ==> home_subjects(payload)
            == blocks_subjects(items),
        payload.get("items"@) is None ==> home_subjects(payload).len() == 0,
{
    assert(items.push(block).drop_last() =~= items);
    if block.get("banner"@) is None && block.get("customData"@) is None && block.get("subjects"@)
        == Some(JsonV::List(v)) {
        assert(block_subjects(block) =~= v);
    }
}

/// The titles of a banner, and of a block's own entries.
pub proof fn law_titles_of_block(block: JsonV, inner: JsonV, v: Seq<JsonV>)
    ensures
        block.get("banner"@) == Some(inner) && inner.get("banners"@) == Some(JsonV::List(v))
            && block.get("customData"@) is None && block.get("subjects"@) is None
            ==> block_subjects(block) == entry_subjects(v),
        block.get("customData"@) == Some(inner) && inner.get("items"@) == Some(JsonV::List(v))
            && block.get("banner"@) is None && block.get("subjects"@) is None ==> block_subjects(
            block,
        ) == entry_subjects(v),
{
    let none = Seq::<JsonV>::empty();
    assert(entry_subjects(none) =~= none);
    assert(entry_subjects(v) + none + none =~= entry_subjects(v));
    assert(none + entry_subjects(v) + none =~= entry_subjects(v));
}

/// An entry gives the title that it holds, if it holds one.
pub proof fn law_titles_of_entries(v: Seq<JsonV>, entry: JsonV, title: JsonV)
    ensures
        entry.get("subject"@) == Some(title) ==> entry_subjects(v.push(entry)) == entry_subjects(
            v,
        ).push(title),
        entry.get("subject"@) is None ==> entry_subjects(v.push(entry)) == entry_subjects(v),
        entry_subjects(Seq::empty()).len() == 0,
{
    assert(v.push(entry).drop_last() =~= v);
}

/// A page of titles is asked for of MovieBox alone, and not while television is shown; the first page
/// begins an empty list.
pub proof fn law_page_of_titles(m: AppV, tab_id: Seq<char>, page: usize)
    ensures
        m.ui.is_tv_mode ==> m.homepage_wanted(tab_id, page) == m,
        !m.ui.is_tv_mode && m.ui.active_provider != ProviderKind::MovieBox ==> m.homepage_wanted(
            tab_id,
            page,
        ).effects == m.effects,
        !m.ui.is_tv_mode && m.ui.active_provider == ProviderKind::MovieBox ==> {
            let n = m.homepage_wanted(tab_id, page);
            &&& n.effects == m.effects.push(EffectOf::FetchHomepage { tab_id, page })
            &&& n.current_tab_id == tab_id
            &&& page == 1 ==> n.search_results.len() == 0
            &&& page != 1 ==> n.search_results == m.search_results
        },
{
}

/// Titles of another tab than the one that is shown are dropped.
pub proof fn law_stale_titles_are_dropped(m: AppV, tab_id: Seq<char>, page: usize, payload: JsonV)
    requires
        !m.ui.is_homepage_mode || m.current_tab_id != tab_id,
    ensures
        m.homepage_came(tab_id, page, payload) == m,
{
}

// ---------------------------------------------------------------------------
// Searches
// ---------------------------------------------------------------------------

/// The commands that work everywhere, whatever capitals and blanks they are given with.
pub proof fn law_commands_everywhere(m: AppV, query: Seq<char>, force: bool)
    ensures
        ({
            let low = lowercase(trim(query, CharClass::White));
            let n = m.searched(query, force);
            &&& low == "/clear-cache"@ ==> n.effects == m.effects.push(
                EffectOf::Send(ActionOf::ClearCache),
            )
            &&& low == "/github"@ ==> n.effects == m.effects.push(
                EffectOf::OpenUrl("https://github.com/mesamirh/MovieBox-Tui"@),
            )
            &&& low == "/update"@ ==> n.effects == m.effects.push(
                EffectOf::Send(ActionOf::CheckForUpdates),
            ) && n.ui.manual_update_check && n.ui.active_screen == Screen::Startup
            &&& low == "/toggle-update"@ ==> n.ui.auto_update == !m.ui.auto_update
                && n.effects[m.effects.len() as int] == EffectV::PersistConfig
            &&& low == "/clear-cache"@ || low == "/github"@ || low == "/update"@ || low
                == "/toggle-update"@ ==> n.search_query.len() == 0
        }),
{
    reveal_strlit("/clear-cache");
    reveal_strlit("/github");
    reveal_strlit("/update");
    reveal_strlit("/toggle-update");
    assert("/clear-cache"@.len() == 12 && "/github"@.len() == 7 && "/update"@.len() == 7);
    assert("/toggle-update"@.len() == 14);
    assert("/github"@[1] == 'g' && "/update"@[1] == 'u');
}

/// A query that is no command is searched for as it was given, of the provider that is asked, from
/// the first page on.
pub proof fn law_titles_are_searched_for(m: AppV, query: Seq<char>, force: bool)
    requires
        !m.ui.is_tv_mode,
        lowercase(trim(query, CharClass::White)).len() > 0,
        lowercase(trim(query, CharClass::White))[0] != '/',
    ensures
        ({
            let n = m.searched(query, force);
            &&& n.effects == m.effects.push(
                EffectOf::Search { context: m.context(), query, force_refresh: force },
            )
            &&& n.ui.current_page == 1 && !n.ui.is_homepage_mode && n.ui.is_loading
            &&& n.ui.active_screen == Screen::Home
            &&& n.selected_details is None && n.search_suggestions.len() == 0
        }),
{
    reveal_strlit("/clear-cache");
    reveal_strlit("/github");
    reveal_strlit("/update");
    reveal_strlit("/toggle-update");
    assert("/clear-cache"@[0] == '/' && "/github"@[0] == '/' && "/update"@[0] == '/');
    assert("/toggle-update"@[0] == '/');
    law_tabs(lowercase(trim(query, CharClass::White)));
}

/// A tab is shown by its command, from its first page on; 4KHDHub has none.
pub proof fn law_tabs_are_opened(m: AppV, query: Seq<char>, force: bool)
    requires
        !m.ui.is_tv_mode,
    ensures
        ({
            let low = lowercase(trim(query, CharClass::White));
            let n = m.searched(query, force);
            let tab = if low == "/home"@ || low == "/discover"@ {
                "0"@
            } else if low == "/movies"@ {
                "2"@
            } else if low == "/shows"@ || low == "/tvshows"@ {
                "5"@
            } else {
                "8"@
            };
            low == "/home"@ || low == "/discover"@ || low == "/movies"@ || low == "/shows"@ || low
                == "/tvshows"@ || low == "/anime"@ ==> {
                &&& m.ui.active_provider == ProviderKind::MovieBox ==> n == m.ask(
                    EffectOf::Send(ActionOf::FetchHomepage { tab_id: tab, page: 1 }),
                )
                &&& m.ui.active_provider != ProviderKind::MovieBox ==> n.effects == m.effects
            }
        }),
{
    let low = lowercase(trim(query, CharClass::White));
    law_tabs(low);
    reveal_strlit("/clear-cache");
    reveal_strlit("/github");
    reveal_strlit("/update");
    reveal_strlit("/toggle-update");
    reveal_strlit("/home");
    reveal_strlit("/discover");
    reveal_strlit("/movies");
    reveal_strlit("/shows");
    reveal_strlit("/tvshows");
    reveal_strlit("/anime");
    assert("/clear-cache"@.len() == 12 && "/github"@.len() == 7 && "/update"@.len() == 7);
    assert("/toggle-update"@.len() == 14 && "/movies"@.len() == 7 && "/home"@.len() == 5);
    assert("/discover"@.len() == 9 && "/shows"@.len() == 6 && "/tvshows"@.len() == 8);
    assert("/anime"@.len() == 6);
    assert("/movies"@[1] == 'm' && "/github"@[1] == 'g' && "/update"@[1] == 'u');
    assert("/shows"@[1] == 's' && "/anime"@[1] == 'a');
}

/// In television mode the channels that match a query are listed; its settings have a command.
pub proof fn law_television_is_searched(m: AppV, query: Seq<char>, force: bool)
    requires
        m.ui.is_tv_mode,
    ensures
        ({
            let low = lowercase(trim(query, CharClass::White));
            let n = m.searched(query, force);
            &&& low == "/config"@ ==> n.effects == m.effects.push(
                EffectOf::Send(ActionOf::ShowTvWizard),
            )
            &&& low.len() == 0 || low[0] != '/' ==> n.search_results == channel_results(
                m.tv_channels,
                low,
            ) && !n.ui.is_loading
        }),
{
    let low = lowercase(trim(query, CharClass::White));
    law_tabs(low);
    reveal_strlit("/clear-cache");
    reveal_strlit("/github");
    reveal_strlit("/update");
    reveal_strlit("/toggle-update");
    reveal_strlit("/config");
    assert("/clear-cache"@.len() == 12 && "/github"@.len() == 7 && "/update"@.len() == 7);
    assert("/toggle-update"@.len() == 14 && "/config"@.len() == 7);
    assert("/config"@[1] == 'c' && "/github"@[1] == 'g' && "/update"@[1] == 'u');
    assert("/clear-cache"@[0] == '/' && "/github"@[0] == '/' && "/update"@[0] == '/');
    assert("/toggle-update"@[0] == '/' && "/config"@[0] == '/');
}

/// What follows the captions for a download, and the address of a release, or that there is none.
pub proof fn law_after_download_lookups(
    answer: JsonV,
    url: Seq<char>,
    e: Seq<char>,
    subtitle: Option<Seq<char>>,
)
    ensures
        download_captions(Some(answer)) == ActionV::ShowDownloadSubtitlePopup(answer),
        download_captions(None) == ActionV::DownloadStream(None),
        release_download(Ok(url), subtitle) == ActionV::StartDownload(subtitle, Some(url)),
        release_download(Err(e), subtitle) == ActionV::SetStatus("Resolve failed: "@ + e),
{
}

/// A subtitle that is chosen while a season is downloaded is kept by its name for the episodes that
/// follow; that of none is not.
pub proof fn law_subtitle_for_season(m: AppV, i: usize)
    requires
        m.ui.subtitle_selected == Some(i),
        i < m.subtitle_list.len(),
        m.ui.download_queue_total > 0,
    ensures
        m.subtitle_list[i as int].0 != "None"@ ==> m.preference_kept().season_subtitle_preference
            == Some(m.subtitle_list[i as int].0),
        m.subtitle_list[i as int].0 == "None"@ ==> m.preference_kept().season_subtitle_preference
            is None,
{
    reveal(AppV::preference_kept);
}

/// The ending of a file is what stands behind the last dot of its name, if the dot is not its first
/// character.
pub proof fn law_ending_of_file(stem: Seq<char>, ext: Seq<char>)
    requires
        stem.len() > 0,
        ext.len() > 0,
        !stem.contains('/'),
        !ext.contains('/'),
        !ext.contains('.'),
    ensures
        extension_in(stem + "."@ + ext) == Some(ext),
{
    reveal_strlit(".");
    let path = stem + "."@ + ext;
    let k = CharClass::Is('/');
    assert(path.last() == ext[ext.len() - 1]);
    assert(ext.contains(ext[ext.len() - 1]));
    assert(without_tail(path) == path);
    assert forall|j: int| 0 <= j < path.len() implies !k.holds(path[j]) by {
        if j < stem.len() {
            assert(stem.contains(stem[j]));
        } else if j > stem.len() {
            assert(path[j] == ext[j - stem.len() - 1]);
            assert(ext.contains(ext[j - stem.len() - 1]));
        } else {
            assert(path[j] == '.');
        }
    }
    lemma_after_last(path, k, 0);
    assert(path.skip(0) =~= path);
    let at = stem.len() as int;
    assert(path.subrange(at, at + 1) =~= "."@);
    assert(occurs_at(path, "."@, at));
    lemma_last_at(path, "."@, path.len() as int);
    assert forall|j: int| at < j && occurs_at(path, "."@, j) implies false by {
        assert(path.subrange(j, j + 1)[0] == '.');
        assert(ext[j - at - 1] == path[j]);
        assert(ext.contains('.'));
    }
    assert(rfind(path, "."@) == Some(at));
    assert(path.skip(at + 1) =~= ext);
}

/// A page of titles that came joins the results: what it adds has its posters asked for, twenty from
/// the place of the page on, and the first result of a first page is marked.
pub proof fn law_titles_are_listed(m: AppV, page: usize, payload: JsonV)
    requires
        m.ui.is_homepage_mode,
        page >= 1,
        m.ui.current_page > 1,
    ensures
        ({
            let n = m.homepage_came(m.current_tab_id, page, payload);
            let begun = if page == 1 {
                Seq::empty()
            } else {
                m.search_results
            };
            &&& n.search_results == merged_home(begun, home_subjects(payload))
            &&& !n.ui.is_loading
            &&& n.search_results.len() > begun.len() ==> n.effects == m.effects + poster_requests(
                page_of(n.search_results, (page - 1) * 20, 20),
                false,
            )
            &&& n.search_results.len() <= begun.len() ==> n.effects == m.effects
        }),
{
}

/// On the first page the first result is marked and its preview asked for, if it has any.
pub proof fn law_first_titles(m: AppV, payload: JsonV)
    requires
        m.ui.is_homepage_mode,
        m.ui.current_page == 1,
    ensures
        ({
            let n = m.homepage_came(m.current_tab_id, 1, payload);
            &&& n.search_results.len() > 0 ==> n.ui.search_selected == Some(0usize)
                && n.effects.last() == EffectV::Send(ActionOf::FetchPreview(n.search_results[0].id))
            &&& n.search_results.len() == 0 ==> n.ui.search_selected is None && n.effects
                == m.effects
        }),
{
}

/// While players are picked a move goes among them, and while subtitles are among those, and nothing
/// else moves.
pub proof fn law_moves_under_popups(m: AppV, i: usize)
    requires
        m.ui.active_screen == Screen::Details,
    ensures
        m.ui.player_picker_popup && m.ui.player_picker_selected == Some(i) && 0 < i
            < m.available_players.len() <= usize::MAX
            ==> m.moved_up().ui.player_picker_selected == Some((i - 1) as usize),
        m.ui.player_picker_popup && m.ui.player_picker_selected == Some(i) && i + 1
            < m.available_players.len() <= usize::MAX
            ==> m.moved_down().ui.player_picker_selected == Some((i + 1) as usize),
        !m.ui.player_picker_popup && (m.ui.subtitle_popup || m.ui.is_download_subtitle_popup)
            && m.ui.subtitle_selected == Some(i) ==> {
            &&& i > 0 ==> m.moved_up().ui.subtitle_selected == Some((i - 1) as usize)
            &&& i == 0 ==> m.moved_up() == m
            &&& i + 1 < m.subtitle_list.len() <= usize::MAX ==> m.moved_down().ui.subtitle_selected
                == Some((i + 1) as usize)
            &&& i + 1 == m.subtitle_list.len() ==> m.moved_down() == m
        },
{
}

/// A subtitle that is chosen for a stream that waits is played with it, and the stream waits no
/// longer.
pub proof fn law_waiting_stream_is_played(m: AppV, link: Seq<char>, i: usize)
    requires
        m.pending_play_link == Some(link),
        m.ui.subtitle_selected == Some(i),
        i < m.subtitle_list.len(),
        !begins(m.subtitle_list[i as int].1, "os:"@),
        !begins(m.subtitle_list[i as int].1, "subdl:"@),
        !m.ui.pending_open_with,
    ensures
        ({
            let n = m.subtitle_chosen();
            &&& n.pending_play_link is None && !n.ui.subtitle_popup
            &&& n.effects == m.effects.push(
                EffectOf::Send(ActionOf::LaunchMpv(link, Some(m.subtitle_list[i as int].1))),
            )
        }),
{
    reveal(AppV::choice_played);
    reveal(AppV::played_with_choice);
    reveal(AppV::played_with);
}

/// The settings of channels are shown in television mode alone, with everything else closed.
pub proof fn law_settings_of_channels(m: AppV)
    ensures
        !m.ui.is_tv_mode ==> m.wizard_shown() == m,
        m.ui.is_tv_mode ==> {
            let n = m.wizard_shown();
            &&& n.ui.tv_config_popup && !n.ui.show_help && !n.ui.player_picker_popup
            &&& !n.ui.subtitle_popup && !n.ui.is_download_subtitle_popup
            &&& n.effects == m.effects
        },
{
}

/// At home a refresh searches for the query again, past what is kept of it.
pub proof fn law_search_is_refreshed(m: AppV)
    requires
        m.ui.active_screen == Screen::Home,
    ensures
        trim(m.search_query, CharClass::White).len() > 0 ==> m.refreshed() == m.ask(
            EffectOf::Send(
                ActionOf::Search {
                    query: trim(m.search_query, CharClass::White),
                    force_refresh: true,
                },
            ),
        ),
        trim(m.search_query, CharClass::White).len() == 0 ==> m.refreshed().effects == m.effects,
{
}

/// A question about a download is shown with no as its answer.
pub proof fn law_questions(m: AppV)
    ensures
        m.episode_prompted().ui.show_episode_download_confirm,
        !m.episode_prompted().ui.episode_download_confirm_yes_selected,
        m.season_prompted().ui.show_season_download_confirm,
        !m.season_prompted().ui.season_download_confirm_yes_selected,
        !m.episode_confirmed().ui.show_episode_download_confirm,
        !m.season_confirmed().ui.show_season_download_confirm,
{
}

/// A season is done when its queue is empty, and that is told once with the number of its files.
pub proof fn law_season_is_done(m: AppV)
    requires
        m.download_queue.len() == 0,
        m.ui.download_progress is None,
    ensures
        m.ui.download_queue_total > 0 ==> m.queue_processed().ui.download_queue_total == 0
            && m.queue_processed().effects == m.effects.push(
            EffectOf::Notify(
                NotificationKind::Success,
                "Season downloaded"@,
                decimal(m.ui.download_queue_total as nat) + " files completed."@,
            ),
        ),
        m.ui.download_queue_total == 0 ==> m.queue_processed() == m,
{
}

/// A season without a number counts as number zero, and one that is in no list is not found.
pub proof fn law_unnumbered_season(seasons: Seq<JsonV>, s: JsonV)
    requires
        s.get("se"@) is None,
    ensures
        season_place(seq![s] + seasons, 0) == Some(0int),
        season_place(Seq::empty(), 0) is None,
        season_place(seq![s] + seasons, 1) == (match season_place(seasons, 1) {
            Some(i) => Some(i + 1),
            None => None,
        }),
{
    assert((seq![s] + seasons).skip(1) =~= seasons);
    assert((seq![s] + seasons)[0] == s);
}

/// The season that is shown is the one with the selected number, where its episodes are known.
pub proof fn law_season_that_is_shown(m: AppV, i: int)
    requires
        season_place(m.available_seasons, m.ui.selected_season) == Some(i),
    ensures
        i < m.available_episode_numbers.len() ==> m.shown_season() == Some(i),
        i >= m.available_episode_numbers.len() ==> m.shown_season() is None && m.season_confirmed().effects
            == m.effects,
{
}

} // verus!
