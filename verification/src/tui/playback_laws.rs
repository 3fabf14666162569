//! What holds of playing a stream, and of the subtitles it is played with.
use vstd::prelude::*;
use crate::json::JsonV;
use crate::numbers::decimal;
use crate::providers::models::ProviderKind;
use crate::providers::subtitles::{imdb_id_of, names_indonesian};
use crate::strings::begins;
use crate::providers::subtitles::subdl::{law_subdl_marker_read_back, subdl_parts};
use crate::tui::embedded::may_embed;
use crate::tui::navigate::after_subtitle;
use crate::tui::playback::{
    captions_in, captions_of, captions_result, digits_in, has_indonesian, has_name, picker_title,
    player_name, release_result, with_names, year_of,
};
use crate::tui::state::{
    ActionOf, ActionV, AppV, EffectOf, EffectV, NotificationKind, PlaybackSource, PlaybackSourceV,
    PlayerKind, Screen, ThenOf, ThenV, Ui,
};
use crate::tui::titles::{clean_title, law_marker_round_trip, marker_of, os_marker};

verus! {

// ---------------------------------------------------------------------------
// What subtitles are searched for
// ---------------------------------------------------------------------------

/// Subtitles of a series are searched for with the season and the episode that are selected, those of
/// a film with neither; in any case for the cleaned title, of the provider in use, with the title that
/// is shown and the stream that is marked.
pub proof fn law_what_is_searched_for(m: AppV, details: JsonV, title: Seq<char>)
    requires
        m.selected_details == Some(details),
        details.get("title"@) == Some(JsonV::Text(title)),
        clean_title(title).len() > 0,
    ensures
        m.subtitle_context() is Some,
        ({
            let c = m.subtitle_context()->0;
            &&& c.title == clean_title(title)
            &&& c.provider == m.ui.active_provider
            &&& m.active_subject_id is Some ==> c.subject_id == m.active_subject_id->0
            &&& c.imdb_id == imdb_id_of(details)
            &&& details.get("subjectType"@) == Some(JsonV::Unsigned(2)) ==> c.is_episode && c.season
                == Some(m.ui.selected_season) && c.episode == Some(m.ui.selected_episode)
            &&& details.get("subjectType"@) is None && details.get("stype"@) == Some(
                JsonV::Unsigned(2),
            ) ==> c.is_episode && c.season == Some(m.ui.selected_season) && c.episode == Some(
                m.ui.selected_episode,
            )
            &&& details.get("subjectType"@) == Some(JsonV::Unsigned(1)) ==> !c.is_episode
                && c.season is None && c.episode is None
        }),
{
}

/// The stream that subtitles are searched for is the one that is marked; where it has no identifier,
/// the one that the details give.
pub proof fn law_stream_searched_for(m: AppV, details: JsonV, stream: JsonV, id: Seq<char>)
    requires
        m.selected_details == Some(details),
        m.subtitle_context() is Some,
    ensures
        m.stream_marked() == Some(stream) && stream.get("resourceId"@) == Some(JsonV::Text(id))
            ==> m.subtitle_context()->0.resource_id == id,
        m.stream_marked() is None && details.get("resourceId"@) == Some(JsonV::Text(id))
            ==> m.subtitle_context()->0.resource_id == id,
        m.stream_marked() is None && details.get("resourceId"@) is None && details.get(
            "resource_id"@,
        ) == Some(JsonV::Text(id)) ==> m.subtitle_context()->0.resource_id == id,
{
}

/// Nothing is searched for without details, or without a title in them.
pub proof fn law_nothing_to_search_for(m: AppV)
    ensures
        m.selected_details is None ==> m.subtitle_context() is None,
        m.selected_details is Some && m.selected_details->0.get("title"@) is None
            ==> m.subtitle_context() is None,
{
}

/// The year of a title is the first four digits of its release date, or else of its year; a year that
/// is a number counts where these give none.
pub proof fn law_year_of_title(details: JsonV, date: Seq<char>, n: u64)
    ensures
        details.get("releaseDate"@) == Some(JsonV::Text(date)) && digits_in(date).len() >= 4
            ==> year_of(details) == Some(digits_in(date).take(4)),
        details.get("releaseDate"@) is None && details.get("year"@) == Some(JsonV::Text(date))
            && digits_in(date).len() >= 4 ==> year_of(details) == Some(digits_in(date).take(4)),
        details.get("releaseDate"@) is None && details.get("year"@) == Some(JsonV::Unsigned(n))
            ==> year_of(details) == Some(decimal(n as nat)),
        details.get("releaseDate"@) is None && details.get("year"@) is None ==> year_of(details)
            is None,
{
}

/// The digits of a text are kept in their order, and all else is passed over.
pub proof fn law_digits_of_text(s: Seq<char>, c: char)
    ensures
        '0' <= c <= '9' ==> digits_in(s.push(c)) == digits_in(s).push(c),
        !('0' <= c <= '9') ==> digits_in(s.push(c)) == digits_in(s),
        digits_in(Seq::empty()).len() == 0,
{
    assert(s.push(c).drop_last() =~= s);
}

// ---------------------------------------------------------------------------
// Captions
// ---------------------------------------------------------------------------

/// Every caption with an address is offered under its name, in the order of the answer; one without an
/// address is not.
pub proof fn law_captions_are_read(v: Seq<JsonV>, c: JsonV, name: Seq<char>, url: Seq<char>)
    ensures
        c.get("lanName"@) == Some(JsonV::Text(name)) && c.get("url"@) == Some(JsonV::Text(url))
            && url.len() > 0 ==> captions_of(v.push(c)) == captions_of(v).push((name, url)),
        c.get("lanName"@) is None && c.get("url"@) == Some(JsonV::Text(url)) && url.len() > 0
            ==> captions_of(v.push(c)) == captions_of(v).push(("Unknown"@, url)),
        c.get("url"@) is None ==> captions_of(v.push(c)) == captions_of(v),
        captions_of(Seq::empty()).len() == 0,
        captions_in(JsonV::Object(seq![("extCaptions"@, JsonV::List(v))])) == captions_of(v),
{
    reveal_strlit("");
    assert(v.push(c).drop_last() =~= v);
    reveal_with_fuel(crate::json::member, 2);
}

/// Where one of the captions is Indonesian, or neither SubDL nor OpenSubtitles can be used, nothing
/// more is searched for: the captions are offered behind the choice of none, and the stream waits.
pub proof fn law_captions_are_offered(m: AppV, link: Seq<char>, answer: JsonV, open_with: bool)
    requires
        captions_in(answer).len() > 0,
    ensures
        ({
            let n = m.subtitle_popup_asked(link, answer, open_with);
            let d = m.download_popup_asked(answer);
            let options = seq![("None"@, ""@)] + captions_in(answer);
            let quiet = has_indonesian(captions_in(answer)) || (!m.ui.os_enabled
                && !m.ui.subdl_enabled);
            &&& quiet ==> n.effects == m.effects && d.effects == m.effects
            &&& n.ui.subtitle_popup && !n.ui.is_download_subtitle_popup
            &&& n.subtitle_list == options && n.ui.subtitle_selected == Some(0usize)
            &&& n.pending_play_link == Some(link) && n.ui.pending_open_with == open_with
            &&& d.ui.is_download_subtitle_popup && !d.ui.subtitle_popup
            &&& d.subtitle_list == options
        }),
{
    reveal(AppV::subtitles_searched_if);
    reveal(AppV::subtitles_searched);
    reveal(AppV::subdl_asked);
    reveal(AppV::os_asked);
    reveal(AppV::captions_offered);
    reveal(AppV::download_captions_offered);
}

/// A caption is Indonesian by its name.
pub proof fn law_indonesian_among(v: Seq<(Seq<char>, Seq<char>)>, i: int)
    requires
        0 <= i < v.len(),
        names_indonesian(v[i].0),
    ensures
        has_indonesian(v),
{
}

/// Without captions and without a service to search, a stream is played and a download starts, both
/// without a subtitle.
pub proof fn law_no_captions(m: AppV, link: Seq<char>, answer: JsonV, open_with: bool)
    requires
        captions_in(answer).len() == 0,
        !m.ui.os_enabled,
        !m.ui.subdl_enabled,
    ensures
        ({
            let n = m.subtitle_popup_asked(link, answer, open_with);
            &&& open_with ==> n.effects.last() == EffectV::Send(
                ActionOf::ShowPlayerPicker(link, None),
            )
            &&& !open_with ==> n.effects.last() == EffectV::Send(ActionOf::LaunchMpv(link, None))
            &&& m.download_popup_asked(answer).effects == m.effects.push(
                EffectOf::Send(ActionOf::DownloadStream(None)),
            )
        }),
{
    reveal(AppV::subtitles_searched_if);
    reveal(AppV::captions_offered);
    reveal(AppV::download_captions_offered);
    reveal(AppV::hinted);
    reveal(AppV::noticed);
}

/// Without captions, but with a service that is searched, a stream and a download wait.
pub proof fn law_wait_for_subtitles(m: AppV, link: Seq<char>, answer: JsonV, open_with: bool)
    requires
        captions_in(answer).len() == 0,
        m.ui.os_enabled || m.ui.subdl_enabled,
    ensures
        ({
            let n = m.subtitle_popup_asked(link, answer, open_with);
            let d = m.download_popup_asked(answer);
            &&& n.ui.os_waiting && n.pending_play_link == Some(link) && n.ui.pending_open_with
                == open_with
            &&& n.subtitle_list.len() == 0
            &&& d.ui.os_waiting
        }),
{
    reveal(AppV::subtitles_searched_if);
    reveal(AppV::captions_offered);
    reveal(AppV::download_captions_offered);
}

/// A search is begun for the title that is known, unless one is going on: at SubDL if it can be used,
/// else at OpenSubtitles, for the title, the stream and the episode shown.
pub proof fn law_search_begins(m: AppV, is_download: bool)
    requires
        m.subtitle_context() is Some,
        !m.ui.subtitle_searching,
    ensures
        ({
            let c = m.subtitle_context()->0;
            let id = c.subject_id + ":"@ + c.resource_id + ":"@ + decimal(
                m.ui.selected_episode as nat,
            );
            let n = m.subtitles_searched(is_download);
            &&& n.ui.subtitle_searching
            &&& m.ui.subdl_enabled ==> n.effects.last() == (EffectV::SearchSubdl {
                context_id: id,
                is_download,
            })
            &&& !m.ui.subdl_enabled ==> n.effects.last() == (EffectV::SearchSubtitles {
                context_id: id,
                is_download,
            })
        }),
{
    reveal(AppV::subtitles_searched);
    reveal(AppV::subdl_asked);
    reveal(AppV::os_asked);
}

/// Subtitles are taken for the title, the stream that is marked and the episode that is selected.
pub proof fn law_subtitles_awaited(m: AppV, subject: Seq<char>, stream: JsonV, id: Seq<char>)
    requires
        m.active_subject_id == Some(subject),
        m.stream_marked() == Some(stream),
        stream.get("resourceId"@) == Some(JsonV::Text(id)),
    ensures
        m.awaited_id() == subject + ":"@ + id + ":"@ + decimal(m.ui.selected_episode as nat),
{
}

/// Subtitles that were searched for something else than is shown are not offered: the search and the
/// wait for it end.
pub proof fn law_other_subtitles_are_dropped(
    m: AppV,
    context_id: Seq<char>,
    found: Seq<(Seq<char>, Seq<char>)>,
    is_download: bool,
)
    requires
        context_id != m.awaited_id(),
    ensures
        m.os_came(context_id, found, is_download) == m.search_ended().wait_ended(),
{
}

/// The end of a search, and that of the wait for one, change nothing else.
pub proof fn law_search_ends_quietly(m: AppV)
    ensures
        m.search_ended() == (AppV { ui: m.search_ended().ui, ..m }),
        m.search_ended().ui == (Ui { subtitle_searching: false, ..m.ui }),
        m.wait_ended() == (AppV { ui: m.wait_ended().ui, ..m }),
        m.wait_ended().ui == (Ui { os_waiting: false, ..m.ui }),
{
}

/// A failure of a search for something else than is shown is not told, and nothing goes on for it.
pub proof fn law_other_failures_are_dropped(
    m: AppV,
    context_id: Seq<char>,
    is_download: bool,
    error: Seq<char>,
)
    requires
        context_id != m.awaited_id(),
    ensures
        m.os_failed(context_id, is_download, error).effects == m.effects,
        m.subdl_failed(context_id, is_download, error).effects == m.effects,
{
}

/// Where SubDL has nothing, OpenSubtitles is searched for the same, if it can be used.
pub proof fn law_second_service(m: AppV, is_download: bool, error: Seq<char>)
    requires
        m.ui.os_enabled,
    ensures
        m.subdl_came(m.awaited_id(), Seq::empty(), is_download).effects.last()
            == (EffectV::SearchSubtitles { context_id: m.awaited_id(), is_download }),
        m.subdl_failed(m.awaited_id(), is_download, error).effects.last()
            == (EffectV::SearchSubtitles { context_id: m.awaited_id(), is_download }),
{
    reveal(AppV::os_asked);
}

/// Subtitles that are waited for are offered behind the choice of none; where none were found, what
/// waits goes on without.
pub proof fn law_awaited_subtitles(
    m: AppV,
    found: Seq<(Seq<char>, Seq<char>)>,
    link: Seq<char>,
)
    requires
        m.ui.os_waiting,
        m.pending_play_link == Some(link),
    ensures
        found.len() > 0 ==> {
            let n = m.os_came(m.awaited_id(), found, false);
            &&& n.ui.subtitle_popup && !n.ui.os_waiting
            &&& n.subtitle_list == with_names(seq![("None"@, ""@)], found)
            &&& n.pending_play_link == Some(link)
        },
        found.len() > 0 ==> {
            let n = m.os_came(m.awaited_id(), found, true);
            &&& n.ui.is_download_subtitle_popup && !n.ui.subtitle_popup
            &&& n.subtitle_list == with_names(seq![("None"@, ""@)], found)
        },
{
    reveal(AppV::os_offered);
}

/// Where no subtitles were found, what waits for them goes on without.
pub proof fn law_no_awaited_subtitles(m: AppV, link: Seq<char>)
    requires
        m.ui.os_waiting,
        m.pending_play_link == Some(link),
    ensures
        ({
            let n = m.os_came(m.awaited_id(), Seq::empty(), false);
            &&& !n.ui.os_waiting && n.pending_play_link is None
            &&& m.ui.pending_open_with ==> n.effects.last() == EffectV::Send(
                ActionOf::ShowPlayerPicker(link, None),
            )
            &&& !m.ui.pending_open_with ==> n.effects.last() == EffectV::Send(
                ActionOf::LaunchMpv(link, None),
            )
        }),
        m.os_came(m.awaited_id(), Seq::empty(), true).effects == m.effects.push(
            EffectOf::Send(ActionOf::DownloadStream(None)),
        ),
{
    reveal(AppV::resumed_bare);
    reveal(AppV::hinted);
    reveal(AppV::noticed);
}

/// Found subtitles join an open popup behind those there.
pub proof fn law_found_subtitles_join(m: AppV, found: Seq<(Seq<char>, Seq<char>)>)
    requires
        !m.ui.os_waiting,
        m.ui.subtitle_popup,
    ensures
        m.os_came(m.awaited_id(), found, false).subtitle_list == with_names(m.subtitle_list, found),
        m.os_came(m.awaited_id(), found, false).ui.subtitle_popup,
{
    reveal(AppV::os_added);
}

/// A name that is new is put behind a list, and one that is there is not put twice.
pub proof fn law_names_join_once(
    v: Seq<(Seq<char>, Seq<char>)>,
    more: Seq<(Seq<char>, Seq<char>)>,
    x: (Seq<char>, Seq<char>),
    i: int,
)
    ensures
        0 <= i < with_names(v, more).len() && with_names(v, more)[i].0 == x.0 ==> with_names(
            v,
            more.push(x),
        ) == with_names(v, more),
        (forall|k: int|
            0 <= k < with_names(v, more).len() ==> (#[trigger] with_names(v, more)[k]).0 != x.0)
            ==> with_names(v, more.push(x)) == with_names(v, more).push(x),
        with_names(v, Seq::empty()) == v,
{
    assert(more.push(x).drop_last() =~= more);
    let w = with_names(v, more);
    if 0 <= i < w.len() && w[i].0 == x.0 {
        assert(has_name(w, x.0));
    }
    if has_name(w, x.0) {
        let k = choose|k: int| 0 <= k < w.len() && #[trigger] w[k].0 == x.0;
        assert(w[k].0 == x.0);
    }
}

// ---------------------------------------------------------------------------
// Choices
// ---------------------------------------------------------------------------

/// A subtitle of OpenSubtitles that is chosen is fetched by the number and in the language of its
/// marker, for the title, season and episode shown; one with an address is used as it is.
pub proof fn law_chosen_subtitle(m: AppV, link: Seq<char>, url: Seq<char>, id: u32, lang: Seq<char>)
    requires
        m.active_subject_id is Some,
    ensures
        url == "os:"@ + decimal(id as nat) + ":"@ + lang ==> m.played_with_choice(link, url)
            == m.ask(
            EffectOf::ResolveSubtitle {
                provider: m.ui.active_provider,
                subject_id: m.active_subject_id->0,
                season: m.ui.selected_season,
                episode: m.ui.selected_episode,
                file_id: Some(id),
                lang,
                next: ThenOf::Play { link, open_with: m.ui.pending_open_with },
            },
        ),
        url == "os:"@ + decimal(id as nat) + ":"@ + lang ==> m.downloaded_with_choice(url) == m.ask(
            EffectOf::ResolveSubtitle {
                provider: m.ui.active_provider,
                subject_id: m.active_subject_id->0,
                season: m.ui.selected_season,
                episode: m.ui.selected_episode,
                file_id: Some(id),
                lang,
                next: ThenOf::Download,
            },
        ),
{
    reveal(AppV::played_with_choice);
    reveal(AppV::downloaded_with_choice);
    reveal_strlit("os:");
    law_marker_round_trip(id, lang);
    if url == "os:"@ + decimal(id as nat) + ":"@ + lang {
        assert(url == marker_of(id as nat, lang));
        assert(url.subrange(0, 3) =~= "os:"@);
        assert(begins(url, "os:"@));
    }
}

/// A subtitle with an address is handed to the player, or saved with the download.
pub proof fn law_chosen_address(m: AppV, link: Seq<char>, url: Seq<char>)
    requires
        !begins(url, "os:"@),
        !begins(url, "subdl:"@),
    ensures
        m.ui.pending_open_with ==> m.played_with_choice(link, url) == m.ask(
            EffectOf::Send(ActionOf::ShowPlayerPicker(link, Some(url))),
        ),
        !m.ui.pending_open_with ==> m.played_with_choice(link, url) == m.ask(
            EffectOf::Send(ActionOf::LaunchMpv(link, Some(url))),
        ),
        url.len() > 0 ==> m.downloaded_with_choice(url) == m.ask(
            EffectOf::Send(ActionOf::DownloadStream(Some(url))),
        ),
        url.len() == 0 ==> m.downloaded_with_choice(url) == m.ask(
            EffectOf::Send(ActionOf::DownloadStream(None)),
        ),
{
    reveal(AppV::played_with_choice);
    reveal(AppV::played_with);
    reveal(AppV::downloaded_with_choice);
}

/// The subtitle that is chosen is the one at the mark.
pub proof fn law_subtitle_at_mark(m: AppV, i: usize)
    requires
        m.ui.subtitle_selected == Some(i),
    ensures
        i < m.subtitle_list.len() ==> m.subtitle_at_mark() == Some(m.subtitle_list[i as int]),
        i >= m.subtitle_list.len() ==> m.subtitle_at_mark() is None,
{
}

/// What follows once a subtitle was fetched, or could not be.
pub proof fn law_after_fetching(link: Seq<char>, resolved: Option<Seq<char>>)
    ensures
        after_subtitle(ThenOf::Play { link, open_with: true }, resolved)
            == ActionV::ShowPlayerPicker(link, resolved),
        after_subtitle(ThenOf::Play { link, open_with: false }, resolved) == ActionV::LaunchMpv(
            link,
            resolved,
        ),
        after_subtitle(ThenOf::Download, resolved) == ActionV::DownloadStream(resolved),
{
}

/// What follows the captions of a stream, or that they cannot be had.
pub proof fn law_after_captions(link: Seq<char>, answer: JsonV, open_with: bool)
    ensures
        captions_result(link, Some(answer), open_with) == ActionV::ShowSubtitlePopup(
            link,
            answer,
            open_with,
        ),
        captions_result(link, None, true) == ActionV::ShowPlayerPicker(link, None),
        captions_result(link, None, false) == ActionV::LaunchMpv(link, None),
{
}

// ---------------------------------------------------------------------------
// Players
// ---------------------------------------------------------------------------

/// A stream is played with the first player that was found.
pub proof fn law_first_player(m: AppV, link: Seq<char>, subtitle: Option<Seq<char>>)
    ensures
        m.available_players.len() > 0 ==> m.first_player_started(link, subtitle).effects.last()
            == EffectV::Send(ActionOf::LaunchPlayer(m.available_players[0], link, subtitle)),
        m.available_players.len() == 0 ==> m.first_player_started(link, subtitle).effects
            == m.effects.push(
            EffectOf::Notify(
                NotificationKind::Error,
                "Player unavailable"@,
                "Install mpv, IINA, or VLC."@,
            ),
        ),
{
}

/// A player is picked for the stream or the source that was asked for, where there are players.
pub proof fn law_player_picker(
    m: AppV,
    link: Seq<char>,
    subtitle: Option<Seq<char>>,
    source: PlaybackSourceV,
)
    requires
        m.available_players.len() > 0,
    ensures
        ({
            let n = m.player_picker_asked(link, subtitle);
            &&& n.ui.player_picker_popup && n.ui.player_picker_selected == Some(0usize)
            &&& n.player_picker_link == Some(link) && n.player_picker_subtitle == subtitle
            &&& n.player_picker_playback is None
        }),
        ({
            let n = m.playback_picker_asked(source);
            &&& n.ui.player_picker_popup && n.ui.player_picker_selected == Some(0usize)
            &&& n.player_picker_playback == Some(source) && n.player_picker_link is None
        }),
{
}

/// The player that is chosen is the one at the mark, and it is started with what it was picked for.
pub proof fn law_chosen_player(m: AppV, i: usize, link: Seq<char>, source: PlaybackSourceV)
    requires
        m.ui.player_picker_selected == Some(i),
        i < m.available_players.len(),
    ensures
        m.player_picker_playback == Some(source) ==> m.player_chosen().effects == m.effects.push(
            EffectOf::Send(ActionOf::LaunchPlayback(m.available_players[i as int], source)),
        ),
        m.player_picker_playback is None && m.player_picker_link == Some(link) ==> m.player_chosen().effects
            == m.effects.push(
            EffectOf::Send(
                ActionOf::LaunchPlayer(
                    m.available_players[i as int],
                    link,
                    m.player_picker_subtitle,
                ),
            ),
        ),
{
}

/// VLC is not started with a source that needs headers; any other player is, and VLC is with a source
/// that needs none.
pub proof fn law_headers_for_players(m: AppV, kind: PlayerKind, source: PlaybackSourceV)
    ensures
        kind == PlayerKind::Vlc && source.headers.len() > 0 ==> m.playback_launched(
            kind,
            source,
        ).effects == m.effects,
        kind != PlayerKind::Vlc || source.headers.len() == 0 ==> m.playback_launched(
            kind,
            source,
        ).effects.last() == EffectV::StartPlayback(kind, source),
{
}

/// The stream that is marked is played by its address, after its captions were asked for with its
/// identifier and that of the title; one without an identifier is played at once.
pub proof fn law_marked_stream_is_played(
    m: AppV,
    details: JsonV,
    subject: Seq<char>,
    stream: JsonV,
    link: Seq<char>,
    id: Seq<char>,
    open_with: bool,
)
    requires
        m.ui.active_provider != ProviderKind::FourKHdHub,
        m.ui.active_screen == Screen::Details,
        m.selected_details == Some(details),
        details.get("id"@) == Some(JsonV::Text(subject)),
        m.stream_marked() == Some(stream),
        stream.get("resourceLink"@) == Some(JsonV::Text(link)),
    ensures
        stream.get("resourceId"@) == Some(JsonV::Text(id)) ==> m.stream_played(
            open_with,
        ).effects.last() == (EffectV::FetchCaptions {
            subject_id: subject,
            resource_id: id,
            link,
            open_with,
        }),
        stream.get("resourceId"@) is None && open_with ==> m.stream_played(open_with).effects.last()
            == EffectV::Send(ActionOf::ShowPlayerPicker(link, None)),
        stream.get("resourceId"@) is None && !open_with ==> m.stream_played(open_with).effects.last()
            == EffectV::Send(ActionOf::LaunchMpv(link, None)),
{
}

/// A release of 4KHDHub is read before it is played, and what is none is not played.
pub proof fn law_release_is_played(m: AppV, stream: JsonV, release: JsonV, open_with: bool)
    requires
        m.ui.active_provider == ProviderKind::FourKHdHub,
        m.stream_marked() == Some(stream),
        stream.get("_fourk_release"@) == Some(release),
    ensures
        m.stream_played(open_with) == m.ask(EffectOf::ReadReleaseToPlay(release, open_with)),
        m.read_release_played(release, false, open_with) == m,
        m.read_release_played(release, true, open_with).effects.last() == EffectV::PlayRelease(
            release,
            open_with,
            m.lookup(false),
        ),
        m.stream_downloaded(None) == m.ask(EffectOf::ReadReleaseToDownload(release, None)),
        m.read_release_downloaded(release, false, None) == m.ask(
            EffectOf::Send(ActionOf::StartDownload(None, None)),
        ),
{
}

/// A release that was resolved is played with its subtitle, by a player of choice or by mpv; the error
/// of one that was not is told.
pub proof fn law_after_resolving(
    resolved: Result<PlaybackSource, String>,
    subtitle: Option<Seq<char>>,
    open_with: bool,
)
    ensures
        resolved is Ok && open_with ==> (release_result(resolved, subtitle, open_with) matches
            ActionOf::ShowPlaybackPicker(s) && s.url == resolved->Ok_0@.url && s.headers
            == resolved->Ok_0@.headers && s.subtitle == subtitle),
        resolved is Ok && !open_with ==> (release_result(resolved, subtitle, open_with) matches
            ActionOf::LaunchPlayback(k, s) && k == PlayerKind::Mpv && s.url == resolved->Ok_0@.url
            && s.headers == resolved->Ok_0@.headers && s.subtitle == subtitle),
        resolved is Err ==> release_result(resolved, subtitle, open_with) == ActionV::SetStatus(
            "Error: 4KHDHub source failed: "@ + resolved->Err_0@,
        ),
{
}

/// The names of the players, and the title under which subtitles are chosen.
pub proof fn law_names_of_players(n: u32)
    ensures
        player_name(PlayerKind::Mpv) == "MPV"@,
        player_name(PlayerKind::Iina) == "IINA"@,
        player_name(PlayerKind::Vlc) == "VLC"@,
        picker_title(None) =~= "Select subtitle"@,
        picker_title(Some(n)) == "Select subtitle"@ + (" (OpenSubtitles: "@ + decimal(n as nat)
            + " downloads left today)"@),
{
}

/// A search that has failed is told, and what waits for it goes on without subtitles.
pub proof fn law_failed_search(m: AppV, is_download: bool, error: Seq<char>)
    ensures
        ({
            let n = m.subtitles_missed(is_download, "SubDL: "@, error);
            &&& n.subtitle_search_error == Some(error)
            &&& n.effects.last() == EffectV::Notify(
                NotificationKind::Warning,
                "Subtitles unavailable"@,
                "SubDL: "@ + error,
            )
            &&& m.ui.os_waiting && is_download ==> n.effects[m.effects.len() as int]
                == EffectV::Send(ActionOf::DownloadStream(None))
            &&& m.ui.os_waiting ==> !n.ui.os_waiting
        }),
{
    reveal(AppV::subtitles_missed);
    reveal(AppV::wait_resumed);
    reveal(AppV::resumed_bare);
    reveal(AppV::hinted);
    reveal(AppV::noticed);
}

/// A subtitle of SubDL that is chosen is fetched by the identifier and in the language of its marker.
pub proof fn law_chosen_subdl_subtitle(m: AppV, link: Seq<char>, id: Seq<char>, lang: Seq<char>)
    requires
        m.active_subject_id is Some,
        id.len() > 0,
        forall|i: int| 0 <= i < id.len() ==> (#[trigger] id[i]) != ':',
    ensures
        m.played_with_choice(link, "subdl:"@ + id + ":"@ + lang) == m.ask(
            EffectOf::ResolveSubdl {
                provider: m.ui.active_provider,
                subject_id: m.active_subject_id->0,
                season: m.ui.selected_season,
                episode: m.ui.selected_episode,
                subtitle_id: Some(id),
                lang,
                next: ThenOf::Play { link, open_with: m.ui.pending_open_with },
            },
        ),
        m.downloaded_with_choice("subdl:"@ + id + ":"@ + lang) == m.ask(
            EffectOf::ResolveSubdl {
                provider: m.ui.active_provider,
                subject_id: m.active_subject_id->0,
                season: m.ui.selected_season,
                episode: m.ui.selected_episode,
                subtitle_id: Some(id),
                lang,
                next: ThenOf::Download,
            },
        ),
{
    reveal(AppV::played_with_choice);
    reveal(AppV::downloaded_with_choice);
    reveal_strlit("os:");
    reveal_strlit("subdl:");
    law_subdl_marker_read_back(id, lang);
    let url = "subdl:"@ + id + ":"@ + lang;
    assert(url.subrange(0, 6) =~= "subdl:"@);
    assert(begins(url, "subdl:"@));
    if begins(url, "os:"@) {
        assert(url.subrange(0, 3)[0] == 'o');
    }
}

/// A marker that cannot be read is fetched without a number, in Indonesian.
pub proof fn law_unread_markers(m: AppV, marker: Seq<char>, next: ThenV)
    ensures
        os_marker(marker) is None ==> (m.subtitle_resolved(marker, next).effects.last() matches
            EffectOf::ResolveSubtitle { file_id, lang, .. } && file_id is None && lang == "id"@),
        subdl_parts(marker) is None ==> (m.subdl_resolved(marker, next).effects.last() matches
            EffectOf::ResolveSubdl { subtitle_id, lang, .. } && subtitle_id is None && lang == "id"@),
{
}

/// Files are hinted at once, or probed for subtitles where that is wanted.
pub proof fn law_probing(m: AppV, url: Seq<char>, headers: Seq<(Seq<char>, Seq<char>)>)
    ensures
        m.ui.probe_enabled ==> m.hinted(url, headers) == m.ask(
            EffectOf::ProbeStream((PlaybackSourceV { url, headers, subtitle: None })),
        ),
        !m.ui.probe_enabled && !may_embed(url) ==> m.hinted(url, headers) == m,
        !m.ui.probe_enabled && may_embed(url) ==> (m.hinted(url, headers).effects.last() matches
            EffectOf::Notify(..)),
{
    reveal(AppV::hinted);
    reveal(AppV::noticed);
    reveal_strlit(
        "This stream is an MKV/MP4 and may contain embedded subtitles. If the player doesn't show one, press 'j' (mpv) to cycle tracks.",
    );
}

/// Subtitles that are offered for a download leave no stream waiting to be played.
pub proof fn law_download_plays_nothing(m: AppV, found: Seq<(Seq<char>, Seq<char>)>)
    ensures
        m.os_offered(found, true).pending_play_link is None,
        m.os_offered(found, false).pending_play_link == m.pending_play_link,
        m.os_offered(found, true).os_subtitles == found,
        m.os_offered(found, true).ui.subtitle_selected == Some(0usize),
{
    reveal(AppV::os_offered);
}

/// Found subtitles join an open popup of a download, and no popup that is not open.
pub proof fn law_found_for_download(m: AppV, found: Seq<(Seq<char>, Seq<char>)>)
    ensures
        m.ui.is_download_subtitle_popup ==> m.os_added(found, true).subtitle_list == with_names(
            m.subtitle_list,
            found,
        ),
        !m.ui.is_download_subtitle_popup ==> m.os_added(found, true) == m,
        !m.ui.subtitle_popup ==> m.os_added(found, false) == m,
{
    reveal(AppV::os_added);
}

/// A source with a subtitle is not hinted at; one without is.
pub proof fn law_hints_for_sources(m: AppV, source: PlaybackSourceV)
    ensures
        source.subtitle is Some ==> m.source_hinted(source) == m,
        source.subtitle is None ==> m.source_hinted(source) == m.hinted(source.url, source.headers),
{
    reveal(AppV::source_hinted);
}

/// Subtitles are searched for with the year of the title, and with the number at IMDb.
pub proof fn law_year_is_searched_for(m: AppV, details: JsonV)
    requires
        m.selected_details == Some(details),
        m.subtitle_context() is Some,
    ensures
        m.subtitle_context()->0.year == year_of(details),
        m.subtitle_context()->0.imdb_id == imdb_id_of(details),
        m.active_subject_id is None ==> m.subtitle_context()->0.subject_id.len() == 0,
{
}

} // verus!
