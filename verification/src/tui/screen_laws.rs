//! What holds of the start, of what is shown, and of where actions lead.
use vstd::prelude::*;
use crate::json::{Json, JsonV};
use crate::numbers::{decimal, decimal2};
use crate::outside::flat;
use crate::providers::models::ProviderKind;
use crate::strings::{before, begins, join, text_opt};
use crate::tui::embedded::{
    FfprobeStreamV, ProbeTrackV, header_lines, is_container, languages, notice, probe_args,
    subtitle_tracks,
};
use crate::tui::details::unprefixed;
use crate::tui::handle::redraws;
use crate::tui::startup::{PictureSupport, first_app, rows_for, settings_in, update_text};
use crate::tui::state::{
    ActionOf, AppV, EffectOf, EffectV, Key, NotificationKind, Progress, Screen, TvCatalogV,
};
use crate::tui::text::{
    all_but_last, cut_end, cut_middle, fitting, fitting_back, showable, total_width,
};

verus! {

// ---------------------------------------------------------------------------
// The start
// ---------------------------------------------------------------------------

/// Settings are as they were saved, and where nothing was saved updates are looked for and MovieBox is
/// asked.
pub proof fn law_settings(config: JsonV, b: bool, n: u64, s: Seq<char>)
    ensures
        config.get("auto_update"@) == Some(JsonV::Bool(b)) ==> settings_in(Some(config)).auto_update
            == b,
        config.get("auto_update"@) is None ==> settings_in(Some(config)).auto_update,
        config.get("last_update_check"@) == Some(JsonV::Unsigned(n)) ==> settings_in(
            Some(config),
        ).last_update_check == n,
        config.get("last_update_check"@) is None ==> settings_in(Some(config)).last_update_check
            == 0,
        config.get("active_provider"@) == Some(JsonV::Text("4khdhub"@)) ==> settings_in(
            Some(config),
        ).active_provider == ProviderKind::FourKHdHub,
        config.get("active_provider"@) == Some(JsonV::Text(s)) && s != "4khdhub"@ ==> settings_in(
            Some(config),
        ).active_provider == ProviderKind::MovieBox,
        config.get("active_provider"@) is None ==> settings_in(Some(config)).active_provider
            == ProviderKind::MovieBox,
{
}

/// An application starts empty, on its first screen, with the settings that were saved.
pub proof fn law_starts_empty(config: Option<JsonV>, catalog: TvCatalogV)
    ensures
        ({
            let m = first_app(config, catalog);
            &&& m.ui.active_screen == Screen::Startup
            &&& m.ui.active_provider == settings_in(config).active_provider
            &&& m.ui.auto_update == settings_in(config).auto_update
            &&& m.ui.last_update_check == settings_in(config).last_update_check
            &&& m.ui.current_page == 1
            &&& m.tv_catalog == catalog
            &&& m.effects.len() == 0
            &&& m.search_results.len() == 0 && m.search_query.len() == 0
            &&& m.download_queue.len() == 0 && m.ui.download_progress is None
        }),
{
}

/// A newer version is looked for where that is wanted and the last look is more than an hour ago;
/// else the results are shown at once.
pub proof fn law_updates_are_looked_for(m: AppV, now: u64)
    requires
        m.ui.active_provider != ProviderKind::MovieBox,
    ensures
        m.ui.auto_update && now > m.ui.last_update_check + 3600 ==> {
            let n = m.started(now);
            &&& n.ui.last_update_check == now
            &&& n.ui.active_screen == m.ui.active_screen
            &&& n.effects == m.effects.push(EffectOf::PersistConfig).push(
                EffectOf::Send(ActionOf::CheckForUpdates),
            )
        },
        !m.ui.auto_update || now <= m.ui.last_update_check + 3600 ==> m.started(now).ui.active_screen
            == Screen::Home && m.started(now).effects == m.effects,
{
    reveal(AppV::client_opened);
}

/// MovieBox is prepared for at the start where it is the one that is asked.
pub proof fn law_moviebox_is_prepared(m: AppV)
    ensures
        m.ui.active_provider == ProviderKind::MovieBox ==> m.client_opened() == m.ask(
            EffectOf::InitClient,
        ),
        m.ui.active_provider != ProviderKind::MovieBox ==> m.client_opened() == m,
{
    reveal(AppV::client_opened);
}

/// A newer version is told of; that there is none, or that it is not known, only where it was asked
/// for.
pub proof fn law_updates_are_told(m: AppV, version: Seq<char>)
    ensures
        ({
            let n = m.update_came("none"@);
            &&& m.ui.manual_update_check ==> n.effects.last() == EffectV::Notify(
                NotificationKind::Success,
                "Up to date"@,
                "You are using the latest version."@,
            )
            &&& !m.ui.manual_update_check ==> n.effects == m.effects
            &&& n.update_available == m.update_available
        }),
        ({
            let n = m.update_came("error:"@ + version);
            &&& m.ui.manual_update_check && !begins(version, "error:"@) ==> n.effects.last()
                == EffectV::Notify(
                NotificationKind::Error,
                "Update check failed"@,
                version,
            )
            &&& !m.ui.manual_update_check ==> n.effects == m.effects
            &&& n.update_available == m.update_available
        }),
        version.len() > 0 && '0' <= version[0] <= '9' ==> m.update_came(version).update_available
            == Some(version),
        m.ui.active_screen == Screen::Startup ==> m.update_came(version).ui.active_screen
            == Screen::Home,
        m.ui.active_screen != Screen::Startup ==> m.update_came(version).ui.active_screen
            == m.ui.active_screen,
{
    reveal_strlit("none");
    reveal_strlit("error:");
    let e = "error:"@ + version;
    assert(e.subrange(0, 6) =~= "error:"@);
    assert(e.skip(6) =~= version);
    assert(begins(e, "error:"@));
    if !begins(version, "error:"@) {
        assert(unprefixed(e, "error:"@) == version) by {
            reveal_with_fuel(unprefixed, 2);
        }
    }
    assert(e[0] == 'e');
    assert("none"@[0] == 'n');
    if version.len() > 0 && '0' <= version[0] <= '9' {
        if begins(version, "error:"@) {
            assert(version.subrange(0, 6)[0] == version[0]);
        }
    }
}

/// What a look for updates has found, as it is handed on.
pub proof fn law_update_texts(v: Seq<char>)
    ensures
        update_text(Ok(Some(v))) == v,
        update_text(Ok(None)) == "none"@,
        update_text(Err(v)) == "error:"@ + v,
{
}

/// A poster has as many rows as 96 points take in cells of a height, and three at least.
pub proof fn law_rows_of_poster(cell: u16)
    requires
        cell > 0,
    ensures
        rows_for(cell) >= 3,
        rows_for(cell) * cell >= 96,
        rows_for(cell) > 3 ==> (rows_for(cell) - 1) * cell < 96,
{
    let c = cell as int;
    let r = (96 + c - 1) / c;
    assert(r * c >= 96 && (r - 1) * c < 96) by (nonlinear_arith)
        requires
            c > 0,
            r == (96 + c - 1) / c,
    ;
    assert(r < 3 ==> 3 * c >= 96) by (nonlinear_arith)
        requires
            c > 0,
            r * c >= 96,
    ;
}

/// A terminal is asked for pictures once; one that has only half blocks shows none.
pub proof fn law_pictures(m: AppV, cell: u16)
    ensures
        m.ui.image_picker || !m.ui.image_supported ==> m.pictures_probed(PictureSupport::Sixel(cell))
            == m,
        !m.ui.image_picker && m.ui.image_supported ==> {
            let s = m.pictures_probed(PictureSupport::Sixel(cell));
            let o = m.pictures_probed(PictureSupport::Other(cell));
            let h = m.pictures_probed(PictureSupport::HalfBlocks);
            &&& s.ui.image_picker && s.ui.sixel
            &&& o.ui.image_picker && !o.ui.sixel
            &&& !h.ui.image_supported && !h.ui.image_picker
        },
{
}

// ---------------------------------------------------------------------------
// What is shown
// ---------------------------------------------------------------------------

/// A gauge tells the state of a download, and for one of a season which episode it is and how many of
/// how many have come.
pub proof fn law_gauge(m: AppV, status: Seq<char>)
    requires
        m.download_status == Some(status),
        m.download_queue.len() <= m.ui.download_queue_total,
    ensures
        m.ui.download_queue_total == 0 ==> m.gauge_title() == " Download: "@ + status
            + " [X] Cancel "@,
        m.ui.download_queue_total > 0 ==> m.gauge_title() == " Download: S"@ + decimal2(
            m.ui.selected_season as nat,
        ) + "E"@ + decimal2(m.ui.selected_episode as nat) + " ("@ + decimal(
            (m.ui.download_queue_total - m.download_queue.len()) as nat,
        ) + "/"@ + decimal(m.ui.download_queue_total as nat) + ") | "@ + status
            + " [X] Cancel "@,
{
}

/// The characters that a terminal acts on are left out, all others are kept in order.
pub proof fn law_shown_characters(s: Seq<char>, c: char)
    ensures
        c == '\u{1b}' || c == '\u{7}' || '\u{80}' <= c <= '\u{9f}' || (c <= '\u{1f}' && c != '\t' && c
            != '\n' && c != '\r') ==> showable(s.push(c)) == showable(s),
        ' ' <= c <= '~' || c >= '\u{a0}' || c == '\t' || c == '\n' || c == '\r' ==> showable(
            s.push(c),
        ) == showable(s).push(c),
        showable(Seq::empty()).len() == 0,
{
    assert(s.push(c).drop_last() =~= s);
}

/// A text that fits is not cut; one that does not keeps a beginning and three dots, and has no more
/// columns than asked for.
pub proof fn law_cut_at_end(
    value: Seq<char>,
    total: usize,
    parts: Seq<Seq<char>>,
    widths: Seq<usize>,
    max: usize,
)
    requires
        parts.len() == widths.len(),
    ensures
        total <= max ==> cut_end(value, total, parts, widths, max) == value,
        total > max && max <= 3 ==> cut_end(value, total, parts, widths, max).len() == max
            && forall|i: int|
            0 <= i < max ==> #[trigger] cut_end(value, total, parts, widths, max)[i] == '.',
        total > max > 3 ==> exists|n: int|
            0 <= n <= parts.len() && total_width(widths.take(n)) + 3 <= max && #[trigger] flat(
                parts.take(n),
            ) + "..."@ == cut_end(value, total, parts, widths, max) && (n < parts.len()
                ==> total_width(widths.take(n + 1)) + 3 > max),
{
    if total > max && max > 3 {
        let n = fitting(widths, max - 3);
        crate::tui::text::lemma_fitting(widths, max - 3);
        crate::tui::text::law_fitting_is_longest(widths, max - 3);
        assert(flat(parts.take(n)) + "..."@ == cut_end(value, total, parts, widths, max));
    }
}

/// A text that is cut in its middle keeps a beginning of half the columns at most, and an end of the
/// rest but for the sign between them.
pub proof fn law_cut_in_middle(
    value: Seq<char>,
    total: usize,
    parts: Seq<Seq<char>>,
    widths: Seq<usize>,
    max: usize,
)
    requires
        parts.len() == widths.len(),
    ensures
        total <= max ==> cut_middle(value, total, parts, widths, max) == value,
        total > max && max <= 3 ==> cut_middle(value, total, parts, widths, max).len() == max,
        total > max > 3 ==> exists|n: int, k: int|
            0 <= n <= parts.len() && 0 <= k <= parts.len() && total_width(widths.take(n)) <= max / 2
                && total_width(widths.skip(k)) <= max - 1 - max / 2 && (#[trigger] flat(
                parts.take(n),
            )) + "\u{2026}"@ + (#[trigger] flat(parts.skip(k))) == cut_middle(
                value,
                total,
                parts,
                widths,
                max,
            ) && (n < parts.len() ==> total_width(widths.take(n + 1)) > max / 2) && (k > 0
                ==> total_width(widths.skip(k - 1)) > max - 1 - max / 2),
{
    if total > max && max > 3 {
        let front = (max / 2) as int;
        let back = max - 1 - front;
        let n = fitting(widths, front);
        let f = fitting_back(widths, back);
        crate::tui::text::lemma_fitting(widths, front);
        crate::tui::text::law_fitting_is_longest(widths, front);
        lemma_fitting_back_is_longest(widths, back);
        let k = parts.len() - f;
        assert(flat(parts.take(n)) + "\u{2026}"@ + flat(parts.skip(k)) == cut_middle(
            value,
            total,
            parts,
            widths,
            max,
        ));
    }
}

/// The sum of widths and one more.
proof fn lemma_total_push(w: Seq<usize>, x: usize)
    ensures
        total_width(w.push(x)) == total_width(w) + x,
    decreases w.len(),
{
    if w.len() == 0 {
        assert(w.push(x).skip(1) =~= w);
        assert(w.push(x)[0] == x);
    } else {
        assert(w.push(x).skip(1) =~= w.skip(1).push(x));
        lemma_total_push(w.skip(1), x);
    }
}

/// What fits from the end takes no more columns than there are, and one more would take more.
proof fn lemma_fitting_back_is_longest(w: Seq<usize>, max: int)
    requires
        0 <= max,
    ensures
        0 <= fitting_back(w, max) <= w.len(),
        total_width(w.skip(w.len() - fitting_back(w, max))) <= max,
        fitting_back(w, max) < w.len() ==> total_width(w.skip(w.len() - fitting_back(w, max) - 1))
            > max,
    decreases w.len(),
{
    let n = fitting_back(w, max);
    if w.len() == 0 {
        assert(w.skip(0) =~= Seq::empty());
    } else if w.last() > max {
        assert(w.skip(w.len() as int) =~= Seq::empty());
        assert(w.skip(w.len() - 1) =~= Seq::<usize>::empty().push(w.last()));
        lemma_total_push(Seq::empty(), w.last());
    } else {
        let t = w.drop_last();
        lemma_fitting_back_is_longest(t, max - w.last());
        assert(w.skip(w.len() - n) =~= t.skip(t.len() - (n - 1)).push(w.last()));
        lemma_total_push(t.skip(t.len() - (n - 1)), w.last());
        if n < w.len() {
            assert(w.skip(w.len() - n - 1) =~= t.skip(t.len() - (n - 1) - 1).push(w.last()));
            lemma_total_push(t.skip(t.len() - (n - 1) - 1), w.last());
        }
    }
}

/// With its last cluster taken off, a text is what its other clusters make.
pub proof fn law_last_cluster(v: Seq<Seq<char>>, c: Seq<char>)
    ensures
        all_but_last(v.push(c)) == flat(v),
        flat(v.push(c)) == flat(v) + c,
        flat(Seq::empty()).len() == 0,
        all_but_last(Seq::empty()).len() == 0,
{
    assert(v.push(c).drop_last() =~= v);
}

// ---------------------------------------------------------------------------
// Subtitles inside a file
// ---------------------------------------------------------------------------

/// The containers that can hold subtitles.
pub proof fn law_containers(ext: Seq<char>)
    ensures
        is_container("mkv"@) && is_container("mk3d"@) && is_container("mka"@) && is_container("webm"@),
        is_container("mp4"@) && is_container("m4v"@) && is_container("mov"@) && is_container("ts"@),
        is_container("m2ts"@) && is_container("mts"@) && is_container("avi"@) && is_container("flv"@),
        !is_container("m3u8"@),
        ext.len() < 2 || ext.len() > 4 ==> !is_container(ext),
{
    reveal_strlit("mkv");
    reveal_strlit("mk3d");
    reveal_strlit("mka");
    reveal_strlit("webm");
    reveal_strlit("mp4");
    reveal_strlit("m4v");
    reveal_strlit("mov");
    reveal_strlit("ts");
    reveal_strlit("m2ts");
    reveal_strlit("mts");
    reveal_strlit("avi");
    reveal_strlit("flv");
    reveal_strlit("m3u8");
    assert("m3u8"@[1] == '3');
    assert("mk3d"@[1] == 'k');
    assert("webm"@[0] == 'w');
    assert("m2ts"@[1] == '2');
}

/// Every subtitle track of a file is reported, with its number, language and codec, and no track of
/// another kind.
pub proof fn law_tracks_are_reported(v: Seq<FfprobeStreamV>, s: FfprobeStreamV)
    ensures
        s.codec_type is None || s.codec_type == Some("subtitle"@) ==> subtitle_tracks(v.push(s))
            == subtitle_tracks(v).push(
            (ProbeTrackV { index: s.index, language: s.language, codec: s.codec_name }),
        ),
        s.codec_type is Some && s.codec_type->0 != "subtitle"@ ==> subtitle_tracks(v.push(s))
            == subtitle_tracks(v),
        subtitle_tracks(Seq::empty()).len() == 0,
{
    assert(v.push(s).drop_last() =~= v);
}

/// Each language is named once, in the order of the tracks.
pub proof fn law_languages_once(v: Seq<ProbeTrackV>, t: ProbeTrackV, l: Seq<char>)
    ensures
        t.language == Some(l) && l.len() > 0 && !languages(v).contains(l) ==> languages(v.push(t))
            == languages(v).push(l),
        t.language == Some(l) && languages(v).contains(l) ==> languages(v.push(t)) == languages(v),
        t.language is None ==> languages(v.push(t)) == languages(v),
        languages(Seq::empty()).len() == 0,
{
    assert(v.push(t).drop_last() =~= v);
}

/// Tracks that were found are told with their number and languages; where none were, only that there
/// may be some.
pub proof fn law_notices(likely: bool, v: Seq<ProbeTrackV>)
    ensures
        v.len() > 0 && languages(v).len() > 0 ==> notice(likely, Some(v)) == "Found "@ + decimal(
            v.len(),
        ) + " embedded subtitle track(s)"@ + (" (e.g. "@ + join(languages(v), ", "@) + ")"@)
            + ". If the player doesn't show one, press 'j' (mpv) to cycle tracks."@,
        notice(false, None).len() == 0,
        notice(true, None).len() > 0,
        v.len() == 0 ==> notice(likely, Some(v)) == notice(likely, None),
{
    reveal_strlit(
        "This stream is an MKV/MP4 and may contain embedded subtitles. If the player doesn't show one, press 'j' (mpv) to cycle tracks.",
    );
}

/// Headers are handed to the probe one to a line, and the address comes last.
pub proof fn law_probe_arguments(
    url: Seq<char>,
    v: Seq<(Seq<char>, Seq<char>)>,
    name: Seq<char>,
    value: Seq<char>,
)
    ensures
        header_lines(v.push((name, value))) == header_lines(v) + name + ": "@ + value + "\r\n"@,
        header_lines(Seq::empty()).len() == 0,
        probe_args(url, v).last() == url,
        v.len() == 0 ==> probe_args(url, v).len() == 9,
        v.len() > 0 ==> probe_args(url, v).len() == 11 && probe_args(url, v)[8] == "-headers"@
            && probe_args(url, v)[9] == header_lines(v),
        probe_args(url, v)[6] == "-select_streams"@,
        probe_args(url, v)[7] == "s"@,
{
    assert(v.push((name, value)).drop_last() =~= v);
}

// ---------------------------------------------------------------------------
// Where actions lead
// ---------------------------------------------------------------------------

/// Help is switched by its action.
pub proof fn law_help_key_leads(m: AppV)
    ensures
        m.acted(ActionOf::ToggleHelp) == m.help_toggled(),
{
    reveal(AppV::command_step);
}

/// Television is switched by its action.
pub proof fn law_tv_key_leads(m: AppV)
    ensures
        m.acted(ActionOf::ToggleTvMode) == m.tv_toggled(),
{
    reveal(AppV::command_step);
}

/// To go back is what its action does.
pub proof fn law_back_leads(m: AppV)
    ensures
        m.acted(ActionOf::GoBack) == m.gone_back(),
{
    reveal(AppV::command_step);
}

/// A refresh is what its action does.
pub proof fn law_refresh_leads(m: AppV)
    ensures
        m.acted(ActionOf::Refresh) == m.refreshed(),
{
    reveal(AppV::command_step);
}

/// A language is selected by its number.
pub proof fn law_language_leads(m: AppV, i: usize)
    ensures
        m.acted(ActionOf::SelectLanguage(i)) == m.language_selected(i as int),
{
    reveal(AppV::command_step);
}

/// A provider is switched to by its action.
pub proof fn law_provider_leads(m: AppV, p: ProviderKind)
    ensures
        m.acted(ActionOf::SwitchProvider(p)) == m.provider_switched(p),
{
}

/// A key does what is said of keys.
pub proof fn law_key_leads(m: AppV, key: Key)
    ensures
        m.acted(ActionOf::Key(key)) == m.key_pressed(key),
{
}

/// To quit changes nothing in the state.
pub proof fn law_quit_leads(m: AppV)
    ensures
        m.acted(ActionOf::Quit) == m,
{
}

/// A move up marks what is above.
pub proof fn law_up_leads(m: AppV)
    ensures
        m.acted(ActionOf::MoveUp) == m.moved_up(),
{
    reveal(AppV::move_step);
}

/// A move down marks what is below.
pub proof fn law_down_leads(m: AppV)
    ensures
        m.acted(ActionOf::MoveDown) == m.moved_down(),
{
    reveal(AppV::move_step);
}

/// A move to the left goes back by a screenful.
pub proof fn law_left_leads(m: AppV)
    ensures
        m.acted(ActionOf::MoveLeft) == m.moved_left(),
{
    reveal(AppV::move_step);
}

/// A move to the right goes on by a screenful.
pub proof fn law_right_leads(m: AppV)
    ensures
        m.acted(ActionOf::MoveRight) == m.moved_right(),
{
    reveal(AppV::move_step);
}

/// A tabulator goes to the next pane.
pub proof fn law_tab_leads(m: AppV)
    ensures
        m.acted(ActionOf::TabPane) == m.pane_cycled(true),
{
    reveal(AppV::move_step);
}

/// A tabulator backwards goes to the pane before.
pub proof fn law_back_tab_leads(m: AppV)
    ensures
        m.acted(ActionOf::BackTabPane) == m.pane_cycled(false),
{
    reveal(AppV::move_step);
}

/// An entry chooses what is marked.
pub proof fn law_submit_leads(m: AppV)
    ensures
        m.acted(ActionOf::Submit) == m.submitted(),
{
    reveal(AppV::move_step);
}

/// A suggestion that is chosen is searched for.
pub proof fn law_suggestion_leads(m: AppV, q: String)
    ensures
        m.acted(ActionOf::SelectSuggestion { query: q }) == m.ask(EffectOf::Send(ActionOf::Search { query: q@, force_refresh: false })),
{
    reveal(AppV::browse_step);
}

/// A search is for its query.
pub proof fn law_search_leads(m: AppV, q: String, force: bool)
    ensures
        m.acted(ActionOf::Search { query: q, force_refresh: force }) == m.searched(q@, force),
{
    reveal(AppV::browse_step);
}

/// A page is asked for of its tab.
pub proof fn law_page_leads(m: AppV, q: String, page: usize)
    ensures
        m.acted(ActionOf::FetchHomepage { tab_id: q, page }) == m.homepage_wanted(q@, page),
{
    reveal(AppV::browse_step);
}

/// Results are taken for their query.
pub proof fn law_results_lead(m: AppV, q: String, j: Json)
    ensures
        m.acted(ActionOf::SearchSuccess { context: m.context(), query: q, payload: j }) == m.results_came(m.context(), q@, j@),
{
    reveal(AppV::browse_step);
}

/// Titles are taken for their tab and page.
pub proof fn law_titles_lead(m: AppV, q: String, page: usize, j: Json)
    ensures
        m.acted(ActionOf::HomepageSuccess { tab_id: q, page, payload: j }) == m.homepage_came(q@, page, j@),
{
    reveal(AppV::browse_step);
}

/// Streams are wanted of an episode of a title.
pub proof fn law_streams_lead(m: AppV, id: String, season: usize, episode: usize, force: bool)
    ensures
        m.acted(ActionOf::FetchEpisodeStreams { subject_id: id, season, episode, force_refresh: force }) == m.streams_wanted(id@, season, episode, force),
{
    reveal(AppV::streams_step);
}

/// Streams that were kept are taken for their episode.
pub proof fn law_cache_leads(m: AppV, id: String, season: usize, episode: usize, j: Json)
    ensures
        m.acted(ActionOf::StreamCacheRead(id, season, episode, Some(j))) == m.cache_read(id@, season, episode, Some(j@)),
{
    reveal(AppV::streams_step);
}

/// Streams are taken for their request and their episode.
pub proof fn law_ready_streams_lead(m: AppV, r: u64, id: String, season: usize, episode: usize, j: Json)
    ensures
        m.acted(ActionOf::EpisodeStreamsReady(m.context(), r, id, season, episode, j)) == m.streams_came(m.context(), r, id@, season, episode, j@),
{
    reveal(AppV::streams_step);
}

/// The streams of a title are gathered.
pub proof fn law_pool_leads(m: AppV, id: String)
    ensures
        m.acted(ActionOf::InitStreamPool(id)) == m.pool_wanted(id@),
{
    reveal(AppV::streams_step);
}

/// Details are wanted of a title.
pub proof fn law_details_lead(m: AppV, id: String, force: bool)
    ensures
        m.acted(ActionOf::FetchDetails(id, force)) == m.details_wanted(id@, force),
{
    reveal(AppV::details_step);
}

/// A preview is wanted of a title.
pub proof fn law_preview_leads(m: AppV, id: String)
    ensures
        m.acted(ActionOf::FetchPreview(id)) == m.preview_wanted(id@),
{
    reveal(AppV::details_step);
}

/// A stream is played, with a player of choice or with the first.
pub proof fn law_play_leads(m: AppV, open_with: bool)
    ensures
        m.acted(ActionOf::PlayStream(open_with)) == m.stream_played(open_with),
{
    reveal(AppV::playback_step);
}

/// Captions are offered for their stream.
pub proof fn law_captions_lead(m: AppV, link: String, j: Json, open_with: bool)
    ensures
        m.acted(ActionOf::ShowSubtitlePopup(link, j, open_with)) == m.subtitle_popup_asked(link@, j@, open_with),
{
    reveal(AppV::playback_step);
}

/// A stream is played with the first player and its subtitle.
pub proof fn law_mpv_leads(m: AppV, link: String, subtitle: Option<String>)
    ensures
        m.acted(ActionOf::LaunchMpv(link, subtitle)) == m.first_player_started(link@, text_opt(subtitle)),
{
    reveal(AppV::playback_step);
}

/// A player is picked for a stream and its subtitle.
pub proof fn law_picker_leads(m: AppV, link: String, subtitle: Option<String>)
    ensures
        m.acted(ActionOf::ShowPlayerPicker(link, subtitle)) == m.player_picker_asked(link@, text_opt(subtitle)),
{
    reveal(AppV::playback_step);
}

/// A release that was read is played.
pub proof fn law_release_leads(m: AppV, j: Json, readable: bool, open_with: bool)
    ensures
        m.acted(ActionOf::PlayReadRelease(j, readable, open_with)) == m.read_release_played(j@, readable, open_with),
{
    reveal(AppV::playback_step);
}

/// Captions are offered for a download.
pub proof fn law_download_captions_lead(m: AppV, j: Json)
    ensures
        m.acted(ActionOf::ShowDownloadSubtitlePopup(j)) == m.download_popup_asked(j@),
{
    reveal(AppV::asking_step);
}

/// The marked stream is downloaded with its subtitle.
pub proof fn law_download_leads(m: AppV, subtitle: Option<String>)
    ensures
        m.acted(ActionOf::DownloadStream(subtitle)) == m.stream_downloaded(text_opt(subtitle)),
{
    reveal(AppV::asking_step);
}

/// A download starts with its address and its subtitle.
pub proof fn law_start_leads(m: AppV, subtitle: Option<String>, link: Option<String>)
    ensures
        m.acted(ActionOf::StartDownload(subtitle, link)) == m.download_started(text_opt(subtitle), text_opt(link)),
{
    reveal(AppV::asking_step);
}

/// Before an episode is downloaded it is asked about.
pub proof fn law_episode_question_leads(m: AppV)
    ensures
        m.acted(ActionOf::PromptDownloadEpisode) == m.episode_prompted(),
{
    reveal(AppV::asking_step);
}

/// An episode is downloaded once that is confirmed.
pub proof fn law_episode_answer_leads(m: AppV)
    ensures
        m.acted(ActionOf::ConfirmDownloadEpisode) == m.episode_confirmed(),
{
    reveal(AppV::asking_step);
}

/// Before a season is downloaded it is asked about.
pub proof fn law_season_question_leads(m: AppV)
    ensures
        m.acted(ActionOf::PromptDownloadSeason) == m.season_prompted(),
{
    reveal(AppV::asking_step);
}

/// A season is downloaded once that is confirmed.
pub proof fn law_season_answer_leads(m: AppV)
    ensures
        m.acted(ActionOf::ConfirmDownloadSeason) == m.season_confirmed(),
{
    reveal(AppV::asking_step);
}

/// The queue is gone on with by its action.
pub proof fn law_queue_leads(m: AppV)
    ensures
        m.acted(ActionOf::ProcessDownloadQueue) == m.queue_processed(),
{
    reveal(AppV::download_step);
}

/// What a download reports is what is shown of it.
pub proof fn law_progress_leads(m: AppV, p: Option<Progress>, status: Option<String>)
    ensures
        m.acted(ActionOf::UpdateDownload(p, status)) == m.download_updated(p, text_opt(status)),
{
    reveal(AppV::download_step);
}

/// A download that is complete is told with its file.
pub proof fn law_completed_leads(m: AppV, path: String)
    ensures
        m.acted(ActionOf::DownloadCompleted(path)) == m.download_completed(path@),
{
    reveal(AppV::download_step);
}

/// A download is taken off the screen by its action.
pub proof fn law_clear_leads(m: AppV)
    ensures
        m.acted(ActionOf::ClearDownload) == m.download_cleared(),
{
    reveal(AppV::download_step);
}

/// A download is cancelled by its action.
pub proof fn law_cancel_leads(m: AppV)
    ensures
        m.acted(ActionOf::CancelDownload) == m.download_cancelled(),
{
    reveal(AppV::download_step);
}

/// What a look for updates has found is told.
pub proof fn law_update_leads(m: AppV, v: String)
    ensures
        m.acted(ActionOf::UpdateAvailable(v)) == m.update_came(v@),
{
    reveal(AppV::download_step);
}

/// What a download shows is what was last reported of it, and cancelling stops the work first.
pub proof fn law_shown_of_download(m: AppV, p: Option<Progress>, status: Option<Seq<char>>)
    ensures
        m.download_updated(p, status).ui.download_progress == p,
        m.download_updated(p, status).download_status == status,
        m.download_updated(p, status).effects == m.effects,
        m.download_cancelled().effects[m.effects.len() as int] == EffectV::StopDownload,
{
}

/// Everything but a tick and the course of a download has the screen drawn anew.
pub proof fn law_what_redraws(notifying: bool, progress: Option<Progress>, status: Option<String>, key: Key)
    ensures
        !redraws(ActionOf::Tick(notifying)),
        !redraws(ActionOf::UpdateDownload(progress, status)),
        redraws(ActionOf::Key(key)),
        redraws(ActionOf::MoveUp),
        redraws(ActionOf::Resize),
{
}

/// Help is shown and hidden, and what was open is closed for it; television is switched on and off.
pub proof fn law_toggles(m: AppV)
    ensures
        m.ui.active_screen != Screen::Startup ==> m.help_toggled().ui.show_help == !m.ui.show_help,
        m.ui.active_screen == Screen::Startup ==> m.help_toggled() == m,
        m.ui.active_screen != Screen::Startup && !m.ui.show_help ==> {
            let n = m.help_toggled();
            &&& !n.ui.subtitle_popup && !n.ui.player_picker_popup && !n.ui.tv_config_popup
            &&& !n.ui.is_download_subtitle_popup && !n.ui.show_season_download_confirm
            &&& !n.ui.show_episode_download_confirm
        },
        m.tv_toggled().ui.is_tv_mode == !m.ui.is_tv_mode,
        m.tv_toggled().search_results.len() == 0,
        m.tv_toggled().search_query.len() == 0,
        !m.ui.is_tv_mode ==> m.tv_toggled().effects == m.effects.push(EffectOf::LoadTvConfig),
        m.ui.is_tv_mode ==> m.tv_toggled().effects == m.effects,
{
}

} // verus!
