//! What holds of the keys, and of what happens with every tick.
use vstd::prelude::*;
use crate::json::JsonV;
use crate::outside::{flat, graphemes, lowercase};
use crate::providers::iptv_org::m3u::ChannelV;
use crate::providers::models::ProviderKind;
use crate::strings::{CharClass, begins, has, lower_text, trim};
use crate::tui::app::{channel_names, first_ten, neighbour};
use crate::tui::keys::{
    code_of, groupings, names, option_toggled, playlist_url, playlist_urls, without_entry,
};
use crate::tui::pool::known_streams;
use crate::tui::state::{
    ActionOf, ActionV, AppV, DetailsPane, EffectOf, EffectV, InputMode, Key, KeyCode, Screen,
    TvCatalogV,
};

verus! {

// ---------------------------------------------------------------------------
// Keys on every screen
// ---------------------------------------------------------------------------

/// What a key sends, if it does nothing else.
pub open spec fn sends(m: AppV, key: Key, a: ActionV) -> bool {
    m.key_pressed(key) == m.ask(EffectOf::Send(a))
}

/// With control held down three keys do the same on every screen: they quit, switch television on or
/// off, and go to the other provider.
pub proof fn law_control_keys(m: AppV, key: Key)
    requires
        key.ctrl,
    ensures
        key.code == KeyCode::Char('c') ==> sends(m, key, ActionOf::Quit),
        key.code == KeyCode::Char('t') ==> sends(m, key, ActionOf::ToggleTvMode),
        key.code == KeyCode::Char('p') && m.ui.active_provider == ProviderKind::MovieBox
            ==> m.key_pressed(key) == m.provider_switched(ProviderKind::FourKHdHub),
        key.code == KeyCode::Char('p') && m.ui.active_provider == ProviderKind::FourKHdHub
            ==> m.key_pressed(key) == m.provider_switched(ProviderKind::MovieBox),
{
}

/// A download is cancelled with its key on every screen, while it runs; help is shown on every screen.
pub proof fn law_keys_everywhere(m: AppV, key: Key)
    requires
        !key.ctrl,
    ensures
        (key.code == KeyCode::Char('x') || key.code == KeyCode::Char('X'))
            && m.ui.download_progress is Some ==> sends(m, key, ActionOf::CancelDownload),
        key.code == KeyCode::F(1) ==> sends(m, key, ActionOf::ToggleHelp),
        m.ui.active_screen == Screen::Startup && m.ui.input_mode == InputMode::Normal && key.code
            != KeyCode::F(1) && m.ui.download_progress is None ==> m.key_pressed(key) == m,
{
    reveal(AppV::screen_key);
}

// ---------------------------------------------------------------------------
// Keys at home
// ---------------------------------------------------------------------------

/// The keys among the results.
pub proof fn law_keys_at_home(m: AppV, key: Key)
    requires
        m.ui.input_mode == InputMode::Normal,
        m.ui.active_screen == Screen::Home,
        !m.ui.tv_config_popup,
        !key.ctrl,
    ensures
        key.code == KeyCode::Esc ==> sends(m, key, ActionOf::GoBack),
        key.code == KeyCode::Up ==> sends(m, key, ActionOf::MoveUp),
        key.code == KeyCode::Down ==> sends(m, key, ActionOf::MoveDown),
        key.code == KeyCode::Left ==> sends(m, key, ActionOf::MoveLeft),
        key.code == KeyCode::Right ==> sends(m, key, ActionOf::MoveRight),
        key.code == KeyCode::Enter && m.search_results.len() > 0 ==> sends(m, key, ActionOf::Submit),
        key.code == KeyCode::Char('?') ==> sends(m, key, ActionOf::ToggleHelp),
        key.code == KeyCode::Char('q') ==> sends(m, key, ActionOf::Quit),
        key.code == KeyCode::Char('r') && key.other ==> sends(m, key, ActionOf::Refresh),
{
    reveal(AppV::screen_key);
    reveal(AppV::home_key);
}

/// A refresh with control held down.
pub proof fn law_refresh_key(m: AppV, key: Key)
    requires
        m.ui.input_mode == InputMode::Normal,
        m.ui.active_screen == Screen::Home,
        !m.ui.tv_config_popup,
        key.ctrl,
        key.code == KeyCode::Char('r'),
    ensures
        sends(m, key, ActionOf::Refresh),
{
    reveal(AppV::screen_key);
    reveal(AppV::home_key);
}

/// A letter that means nothing else among the results begins a query, behind what is there.
pub proof fn law_letters_begin_a_query(m: AppV, key: Key, c: char)
    requires
        m.ui.input_mode == InputMode::Normal,
        m.ui.active_screen == Screen::Home,
        !m.ui.tv_config_popup,
        !m.ui.is_tv_mode,
        m.ui.download_progress is None,
        !key.ctrl,
        !key.other,
        key.code == KeyCode::Char(c),
        c != '?',
        c != 'q',
    ensures
        ({
            let n = m.key_pressed(key);
            &&& n.search_query == m.search_query.push(c)
            &&& n.ui.input_mode == InputMode::Editing
            &&& n.ui.last_search_edit == m.ui.now
            &&& n.effects == m.effects
        }),
{
    reveal(AppV::screen_key);
    reveal(AppV::home_key);
}

/// A channel that is marked is opened with a player of choice.
pub proof fn law_channel_key(m: AppV, key: Key, i: usize)
    requires
        m.ui.input_mode == InputMode::Normal,
        m.ui.active_screen == Screen::Home,
        !m.ui.tv_config_popup,
        m.ui.is_tv_mode,
        !key.ctrl,
        key.code == KeyCode::Char('o') || key.code == KeyCode::Char('O'),
        m.ui.search_selected == Some(i),
        i < m.search_results.len(),
    ensures
        sends(m, key, ActionOf::ShowPlayerPicker(m.search_results[i as int].id, None)),
{
    reveal(AppV::screen_key);
    reveal(AppV::home_key);
}

// ---------------------------------------------------------------------------
// Keys in the search field
// ---------------------------------------------------------------------------

/// What is typed goes behind the query; the query that is entered is trimmed, and searched for as it
/// is or as the suggestion that it is.
pub proof fn law_keys_in_field(m: AppV, c: char)
    ensures
        ({
            let n = m.field_key(KeyCode::Char(c));
            &&& n.search_query == m.search_query.push(c)
            &&& n.ui.suggest_index is None
            &&& n.ui.last_search_edit == m.ui.now
            &&& n.effects == m.effects
        }),
        trim(m.search_query, CharClass::White).len() > 0 && m.ui.suggest_index is None
            ==> m.field_key(KeyCode::Enter).effects == m.effects.push(
            EffectOf::Send(
                ActionOf::Search {
                    query: trim(m.search_query, CharClass::White),
                    force_refresh: false,
                },
            ),
        ),
        trim(m.search_query, CharClass::White).len() > 0 && m.ui.suggest_index is Some
            ==> m.field_key(KeyCode::Enter).effects == m.effects.push(
            EffectOf::Send(
                ActionOf::SelectSuggestion { query: trim(m.search_query, CharClass::White) },
            ),
        ),
        trim(m.search_query, CharClass::White).len() == 0 ==> m.field_key(KeyCode::Enter) == m,
        m.field_key(KeyCode::Esc).ui.input_mode == InputMode::Normal,
        m.field_key(KeyCode::Esc).search_query == m.search_query,
{
    reveal(AppV::field_key);
}

/// The suggestions are gone through up and down, from the one end to the other, and the one that is
/// marked is the query.
pub proof fn law_suggestions_go_round(m: AppV, i: usize)
    requires
        m.ui.suggest_index == Some(i),
        i < m.search_suggestions.len() <= usize::MAX,
    ensures
        ({
            let n = m.field_key(KeyCode::Down);
            &&& i + 1 < m.search_suggestions.len() ==> n.ui.suggest_index == Some((i + 1) as usize)
                && n.search_query == m.search_suggestions[i + 1]
            &&& i + 1 == m.search_suggestions.len() ==> n.ui.suggest_index == Some(0usize)
                && n.search_query == m.search_suggestions[0]
        }),
        ({
            let n = m.field_key(KeyCode::Up);
            &&& i > 0 ==> n.ui.suggest_index == Some((i - 1) as usize) && n.search_query
                == m.search_suggestions[i - 1]
            &&& i == 0 ==> n.ui.suggest_index == Some((m.search_suggestions.len() - 1) as usize)
                && n.search_query == m.search_suggestions.last()
        }),
{
    reveal(AppV::field_key);
}

/// The first suggestion that is marked is the first from above and the last from below.
pub proof fn law_first_suggestion(m: AppV)
    requires
        m.ui.suggest_index is None,
        0 < m.search_suggestions.len() <= usize::MAX,
    ensures
        m.field_key(KeyCode::Down).search_query == m.search_suggestions[0],
        m.field_key(KeyCode::Up).search_query == m.search_suggestions.last(),
{
    reveal(AppV::field_key);
}

// ---------------------------------------------------------------------------
// Keys on the details
// ---------------------------------------------------------------------------

/// The keys on the details.
pub proof fn law_keys_on_details(m: AppV, key: Key)
    requires
        m.ui.input_mode == InputMode::Normal,
        m.ui.active_screen == Screen::Details,
        !m.ui.show_season_download_confirm,
        !m.ui.show_episode_download_confirm,
        !m.ui.subtitle_popup,
        !m.ui.player_picker_popup,
        !m.ui.is_download_subtitle_popup,
        !key.ctrl,
    ensures
        key.code == KeyCode::Tab ==> sends(m, key, ActionOf::TabPane),
        key.code == KeyCode::BackTab ==> sends(m, key, ActionOf::BackTabPane),
        key.code == KeyCode::Esc || key.code == KeyCode::Char('b') ==> sends(
            m,
            key,
            ActionOf::GoBack,
        ),
        key.code == KeyCode::Up ==> sends(m, key, ActionOf::MoveUp),
        key.code == KeyCode::Down ==> sends(m, key, ActionOf::MoveDown),
        key.code == KeyCode::Char('q') ==> sends(m, key, ActionOf::Quit),
        key.code == KeyCode::Char('r') ==> sends(m, key, ActionOf::Refresh),
        key.code == KeyCode::Char('?') ==> sends(m, key, ActionOf::ToggleHelp),
        m.ui.details_pane == DetailsPane::Streams && key.code == KeyCode::Enter ==> sends(
            m,
            key,
            ActionOf::PlayStream(key.shift),
        ),
        m.ui.details_pane == DetailsPane::Streams && (key.code == KeyCode::Char('o') || key.code
            == KeyCode::Char('O')) ==> sends(m, key, ActionOf::PlayStream(true)),
        m.ui.details_pane == DetailsPane::Languages && m.ui.language_selected is Some && key.code
            == KeyCode::Enter ==> sends(
            m,
            key,
            ActionOf::SelectLanguage(m.ui.language_selected->0),
        ),
        (m.ui.details_pane == DetailsPane::Seasons || m.ui.details_pane == DetailsPane::Episodes)
            && key.code == KeyCode::Enter ==> m.key_pressed(key) == m.episode_triggered(),
        m.ui.details_pane != DetailsPane::Seasons && (key.code == KeyCode::Char('d') || key.code
            == KeyCode::Char('D')) ==> sends(m, key, ActionOf::PromptDownloadEpisode),
        m.ui.details_pane == DetailsPane::Seasons && m.available_seasons.len() > 0 && (key.code
            == KeyCode::Char('d') || key.code == KeyCode::Char('D')) ==> sends(
            m,
            key,
            ActionOf::PromptDownloadSeason,
        ),
{
    reveal(AppV::screen_key);
    reveal(AppV::details_key);
    reveal(AppV::details_char);
    reveal(AppV::details_entered);
}

/// A popup on the details is answered with the entry key, and is in the way of playing and
/// downloading.
pub proof fn law_keys_under_popups(m: AppV, key: Key)
    requires
        m.ui.input_mode == InputMode::Normal,
        m.ui.active_screen == Screen::Details,
        !m.ui.show_season_download_confirm,
        !m.ui.show_episode_download_confirm,
        m.ui.subtitle_popup || m.ui.player_picker_popup,
        !key.ctrl,
    ensures
        key.code == KeyCode::Enter ==> sends(m, key, ActionOf::Submit),
        key.code == KeyCode::Char('o') || key.code == KeyCode::Char('d') ==> m.key_pressed(key) == m,
{
    reveal(AppV::screen_key);
    reveal(AppV::details_key);
    reveal(AppV::details_char);
    reveal(AppV::details_entered);
}

/// A question about a download is answered with yes or no, by letter or by the marked answer.
pub proof fn law_keys_to_confirm(m: AppV, key: Key)
    requires
        m.ui.input_mode == InputMode::Normal,
        m.ui.active_screen == Screen::Details,
        m.ui.show_season_download_confirm != m.ui.show_episode_download_confirm,
        !key.ctrl,
    ensures
        ({
            let yes = if m.ui.show_season_download_confirm {
                ActionV::ConfirmDownloadSeason
            } else {
                ActionV::ConfirmDownloadEpisode
            };
            let marked = if m.ui.show_season_download_confirm {
                m.ui.season_download_confirm_yes_selected
            } else {
                m.ui.episode_download_confirm_yes_selected
            };
            let n = m.key_pressed(key);
            &&& key.code == KeyCode::Char('y') || key.code == KeyCode::Char('Y') ==> sends(
                m,
                key,
                yes,
            )
            &&& key.code == KeyCode::Enter && marked ==> sends(m, key, yes)
            &&& key.code == KeyCode::Char('n') || key.code == KeyCode::Char('N') || key.code
                == KeyCode::Esc || (key.code == KeyCode::Enter && !marked) ==> n.effects == m.effects
                && !n.ui.show_season_download_confirm && !n.ui.show_episode_download_confirm
            &&& key.code == KeyCode::Left && m.ui.show_season_download_confirm
                ==> n.ui.season_download_confirm_yes_selected
            &&& key.code == KeyCode::Right && m.ui.show_season_download_confirm
                ==> !n.ui.season_download_confirm_yes_selected
            &&& key.code == KeyCode::Left && m.ui.show_episode_download_confirm
                ==> n.ui.episode_download_confirm_yes_selected
            &&& key.code == KeyCode::Right && m.ui.show_episode_download_confirm
                ==> !n.ui.episode_download_confirm_yes_selected
        }),
{
    reveal(AppV::screen_key);
    reveal(AppV::details_key);
    reveal(AppV::details_char);
    reveal(AppV::details_entered);
    reveal(AppV::dismissed);
    reveal(AppV::answer_marked);
}

// ---------------------------------------------------------------------------
// The choice of channels
// ---------------------------------------------------------------------------

/// A grouping leads to what can be chosen by it.
pub proof fn law_groupings(m: AppV, i: usize)
    requires
        m.ui.tv_wizard_step == 0,
        m.ui.tv_wizard_selected_idx == i,
        i < m.tv_wizard_options.len(),
    ensures
        ({
            let n = m.wizard_key(KeyCode::Enter);
            let s = m.tv_wizard_options[i as int];
            &&& n.ui.tv_wizard_step == 1 && n.ui.tv_wizard_selected_idx == 0
            &&& s == "Grouped by category"@ ==> n.tv_wizard_options == m.tv_catalog.categories
            &&& s == "Grouped by language"@ ==> n.tv_wizard_options == names(m.tv_catalog.languages)
            &&& s == "Grouped by broadcast area"@ ==> n.tv_wizard_options == names(
                m.tv_catalog.countries,
            )
        }),
        groupings().len() == 3,
        groupings()[0] == "Grouped by category"@,
        groupings()[1] == "Grouped by language"@,
        groupings()[2] == "Grouped by broadcast area"@,
{
    reveal(AppV::wizard_key);
    reveal_strlit("Grouped by category");
    reveal_strlit("Grouped by language");
    reveal_strlit("Grouped by broadcast area");
    assert("Grouped by category"@[11] == 'c');
    assert("Grouped by language"@[11] == 'l');
    assert("Grouped by broadcast area"@[11] == 'b');
}

/// What can be chosen is shown by name, in order.
pub proof fn law_names_in_order(v: Seq<(Seq<char>, Seq<char>)>, i: int)
    requires
        0 <= i < v.len(),
    ensures
        names(v).len() == v.len(),
        names(v)[i] == v[i].0,
{
}

/// The options are gone through from the one end to the other.
pub proof fn law_options_go_round(m: AppV, i: usize)
    requires
        m.ui.tv_wizard_selected_idx == i,
        i < m.tv_wizard_options.len() <= usize::MAX,
    ensures
        i + 1 < m.tv_wizard_options.len() ==> m.wizard_key(KeyCode::Down).ui.tv_wizard_selected_idx
            == i + 1,
        i + 1 == m.tv_wizard_options.len() ==> m.wizard_key(KeyCode::Down).ui.tv_wizard_selected_idx
            == 0,
        i > 0 ==> m.wizard_key(KeyCode::Up).ui.tv_wizard_selected_idx == i - 1,
        i == 0 ==> m.wizard_key(KeyCode::Up).ui.tv_wizard_selected_idx
            == m.tv_wizard_options.len() - 1,
{
    reveal(AppV::wizard_key);
}

/// The space bar chooses the marked option, or takes it back; the entry key fetches what was chosen.
pub proof fn law_options_are_chosen(m: AppV, i: usize)
    requires
        m.ui.tv_wizard_step == 1,
        m.ui.tv_wizard_selected_idx == i,
        i < m.tv_wizard_options.len(),
    ensures
        m.wizard_key(KeyCode::Char(' ')).tv_wizard_selections == option_toggled(
            m.tv_wizard_selections,
            m.tv_wizard_options[i as int],
        ),
        m.wizard_key(KeyCode::Enter).effects == m.effects.push(
            EffectOf::FetchTvChannels(playlist_urls(m.tv_catalog, m.tv_wizard_selections)),
        ),
        m.wizard_key(KeyCode::Esc).ui.tv_wizard_step == 0,
{
    reveal(AppV::wizard_key);
}

/// An option that is chosen twice is as before it was chosen; others stay chosen.
pub proof fn law_toggled_twice(v: Seq<Seq<char>>, s: Seq<char>, t: Seq<char>)
    ensures
        !v.contains(s) ==> option_toggled(v, s) == v.push(s),
        !v.contains(s) ==> option_toggled(option_toggled(v, s), s) == v,
        v.contains(s) ==> !option_toggled(v, s).contains(s),
        t != s ==> option_toggled(v, s).contains(t) == v.contains(t),
{
    lemma_without_entry(v, s, t);
    if !v.contains(s) {
        let w = v.push(s);
        assert(w[w.len() - 1] == s);
        assert(w.contains(s));
        assert(w.drop_last() =~= v);
        lemma_absent_entry(v, s);
        if v.contains(t) {
            let i = choose|i: int| 0 <= i < v.len() && v[i] == t;
            assert(w[i] == t);
        }
    }
}

/// What is left of a list without an entry.
pub proof fn lemma_without_entry(v: Seq<Seq<char>>, s: Seq<char>, t: Seq<char>)
    ensures
        !without_entry(v, s).contains(s),
        t != s ==> without_entry(v, s).contains(t) == v.contains(t),
    decreases v.len(),
{
    if v.len() > 0 {
        let u = v.drop_last();
        lemma_without_entry(u, s, t);
        let w = without_entry(u, s);
        if t != s {
            if v.contains(t) {
                let i = choose|i: int| 0 <= i < v.len() && v[i] == t;
                if i < u.len() {
                    assert(u[i] == t);
                    let j = choose|j: int| 0 <= j < w.len() && w[j] == t;
                    assert(w.push(v.last())[j] == t);
                } else {
                    assert(w.push(v.last())[w.len() as int] == t);
                }
            }
            if u.contains(t) {
                let i = choose|i: int| 0 <= i < u.len() && u[i] == t;
                assert(v[i] == t);
            }
            assert(v[v.len() - 1] == v.last());
        }
    }
}

/// A list without an entry that it does not have.
pub proof fn lemma_absent_entry(v: Seq<Seq<char>>, s: Seq<char>)
    requires
        !v.contains(s),
    ensures
        without_entry(v, s) == v,
    decreases v.len(),
{
    if v.len() > 0 {
        let u = v.drop_last();
        assert(v[v.len() - 1] == v.last());
        if u.contains(s) {
            let i = choose|i: int| 0 <= i < u.len() && u[i] == s;
            assert(v[i] == s);
        }
        lemma_absent_entry(u, s);
        assert(u.push(v.last()) =~= v);
    }
}

/// A category, a language and a country each have their playlist; the last two by their codes.
pub proof fn law_playlists(c: TvCatalogV, s: Seq<char>, code: Seq<char>)
    ensures
        c.categories.contains(s) ==> playlist_url(c, s) == Some(
            "https://iptv-org.github.io/iptv/categories/"@ + lowercase(s) + ".m3u"@,
        ),
        !c.categories.contains(s) && code_of(c.languages, s) == Some(code) ==> playlist_url(c, s)
            == Some("https://iptv-org.github.io/iptv/languages/"@ + code + ".m3u"@),
        !c.categories.contains(s) && code_of(c.languages, s) is None && code_of(c.countries, s)
            == Some(code) ==> playlist_url(c, s) == Some(
            "https://iptv-org.github.io/iptv/countries/"@ + code + ".m3u"@,
        ),
{
}

/// A code is that of the first pair with the name; a name in no pair has none.
pub proof fn law_code_of_name(v: Seq<(Seq<char>, Seq<char>)>, name: Seq<char>, k: int)
    requires
        0 <= k <= v.len(),
        forall|i: int| 0 <= i < k ==> (#[trigger] v[i]).0 != name,
    ensures
        k < v.len() && v[k].0 == name ==> code_of(v, name) == Some(v[k].1),
        k == v.len() ==> code_of(v, name) is None,
    decreases k,
{
    if k > 0 {
        let t = v.skip(1);
        assert forall|i: int| 0 <= i < k - 1 implies (#[trigger] t[i]).0 != name by {
            assert(t[i] == v[i + 1]);
        }
        law_code_of_name(t, name, k - 1);
        assert(v[0].0 != name);
    }
}

/// Every option with a playlist adds it, in the order of choice.
pub proof fn law_playlists_in_order(c: TvCatalogV, v: Seq<Seq<char>>, s: Seq<char>)
    ensures
        playlist_url(c, s) is Some ==> playlist_urls(c, v.push(s)) == playlist_urls(c, v).push(
            playlist_url(c, s)->0,
        ),
        playlist_url(c, s) is None ==> playlist_urls(c, v.push(s)) == playlist_urls(c, v),
        playlist_urls(c, Seq::empty()).len() == 0,
{
    assert(v.push(s).drop_last() =~= v);
}

// ---------------------------------------------------------------------------
// Ticks
// ---------------------------------------------------------------------------

/// A query is suggested for once it has rested for 350 milliseconds, and once only.
pub proof fn law_suggestions_wait(m: AppV)
    ensures
        ({
            let query = trim(m.search_query, CharClass::White);
            let n = m.suggestions_ticked();
            &&& m.ui.now < m.ui.last_search_edit + 350 ==> n == m
            &&& query == m.last_suggest_query ==> n == m
            &&& m.ui.now >= m.ui.last_search_edit + 350 && query != m.last_suggest_query
                ==> n.last_suggest_query == query
            &&& m.ui.now >= m.ui.last_search_edit + 350 && query != m.last_suggest_query
                && query.len() > 0 && !m.ui.is_tv_mode ==> n.effects == m.effects.push(
                EffectOf::Send(ActionOf::Suggest(query)),
            )
            &&& m.ui.now >= m.ui.last_search_edit + 350 && query != m.last_suggest_query
                && query.len() == 0 ==> n.search_suggestions.len() == 0 && n.effects == m.effects
        }),
{
}

/// An episode that was gone to is fetched once it has rested for 300 milliseconds, and once only;
/// one whose streams are known is shown.
pub proof fn law_episode_waits(m: AppV, id: Seq<char>, season: usize, episode: usize)
    requires
        m.pending_episode_fetch == Some((id, season, episode)),
    ensures
        m.ui.now < m.ui.last_episode_nav + 300 ==> m.episode_ticked() == m,
        m.ui.now >= m.ui.last_episode_nav + 300 ==> m.episode_ticked().pending_episode_fetch is None,
        m.ui.now >= m.ui.last_episode_nav + 300 && known_streams(
            m.stream_pool,
            id,
            season,
            episode,
        ) is None ==> m.episode_ticked().effects == m.effects.push(
            EffectOf::Send(
                ActionOf::FetchEpisodeStreams {
                    subject_id: id,
                    season,
                    episode,
                    force_refresh: false,
                },
            ),
        ),
        m.ui.now >= m.ui.last_episode_nav + 300 && known_streams(
            m.stream_pool,
            id,
            season,
            episode,
        ) is Some ==> {
            let n = m.episode_ticked();
            &&& n.effects == m.effects
            &&& n.selected_resources == Some(
                JsonV::Object(
                    seq![
                        (
                            "list"@,
                            JsonV::List(known_streams(m.stream_pool, id, season, episode)->0),
                        ),
                    ],
                ),
            )
        },
{
}

/// The channels that are suggested are those whose names have the query in them, in order and ten at
/// most.
pub proof fn law_channel_names(v: Seq<ChannelV>, c: ChannelV, query: Seq<char>, w: Seq<Seq<char>>)
    ensures
        has(lowercase(c.name), query) ==> channel_names(v.push(c), query) == channel_names(
            v,
            query,
        ).push(c.name),
        !(has(lowercase(c.name), query)) ==> channel_names(v.push(c), query) == channel_names(
            v,
            query,
        ),
        channel_names(Seq::empty(), query).len() == 0,
        w.len() <= 10 ==> first_ten(w) == w,
        w.len() > 10 ==> first_ten(w).len() == 10 && first_ten(w) == w.subrange(0, 10),
{
    assert(v.push(c).drop_last() =~= v);
    if w.len() > 10 {
        assert(first_ten(w) =~= w.subrange(0, 10));
    }
}

/// A status goes when its time is over, and not before.
pub proof fn law_status_ages(m: AppV, redraw: bool)
    ensures
        m.ui.status_timer == 1 ==> m.tick_counted(redraw).status_message.len() == 0,
        m.ui.status_timer != 1 ==> m.tick_counted(redraw).status_message == m.status_message,
        m.ui.status_timer > 0 ==> m.tick_counted(redraw).ui.status_timer == m.ui.status_timer - 1,
        m.ui.status_timer == 0 ==> m.tick_counted(redraw).ui.status_timer == 0,
        m.ui.tick_count < u64::MAX ==> m.tick_counted(redraw).ui.tick_count == m.ui.tick_count + 1,
        m.ui.dirty ==> m.tick_counted(redraw).ui.dirty,
{
}

// ---------------------------------------------------------------------------
// Panes and providers
// ---------------------------------------------------------------------------

/// The panes: languages where there are two or more, seasons and episodes where there are seasons,
/// and streams, in this order.
pub proof fn law_panes(m: AppV, details: JsonV, dubs: Seq<JsonV>)
    requires
        m.selected_details == Some(details),
        details.get("dubs"@) == Some(JsonV::List(dubs)),
    ensures
        dubs.len() >= 2 && m.available_seasons.len() > 0 ==> m.panes() == seq![
            DetailsPane::Languages,
            DetailsPane::Seasons,
            DetailsPane::Episodes,
            DetailsPane::Streams,
        ],
        dubs.len() >= 2 && m.available_seasons.len() == 0 ==> m.panes() == seq![
            DetailsPane::Languages,
            DetailsPane::Streams,
        ],
        dubs.len() < 2 && m.available_seasons.len() > 0 ==> m.panes() == seq![
            DetailsPane::Seasons,
            DetailsPane::Episodes,
            DetailsPane::Streams,
        ],
        dubs.len() < 2 && m.available_seasons.len() == 0 ==> m.panes() == seq![
            DetailsPane::Streams,
        ],
{
    if dubs.len() >= 2 && m.available_seasons.len() > 0 {
        assert(m.panes() =~= seq![
            DetailsPane::Languages,
            DetailsPane::Seasons,
            DetailsPane::Episodes,
            DetailsPane::Streams,
        ]);
    } else if dubs.len() >= 2 {
        assert(m.panes() =~= seq![DetailsPane::Languages, DetailsPane::Streams]);
    } else if m.available_seasons.len() > 0 {
        assert(m.panes() =~= seq![
            DetailsPane::Seasons,
            DetailsPane::Episodes,
            DetailsPane::Streams,
        ]);
    } else {
        assert(m.panes() =~= seq![DetailsPane::Streams]);
    }
}

/// From pane to pane the way goes round, and back is the way from which one came.
pub proof fn law_panes_go_round(panes: Seq<DetailsPane>, i: int)
    requires
        0 <= i < panes.len(),
        panes.no_duplicates(),
    ensures
        neighbour(panes, panes[i], true) == panes[(if i + 1 == panes.len() {
            0
        } else {
            i + 1
        })],
        neighbour(panes, neighbour(panes, panes[i], true), false) == panes[i],
{
    crate::tui::pool::lemma_first_of(panes, panes[i], 0);
    let j = if i + 1 == panes.len() {
        0
    } else {
        i + 1
    };
    crate::tui::pool::lemma_first_of(panes, panes[j], 0);
}

/// With another provider everything of the one before is gone, the work that was going on is
/// dropped, and later answers to it are known as stale.
pub proof fn law_provider_is_switched(m: AppV, provider: ProviderKind)
    requires
        !m.ui.sixel,
    ensures
        m.ui.is_tv_mode || provider == m.ui.active_provider ==> m.provider_switched(provider) == m,
        !m.ui.is_tv_mode && provider != m.ui.active_provider ==> {
            let n = m.provider_switched(provider);
            &&& n.ui.active_provider == provider
            &&& n.ui.provider_generation != m.ui.provider_generation
            &&& n.search_results.len() == 0 && n.search_suggestions.len() == 0
            &&& n.selected_details is None && n.selected_resources is None
            &&& n.active_subject_id is None && n.available_seasons.len() == 0
            &&& n.effects[m.effects.len() as int] == EffectV::CancelFetches
            &&& n.ui.active_screen == Screen::Home
            &&& provider == ProviderKind::MovieBox ==> n.effects.last() == EffectV::InitClient
            &&& provider != ProviderKind::MovieBox ==> n.effects.last() == EffectV::PersistConfig
        },
{
}

/// A tick has the screen drawn anew at the start, while a status or a notification is shown, and with
/// every fifth tick while something loads.
pub proof fn law_ticks_redraw(m: AppV)
    ensures
        m.tick_redraws(true),
        m.ui.status_timer > 0 ==> m.tick_redraws(false),
        m.ui.tick_count < 15 ==> m.tick_redraws(false),
        m.ui.is_loading && m.ui.tick_count % 5 == 0 ==> m.tick_redraws(false),
        m.ui.tick_count >= 15 && m.ui.status_timer == 0 && !m.ui.is_loading ==> !m.tick_redraws(
            false,
        ),
        m.ui.tick_count >= 15 && m.ui.status_timer == 0 && m.ui.tick_count % 5 != 0
            ==> !m.tick_redraws(false),
{
}

/// What a tick does is done in order: the count, the notifications, the suggestions and the episode.
pub proof fn law_course_of_tick(m: AppV)
    ensures
        m.ticked(false) == m.tick_counted(
            m.tick_redraws(false),
        ).suggestions_ticked().episode_ticked(),
        m.ticked(true) == m.tick_counted(true).ask(
            EffectOf::ExpireNotifications,
        ).suggestions_ticked().episode_ticked(),
{
}

/// A query is searched for again where there are no results and the status says so.
pub proof fn law_search_again(m: AppV, key: Key)
    requires
        m.ui.input_mode == InputMode::Normal,
        m.ui.active_screen == Screen::Home,
        !m.ui.tv_config_popup,
        !key.ctrl,
        key.code == KeyCode::Enter,
        m.search_results.len() == 0,
    ensures
        trim(m.search_query, CharClass::White).len() > 0 && has(
            lower_text(m.status_message),
            "search failed"@,
        ) ==> sends(
            m,
            key,
            ActionOf::Search {
                query: trim(m.search_query, CharClass::White),
                force_refresh: true,
            },
        ),
        trim(m.search_query, CharClass::White).len() > 0 && begins(
            lower_text(m.status_message),
            "no matches"@,
        ) ==> sends(
            m,
            key,
            ActionOf::Search {
                query: trim(m.search_query, CharClass::White),
                force_refresh: true,
            },
        ),
        trim(m.search_query, CharClass::White).len() == 0 ==> sends(m, key, ActionOf::Submit),
{
    reveal(AppV::screen_key);
    reveal(AppV::home_key);
}

/// The last character that is seen is taken off a query.
pub proof fn law_backspace(m: AppV)
    ensures
        graphemes(m.search_query).len() > 0 ==> m.field_key(KeyCode::Backspace).search_query == flat(
            graphemes(m.search_query).drop_last(),
        ),
        graphemes(m.search_query).len() == 0 ==> m.field_key(KeyCode::Backspace).search_query.len()
            == 0,
        m.field_key(KeyCode::Backspace).ui.last_search_edit == m.ui.now,
{
    reveal(AppV::field_key);
}

} // verus!
