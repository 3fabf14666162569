//! The plain commands: help, television, going back, refreshing, languages and the home page.
use vstd::prelude::*;
use crate::json::{
    Json, JsonV, get_in, get_of, item_in, item_of, json_list, list_in, list_of, text_in,
    text_of_json,
};
use crate::numbers::{decimal, decimal_text};
use crate::providers::iptv_org::m3u::{Channel, channels};
use crate::providers::models::ProviderKind;
use crate::strings::{
    CharClass, cat2, cat3, copy_text, is_blank, same_text, text_opt, texts, trim, trimmed,
};
use crate::tui::app::{borrowed, dubs_of};
use crate::tui::pool::{PoolV, StreamPool};
use crate::tui::search::{merge_home, merged_home};
use crate::tui::state::{
    ActionOf, App, AppV, EffectOf, InputMode, Picture, Screen, Ui, results,
};

verus! {

impl AppV {
    /// With no popup shown, and no download to be confirmed.
    pub open spec fn popups_closed(self) -> AppV {
        AppV {
            ui: Ui {
                tv_config_popup: false,
                player_picker_popup: false,
                subtitle_popup: false,
                is_download_subtitle_popup: false,
                show_season_download_confirm: false,
                show_episode_download_confirm: false,
                ..self.ui
            },
            ..self
        }
    }

    /// With the help shown or hidden.
    pub open spec fn help_set(self, on: bool) -> AppV {
        AppV { ui: Ui { show_help: on, ..self.ui }, ..self }
    }

    /// After the help was asked for: it closes every popup when it opens.
    pub open spec fn help_toggled(self) -> AppV {
        if self.ui.active_screen == Screen::Startup {
            self
        } else if self.ui.show_help {
            self.help_set(false)
        } else {
            self.help_set(true).popups_closed()
        }
    }

    /// With television mode on or off, and nothing searched.
    pub open spec fn tv_set(self, on: bool) -> AppV {
        AppV {
            ui: Ui { is_tv_mode: on, tick_count: 0, tv_config_popup: false, ..self.ui },
            search_query: Seq::empty(),
            search_results: Seq::empty(),
            ..self
        }
    }

    /// After television mode was entered or left.
    pub open spec fn tv_toggled(self) -> AppV {
        if self.ui.is_tv_mode {
            self.tv_set(false)
        } else {
            self.tv_set(true).say("Initializing Moviebox TV Mode..."@, 200).ask(
                EffectOf::LoadTvConfig,
            )
        }
    }

    /// After the television wizard was asked for.
    pub open spec fn wizard_shown(self) -> AppV {
        if self.ui.is_tv_mode {
            AppV {
                ui: Ui {
                    show_help: false,
                    player_picker_popup: false,
                    subtitle_popup: false,
                    is_download_subtitle_popup: false,
                    tv_config_popup: true,
                    input_mode: InputMode::Normal,
                    ..self.ui
                },
                ..self
            }
        } else {
            self
        }
    }

    /// After channels have been loaded.
    pub open spec fn channels_loaded(self, v: Seq<Channel>) -> AppV {
        AppV {
            tv_channels: channels(v),
            ui: Ui { is_loading: false, ..self.ui },
            ..self
        }.say("Loaded "@ + decimal(v.len()) + " TV channels."@, 150)
    }

    /// With the player picker closed.
    pub open spec fn picker_closed(self) -> AppV {
        AppV {
            ui: Ui { player_picker_popup: false, ..self.ui },
            player_picker_link: None,
            player_picker_subtitle: None,
            ..self
        }
    }

    /// With the subtitle popup closed.
    pub open spec fn subtitles_closed(self) -> AppV {
        AppV {
            ui: Ui {
                subtitle_popup: false,
                is_download_subtitle_popup: false,
                os_waiting: false,
                subtitle_searching: false,
                ..self.ui
            },
            pending_play_link: None,
            ..self
        }
    }

    /// With nothing searched on the home screen, if anything was.
    pub open spec fn search_cleared(self) -> AppV {
        if self.has_search() {
            self.results_dropped().ask(EffectOf::Forget(Picture::SearchPosters)).say(
                "Search cleared."@,
                150,
            )
        } else {
            self
        }
    }

    /// Whether there are results, or something is in the search field.
    pub open spec fn has_search(self) -> bool {
        self.search_results.len() > 0 || self.search_query.len() > 0
    }

    /// With no results and nothing in the search field.
    pub open spec fn results_dropped(self) -> AppV {
        AppV {
            search_results: Seq::empty(),
            search_query: Seq::empty(),
            search_preview: None,
            ..self
        }
    }

    /// With the details screen left.
    pub open spec fn details_left(self) -> AppV {
        AppV {
            ui: Ui {
                active_screen: Screen::Home,
                is_loading: false,
                language_chosen: false,
                os_waiting: false,
                subtitle_searching: false,
                ..self.ui
            },
            stream_pool: Map::empty(),
            pending_episode_fetch: None,
            selected_resources: None,
            ..self
        }.ask(EffectOf::CancelFetches).say("Select a movie/series and press Enter"@, 150)
    }

    /// After the user has gone back: one popup closes, or else the help, or else the screen is left.
    pub open spec fn gone_back(self) -> AppV {
        let m = self.sixel_redraw();
        if m.ui.player_picker_popup {
            m.picker_closed()
        } else if m.ui.subtitle_popup || m.ui.is_download_subtitle_popup {
            m.subtitles_closed()
        } else if m.ui.show_help {
            m.help_set(false)
        } else {
            match m.ui.active_screen {
                Screen::Startup => m,
                Screen::Home => m.search_cleared(),
                Screen::Details => m.details_left(),
            }
        }
    }
}

impl App {
    /// Closes every popup.
    fn close_popups(&mut self)
        ensures
            final(self)@ == old(self)@.popups_closed(),
    {
        self.ui = Ui {
            tv_config_popup: false,
            player_picker_popup: false,
            subtitle_popup: false,
            is_download_subtitle_popup: false,
            show_season_download_confirm: false,
            show_episode_download_confirm: false,
            ..self.ui
        };
    }

    /// Shows or hides the help.
    fn set_help(&mut self, on: bool)
        ensures
            final(self)@ == old(self)@.help_set(on),
    {
        self.ui = Ui { show_help: on, ..self.ui };
    }

    /// The help is asked for: it closes every popup when it opens.
    pub fn toggle_help(&mut self)
        ensures
            final(self)@ == old(self)@.help_toggled(),
            final(self)@.steady(old(self)@),
    {
        if self.ui.active_screen == Screen::Startup {
        } else if self.ui.show_help {
            self.set_help(false);
        } else {
            self.set_help(true);
            self.close_popups();
        }
    }

    /// Enters or leaves television mode, with nothing searched.
    fn set_tv(&mut self, on: bool)
        ensures
            final(self)@ == old(self)@.tv_set(on),
    {
        self.ui = Ui { is_tv_mode: on, tick_count: 0, tv_config_popup: false, ..self.ui };
        self.search_query = String::new();
        self.search_results = Vec::new();
        assert(results(self.search_results@) =~= Seq::empty());
    }

    /// Television mode is entered or left.
    pub fn toggle_tv_mode(&mut self)
        ensures
            final(self)@ == old(self)@.tv_toggled(),
            final(self)@.steady(old(self)@),
    {
        if self.ui.is_tv_mode {
            self.set_tv(false);
        } else {
            self.set_tv(true);
            self.say("Initializing Moviebox TV Mode...", 200);
            self.ask(EffectOf::LoadTvConfig);
        }
    }

    /// The television wizard is asked for.
    pub fn show_tv_wizard(&mut self)
        ensures
            final(self)@ == old(self)@.wizard_shown(),
            final(self)@.steady(old(self)@),
    {
        if self.ui.is_tv_mode {
            self.ui = Ui {
                show_help: false,
                player_picker_popup: false,
                subtitle_popup: false,
                is_download_subtitle_popup: false,
                tv_config_popup: true,
                input_mode: InputMode::Normal,
                ..self.ui
            };
        }
    }

    /// Channels have been loaded.
    pub fn tv_channels_loaded(&mut self, v: Vec<Channel>)
        ensures
            final(self)@ == old(self)@.channels_loaded(v@),
            final(self)@.steady(old(self)@),
    {
        let n: usize = v.len();
        self.tv_channels = v;
        self.ui = Ui { is_loading: false, ..self.ui };
        let text = cat3("Loaded ", decimal_text(n as u64).as_str(), " TV channels.");
        self.say(text.as_str(), 150);
    }

    /// Closes the player picker.
    fn close_picker(&mut self)
        ensures
            final(self)@ == old(self)@.picker_closed(),
    {
        self.ui = Ui { player_picker_popup: false, ..self.ui };
        self.player_picker_link = None;
        self.player_picker_subtitle = None;
    }

    /// Closes the subtitle popup.
    fn close_subtitles(&mut self)
        ensures
            final(self)@ == old(self)@.subtitles_closed(),
    {
        self.ui = Ui {
            subtitle_popup: false,
            is_download_subtitle_popup: false,
            os_waiting: false,
            subtitle_searching: false,
            ..self.ui
        };
        self.pending_play_link = None;
    }

    /// Clears the search on the home screen, if there is one.
    fn clear_search(&mut self)
        ensures
            final(self)@ == old(self)@.search_cleared(),
    {
        if self.has_search() {
            self.drop_results();
            self.ask(EffectOf::Forget(Picture::SearchPosters));
            self.say("Search cleared.", 150);
        }
    }

    /// Whether there are results, or something is in the search field.
    fn has_search(&self) -> (r: bool)
        ensures
            r == self@.has_search(),
    {
        self.search_results.len() > 0 || !is_blank(self.search_query.as_str())
    }

    /// Drops the results and what is in the search field.
    fn drop_results(&mut self)
        ensures
            final(self)@ == old(self)@.results_dropped(),
    {
        self.search_results = Vec::new();
        self.search_query = String::new();
        self.search_preview = None;
        assert(results(self.search_results@) =~= Seq::empty());
    }

    /// Leaves the details screen.
    fn leave_details(&mut self)
        ensures
            final(self)@ == old(self)@.details_left(),
    {
        self.ui = Ui {
            active_screen: Screen::Home,
            is_loading: false,
            language_chosen: false,
            os_waiting: false,
            subtitle_searching: false,
            ..self.ui
        };
        self.stream_pool = StreamPool::new();
        self.pending_episode_fetch = None;
        self.selected_resources = None;
        self.ask(EffectOf::CancelFetches);
        self.say("Select a movie/series and press Enter", 150);
    }

    /// The user goes back: one popup closes, or else the help, or else the screen is left.
    pub fn go_back(&mut self)
        ensures
            final(self)@ == old(self)@.gone_back(),
            final(self)@.steady(old(self)@),
    {
        self.prepare_sixel_redraw();
        if self.ui.player_picker_popup {
            self.close_picker();
        } else if self.ui.subtitle_popup || self.ui.is_download_subtitle_popup {
            self.close_subtitles();
        } else if self.ui.show_help {
            self.set_help(false);
        } else {
            match self.ui.active_screen {
                Screen::Startup => {},
                Screen::Home => self.clear_search(),
                Screen::Details => self.leave_details(),
            }
        }
    }
}

/// Going back from the details screen, with nothing open over it, leads to the home screen with no
/// stream left.
pub proof fn law_back_from_details(m: AppV)
    requires
        m.ui.active_screen == Screen::Details,
        !m.ui.player_picker_popup,
        !m.ui.subtitle_popup,
        !m.ui.is_download_subtitle_popup,
        !m.ui.show_help,
    ensures
        m.gone_back().ui.active_screen == Screen::Home,
        m.gone_back().selected_resources is None,
        m.gone_back().stream_pool == Map::<Seq<char>, PoolV>::empty(),
        m.gone_back().pending_episode_fetch is None,
{
}

// ---------------------------------------------------------------------------
// Refreshing
// ---------------------------------------------------------------------------

impl AppV {
    /// After fresh results were wanted.
    pub open spec fn search_refreshed(self, query: Seq<char>) -> AppV {
        if query.len() > 0 {
            self.send(ActionOf::Search { query, force_refresh: true })
        } else if self.ui.is_tv_mode {
            self.say("TV Mode channels are loaded from local config."@, 150)
        } else {
            self
        }
    }

    /// After fresh streams of an episode were wanted.
    pub open spec fn episode_refreshed(self, id: Seq<char>, season: usize, episode: usize) -> AppV {
        AppV {
            ui: Ui { selected_season: season, selected_episode: episode, ..self.ui },
            ..self
        }.ask(
            EffectOf::InvalidateStreamCache(self.ui.active_provider, id, season, episode),
        ).send(
            ActionOf::FetchEpisodeStreams {
                subject_id: id,
                season,
                episode,
                force_refresh: true,
            },
        )
    }

    /// After fresh data was wanted.
    pub open spec fn refreshed(self) -> AppV {
        match self.ui.active_screen {
            Screen::Startup => self,
            Screen::Home => self.search_refreshed(trim(self.search_query, CharClass::White)),
            Screen::Details => match self.active_subject_id {
                Some(id) => if self.available_seasons.len() == 0 {
                    self.episode_refreshed(id, 0, 0)
                } else {
                    self.episode_refreshed(id, self.ui.selected_season, self.ui.selected_episode)
                },
                None => self,
            },
        }
    }

    /// After a dubbed version was chosen.
    pub open spec fn language_selected(self, i: int) -> AppV {
        match text_in(get_in(item_in(dubs_of(self.selected_details), i), "subjectId"@)) {
            Some(id) => self.language_switched(id),
            None => self,
        }
    }

    /// After the dubbed version with an identifier was chosen.
    pub open spec fn language_switched(self, id: Seq<char>) -> AppV {
        AppV {
            ui: Ui { resource_selected: None, language_chosen: true, ..self.ui },
            selected_resources: None,
            ..self
        }.say("Switching language..."@, 150).send(ActionOf::FetchDetails(id, false))
    }
}

impl App {
    /// Fresh results are wanted.
    fn refresh_search(&mut self, query: String)
        ensures
            final(self)@ == old(self)@.search_refreshed(query@),
            final(self)@.steady(old(self)@),
    {
        if !is_blank(query.as_str()) {
            self.send(ActionOf::Search { query, force_refresh: true });
        } else if self.ui.is_tv_mode {
            self.say("TV Mode channels are loaded from local config.", 150);
        }
    }

    /// Fresh streams of an episode are wanted.
    fn refresh_episode(&mut self, id: String, season: usize, episode: usize)
        ensures
            final(self)@ == old(self)@.episode_refreshed(id@, season, episode),
            final(self)@.steady(old(self)@),
    {
        let provider = self.ui.active_provider;
        self.ui = Ui { selected_season: season, selected_episode: episode, ..self.ui };
        self.ask(
            EffectOf::InvalidateStreamCache(provider, copy_text(id.as_str()), season, episode),
        );
        self.send(
            ActionOf::FetchEpisodeStreams {
                subject_id: id,
                season,
                episode,
                force_refresh: true,
            },
        );
    }

    /// The title of the details screen.
    pub fn subject(&self) -> (r: Option<String>)
        ensures
            text_opt(r) == self@.active_subject_id,
    {
        match &self.active_subject_id {
            Some(id) => Some(copy_text(id.as_str())),
            None => None,
        }
    }

    /// Fresh data is wanted.
    pub fn refresh(&mut self)
        ensures
            final(self)@ == old(self)@.refreshed(),
            final(self)@.steady(old(self)@),
    {
        match self.ui.active_screen {
            Screen::Startup => {},
            Screen::Home => {
                let query = trimmed(self.search_query.as_str(), CharClass::White);
                self.refresh_search(query);
            },
            Screen::Details => match self.subject() {
                Some(id) => {
                    let film = self.available_seasons.len() == 0;
                    if film {
                        self.refresh_episode(id, 0, 0);
                    } else {
                        self.refresh_episode(id, self.ui.selected_season, self.ui.selected_episode);
                    }
                },
                None => {},
            },
        }
    }

    /// The caches are to be emptied.
    pub fn clear_cache(&mut self)
        ensures
            final(self)@ == old(self)@.ask(EffectOf::ClearAllCache).say(
                "Cache cleared completely."@,
                150,
            ),
            final(self)@.steady(old(self)@),
    {
        self.ask(EffectOf::ClearAllCache);
        self.say("Cache cleared completely.", 150);
    }

    /// The dubbed version with an identifier is chosen.
    fn switch_language(&mut self, id: String)
        ensures
            final(self)@ == old(self)@.language_switched(id@),
    {
        self.ui = Ui { resource_selected: None, language_chosen: true, ..self.ui };
        self.selected_resources = None;
        self.say("Switching language...", 150);
        self.send(ActionOf::FetchDetails(id, false));
    }

    /// A dubbed version is chosen.
    pub fn select_language(&mut self, i: usize)
        ensures
            final(self)@ == old(self)@.language_selected(i as int),
            final(self)@.steady(old(self)@),
    {
        let dubs = get_of(borrowed(&self.selected_details), "dubs");
        let id = text_of_json(get_of(item_of(dubs, i), "subjectId"));
        match id {
            Some(id) => self.switch_language(id),
            None => {},
        }
    }
}

// ---------------------------------------------------------------------------
// The home page
// ---------------------------------------------------------------------------

/// The subjects that a list of entries holds.
pub open spec fn entry_subjects(v: Seq<JsonV>) -> Seq<JsonV>
    decreases v.len(),
{
    if v.len() == 0 {
        Seq::empty()
    } else {
        match v.last().get("subject"@) {
            Some(s) => entry_subjects(v.drop_last()).push(s),
            None => entry_subjects(v.drop_last()),
        }
    }
}

/// A list, empty where there is none.
pub open spec fn list_or_empty(v: Option<Seq<JsonV>>) -> Seq<JsonV> {
    match v {
        Some(v) => v,
        None => Seq::empty(),
    }
}

/// The subjects of one block of the home page: of its banners, its entries and its own.
pub open spec fn block_subjects(item: JsonV) -> Seq<JsonV> {
    entry_subjects(list_or_empty(list_in(get_in(item.get("banner"@), "banners"@))))
        + entry_subjects(list_or_empty(list_in(get_in(item.get("customData"@), "items"@))))
        + list_or_empty(list_in(item.get("subjects"@)))
}

/// The subjects of blocks of the home page.
pub open spec fn blocks_subjects(items: Seq<JsonV>) -> Seq<JsonV>
    decreases items.len(),
{
    if items.len() == 0 {
        Seq::empty()
    } else {
        blocks_subjects(items.drop_last()) + block_subjects(items.last())
    }
}

/// The subjects of the home page.
pub open spec fn home_subjects(payload: JsonV) -> Seq<JsonV> {
    blocks_subjects(list_or_empty(list_in(payload.get("items"@))))
}

/// Puts the subjects that a list of entries holds behind others.
fn push_entry_subjects(out: &mut Vec<Json>, v: Option<&Vec<Json>>)
    ensures
        json_list(final(out)@) == json_list(old(out)@) + entry_subjects(
            match v {
                Some(v) => json_list(v@),
                None => Seq::empty(),
            },
        ),
{
    let ghost given = json_list(out@);
    match v {
        Some(v) => {
            let ghost list = json_list(v@);
            let mut i: usize = 0;
            assert(given + entry_subjects(list.take(0)) =~= given);
            while i < v.len()
                invariant
                    i <= v@.len(),
                    list == json_list(v@),
                    json_list(out@) == given + entry_subjects(list.take(i as int)),
                decreases v@.len() - i,
            {
                let ghost before = json_list(out@);
                proof {
                    assert(list.take(i + 1).drop_last() =~= list.take(i as int));
                    assert(list.take(i + 1).last() == v@[i as int]@);
                }
                match v[i].get("subject") {
                    Some(s) => {
                        let j = s.copy();
                        out.push(j);
                        assert(json_list(out@) =~= before.push(j@));
                        assert(before.push(j@) =~= given + entry_subjects(
                            list.take(i as int),
                        ).push(j@));
                    },
                    None => {},
                }
                i = i + 1;
            }
            assert(list.take(list.len() as int) =~= list);
        },
        None => {
            assert(given + entry_subjects(Seq::empty()) =~= given);
        },
    }
}

/// Puts copies of values behind others.
fn push_copies(out: &mut Vec<Json>, v: Option<&Vec<Json>>)
    ensures
        json_list(final(out)@) == json_list(old(out)@) + (match v {
            Some(v) => json_list(v@),
            None => Seq::empty(),
        }),
{
    let ghost given = json_list(out@);
    match v {
        Some(v) => {
            let mut more = crate::json::copy_list(v);
            let ghost extra = json_list(more@);
            out.append(&mut more);
            assert(json_list(out@) =~= given + extra);
        },
        None => {
            assert(given + Seq::<JsonV>::empty() =~= given);
        },
    }
}

/// The subjects of the home page.
pub fn read_home_subjects(payload: &Json) -> (r: Vec<Json>)
    ensures
        json_list(r@) == home_subjects(payload@),
{
    let mut out: Vec<Json> = Vec::new();
    assert(json_list(out@) =~= Seq::empty());
    match list_of(payload.get("items")) {
        Some(v) => {
            let ghost list = json_list(v@);
            let mut i: usize = 0;
            assert(list.take(0) =~= Seq::empty());
            while i < v.len()
                invariant
                    i <= v@.len(),
                    list == json_list(v@),
                    json_list(out@) == blocks_subjects(list.take(i as int)),
                decreases v@.len() - i,
            {
                let ghost before = json_list(out@);
                let item = &v[i];
                proof {
                    assert(list.take(i + 1).drop_last() =~= list.take(i as int));
                    assert(list.take(i + 1).last() == item@);
                }
                push_entry_subjects(&mut out, list_of(get_of(item.get("banner"), "banners")));
                push_entry_subjects(&mut out, list_of(get_of(item.get("customData"), "items")));
                push_copies(&mut out, list_of(item.get("subjects")));
                assert(json_list(out@) =~= before + block_subjects(item@));
                i = i + 1;
            }
            assert(list.take(list.len() as int) =~= list);
        },
        None => {},
    }
    out
}

/// The results before a page of the home page.
pub open spec fn results_before(page: int) -> int {
    if page == 1 {
        0
    } else {
        (page - 1) * 20
    }
}

impl AppV {
    /// With the first result marked, if this is the first page.
    pub open spec fn first_page_begun(self, page: usize) -> AppV {
        if page == 1 {
            AppV {
                ui: Ui { search_selected: Some(0), ..self.ui },
                search_results: Seq::empty(),
                ..self
            }
        } else {
            self
        }
    }

    /// With a page of the home page asked for.
    pub open spec fn page_asked(self, tab_id: Seq<char>, page: usize) -> AppV {
        AppV {
            ui: Ui {
                is_homepage_mode: true,
                current_page: page,
                active_screen: Screen::Home,
                is_loading: true,
                suggest_index: None,
                ..self.ui
            },
            current_tab_id: tab_id,
            selected_details: None,
            selected_resources: None,
            search_suggestions: Seq::empty(),
            ..self
        }.first_page_begun(page).say("Loading discover tab..."@, 150).ask(
            EffectOf::FetchHomepage { tab_id, page },
        )
    }

    /// After a page of the home page was wanted.
    pub open spec fn homepage_wanted(self, tab_id: Seq<char>, page: usize) -> AppV {
        if self.ui.is_tv_mode {
            self
        } else if self.ui.active_provider != ProviderKind::MovieBox {
            AppV { ui: Ui { is_loading: false, ..self.ui }, ..self }.say(
                "This provider exposes search, not a shared MovieBox homepage."@,
                180,
            )
        } else {
            self.page_asked(tab_id, page)
        }
    }

    /// With the titles of the home page among the results.
    pub open spec fn home_merged(self, payload: JsonV) -> AppV {
        AppV {
            search_results: merged_home(self.search_results, home_subjects(payload)),
            ..self
        }
    }

    /// With no result marked.
    pub open spec fn none_marked(self) -> AppV {
        AppV { ui: Ui { search_selected: None, ..self.ui }, ..self }
    }

    /// After titles of the home page were listed, of which some are new or none.
    pub open spec fn home_listed(self, page: usize, fresh: bool) -> AppV {
        if fresh {
            let m = self.ask_posters(results_before(page as int), 20, false);
            if self.ui.current_page <= 1 {
                m.first_marked()
            } else {
                m
            }
        } else if self.ui.current_page <= 1 {
            self.none_marked()
        } else {
            self
        }
    }

    /// Whether a tab of the home page is shown.
    pub open spec fn shows_tab(self, tab_id: Seq<char>) -> bool {
        self.ui.is_homepage_mode && self.current_tab_id == tab_id
    }

    /// After a page of the home page has come.
    pub open spec fn homepage_came(self, tab_id: Seq<char>, page: usize, payload: JsonV) -> AppV {
        if !self.shows_tab(tab_id) {
            self
        } else {
            let begun = self.page_begun(page == 1);
            let m = begun.home_merged(payload);
            let listed = m.home_listed(page, m.search_results.len() > begun.search_results.len());
            listed.say("Found "@ + decimal(m.search_results.len()) + " discover items"@, 150)
        }
    }
}

impl App {
    /// Marks the first result, if this is the first page.
    fn begin_first_page(&mut self, page: usize)
        ensures
            final(self)@ == old(self)@.first_page_begun(page),
    {
        if page == 1 {
            self.ui = Ui { search_selected: Some(0), ..self.ui };
            self.search_results = Vec::new();
            assert(results(self.search_results@) =~= Seq::empty());
        }
    }

    /// Asks for a page of the home page.
    fn ask_page(&mut self, tab_id: String, page: usize)
        ensures
            final(self)@ == old(self)@.page_asked(tab_id@, page),
    {
        self.ui = Ui {
            is_homepage_mode: true,
            current_page: page,
            active_screen: Screen::Home,
            is_loading: true,
            suggest_index: None,
            ..self.ui
        };
        self.current_tab_id = copy_text(tab_id.as_str());
        self.selected_details = None;
        self.selected_resources = None;
        self.search_suggestions = Vec::new();
        assert(texts(self.search_suggestions@) =~= Seq::empty());
        self.begin_first_page(page);
        self.say("Loading discover tab...", 150);
        self.ask(EffectOf::FetchHomepage { tab_id, page });
    }

    /// A page of the home page is wanted.
    pub fn fetch_homepage(&mut self, tab_id: String, page: usize)
        ensures
            final(self)@ == old(self)@.homepage_wanted(tab_id@, page),
            final(self)@.steady(old(self)@),
    {
        if self.ui.is_tv_mode {
        } else if self.ui.active_provider != ProviderKind::MovieBox {
            self.ui = Ui { is_loading: false, ..self.ui };
            self.say("This provider exposes search, not a shared MovieBox homepage.", 180);
        } else {
            self.ask_page(tab_id, page);
        }
    }

    /// Puts the titles of the home page among the results.
    fn merge_homepage(&mut self, payload: &Json)
        ensures
            final(self)@ == old(self)@.home_merged(payload@),
    {
        let subjects = read_home_subjects(payload);
        let mut found = self.take_results();
        merge_home(&mut found, &subjects);
        self.search_results = found;
    }

    /// Marks no result.
    fn mark_none(&mut self)
        ensures
            final(self)@ == old(self)@.none_marked(),
    {
        self.ui = Ui { search_selected: None, ..self.ui };
    }

    /// Lists titles of the home page, of which some are new or none.
    fn list_homepage(&mut self, page: usize, fresh: bool)
        requires
            1 <= page,
            (page - 1) * 20 <= usize::MAX,
        ensures
            final(self)@ == old(self)@.home_listed(page, fresh),
    {
        let first = self.ui.current_page <= 1;
        if fresh {
            let from: usize = if page == 1 {
                0
            } else {
                (page - 1) * 20
            };
            self.ask_posters(from, 20, false);
            if first {
                self.mark_first();
            }
        } else if first {
            self.mark_none();
        }
    }

    /// Whether a tab of the home page is shown.
    pub fn on_tab(&self, tab_id: &str) -> (r: bool)
        ensures
            r == self@.shows_tab(tab_id@),
    {
        self.ui.is_homepage_mode && same_text(self.current_tab_id.as_str(), tab_id)
    }

    /// A page of the home page has come.
    pub fn homepage_success(&mut self, tab_id: &str, page: usize, payload: &Json)
        requires
            old(self)@.shows_tab(tab_id@) ==> 1 <= page && (page - 1) * 20 <= usize::MAX,
        ensures
            final(self)@ == old(self)@.homepage_came(tab_id@, page, payload@),
            final(self)@.steady(old(self)@),
    {
        if !self.on_tab(tab_id) {
            return ;
        }
        self.begin_page(page == 1);
        let before: usize = self.search_results.len();
        self.merge_homepage(payload);
        let n: usize = self.search_results.len();
        self.list_homepage(page, n > before);
        let text = cat3("Found ", decimal_text(n as u64).as_str(), " discover items");
        self.say(text.as_str(), 150);
    }

    /// The home page has failed.
    pub fn homepage_failure(&mut self, error: &str)
        ensures
            final(self)@ == (AppV {
                ui: Ui { is_loading: false, ..old(self)@.ui },
                ..old(self)@
            }).say("Discover failed: "@ + error@, 150),
            final(self)@.steady(old(self)@),
    {
        self.ui = Ui { is_loading: false, ..self.ui };
        let text = cat2("Discover failed: ", error);
        self.say(text.as_str(), 150);
    }
}

} // verus!
