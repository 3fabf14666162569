//! Moving through lists, and choosing what is marked.
use vstd::prelude::*;
use crate::json::{get_in, get_of, json_list, list_in, list_of};
use crate::numbers::{decimal, decimal_text};
use crate::strings::{begins, begins_with, cat3, copy_text, is_blank, same_text, text_opt};
use crate::tui::app::{borrowed, dubs_of, has_rested, rested};
use crate::providers::subtitles::subdl::{parse_subdl_marker, subdl_parts};
use crate::tui::commands::list_or_empty;
use crate::tui::search::text_or;
use crate::tui::state::{
    Action, ActionOf, ActionV, App, AppV, DetailsPane, EffectOf, PlayerKind, Screen, SearchResultV,
    Then, ThenOf, ThenV, Ui, marked, results,
};
use crate::tui::titles::{os_marker, parse_os_marker};

verus! {

// ---------------------------------------------------------------------------
// Up and down
// ---------------------------------------------------------------------------

/// The player above another; the last is above the first.
pub open spec fn player_above(i: Option<usize>, n: int) -> usize {
    match i {
        Some(i) => if i == 0 {
            (n - 1) as usize
        } else {
            (i - 1) as usize
        },
        None => 0,
    }
}

/// The player below another; the first is below the last.
pub open spec fn player_below(i: Option<usize>, n: int) -> usize {
    match i {
        Some(i) => if i >= n - 1 {
            0
        } else {
            (i + 1) as usize
        },
        None => 0,
    }
}

/// Whether there is an entry behind another in a list.
pub open spec fn has_next(i: usize, n: int) -> bool {
    i + 1 < n
}

/// Whether there is an entry behind another in a list.
fn next_in(i: usize, n: usize) -> (r: bool)
    ensures
        r == has_next(i, n as int),
{
    n > 0 && i < n - 1
}

impl AppV {
    /// With a player marked.
    pub open spec fn player_marked(self, i: usize) -> AppV {
        AppV { ui: Ui { player_picker_selected: Some(i), ..self.ui }, ..self }
    }

    /// With a subtitle marked.
    pub open spec fn subtitle_marked(self, i: usize) -> AppV {
        AppV { ui: Ui { subtitle_selected: Some(i), ..self.ui }, ..self }
    }

    /// With a result marked.
    pub open spec fn result_marked(self, i: usize) -> AppV {
        AppV { ui: Ui { search_selected: Some(i), ..self.ui }, ..self }
    }

    /// With the preview of a result asked for, if there is such a result.
    pub open spec fn preview_asked(self, i: usize) -> AppV {
        if i < self.search_results.len() {
            self.send(ActionOf::FetchPreview(self.search_results[i as int].id))
        } else {
            self
        }
    }

    /// With a stream marked.
    pub open spec fn stream_at(self, i: usize) -> AppV {
        AppV { ui: Ui { resource_selected: Some(i), ..self.ui }, ..self }
    }

    /// With a season marked, and its first episode.
    pub open spec fn season_at(self, i: usize) -> AppV {
        AppV { ui: Ui { season_selected: Some(i), episode_selected: Some(0), ..self.ui }, ..self }
    }

    /// With an episode marked.
    pub open spec fn episode_at(self, i: usize) -> AppV {
        AppV { ui: Ui { episode_selected: Some(i), ..self.ui }, ..self }
    }

    /// With a language marked and chosen.
    pub open spec fn language_at(self, i: usize) -> AppV {
        AppV { ui: Ui { language_selected: Some(i), ..self.ui }, ..self }.send(
            ActionOf::SelectLanguage(i),
        )
    }

    /// Whether a subtitle is being picked.
    pub open spec fn picking_subtitle(self) -> bool {
        self.ui.subtitle_popup || self.ui.is_download_subtitle_popup
    }

    /// After going up among the results.
    pub open spec fn up_in_results(self) -> AppV {
        let i = AppV::marked(self.ui.search_selected);
        if i > 0 {
            self.result_marked((i - 1) as usize).preview_asked((i - 1) as usize)
        } else {
            self
        }
    }

    /// After going up on the details screen.
    pub open spec fn up_in_details(self) -> AppV {
        match self.ui.details_pane {
            DetailsPane::Streams => if AppV::marked(self.ui.resource_selected) > 0 {
                self.stream_at((AppV::marked(self.ui.resource_selected) - 1) as usize)
            } else {
                self
            },
            DetailsPane::Seasons => if AppV::marked(self.ui.season_selected) > 0 {
                self.season_at(
                    (AppV::marked(self.ui.season_selected) - 1) as usize,
                ).episode_triggered()
            } else {
                self
            },
            DetailsPane::Episodes => if AppV::marked(self.ui.episode_selected) > 0 {
                self.episode_at(
                    (AppV::marked(self.ui.episode_selected) - 1) as usize,
                ).episode_triggered()
            } else {
                self
            },
            DetailsPane::Languages => if AppV::marked(self.ui.language_selected) > 0 {
                self.language_at((AppV::marked(self.ui.language_selected) - 1) as usize)
            } else {
                self
            },
        }
    }

    /// After going up where no popup is shown.
    pub open spec fn up_on_screen(self) -> AppV {
        match self.ui.active_screen {
            Screen::Startup => self,
            Screen::Home => self.up_in_results(),
            Screen::Details => self.up_in_details(),
        }
    }

    /// With the terminal cleared before the home screen is drawn, where that is needed.
    pub open spec fn home_redrawn(self) -> AppV {
        if self.ui.active_screen == Screen::Home {
            self.sixel_redraw()
        } else {
            self
        }
    }

    /// After going up.
    pub open spec fn moved_up(self) -> AppV {
        let m = self.home_redrawn();
        if m.ui.player_picker_popup {
            m.player_marked(
                player_above(m.ui.player_picker_selected, m.available_players.len() as int),
            )
        } else if m.picking_subtitle() {
            if AppV::marked(m.ui.subtitle_selected) > 0 {
                m.subtitle_marked((AppV::marked(m.ui.subtitle_selected) - 1) as usize)
            } else {
                m
            }
        } else {
            m.up_on_screen()
        }
    }

    /// With a further page of results asked for.
    pub open spec fn further_page_asked(self, page: usize) -> AppV {
        if self.ui.is_homepage_mode {
            self.send(ActionOf::FetchHomepage { tab_id: self.current_tab_id, page })
        } else {
            AppV {
                ui: Ui { current_page: page, is_loading: true, ..self.ui },
                status_message: "Loading page "@ + decimal(page as nat) + "..."@,
                ..self
            }.ask(
                EffectOf::SearchPage { context: self.context(), query: self.search_query, page },
            )
        }
    }

    /// After going down among the results.
    pub open spec fn down_in_results(self) -> AppV {
        let i = AppV::marked(self.ui.search_selected);
        if has_next(i, self.search_results.len() as int) {
            self.result_marked((i + 1) as usize).preview_asked((i + 1) as usize)
        } else if !self.ui.is_tv_mode && !self.ui.is_loading && self.search_results.len() > 0 {
            self.further_page_asked((self.ui.current_page + 1) as usize)
        } else {
            self
        }
    }

    /// The streams that can be marked.
    pub open spec fn stream_count(self) -> int {
        list_or_empty(list_in(get_in(self.selected_resources, "list"@))).len() as int
    }

    /// The episodes that can be marked: none where no season is.
    pub open spec fn episode_count(self) -> int {
        match self.ui.season_selected {
            Some(s) => if s < self.available_episode_numbers.len() {
                self.available_episode_numbers[s as int].len() as int
            } else {
                0
            },
            None => 0,
        }
    }

    /// The languages that can be marked.
    pub open spec fn language_count(self) -> int {
        list_or_empty(dubs_of(self.selected_details)).len() as int
    }

    /// After going down on the details screen.
    pub open spec fn down_in_details(self) -> AppV {
        match self.ui.details_pane {
            DetailsPane::Streams => if has_next(
                AppV::marked(self.ui.resource_selected),
                self.stream_count(),
            ) {
                self.stream_at((AppV::marked(self.ui.resource_selected) + 1) as usize)
            } else {
                self
            },
            DetailsPane::Seasons => if has_next(
                AppV::marked(self.ui.season_selected),
                self.available_seasons.len() as int,
            ) {
                self.season_at(
                    (AppV::marked(self.ui.season_selected) + 1) as usize,
                ).episode_triggered()
            } else {
                self
            },
            DetailsPane::Episodes => if has_next(
                AppV::marked(self.ui.episode_selected),
                self.episode_count(),
            ) {
                self.episode_at(
                    (AppV::marked(self.ui.episode_selected) + 1) as usize,
                ).episode_triggered()
            } else {
                self
            },
            DetailsPane::Languages => if has_next(
                AppV::marked(self.ui.language_selected),
                self.language_count(),
            ) {
                self.language_at((AppV::marked(self.ui.language_selected) + 1) as usize)
            } else {
                self
            },
        }
    }

    /// After going down where no popup is shown.
    pub open spec fn down_on_screen(self) -> AppV {
        match self.ui.active_screen {
            Screen::Startup => self,
            Screen::Home => self.down_in_results(),
            Screen::Details => self.down_in_details(),
        }
    }

    /// After going down.
    pub open spec fn moved_down(self) -> AppV {
        let m = self.home_redrawn();
        if m.ui.player_picker_popup {
            m.player_marked(
                player_below(m.ui.player_picker_selected, m.available_players.len() as int),
            )
        } else if m.picking_subtitle() {
            if has_next(AppV::marked(m.ui.subtitle_selected), m.subtitle_list.len() as int) {
                m.subtitle_marked((AppV::marked(m.ui.subtitle_selected) + 1) as usize)
            } else {
                m
            }
        } else {
            m.down_on_screen()
        }
    }
}

impl App {
    /// Marks a player.
    fn mark_player(&mut self, i: usize)
        ensures
            final(self)@ == old(self)@.player_marked(i),
            final(self)@.steady(old(self)@),
    {
        self.ui = Ui { player_picker_selected: Some(i), ..self.ui };
    }

    /// Marks a subtitle.
    fn mark_subtitle(&mut self, i: usize)
        ensures
            final(self)@ == old(self)@.subtitle_marked(i),
    {
        self.ui = Ui { subtitle_selected: Some(i), ..self.ui };
    }

    /// Marks a result.
    fn mark_result(&mut self, i: usize)
        ensures
            final(self)@ == old(self)@.result_marked(i),
    {
        self.ui = Ui { search_selected: Some(i), ..self.ui };
    }

    /// Asks for the preview of a result, if there is such a result.
    fn ask_preview(&mut self, i: usize)
        ensures
            final(self)@ == old(self)@.preview_asked(i),
    {
        if i < self.search_results.len() {
            let id = copy_text(self.search_results[i].id.as_str());
            self.send(ActionOf::FetchPreview(id));
        }
    }

    /// Marks a stream.
    fn mark_stream(&mut self, i: usize)
        ensures
            final(self)@ == old(self)@.stream_at(i),
    {
        self.ui = Ui { resource_selected: Some(i), ..self.ui };
    }

    /// Marks a season, and its first episode.
    fn mark_season(&mut self, i: usize)
        ensures
            final(self)@ == old(self)@.season_at(i),
    {
        self.ui = Ui { season_selected: Some(i), episode_selected: Some(0), ..self.ui };
    }

    /// Marks an episode.
    fn mark_episode(&mut self, i: usize)
        ensures
            final(self)@ == old(self)@.episode_at(i),
    {
        self.ui = Ui { episode_selected: Some(i), ..self.ui };
    }

    /// Marks a language and chooses it.
    fn mark_language(&mut self, i: usize)
        ensures
            final(self)@ == old(self)@.language_at(i),
    {
        self.ui = Ui { language_selected: Some(i), ..self.ui };
        self.send(ActionOf::SelectLanguage(i));
    }

    /// Goes up among the results.
    fn up_in_results(&mut self)
        ensures
            final(self)@ == old(self)@.up_in_results(),
    {
        let i: usize = marked(self.ui.search_selected);
        if i > 0 {
            self.mark_result(i - 1);
            self.ask_preview(i - 1);
        }
    }

    /// Goes up on the details screen.
    fn up_in_details(&mut self)
        ensures
            final(self)@ == old(self)@.up_in_details(),
    {
        match self.ui.details_pane {
            DetailsPane::Streams => {
                let i: usize = marked(self.ui.resource_selected);
                if i > 0 {
                    self.mark_stream(i - 1);
                }
            },
            DetailsPane::Seasons => {
                let i: usize = marked(self.ui.season_selected);
                if i > 0 {
                    self.mark_season(i - 1);
                    self.trigger_episode_fetch();
                }
            },
            DetailsPane::Episodes => {
                let i: usize = marked(self.ui.episode_selected);
                if i > 0 {
                    self.mark_episode(i - 1);
                    self.trigger_episode_fetch();
                }
            },
            DetailsPane::Languages => {
                let i: usize = marked(self.ui.language_selected);
                if i > 0 {
                    self.mark_language(i - 1);
                }
            },
        }
    }

    /// Goes up where no popup is shown.
    fn up_on_screen(&mut self)
        ensures
            final(self)@ == old(self)@.up_on_screen(),
    {
        match self.ui.active_screen {
            Screen::Startup => {},
            Screen::Home => self.up_in_results(),
            Screen::Details => self.up_in_details(),
        }
    }

    /// Has the terminal cleared before the home screen is drawn, where that is needed.
    fn redraw_home(&mut self)
        ensures
            final(self)@ == old(self)@.home_redrawn(),
            final(self)@.steady(old(self)@),
    {
        if self.ui.active_screen == Screen::Home {
            self.prepare_sixel_redraw();
        }
    }

    /// The player above the marked one.
    fn player_above(&self) -> (r: usize)
        requires
            self@.ui.player_picker_selected == Some(0usize) ==> self@.available_players.len() > 0,
        ensures
            r == player_above(self@.ui.player_picker_selected, self@.available_players.len() as int),
    {
        match self.ui.player_picker_selected {
            Some(i) => if i == 0 {
                self.available_players.len() - 1
            } else {
                i - 1
            },
            None => 0,
        }
    }

    /// The player below the marked one.
    fn player_below(&self) -> (r: usize)
        requires
            self@.ui.player_picker_selected is Some ==> self@.available_players.len() > 0,
        ensures
            r == player_below(self@.ui.player_picker_selected, self@.available_players.len() as int),
    {
        match self.ui.player_picker_selected {
            Some(i) => if i >= self.available_players.len() - 1 {
                0
            } else {
                i + 1
            },
            None => 0,
        }
    }

    /// Goes up among the subtitles.
    fn up_in_subtitles(&mut self)
        ensures
            final(self)@ == (if AppV::marked(old(self)@.ui.subtitle_selected) > 0 {
                old(self)@.subtitle_marked(
                    (AppV::marked(old(self)@.ui.subtitle_selected) - 1) as usize,
                )
            } else {
                old(self)@
            }),
    {
        let i: usize = marked(self.ui.subtitle_selected);
        if i > 0 {
            self.mark_subtitle(i - 1);
        }
    }

    /// Goes up.
    pub fn move_up(&mut self)
        requires
            old(self)@.ui.player_picker_popup && old(self)@.ui.player_picker_selected == Some(0usize)
                ==> old(self)@.available_players.len() > 0,
        ensures
            final(self)@ == old(self)@.moved_up(),
            final(self)@.steady(old(self)@),
    {
        self.redraw_home();
        if self.ui.player_picker_popup {
            let i = self.player_above();
            self.mark_player(i);
        } else if self.ui.subtitle_popup || self.ui.is_download_subtitle_popup {
            self.up_in_subtitles();
        } else {
            self.up_on_screen();
        }
    }

    /// Asks for a further page of results.
    fn ask_further_page(&mut self, page: usize)
        ensures
            final(self)@ == old(self)@.further_page_asked(page),
    {
        if self.ui.is_homepage_mode {
            let tab_id = copy_text(self.current_tab_id.as_str());
            self.send(ActionOf::FetchHomepage { tab_id, page });
        } else {
            self.ask_search_page(page);
        }
    }

    /// Asks for a further page of a search.
    fn ask_search_page(&mut self, page: usize)
        requires
            !old(self)@.ui.is_homepage_mode,
        ensures
            final(self)@ == old(self)@.further_page_asked(page),
    {
        let context = self.request_context();
        let query = copy_text(self.search_query.as_str());
        self.status_message = cat3("Loading page ", decimal_text(page as u64).as_str(), "...");
        self.ui = Ui { current_page: page, is_loading: true, ..self.ui };
        self.ask(EffectOf::SearchPage { context, query, page });
    }

    /// Whether a further page can be asked for.
    fn may_ask_more(&self) -> (r: bool)
        ensures
            r == (!self@.ui.is_tv_mode && !self@.ui.is_loading && self@.search_results.len() > 0),
    {
        !self.ui.is_tv_mode && !self.ui.is_loading && self.search_results.len() > 0
    }

    /// Goes down among the results.
    fn down_in_results(&mut self)
        requires
            old(self)@.ui.current_page < usize::MAX,
        ensures
            final(self)@ == old(self)@.down_in_results(),
    {
        let i: usize = marked(self.ui.search_selected);
        let next = next_in(i, self.search_results.len());
        if next {
            self.mark_result(i + 1);
            self.ask_preview(i + 1);
        } else if self.may_ask_more() {
            let page: usize = self.ui.current_page + 1;
            self.ask_further_page(page);
        }
    }

    /// The streams that can be marked.
    fn stream_count(&self) -> (r: usize)
        ensures
            r == self@.stream_count(),
    {
        match list_of(get_of(borrowed(&self.selected_resources), "list")) {
            Some(v) => v.len(),
            None => 0,
        }
    }

    /// The episodes that can be marked.
    fn episode_count(&self) -> (r: usize)
        ensures
            r == self@.episode_count(),
    {
        match self.ui.season_selected {
            Some(s) => if s < self.available_episode_numbers.len() {
                self.available_episode_numbers[s].len()
            } else {
                0
            },
            None => 0,
        }
    }

    /// The languages that can be marked.
    fn language_count(&self) -> (r: usize)
        ensures
            r == self@.language_count(),
    {
        match list_of(get_of(borrowed(&self.selected_details), "dubs")) {
            Some(v) => v.len(),
            None => 0,
        }
    }

    /// Goes down on the details screen.
    fn down_in_details(&mut self)
        ensures
            final(self)@ == old(self)@.down_in_details(),
    {
        match self.ui.details_pane {
            DetailsPane::Streams => {
                let i: usize = marked(self.ui.resource_selected);
                if next_in(i, self.stream_count()) {
                    self.mark_stream(i + 1);
                }
            },
            DetailsPane::Seasons => {
                let i: usize = marked(self.ui.season_selected);
                if next_in(i, self.available_seasons.len()) {
                    self.mark_season(i + 1);
                    self.trigger_episode_fetch();
                }
            },
            DetailsPane::Episodes => {
                let i: usize = marked(self.ui.episode_selected);
                let n: usize = self.episode_count();
                if next_in(i, n) {
                    self.mark_episode(i + 1);
                    self.trigger_episode_fetch();
                }
            },
            DetailsPane::Languages => {
                let i: usize = marked(self.ui.language_selected);
                if next_in(i, self.language_count()) {
                    self.mark_language(i + 1);
                }
            },
        }
    }

    /// Goes down where no popup is shown.
    fn down_on_screen(&mut self)
        requires
            old(self)@.ui.current_page < usize::MAX,
        ensures
            final(self)@ == old(self)@.down_on_screen(),
            final(self)@.steady(old(self)@),
    {
        match self.ui.active_screen {
            Screen::Startup => {},
            Screen::Home => self.down_in_results(),
            Screen::Details => self.down_in_details(),
        }
    }

    /// Goes down among the subtitles.
    fn down_in_subtitles(&mut self)
        ensures
            final(self)@ == (if has_next(
                AppV::marked(old(self)@.ui.subtitle_selected),
                old(self)@.subtitle_list.len() as int,
            ) {
                old(self)@.subtitle_marked(
                    (AppV::marked(old(self)@.ui.subtitle_selected) + 1) as usize,
                )
            } else {
                old(self)@
            }),
            final(self)@.steady(old(self)@),
    {
        let i: usize = marked(self.ui.subtitle_selected);
        let next = next_in(i, self.subtitle_list.len());
        if next {
            self.mark_subtitle(i + 1);
        }
    }

    /// Goes down.
    pub fn move_down(&mut self)
        requires
            old(self)@.ui.player_picker_popup && old(self)@.ui.player_picker_selected is Some
                ==> old(self)@.available_players.len() > 0,
            old(self)@.ui.current_page < usize::MAX,
        ensures
            final(self)@ == old(self)@.moved_down(),
            final(self)@.steady(old(self)@),
    {
        self.redraw_home();
        if self.ui.player_picker_popup {
            let i = self.player_below();
            self.mark_player(i);
        } else if self.ui.subtitle_popup || self.ui.is_download_subtitle_popup {
            self.down_in_subtitles();
        } else {
            self.down_on_screen();
        }
    }
}

/// In the player picker, going down and then up leads back to the player marked.
pub proof fn law_players_down_and_up(i: usize, n: int)
    requires
        i < n <= usize::MAX,
    ensures
        player_above(Some(player_below(Some(i), n)), n) == i,
        player_below(Some(player_above(Some(i), n)), n) == i,
        player_below(Some(i), n) < n,
        player_above(Some(i), n) < n,
{
}

// ---------------------------------------------------------------------------
// Left and right
// ---------------------------------------------------------------------------

/// The results by which a page moves.
pub open spec fn page_step(visible: usize) -> usize {
    if visible == 0 {
        1
    } else {
        visible
    }
}

impl AppV {
    /// After a result was marked, or none if there is none, and its preview asked for.
    pub open spec fn moved_to(self, i: usize) -> AppV {
        self.result_marked(i).preview_asked(i)
    }

    /// After going a page back.
    pub open spec fn moved_left(self) -> AppV {
        if self.ui.active_screen != Screen::Home {
            self
        } else {
            let i = AppV::marked(self.ui.search_selected);
            let step = page_step(self.ui.visible_items);
            self.moved_to(
                if i > step {
                    (i - step) as usize
                } else {
                    0
                },
            )
        }
    }

    /// After going a page on.
    pub open spec fn moved_right(self) -> AppV {
        if self.ui.active_screen != Screen::Home {
            self
        } else {
            let i = AppV::marked(self.ui.search_selected);
            let step = page_step(self.ui.visible_items);
            let n = self.search_results.len();
            if i + step < n {
                self.moved_to((i + step) as usize)
            } else if n > 0 {
                self.moved_to((n - 1) as usize)
            } else {
                self
            }
        }
    }
}

impl App {
    /// Marks a result and asks for its preview.
    fn move_to(&mut self, i: usize)
        ensures
            final(self)@ == old(self)@.moved_to(i),
    {
        self.mark_result(i);
        self.ask_preview(i);
    }

    /// Goes a page back.
    pub fn move_left(&mut self)
        ensures
            final(self)@ == old(self)@.moved_left(),
            final(self)@.steady(old(self)@),
    {
        if self.ui.active_screen == Screen::Home {
            let i: usize = marked(self.ui.search_selected);
            let step: usize = if self.ui.visible_items == 0 {
                1
            } else {
                self.ui.visible_items
            };
            self.move_to(
                if i > step {
                    i - step
                } else {
                    0
                },
            );
        }
    }

    /// Goes a page on.
    pub fn move_right(&mut self)
        ensures
            final(self)@ == old(self)@.moved_right(),
            final(self)@.steady(old(self)@),
    {
        if self.ui.active_screen == Screen::Home {
            let i: usize = marked(self.ui.search_selected);
            let step: usize = if self.ui.visible_items == 0 {
                1
            } else {
                self.ui.visible_items
            };
            let n: usize = self.search_results.len();
            if i < n && step < n - i {
                self.move_to(i + step);
            } else if n > 0 {
                self.move_to(n - 1);
            }
        }
    }
}

// ---------------------------------------------------------------------------
// Choosing
// ---------------------------------------------------------------------------

/// The pair at an index.
pub open spec fn pair_at(v: Seq<(Seq<char>, Seq<char>)>, i: int) -> Option<(Seq<char>, Seq<char>)> {
    if 0 <= i < v.len() {
        Some(v[i])
    } else {
        None
    }
}

impl AppV {
    /// The subtitle that is marked: its name and its address.
    pub open spec fn subtitle_at_mark(self) -> Option<(Seq<char>, Seq<char>)> {
        pair_at(self.subtitle_list, AppV::marked(self.ui.subtitle_selected) as int)
    }

    /// With the subtitle of SubDL behind a marker being fetched.
    pub open spec fn subdl_resolved(self, marker: Seq<char>, next: ThenV) -> AppV {
        self.ask(
            EffectOf::ResolveSubdl {
                provider: self.ui.active_provider,
                subject_id: text_or(self.active_subject_id, Seq::empty()),
                season: self.ui.selected_season,
                episode: self.ui.selected_episode,
                subtitle_id: match subdl_parts(marker) {
                    Some((id, _)) => Some(id),
                    None => None,
                },
                lang: match subdl_parts(marker) {
                    Some((_, lang)) => lang,
                    None => "id"@,
                },
                next,
            },
        )
    }

    /// With the subtitle behind a marker being fetched.
    pub open spec fn subtitle_resolved(self, marker: Seq<char>, next: ThenV) -> AppV {
        self.ask(
            EffectOf::ResolveSubtitle {
                provider: self.ui.active_provider,
                subject_id: text_or(self.active_subject_id, Seq::empty()),
                season: self.ui.selected_season,
                episode: self.ui.selected_episode,
                file_id: match os_marker(marker) {
                    Some((id, _)) => Some(id as u32),
                    None => None,
                },
                lang: match os_marker(marker) {
                    Some((_, lang)) => lang,
                    None => "id"@,
                },
                next,
            },
        )
    }

    /// With a player chosen for what is to be played.
    pub open spec fn player_chosen(self) -> AppV {
        let m = AppV { ui: Ui { player_picker_popup: false, ..self.ui }, ..self };
        let i = AppV::marked(self.ui.player_picker_selected);
        if i < self.available_players.len() {
            m.player_started(self.available_players[i as int])
        } else {
            m
        }
    }

    /// With a player started for what is to be played.
    pub open spec fn player_started(self, player: PlayerKind) -> AppV {
        match self.player_picker_playback {
            Some(source) => AppV { player_picker_playback: None, ..self }.send(
                ActionOf::LaunchPlayback(player, source),
            ),
            None => match self.player_picker_link {
                Some(link) => AppV {
                    player_picker_link: None,
                    player_picker_subtitle: None,
                    ..self
                }.send(ActionOf::LaunchPlayer(player, link, self.player_picker_subtitle)),
                None => self,
            },
        }
    }

    /// With a stream played, with a subtitle or without.
    #[verifier::opaque]
    pub open spec fn played_with(self, link: Seq<char>, subtitle: Option<Seq<char>>) -> AppV {
        if self.ui.pending_open_with {
            self.send(ActionOf::ShowPlayerPicker(link, subtitle))
        } else {
            self.send(ActionOf::LaunchMpv(link, subtitle))
        }
    }

    /// With a subtitle chosen for playback.
    pub open spec fn subtitle_chosen(self) -> AppV {
        match self.pending_play_link {
            Some(link) => self.play_link_taken().choice_played(link, self.subtitle_at_mark()),
            None => self.play_link_taken(),
        }
    }

    /// With the subtitle popup closed and no stream waiting for it.
    pub open spec fn play_link_taken(self) -> AppV {
        AppV { ui: Ui { subtitle_popup: false, ..self.ui }, pending_play_link: None, ..self }
    }

    /// With a stream played, with the subtitle chosen if there is one.
    #[verifier::opaque]
    pub open spec fn choice_played(
        self,
        link: Seq<char>,
        choice: Option<(Seq<char>, Seq<char>)>,
    ) -> AppV {
        match choice {
            Some((_, url)) => self.played_with_choice(link, url),
            None => self.played_with(link, None),
        }
    }

    /// With a stream played with a subtitle, which is fetched first if a marker stands for it.
    #[verifier::opaque]
    pub open spec fn played_with_choice(self, link: Seq<char>, url: Seq<char>) -> AppV {
        if begins(url, "os:"@) {
            self.subtitle_resolved(
                url,
                ThenOf::Play { link, open_with: self.ui.pending_open_with },
            )
        } else if begins(url, "subdl:"@) {
            self.subdl_resolved(
                url,
                ThenOf::Play { link, open_with: self.ui.pending_open_with },
            )
        } else {
            self.played_with(link, Some(url))
        }
    }

    /// With a subtitle chosen for a download; while a season is downloaded, for all of it.
    #[verifier::opaque]
    pub open spec fn preference_kept(self) -> AppV {
        if self.ui.download_queue_total > 0 {
            AppV {
                season_subtitle_preference: match self.subtitle_at_mark() {
                    Some((name, _)) => if name == "None"@ {
                        None
                    } else {
                        Some(name)
                    },
                    None => None,
                },
                ..self
            }
        } else {
            self
        }
    }

    /// After a subtitle was chosen for a download.
    pub open spec fn download_subtitle_chosen(self) -> AppV {
        let m = AppV {
            ui: Ui { is_download_subtitle_popup: false, ..self.ui },
            ..self
        }.preference_kept();
        match self.subtitle_at_mark() {
            Some((_, url)) => m.downloaded_with_choice(url),
            None => m.send(ActionOf::DownloadStream(None)),
        }
    }

    /// With a stream downloaded with a subtitle, which is fetched first if a marker stands for it.
    #[verifier::opaque]
    pub open spec fn downloaded_with_choice(self, url: Seq<char>) -> AppV {
        if url.len() == 0 {
            self.send(ActionOf::DownloadStream(None))
        } else if begins(url, "os:"@) {
            self.subtitle_resolved(url, ThenOf::Download)
        } else if begins(url, "subdl:"@) {
            self.subdl_resolved(url, ThenOf::Download)
        } else {
            self.send(ActionOf::DownloadStream(Some(url)))
        }
    }

    /// With the details of a title opened.
    pub open spec fn title_opened(self, id: Seq<char>, title: Seq<char>) -> AppV {
        AppV {
            ui: Ui {
                active_screen: Screen::Details,
                is_loading: true,
                is_fetching_streams: false,
                resource_selected: None,
                language_selected: Some(0),
                season_selected: Some(0),
                episode_selected: Some(0),
                language_chosen: false,
                ..self.ui
            },
            selected_details: None,
            selected_resources: None,
            stream_error: None,
            available_seasons: Seq::empty(),
            ..self
        }.ask(EffectOf::ForgetPoster).say("Loading details for "@ + title + "..."@, 150).send(
            ActionOf::FetchDetails(id, false),
        )
    }

    /// After a result was chosen: a channel is played, a title is opened.
    pub open spec fn result_chosen(self, r: SearchResultV) -> AppV {
        if self.ui.is_tv_mode || r.stype == 3 {
            self.send(ActionOf::LaunchMpv(r.id, None))
        } else {
            self.title_opened(r.id, r.title)
        }
    }

    /// After the marked result was chosen.
    pub open spec fn result_submitted(self) -> AppV {
        match self.ui.search_selected {
            Some(i) => if self.ui.active_screen == Screen::Home && i < self.search_results.len() {
                self.result_chosen(self.search_results[i as int])
            } else {
                self
            },
            None => self,
        }
    }

    /// After the marked entry was chosen; while something is loaded, and just after the search
    /// field was edited, nothing is.
    pub open spec fn submitted(self) -> AppV {
        if self.ui.is_loading || !rested(self.ui.now, self.ui.last_search_edit, 500) {
            self
        } else if self.ui.player_picker_popup {
            self.player_chosen()
        } else if self.ui.subtitle_popup {
            self.subtitle_chosen()
        } else if self.ui.is_download_subtitle_popup {
            self.download_subtitle_chosen()
        } else {
            self.result_submitted()
        }
    }
}

/// Choosing a player changes neither the provider nor the queue of downloads.
proof fn lemma_player_chosen(m: AppV)
    ensures
        m.player_chosen().steady(m),
{
}

impl App {
    /// The subtitle that is marked: its name and its address.
    fn subtitle_at_mark(&self) -> (r: Option<(String, String)>)
        ensures
            match r {
                Some(p) => self@.subtitle_at_mark() == Some((p.0@, p.1@)),
                None => self@.subtitle_at_mark() is None,
            },
    {
        let i: usize = marked(self.ui.subtitle_selected);
        if i < self.subtitle_list.len() {
            let p = &self.subtitle_list[i];
            Some((copy_text(p.0.as_str()), copy_text(p.1.as_str())))
        } else {
            None
        }
    }

    /// Has the subtitle behind a marker fetched.
    fn resolve_subtitle(&mut self, marker: &str, next: Then)
        ensures
            final(self)@ == old(self)@.subtitle_resolved(marker@, next@),
            final(self)@.steady(old(self)@),
    {
        let subject_id = match self.subject() {
            Some(id) => id,
            None => String::new(),
        };
        let parsed = parse_os_marker(marker);
        let (file_id, lang): (Option<u32>, String) = match parsed {
            Some((id, lang)) => (Some(id), lang),
            None => (None, copy_text("id")),
        };
        let provider = self.ui.active_provider;
        let season: usize = self.ui.selected_season;
        let episode: usize = self.ui.selected_episode;
        self.ask(
            EffectOf::ResolveSubtitle {
                provider,
                subject_id,
                season,
                episode,
                file_id,
                lang,
                next,
            },
        );
    }

    /// Has the subtitle of SubDL behind a marker fetched.
    fn resolve_subdl(&mut self, marker: &str, next: Then)
        ensures
            final(self)@ == old(self)@.subdl_resolved(marker@, next@),
            final(self)@.steady(old(self)@),
    {
        let subject_id = match self.subject() {
            Some(id) => id,
            None => String::new(),
        };
        let parsed = parse_subdl_marker(marker);
        let (subtitle_id, lang): (Option<String>, String) = match parsed {
            Some((id, lang)) => (Some(id), lang),
            None => (None, copy_text("id")),
        };
        let provider = self.ui.active_provider;
        let season: usize = self.ui.selected_season;
        let episode: usize = self.ui.selected_episode;
        self.ask(
            EffectOf::ResolveSubdl {
                provider,
                subject_id,
                season,
                episode,
                subtitle_id,
                lang,
                next,
            },
        );
    }

    /// Starts a player for a source.
    fn start_source(&mut self, player: PlayerKind)
        requires
            old(self)@.player_picker_playback is Some,
        ensures
            final(self)@ == old(self)@.player_started(player),
    {
        match self.player_picker_playback.take() {
            Some(source) => self.send(ActionOf::LaunchPlayback(player, source)),
            None => {},
        }
    }

    /// Starts a player for a stream.
    fn start_link(&mut self, player: PlayerKind)
        requires
            old(self)@.player_picker_playback is None,
            old(self)@.player_picker_link is Some,
        ensures
            final(self)@ == old(self)@.player_started(player),
    {
        let link = self.player_picker_link.take();
        let subtitle = self.player_picker_subtitle.take();
        match link {
            Some(link) => self.send(ActionOf::LaunchPlayer(player, link, subtitle)),
            None => {},
        }
    }

    /// Starts a player for what is to be played.
    fn start_player(&mut self, player: PlayerKind)
        ensures
            final(self)@ == old(self)@.player_started(player),
            final(self)@.steady(old(self)@),
    {
        if self.player_picker_playback.is_some() {
            self.start_source(player);
        } else if self.player_picker_link.is_some() {
            self.start_link(player);
        }
    }

    /// Hides the player picker.
    pub fn hide_picker(&mut self)
        ensures
            final(self)@ == (AppV {
                ui: Ui { player_picker_popup: false, ..old(self)@.ui },
                ..old(self)@
            }),
            final(self)@.steady(old(self)@),
    {
        self.ui = Ui { player_picker_popup: false, ..self.ui };
    }

    /// Chooses a player for what is to be played.
    fn choose_player(&mut self)
        ensures
            final(self)@ == old(self)@.player_chosen(),
    {
        let i: usize = marked(self.ui.player_picker_selected);
        self.hide_picker();
        if i < self.available_players.len() {
            let player = self.available_players[i];
            self.start_player(player);
        }
    }

    /// Plays a stream, with a subtitle or without.
    fn play_with(&mut self, link: String, subtitle: Option<String>)
        ensures
            final(self)@ == old(self)@.played_with(link@, text_opt(subtitle)),
            final(self)@.steady(old(self)@),
    {
        proof {
            reveal(AppV::played_with);
        }
        if self.ui.pending_open_with {
            self.send(ActionOf::ShowPlayerPicker(link, subtitle));
        } else {
            self.send(ActionOf::LaunchMpv(link, subtitle));
        }
    }

    /// Closes the subtitle popup and hands out the stream to play.
    fn take_play_link(&mut self) -> (r: Option<String>)
        ensures
            text_opt(r) == old(self)@.pending_play_link,
            final(self)@ == old(self)@.play_link_taken(),
            final(self)@.steady(old(self)@),
    {
        self.ui = Ui { subtitle_popup: false, ..self.ui };
        self.pending_play_link.take()
    }

    /// Plays a stream with a subtitle, which is fetched first if a marker stands for it.
    fn play_with_choice(&mut self, link: String, url: String)
        ensures
            final(self)@ == old(self)@.played_with_choice(link@, url@),
            final(self)@.steady(old(self)@),
    {
        proof {
            reveal(AppV::played_with_choice);
        }
        if begins_with(url.as_str(), "os:") {
            let open_with = self.ui.pending_open_with;
            self.resolve_subtitle(url.as_str(), ThenOf::Play { link, open_with });
        } else if begins_with(url.as_str(), "subdl:") {
            let open_with = self.ui.pending_open_with;
            self.resolve_subdl(url.as_str(), ThenOf::Play { link, open_with });
        } else {
            self.play_with(link, Some(url));
        }
    }

    /// Chooses a subtitle for playback.
    fn choose_subtitle(&mut self)
        ensures
            final(self)@ == old(self)@.subtitle_chosen(),
            final(self)@.steady(old(self)@),
    {
        let subtitle = self.subtitle_at_mark();
        let link = self.take_play_link();
        match link {
            Some(link) => self.play_choice(link, subtitle),
            None => {},
        }
    }

    /// Plays a stream, with the subtitle chosen if there is one.
    fn play_choice(&mut self, link: String, choice: Option<(String, String)>)
        ensures
            final(self)@ == old(self)@.choice_played(
                link@,
                match choice {
                    Some(p) => Some((p.0@, p.1@)),
                    None => None,
                },
            ),
            final(self)@.steady(old(self)@),
    {
        proof {
            reveal(AppV::choice_played);
        }
        match choice {
            Some((_, url)) => self.play_with_choice(link, url),
            None => self.play_with(link, None),
        }
    }

    /// The name to keep of a subtitle.
    fn kept_name(&self) -> (r: Option<String>)
        ensures
            text_opt(r) == (match self@.subtitle_at_mark() {
                Some((name, _)) => if name == "None"@ {
                    None
                } else {
                    Some(name)
                },
                None => None,
            }),
    {
        match self.subtitle_at_mark() {
            Some((name, _)) => if same_text(name.as_str(), "None") {
                None
            } else {
                Some(name)
            },
            None => None,
        }
    }

    /// Keeps the subtitle chosen, while a season is downloaded.
    fn keep_preference(&mut self)
        ensures
            final(self)@ == old(self)@.preference_kept(),
            final(self)@.steady(old(self)@),
    {
        proof {
            reveal(AppV::preference_kept);
        }
        if self.ui.download_queue_total > 0 {
            let name = self.kept_name();
            self.season_subtitle_preference = name;
        }
    }

    /// Hides the subtitle popup of a download.
    fn hide_download_subtitles(&mut self)
        ensures
            final(self)@ == (AppV {
                ui: Ui { is_download_subtitle_popup: false, ..old(self)@.ui },
                ..old(self)@
            }),
            final(self)@.steady(old(self)@),
    {
        self.ui = Ui { is_download_subtitle_popup: false, ..self.ui };
    }

    /// Downloads a stream with a subtitle, which is fetched first if a marker stands for it.
    fn download_with_choice(&mut self, url: String)
        ensures
            final(self)@ == old(self)@.downloaded_with_choice(url@),
            final(self)@.steady(old(self)@),
    {
        proof {
            reveal(AppV::downloaded_with_choice);
        }
        if is_blank(url.as_str()) {
            self.send(ActionOf::DownloadStream(None));
        } else if begins_with(url.as_str(), "os:") {
            self.resolve_subtitle(url.as_str(), ThenOf::Download);
        } else if begins_with(url.as_str(), "subdl:") {
            self.resolve_subdl(url.as_str(), ThenOf::Download);
        } else {
            self.send(ActionOf::DownloadStream(Some(url)));
        }
    }

    /// Chooses a subtitle for a download.
    fn choose_download_subtitle(&mut self)
        ensures
            final(self)@ == old(self)@.download_subtitle_chosen(),
            final(self)@.steady(old(self)@),
    {
        let subtitle = self.subtitle_at_mark();
        self.hide_download_subtitles();
        self.keep_preference();
        match subtitle {
            Some((_, url)) => self.download_with_choice(url),
            None => self.send(ActionOf::DownloadStream(None)),
        }
    }

    /// Opens the details of a title.
    fn open_title(&mut self, id: String, title: &str)
        ensures
            final(self)@ == old(self)@.title_opened(id@, title@),
    {
        self.ui = Ui {
            active_screen: Screen::Details,
            is_loading: true,
            is_fetching_streams: false,
            resource_selected: None,
            language_selected: Some(0),
            season_selected: Some(0),
            episode_selected: Some(0),
            language_chosen: false,
            ..self.ui
        };
        self.selected_details = None;
        self.selected_resources = None;
        self.stream_error = None;
        self.available_seasons = Vec::new();
        assert(json_list(self.available_seasons@) =~= Seq::empty());
        self.ask(EffectOf::ForgetPoster);
        let text = cat3("Loading details for ", title, "...");
        self.say(text.as_str(), 150);
        self.send(ActionOf::FetchDetails(id, false));
    }

    /// Chooses the marked result: a channel is played, a title is opened.
    fn submit_result(&mut self)
        ensures
            final(self)@ == old(self)@.result_submitted(),
            final(self)@.steady(old(self)@),
    {
        if self.ui.active_screen != Screen::Home {
            return ;
        }
        match self.ui.search_selected {
            Some(i) => {
                if i < self.search_results.len() {
                    let id = copy_text(self.search_results[i].id.as_str());
                    let title = copy_text(self.search_results[i].title.as_str());
                    let channel = self.ui.is_tv_mode || self.search_results[i].stype == 3;
                    if channel {
                        self.send(ActionOf::LaunchMpv(id, None));
                    } else {
                        self.open_title(id, title.as_str());
                    }
                }
            },
            None => {},
        }
    }

    /// Chooses the marked entry.
    pub fn submit(&mut self)
        ensures
            final(self)@ == old(self)@.submitted(),
            final(self)@.steady(old(self)@),
    {
        if self.ui.is_loading || !has_rested(self.ui.now, self.ui.last_search_edit, 500) {
            return ;
        }
        if self.ui.player_picker_popup {
            proof {
                lemma_player_chosen(self@);
            }
            self.choose_player();
        } else if self.ui.subtitle_popup {
            self.choose_subtitle();
        } else if self.ui.is_download_subtitle_popup {
            self.choose_download_subtitle();
        } else {
            self.submit_result();
        }
    }
}

/// What follows once a subtitle was fetched, or could not be.
pub open spec fn after_subtitle(next: ThenV, resolved: Option<Seq<char>>) -> ActionV {
    match next {
        ThenOf::Play { link, open_with } => if open_with {
            ActionOf::ShowPlayerPicker(link, resolved)
        } else {
            ActionOf::LaunchMpv(link, resolved)
        },
        ThenOf::Download => ActionOf::DownloadStream(resolved),
    }
}

/// What follows once a subtitle was fetched, or could not be.
pub fn subtitle_action(next: Then, resolved: Option<String>) -> (r: Action)
    ensures
        r@ == after_subtitle(next@, text_opt(resolved)),
{
    match next {
        ThenOf::Play { link, open_with } => if open_with {
            ActionOf::ShowPlayerPicker(link, resolved)
        } else {
            ActionOf::LaunchMpv(link, resolved)
        },
        ThenOf::Download => ActionOf::DownloadStream(resolved),
    }
}

} // verus!
