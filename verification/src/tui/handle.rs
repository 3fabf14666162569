//! What happens: every action, and what it changes.
use vstd::prelude::*;
use crate::json::json_opt;
use crate::strings::text_opt;
use crate::tui::embedded::tracks;
use crate::tui::keys::is_ctrl;
use crate::tui::state::{
    Action, ActionOf, App, AppV, EffectOf, Picture, Surroundings, Ui, marked, pairs,
};
use crate::tui::streams::{episodes_ahead, find_page};

verus! {

impl AppV {
    /// With the screen to be drawn again.
    pub open spec fn dirtied(self) -> AppV {
        AppV { ui: Ui { dirty: true, ..self.ui }, ..self }
    }

    /// With no picture ready to draw.
    pub open spec fn pictures_dropped(self) -> AppV {
        self.sixel_redraw().ask(EffectOf::Forget(Picture::PosterProtocol)).ask(
            EffectOf::Forget(Picture::SearchPosters),
        )
    }

    /// After one of the plain commands.
    #[verifier::opaque]
    pub open spec fn command_step(self, a: Action) -> AppV {
        match a {
            ActionOf::ToggleHelp => self.help_toggled(),
            ActionOf::ToggleTvMode => self.tv_toggled(),
            ActionOf::ShowTvWizard => self.wizard_shown(),
            ActionOf::TvChannelsLoaded(v) => self.channels_loaded(v@),
            ActionOf::GoBack => self.gone_back(),
            ActionOf::Refresh => self.refreshed(),
            ActionOf::ClearCache => self.ask(EffectOf::ClearAllCache).say(
                "Cache cleared completely."@,
                150,
            ),
            ActionOf::SelectLanguage(i) => self.language_selected(i as int),
            _ => self,
        }
    }

    /// After something about searching or the home page.
    #[verifier::opaque]
    pub open spec fn browse_step(self, a: Action) -> AppV {
        match a {
            ActionOf::Suggest(q) => self.suggested(q@),
            ActionOf::SuggestSuccess(q, j) => self.suggestions_came(q@, j@),
            ActionOf::SelectSuggestion { query } => self.send(
                ActionOf::Search { query: query@, force_refresh: false },
            ),
            ActionOf::Search { query, force_refresh } => self.searched(query@, force_refresh),
            ActionOf::FetchHomepage { tab_id, page } => self.homepage_wanted(tab_id@, page),
            ActionOf::SearchSuccess { context, query, payload } => self.results_came(
                context,
                query@,
                payload@,
            ),
            ActionOf::SearchFailure(c, e) => self.search_failed(c, e@),
            ActionOf::HomepageSuccess { tab_id, page, payload } => self.homepage_came(
                tab_id@,
                page,
                payload@,
            ),
            ActionOf::HomepageFailure(e) => AppV {
                ui: Ui { is_loading: false, ..self.ui },
                ..self
            }.say("Discover failed: "@ + e@, 150),
            _ => self,
        }
    }

    /// After a move, or a choice.
    #[verifier::opaque]
    pub open spec fn move_step(self, a: Action) -> AppV {
        match a {
            ActionOf::MoveUp => self.moved_up(),
            ActionOf::TabPane => self.pane_cycled(true),
            ActionOf::BackTabPane => self.pane_cycled(false),
            ActionOf::MoveDown => self.moved_down(),
            ActionOf::MoveLeft => self.moved_left(),
            ActionOf::MoveRight => self.moved_right(),
            ActionOf::Submit => self.submitted(),
            _ => self,
        }
    }

    /// After something about previews and details.
    #[verifier::opaque]
    pub open spec fn details_step(self, a: Action) -> AppV {
        match a {
            ActionOf::FetchDetails(id, f) => self.details_wanted(id@, f),
            ActionOf::FetchPreview(id) => self.preview_wanted(id@),
            ActionOf::PreviewLookedUp(id, j, k) => self.preview_looked_up(id@, json_opt(j), k),
            ActionOf::PreviewSuccess(id, j, k) => self.preview_came(id@, j@, k),
            ActionOf::PreviewFailure(e) => self.preview_loading_set(false).say(
                "Preview failed: "@ + e@,
                150,
            ),
            ActionOf::PosterSuccess(id) => self.poster_came(id@),
            ActionOf::DetailsSuccess(c, id, j, p) => self.details_came(c, id@, j@, p),
            ActionOf::DetailsFailure(c, e) => self.details_failed(c, e@),
            ActionOf::SetStatus(s) => self.status_set(s@),
            _ => self,
        }
    }

    /// After something about streams.
    #[verifier::opaque]
    pub open spec fn streams_step(self, a: Action) -> AppV {
        match a {
            ActionOf::InitStreamPool(id) => self.pool_wanted(id@),
            ActionOf::StreamPoolInitialized(id, v) => self.pool_initialized(id@, v@),
            ActionOf::FetchEpisodeStreams { subject_id, season, episode, force_refresh } =>
                self.streams_wanted(subject_id@, season, episode, force_refresh),
            ActionOf::StreamCacheRead(id, se, ep, j) => self.cache_read(id@, se, ep, json_opt(j)),
            ActionOf::EpisodeStreamsReady(c, r, id, se, ep, j) => self.streams_came(
                c,
                r,
                id@,
                se,
                ep,
                j@,
            ),
            ActionOf::EpisodeStreamsFailed(c, r, id, se, ep, e) => self.streams_failed(
                c,
                r,
                id@,
                se,
                ep,
                e@,
            ),
            _ => self,
        }
    }

    /// After something about playing.
    #[verifier::opaque]
    pub open spec fn playback_step(self, a: Action) -> AppV {
        match a {
            ActionOf::PlayStream(b) => self.stream_played(b),
            ActionOf::ShowSubtitlePopup(l, j, b) => self.subtitle_popup_asked(l@, j@, b),
            ActionOf::SubdlReady { context_id, candidates, is_download } => self.subdl_came(
                context_id@,
                pairs(candidates@),
                is_download,
            ),
            ActionOf::SubdlFailed { context_id, is_download, error } => self.subdl_failed(
                context_id@,
                is_download,
                error@,
            ),
            ActionOf::StreamProbed(u, r) => self.probed(
                u@,
                match r {
                    Some(p) => Some(tracks(p.tracks@)),
                    None => None,
                },
            ),
            ActionOf::PlayReadRelease(j, readable, o) => self.read_release_played(j@, readable, o),
            ActionOf::OpenSubtitlesReady { context_id, candidates, is_download } => self.os_came(
                context_id@,
                pairs(candidates@),
                is_download,
            ),
            ActionOf::OpenSubtitlesFailed { context_id, is_download, error } => self.os_failed(
                context_id@,
                is_download,
                error@,
            ),
            ActionOf::LaunchMpv(l, s) => self.first_player_started(l@, text_opt(s)),
            ActionOf::ShowPlayerPicker(l, s) => self.player_picker_asked(l@, text_opt(s)),
            ActionOf::LaunchPlayer(k, l, s) => self.picker_hidden().ask(
                EffectOf::StartPlayer(k, l@, text_opt(s)),
            ),
            ActionOf::ShowPlaybackPicker(s) => self.playback_picker_asked(s@),
            ActionOf::LaunchPlayback(k, s) => self.playback_launched(k, s@),
            ActionOf::PlayersDetected(v) => AppV { available_players: v@, ..self },
            _ => self,
        }
    }

    /// After something about asking for a download.
    #[verifier::opaque]
    pub open spec fn asking_step(self, a: Action) -> AppV {
        match a {
            ActionOf::ShowDownloadSubtitlePopup(j) => self.download_popup_asked(j@),
            ActionOf::DownloadStream(s) => self.stream_downloaded(text_opt(s)),
            ActionOf::DownloadReadRelease(j, readable, s) => self.read_release_downloaded(
                j@,
                readable,
                text_opt(s),
            ),
            ActionOf::StartDownload(s, l) => self.download_started(text_opt(s), text_opt(l)),
            ActionOf::PromptDownloadEpisode => self.episode_prompted(),
            ActionOf::ConfirmDownloadEpisode => self.episode_confirmed(),
            ActionOf::PromptDownloadSeason => self.season_prompted(),
            ActionOf::ConfirmDownloadSeason => self.season_confirmed(),
            _ => self,
        }
    }

    /// After something about a download or an update.
    #[verifier::opaque]
    pub open spec fn download_step(self, a: Action) -> AppV {
        match a {
            ActionOf::ProcessDownloadQueue => self.queue_processed(),
            ActionOf::UpdateDownload(p, s) => self.download_updated(p, text_opt(s)),
            ActionOf::DownloadCompleted(s) => self.download_completed(s@),
            ActionOf::DownloadFailed(s) => self.queue_dropped().notify(
                crate::tui::state::NotificationKind::Error,
                "Download failed"@,
                "Partial file preserved. "@ + s@,
            ),
            ActionOf::DownloadPaused(s) => self.queue_dropped().notify(
                crate::tui::state::NotificationKind::Warning,
                "Download paused"@,
                "Start again to resume "@ + s@ + ".part"@,
            ),
            ActionOf::ClearDownload => self.download_cleared(),
            ActionOf::CancelDownload => self.download_cancelled(),
            ActionOf::CheckForUpdates => self.ask(EffectOf::CheckForUpdates),
            ActionOf::UpdateAvailable(v) => self.update_came(v@),
            _ => self,
        }
    }

    /// After an action, once it is known whether the screen is drawn again.
    pub open spec fn acted(self, a: Action) -> AppV {
        match a {
            ActionOf::Tick(n) => self.ticked(n),
            ActionOf::Quit | ActionOf::SearchPosterLoaded => self,
            ActionOf::FocusChange | ActionOf::Resize => self.pictures_dropped(),
            ActionOf::SwitchProvider(p) => self.provider_switched(p),
            ActionOf::Key(k) => self.key_pressed(k),
            ActionOf::ToggleHelp | ActionOf::ToggleTvMode | ActionOf::ShowTvWizard
            | ActionOf::TvChannelsLoaded(_) | ActionOf::GoBack | ActionOf::Refresh
            | ActionOf::ClearCache | ActionOf::SelectLanguage(_) => self.command_step(a),
            ActionOf::Suggest(_) | ActionOf::SuggestSuccess(..) | ActionOf::SelectSuggestion { .. }
            | ActionOf::Search { .. } | ActionOf::FetchHomepage { .. } | ActionOf::SearchSuccess {
                ..
            } | ActionOf::SearchFailure(..) | ActionOf::HomepageSuccess { .. }
            | ActionOf::HomepageFailure(_) => self.browse_step(a),
            ActionOf::MoveUp | ActionOf::TabPane | ActionOf::BackTabPane | ActionOf::MoveDown
            | ActionOf::MoveLeft | ActionOf::MoveRight | ActionOf::Submit => self.move_step(a),
            ActionOf::FetchDetails(..) | ActionOf::FetchPreview(_) | ActionOf::PreviewLookedUp(..)
            | ActionOf::PreviewSuccess(..) | ActionOf::PreviewFailure(_) | ActionOf::PosterSuccess(
                _,
            ) | ActionOf::DetailsSuccess(..) | ActionOf::DetailsFailure(..) | ActionOf::SetStatus(
                _,
            ) => self.details_step(a),
            ActionOf::InitStreamPool(_) | ActionOf::StreamPoolInitialized(..)
            | ActionOf::FetchEpisodeStreams { .. } | ActionOf::StreamCacheRead(..)
            | ActionOf::EpisodeStreamsReady(..) | ActionOf::EpisodeStreamsFailed(..) =>
                self.streams_step(a),
            ActionOf::PlayStream(_) | ActionOf::ShowSubtitlePopup(..)
            | ActionOf::SubdlReady { .. } | ActionOf::SubdlFailed { .. } | ActionOf::StreamProbed(..)
            | ActionOf::PlayReadRelease(..) | ActionOf::OpenSubtitlesReady { .. }
            | ActionOf::OpenSubtitlesFailed { .. }
            | ActionOf::LaunchMpv(..) | ActionOf::ShowPlayerPicker(..) | ActionOf::LaunchPlayer(..)
            | ActionOf::ShowPlaybackPicker(_) | ActionOf::LaunchPlayback(..)
            | ActionOf::PlayersDetected(_) => self.playback_step(a),
            ActionOf::ShowDownloadSubtitlePopup(_) | ActionOf::DownloadStream(_)
            | ActionOf::DownloadReadRelease(..) | ActionOf::StartDownload(..)
            | ActionOf::PromptDownloadEpisode
            | ActionOf::ConfirmDownloadEpisode | ActionOf::PromptDownloadSeason
            | ActionOf::ConfirmDownloadSeason => self.asking_step(a),
            ActionOf::ProcessDownloadQueue | ActionOf::UpdateDownload(..)
            | ActionOf::DownloadCompleted(_) | ActionOf::DownloadFailed(_)
            | ActionOf::DownloadPaused(_) | ActionOf::ClearDownload | ActionOf::CancelDownload
            | ActionOf::CheckForUpdates | ActionOf::UpdateAvailable(_) => self.download_step(a),
        }
    }

    /// Whether an action can be taken: where it counts on, the count does not pass what a machine
    /// can hold, and a player picker has players.
    pub open spec fn accepts(self, a: Action) -> bool {
        match a {
            ActionOf::Key(_) => AppV::marked(self.ui.episode_selected) < usize::MAX
                && self.ui.suggest_index != Some(usize::MAX),
            ActionOf::HomepageSuccess { tab_id, page, .. } => self.shows_tab(tab_id@) ==> 1 <= page
                && (page - 1) * 20 <= usize::MAX,
            ActionOf::MoveUp => self.ui.player_picker_popup && self.ui.player_picker_selected
                == Some(0usize) ==> self.available_players.len() > 0,
            ActionOf::MoveDown => (self.ui.player_picker_popup && self.ui.player_picker_selected
                is Some ==> self.available_players.len() > 0) && self.ui.current_page < usize::MAX,
            ActionOf::InitStreamPool(_) => AppV::marked(self.ui.episode_selected) < usize::MAX,
            ActionOf::FetchEpisodeStreams { subject_id, season, episode, force_refresh } =>
                self.hunts(subject_id@, season, episode, force_refresh) ==> episodes_ahead(
                    self.available_seasons,
                    season,
                    episode,
                ) <= usize::MAX,
            ActionOf::ProcessDownloadQueue => self.ui.download_progress is None
                ==> self.download_queue.len() <= self.ui.download_queue_total + 1,
            _ => true,
        }
    }
}

/// Whether an action chooses a provider.
pub open spec fn chooses_provider(a: Action) -> bool {
    a is SwitchProvider || (a matches ActionOf::Key(k) && is_ctrl(k, 'p'))
}

/// Whether an action has the screen drawn again in any case.
pub open spec fn redraws(a: Action) -> bool {
    !(a is Tick) && !(a is UpdateDownload)
}

impl App {
    /// Whether an action can be taken.
    pub fn accepts(&self, a: &Action) -> (r: bool)
        ensures
            r == self@.accepts(*a),
    {
        match a {
            ActionOf::Key(_) => {
                let held = match self.ui.suggest_index {
                    Some(i) => i < usize::MAX,
                    None => true,
                };
                marked(self.ui.episode_selected) < usize::MAX && held
            },
            ActionOf::HomepageSuccess { tab_id, page, .. } => {
                let p: usize = *page;
                !self.on_tab(tab_id.as_str()) || (1 <= p && (p - 1) as u128 * 20
                    <= usize::MAX as u128)
            },
            ActionOf::MoveUp => {
                let first = match self.ui.player_picker_selected {
                    Some(i) => i == 0,
                    None => false,
                };
                !(self.ui.player_picker_popup && first) || self.available_players.len() > 0
            },
            ActionOf::MoveDown => {
                let any = self.ui.player_picker_popup && self.ui.player_picker_selected.is_some();
                (!any || self.available_players.len() > 0) && self.ui.current_page < usize::MAX
            },
            ActionOf::InitStreamPool(_) => marked(self.ui.episode_selected) < usize::MAX,
            ActionOf::FetchEpisodeStreams { subject_id, season, episode, force_refresh } => {
                !self.needs_hunt(subject_id.as_str(), *season, *episode, *force_refresh)
                    || find_page(&self.available_seasons, *season, *episode).is_some()
            },
            ActionOf::ProcessDownloadQueue => {
                let n: usize = self.download_queue.len();
                self.ui.download_progress.is_some() || n == 0 || n - 1
                    <= self.ui.download_queue_total
            },
            _ => true,
        }
    }

    /// Has the screen drawn again.
    fn dirty(&mut self)
        ensures
            final(self)@ == old(self)@.dirtied(),
    {
        self.ui = Ui { dirty: true, ..self.ui };
    }

    /// Drops the pictures that are ready to draw.
    fn drop_pictures(&mut self)
        ensures
            final(self)@ == old(self)@.pictures_dropped(),
            final(self)@.steady(old(self)@),
    {
        self.prepare_sixel_redraw();
        self.ask(EffectOf::Forget(Picture::PosterProtocol));
        self.ask(EffectOf::Forget(Picture::SearchPosters));
    }

    /// One of the plain commands.
    fn step_command(&mut self, a: Action)
        ensures
            final(self)@ == old(self)@.command_step(a),
            final(self)@.steady(old(self)@),
    {
        proof {
            reveal(AppV::command_step);
        }
        match a {
            ActionOf::ToggleHelp => self.toggle_help(),
            ActionOf::ToggleTvMode => self.toggle_tv_mode(),
            ActionOf::ShowTvWizard => self.show_tv_wizard(),
            ActionOf::TvChannelsLoaded(v) => self.tv_channels_loaded(v),
            ActionOf::GoBack => self.go_back(),
            ActionOf::Refresh => self.refresh(),
            ActionOf::ClearCache => self.clear_cache(),
            ActionOf::SelectLanguage(i) => self.select_language(i),
            _ => {},
        }
    }

    /// Something about searching or the home page.
    fn step_browse(&mut self, a: Action)
        requires
            old(self)@.accepts(a),
        ensures
            final(self)@ == old(self)@.browse_step(a),
            final(self)@.steady(old(self)@),
    {
        proof {
            reveal(AppV::browse_step);
        }
        match a {
            ActionOf::Suggest(q) => self.suggest(q),
            ActionOf::SuggestSuccess(q, j) => self.suggest_success(q, j),
            ActionOf::SelectSuggestion { query } => self.send(
                ActionOf::Search { query, force_refresh: false },
            ),
            ActionOf::Search { query, force_refresh } => self.search(query, force_refresh),
            ActionOf::FetchHomepage { tab_id, page } => self.fetch_homepage(tab_id, page),
            ActionOf::SearchSuccess { context, query, payload } => self.search_success(
                context,
                query,
                payload,
            ),
            ActionOf::SearchFailure(c, e) => self.search_failure(c, e.as_str()),
            ActionOf::HomepageSuccess { tab_id, page, payload } => self.homepage_success(
                tab_id.as_str(),
                page,
                &payload,
            ),
            ActionOf::HomepageFailure(e) => self.homepage_failure(e.as_str()),
            _ => {},
        }
    }

    /// A move, or a choice.
    fn step_move(&mut self, a: Action)
        requires
            old(self)@.accepts(a),
        ensures
            final(self)@ == old(self)@.move_step(a),
            final(self)@.steady(old(self)@),
    {
        proof {
            reveal(AppV::move_step);
        }
        match a {
            ActionOf::MoveUp => self.move_up(),
            ActionOf::TabPane => self.cycle_details_pane(true),
            ActionOf::BackTabPane => self.cycle_details_pane(false),
            ActionOf::MoveDown => self.move_down(),
            ActionOf::MoveLeft => self.move_left(),
            ActionOf::MoveRight => self.move_right(),
            ActionOf::Submit => self.submit(),
            _ => {},
        }
    }

    /// Something about previews and details.
    fn step_details(&mut self, a: Action)
        ensures
            final(self)@ == old(self)@.details_step(a),
            final(self)@.steady(old(self)@),
    {
        proof {
            reveal(AppV::details_step);
        }
        match a {
            ActionOf::FetchDetails(id, f) => self.fetch_details(id, f),
            ActionOf::FetchPreview(id) => self.fetch_preview(id),
            ActionOf::PreviewLookedUp(id, j, k) => self.preview_looked_up(id, j, k),
            ActionOf::PreviewSuccess(id, j, k) => self.preview_success(id, j, k),
            ActionOf::PreviewFailure(e) => self.preview_failure(e.as_str()),
            ActionOf::PosterSuccess(id) => self.poster_success(id),
            ActionOf::DetailsSuccess(c, id, j, p) => self.details_success(c, id, j, p),
            ActionOf::DetailsFailure(c, e) => self.details_failure(c, e.as_str()),
            ActionOf::SetStatus(s) => self.set_status(s.as_str()),
            _ => {},
        }
    }

    /// Something about streams.
    fn step_streams(&mut self, a: Action)
        requires
            old(self)@.accepts(a),
        ensures
            final(self)@ == old(self)@.streams_step(a),
            final(self)@.steady(old(self)@),
    {
        proof {
            reveal(AppV::streams_step);
        }
        match a {
            ActionOf::InitStreamPool(id) => self.init_stream_pool(id),
            ActionOf::StreamPoolInitialized(id, v) => self.stream_pool_initialized(id, v),
            ActionOf::FetchEpisodeStreams { subject_id, season, episode, force_refresh } =>
                self.fetch_episode_streams(subject_id, season, episode, force_refresh),
            ActionOf::StreamCacheRead(id, se, ep, j) => self.stream_cache_read(id, se, ep, j),
            ActionOf::EpisodeStreamsReady(c, r, id, se, ep, j) => self.episode_streams_ready(
                c,
                r,
                id.as_str(),
                se,
                ep,
                &j,
            ),
            ActionOf::EpisodeStreamsFailed(c, r, id, se, ep, e) => self.episode_streams_failed(
                c,
                r,
                id.as_str(),
                se,
                ep,
                e.as_str(),
            ),
            _ => {},
        }
    }

    /// Something about playing.
    fn step_playback(&mut self, a: Action)
        ensures
            final(self)@ == old(self)@.playback_step(a),
            final(self)@.steady(old(self)@),
    {
        proof {
            reveal(AppV::playback_step);
        }
        match a {
            ActionOf::PlayStream(b) => self.play_stream(b),
            ActionOf::ShowSubtitlePopup(l, j, b) => self.show_subtitle_popup(l, &j, b),
            ActionOf::SubdlReady { context_id, candidates, is_download } => self.subdl_ready(
                context_id,
                candidates,
                is_download,
            ),
            ActionOf::SubdlFailed { context_id, is_download, error } => self.subdl_failed(
                context_id,
                is_download,
                error.as_str(),
            ),
            ActionOf::StreamProbed(u, r) => self.stream_probed(u.as_str(), r),
            ActionOf::PlayReadRelease(j, readable, o) => self.play_read_release(j, readable, o),
            ActionOf::OpenSubtitlesReady { context_id, candidates, is_download } =>
                self.open_subtitles_ready(context_id.as_str(), candidates, is_download),
            ActionOf::OpenSubtitlesFailed { context_id, is_download, error } =>
                self.open_subtitles_failed(context_id.as_str(), is_download, error.as_str()),
            ActionOf::LaunchMpv(l, s) => self.launch_mpv(l, s),
            ActionOf::ShowPlayerPicker(l, s) => self.show_player_picker(l, s),
            ActionOf::LaunchPlayer(k, l, s) => self.launch_player(k, l, s),
            ActionOf::ShowPlaybackPicker(s) => self.show_playback_picker(s),
            ActionOf::LaunchPlayback(k, s) => self.launch_playback(k, s),
            ActionOf::PlayersDetected(v) => self.players_detected(v),
            _ => {},
        }
    }

    /// Something about asking for a download.
    fn step_asking(&mut self, a: Action)
        ensures
            final(self)@ == old(self)@.asking_step(a),
            final(self)@.fitting(old(self)@),
    {
        proof {
            reveal(AppV::asking_step);
        }
        match a {
            ActionOf::ShowDownloadSubtitlePopup(j) => self.show_download_subtitle_popup(&j),
            ActionOf::DownloadStream(s) => self.download_stream(s),
            ActionOf::DownloadReadRelease(j, readable, s) => self.download_read_release(
                j,
                readable,
                s,
            ),
            ActionOf::StartDownload(s, l) => self.start_resilient_download(s, l),
            ActionOf::PromptDownloadEpisode => self.prompt_download_episode(),
            ActionOf::ConfirmDownloadEpisode => self.confirm_download_episode(),
            ActionOf::PromptDownloadSeason => self.prompt_download_season(),
            ActionOf::ConfirmDownloadSeason => self.confirm_download_season(),
            _ => {},
        }
    }

    /// Something about a download or an update.
    fn step_download(&mut self, a: Action)
        requires
            old(self)@.accepts(a),
        ensures
            final(self)@ == old(self)@.download_step(a),
            final(self)@.fitting(old(self)@),
    {
        proof {
            reveal(AppV::download_step);
        }
        match a {
            ActionOf::ProcessDownloadQueue => self.process_download_queue(),
            ActionOf::UpdateDownload(p, s) => self.update_download(p, s),
            ActionOf::DownloadCompleted(s) => self.download_completed(s.as_str()),
            ActionOf::DownloadFailed(s) => self.download_failed(s.as_str()),
            ActionOf::DownloadPaused(s) => self.download_paused(s.as_str()),
            ActionOf::ClearDownload => self.clear_download(),
            ActionOf::CancelDownload => self.cancel_download(),
            ActionOf::CheckForUpdates => self.ask(EffectOf::CheckForUpdates),
            ActionOf::UpdateAvailable(v) => self.update_result(v.as_str()),
            _ => {},
        }
    }

    /// Takes an action. The result says whether the program ends.
    pub fn handle_action(&mut self, a: Action) -> (quit: bool)
        requires
            old(self)@.accepts(a),
        ensures
            final(self)@ == (if redraws(a) {
                old(self)@.dirtied().acted(a)
            } else {
                old(self)@.acted(a)
            }),
            quit == (a is Quit || (a matches ActionOf::Key(k) && is_ctrl(k, 'c'))),
            old(self)@.queue_fits() ==> final(self)@.queue_fits(),
            chooses_provider(a) || final(self)@.context() == old(self)@.context(),
    {
        let redraw = match &a {
            ActionOf::Tick(_) => false,
            ActionOf::UpdateDownload(..) => false,
            _ => true,
        };
        if redraw {
            self.dirty();
        }
        assert(self@.accepts(a));
        self.act(a)
    }

    /// Takes an action, once it is known whether the screen is drawn again.
    fn act(&mut self, a: Action) -> (quit: bool)
        requires
            old(self)@.accepts(a),
        ensures
            final(self)@ == old(self)@.acted(a),
            quit == (a is Quit || (a matches ActionOf::Key(k) && is_ctrl(k, 'c'))),
            old(self)@.queue_fits() ==> final(self)@.queue_fits(),
            chooses_provider(a) || final(self)@.context() == old(self)@.context(),
    {
        match a {
            ActionOf::Tick(n) => self.tick(n),
            ActionOf::Quit => {
                return true;
            },
            ActionOf::SearchPosterLoaded => {},
            ActionOf::FocusChange | ActionOf::Resize => self.drop_pictures(),
            ActionOf::SwitchProvider(p) => self.switch_provider(p),
            ActionOf::Key(k) => {
                return self.press(k);
            },
            ActionOf::ToggleHelp | ActionOf::ToggleTvMode | ActionOf::ShowTvWizard
            | ActionOf::TvChannelsLoaded(_) | ActionOf::GoBack | ActionOf::Refresh
            | ActionOf::ClearCache | ActionOf::SelectLanguage(_) => self.step_command(a),
            ActionOf::Suggest(_) | ActionOf::SuggestSuccess(..) | ActionOf::SelectSuggestion { .. }
            | ActionOf::Search { .. } | ActionOf::FetchHomepage { .. } | ActionOf::SearchSuccess {
                ..
            } | ActionOf::SearchFailure(..) | ActionOf::HomepageSuccess { .. }
            | ActionOf::HomepageFailure(_) => self.step_browse(a),
            ActionOf::MoveUp | ActionOf::TabPane | ActionOf::BackTabPane | ActionOf::MoveDown
            | ActionOf::MoveLeft | ActionOf::MoveRight | ActionOf::Submit => self.step_move(a),
            ActionOf::FetchDetails(..) | ActionOf::FetchPreview(_) | ActionOf::PreviewLookedUp(..)
            | ActionOf::PreviewSuccess(..) | ActionOf::PreviewFailure(_) | ActionOf::PosterSuccess(
                _,
            ) | ActionOf::DetailsSuccess(..) | ActionOf::DetailsFailure(..) | ActionOf::SetStatus(
                _,
            ) => self.step_details(a),
            ActionOf::InitStreamPool(_) | ActionOf::StreamPoolInitialized(..)
            | ActionOf::FetchEpisodeStreams { .. } | ActionOf::StreamCacheRead(..)
            | ActionOf::EpisodeStreamsReady(..) | ActionOf::EpisodeStreamsFailed(..) =>
                self.step_streams(a),
            ActionOf::PlayStream(_) | ActionOf::ShowSubtitlePopup(..)
            | ActionOf::SubdlReady { .. } | ActionOf::SubdlFailed { .. } | ActionOf::StreamProbed(..)
            | ActionOf::PlayReadRelease(..) | ActionOf::OpenSubtitlesReady { .. }
            | ActionOf::OpenSubtitlesFailed { .. }
            | ActionOf::LaunchMpv(..) | ActionOf::ShowPlayerPicker(..) | ActionOf::LaunchPlayer(..)
            | ActionOf::ShowPlaybackPicker(_) | ActionOf::LaunchPlayback(..)
            | ActionOf::PlayersDetected(_) => self.step_playback(a),
            ActionOf::ShowDownloadSubtitlePopup(_) | ActionOf::DownloadStream(_)
            | ActionOf::DownloadReadRelease(..) | ActionOf::StartDownload(..)
            | ActionOf::PromptDownloadEpisode
            | ActionOf::ConfirmDownloadEpisode | ActionOf::PromptDownloadSeason
            | ActionOf::ConfirmDownloadSeason => self.step_asking(a),
            ActionOf::ProcessDownloadQueue | ActionOf::UpdateDownload(..)
            | ActionOf::DownloadCompleted(_) | ActionOf::DownloadFailed(_)
            | ActionOf::DownloadPaused(_) | ActionOf::ClearDownload | ActionOf::CancelDownload
            | ActionOf::CheckForUpdates | ActionOf::UpdateAvailable(_) => self.step_download(a),
        }
        false
    }

    /// Notes what holds around the application.
    pub fn observe(&mut self, s: Surroundings)
        ensures
            final(self)@ == (AppV {
                ui: Ui {
                    now: s.now,
                    os_enabled: s.os_enabled,
                    subdl_enabled: s.subdl_enabled,
                    probe_enabled: s.probe_enabled,
                    quota: s.quota,
                    visible_items: s.visible_items,
                    ..old(self)@.ui
                },
                ..old(self)@
            }),
    {
        self.ui = Ui {
            now: s.now,
            os_enabled: s.os_enabled,
            subdl_enabled: s.subdl_enabled,
            probe_enabled: s.probe_enabled,
            quota: s.quota,
            visible_items: s.visible_items,
            ..self.ui
        };
    }

    /// Notes that the screen was drawn, or that the terminal was cleared, which has it drawn again.
    pub fn drawn(&mut self, cleared: bool)
        ensures
            final(self)@ == (AppV {
                ui: if cleared {
                    Ui { clear_terminal_before_draw: false, dirty: true, ..old(self)@.ui }
                } else {
                    Ui { dirty: false, ..old(self)@.ui }
                },
                ..old(self)@
            }),
    {
        if cleared {
            self.ui = Ui { clear_terminal_before_draw: false, dirty: true, ..self.ui };
        } else {
            self.ui = Ui { dirty: false, ..self.ui };
        }
    }
}

} // verus!
