//! The application as a whole: providers, panes, time, and what the plain commands do.
use vstd::prelude::*;
use crate::json::{
    Json, JsonV, copy_list, get_in, get_of, json_list, json_opt, json_ref, list_in, list_of,
};
use crate::numbers::{decimal, decimal_text};
use crate::outside::{lowercase, to_lowercase};
use crate::providers::iptv_org::m3u::{Channel, ChannelV, channels};
use crate::providers::models::ProviderKind;
use crate::strings::{
    CharClass, cat2, cat3, copy_text, has, holds_text, is_blank, same_text, texts, trim, trimmed,
};
use crate::tui::browse::{stream_list, stream_list_json};
use crate::tui::pool::{StreamPool, first_of, known_streams, lemma_first_of};
use crate::tui::state::{
    ActionOf, App, AppV, DetailsPane, EffectOf, Picture, Screen, Ui, number_lists, results,
};

verus! {

/// The number after another, from zero again behind the last.
pub open spec fn next_count(n: u64) -> u64 {
    if n == u64::MAX {
        0
    } else {
        (n + 1) as u64
    }
}

/// The number after another, from zero again behind the last.
pub fn count_on(n: u64) -> (r: u64)
    ensures
        r == next_count(n),
{
    if n == u64::MAX {
        0
    } else {
        n + 1
    }
}

/// One less, but not below zero.
pub open spec fn one_less(n: u64) -> u64 {
    if n == 0 {
        0
    } else {
        (n - 1) as u64
    }
}

/// One less, but not below zero.
pub fn less_one(n: u64) -> (r: u64)
    ensures
        r == one_less(n),
{
    if n == 0 {
        0
    } else {
        n - 1
    }
}

/// A JSON value, borrowed if it is there.
pub fn borrowed<'a>(j: &'a Option<Json>) -> (r: Option<&'a Json>)
    ensures
        json_ref(r) == json_opt(*j),
{
    match j {
        Some(j) => Some(j),
        None => None,
    }
}

// ---------------------------------------------------------------------------
// Providers
// ---------------------------------------------------------------------------

impl AppV {
    /// With nothing left of what the former provider has shown.
    pub open spec fn provider_left(self) -> AppV {
        AppV {
            stream_error: None,
            search_results: Seq::empty(),
            search_suggestions: Seq::empty(),
            search_preview: None,
            selected_details: None,
            selected_resources: None,
            active_subject_id: None,
            available_seasons: Seq::empty(),
            available_episode_numbers: Seq::empty(),
            stream_pool: Map::empty(),
            ..self
        }
    }

    /// With a provider in use, on the home screen.
    pub open spec fn provider_entered(self, provider: ProviderKind) -> AppV {
        AppV {
            ui: Ui {
                provider_generation: next_count(self.ui.provider_generation),
                active_provider: provider,
                active_screen: Screen::Home,
                is_homepage_mode: false,
                is_tv_mode: false,
                is_loading: false,
                is_fetching_streams: false,
                search_selected: None,
                resource_selected: None,
                ..self.ui
            },
            ..self
        }
    }

    /// With running requests given up and further ones allowed, and no pictures.
    pub open spec fn work_dropped(self) -> AppV {
        self.ask(EffectOf::CancelFetches).ask(EffectOf::RenewFetches).ask(
            EffectOf::ForgetPoster,
        ).ask(EffectOf::Forget(Picture::PosterProtocol)).ask(
            EffectOf::Forget(Picture::SearchPosters),
        )
    }

    /// After a provider was chosen: nothing happens in television mode, nor if it is in use.
    pub open spec fn provider_switched(self, provider: ProviderKind) -> AppV {
        if self.ui.is_tv_mode || provider == self.ui.active_provider {
            self
        } else {
            let m = self.sixel_redraw().work_dropped().provider_left().provider_entered(
                provider,
            ).say(provider.name() + " selected. Search uses only this provider."@, 180).ask(
                EffectOf::PersistConfig,
            );
            if provider == ProviderKind::MovieBox {
                m.ask(EffectOf::InitClient)
            } else {
                m
            }
        }
    }
}

impl App {
    /// Drops what the former provider has shown.
    fn leave_provider(&mut self)
        ensures
            final(self)@ == old(self)@.provider_left(),
    {
        self.stream_error = None;
        self.search_results = Vec::new();
        self.search_suggestions = Vec::new();
        self.search_preview = None;
        self.selected_details = None;
        self.selected_resources = None;
        self.active_subject_id = None;
        self.available_seasons = Vec::new();
        self.available_episode_numbers = Vec::new();
        self.stream_pool = StreamPool::new();
        proof {
            assert(results(self.search_results@) =~= Seq::empty());
            assert(texts(self.search_suggestions@) =~= Seq::empty());
            assert(json_list(self.available_seasons@) =~= Seq::empty());
            assert(number_lists(self.available_episode_numbers@) =~= Seq::empty());
        }
    }

    /// Uses a provider, on the home screen.
    fn enter_provider(&mut self, provider: ProviderKind)
        ensures
            final(self)@ == old(self)@.provider_entered(provider),
    {
        self.ui = Ui {
            provider_generation: count_on(self.ui.provider_generation),
            active_provider: provider,
            active_screen: Screen::Home,
            is_homepage_mode: false,
            is_tv_mode: false,
            is_loading: false,
            is_fetching_streams: false,
            search_selected: None,
            resource_selected: None,
            ..self.ui
        };
    }

    /// Gives up running requests and pictures.
    fn drop_work(&mut self)
        ensures
            final(self)@ == old(self)@.work_dropped(),
    {
        self.ask(EffectOf::CancelFetches);
        self.ask(EffectOf::RenewFetches);
        self.ask(EffectOf::ForgetPoster);
        self.ask(EffectOf::Forget(Picture::PosterProtocol));
        self.ask(EffectOf::Forget(Picture::SearchPosters));
    }

    /// A provider is chosen: nothing happens in television mode, nor if it is in use.
    pub fn switch_provider(&mut self, provider: ProviderKind)
        ensures
            final(self)@ == old(self)@.provider_switched(provider),
            final(self)@.queue() == old(self)@.queue(),
    {
        if self.ui.is_tv_mode || provider == self.ui.active_provider {
            return ;
        }
        self.prepare_sixel_redraw();
        self.drop_work();
        self.leave_provider();
        self.enter_provider(provider);
        let text = cat2(
            provider.label().as_str(),
            " selected. Search uses only this provider.",
        );
        self.say(text.as_str(), 180);
        self.ask(EffectOf::PersistConfig);
        if provider == ProviderKind::MovieBox {
            self.ask(EffectOf::InitClient);
        }
    }

    /// The next provider is chosen.
    pub fn cycle_provider(&mut self)
        ensures
            final(self)@ == old(self)@.provider_switched(old(self)@.ui.active_provider.next()),
            final(self)@.queue() == old(self)@.queue(),
    {
        let next = match self.ui.active_provider {
            ProviderKind::MovieBox => ProviderKind::FourKHdHub,
            ProviderKind::FourKHdHub => ProviderKind::MovieBox,
        };
        self.switch_provider(next);
    }
}

/// Outside television mode, choosing the next provider twice leads back to the one in use, and an
/// answer asked for before is no longer taken.
pub proof fn law_cycle_twice(m: AppV)
    requires
        !m.ui.is_tv_mode,
    ensures
        ({
            let once = m.provider_switched(m.ui.active_provider.next());
            let twice = once.provider_switched(once.ui.active_provider.next());
            &&& twice.ui.active_provider == m.ui.active_provider
            &&& once.context() != m.context()
            &&& twice.context() != m.context()
        }),
{
    let once = m.provider_switched(m.ui.active_provider.next());
    assert(once.ui.active_provider == m.ui.active_provider.next());
    assert(!once.ui.is_tv_mode);
    assert(once.ui.provider_generation == next_count(m.ui.provider_generation));
}

// ---------------------------------------------------------------------------
// Panes
// ---------------------------------------------------------------------------

/// The dubbed versions that details list.
pub open spec fn dubs_of(details: Option<JsonV>) -> Option<Seq<JsonV>> {
    list_in(get_in(details, "dubs"@))
}

impl AppV {
    /// The panes of the details screen: languages if there are several, seasons and episodes of
    /// a series, and streams.
    pub open spec fn panes(self) -> Seq<DetailsPane> {
        let languages = match dubs_of(self.selected_details) {
            Some(v) => if v.len() > 1 {
                seq![DetailsPane::Languages]
            } else {
                Seq::empty()
            },
            None => Seq::empty(),
        };
        let series = if self.available_seasons.len() > 0 {
            seq![DetailsPane::Seasons, DetailsPane::Episodes]
        } else {
            Seq::empty()
        };
        languages + series + seq![DetailsPane::Streams]
    }

    /// After the next pane, or the one before, was chosen.
    pub open spec fn pane_cycled(self, forward: bool) -> AppV {
        if self.ui.active_screen != Screen::Details {
            self
        } else {
            AppV {
                ui: Ui {
                    details_pane: neighbour(self.panes(), self.ui.details_pane, forward),
                    ..self.ui
                },
                ..self
            }
        }
    }
}

/// The pane next to another, or the one before it; the last is next to the first. A pane that is
/// not among the panes counts as the first.
pub open spec fn neighbour(panes: Seq<DetailsPane>, pane: DetailsPane, forward: bool) -> DetailsPane {
    let n = panes.len() as int;
    let i = match first_of(panes, pane, 0) {
        Some(i) => i,
        None => 0,
    };
    if forward {
        if i + 1 == n {
            panes[0]
        } else {
            panes[i + 1]
        }
    } else if i == 0 {
        panes[n - 1]
    } else {
        panes[i - 1]
    }
}

/// The pane next to another, or the one before it.
fn neighbour_of(panes: &Vec<DetailsPane>, pane: DetailsPane, forward: bool) -> (r: DetailsPane)
    requires
        panes@.len() > 0,
    ensures
        r == neighbour(panes@, pane, forward),
{
    let n: usize = panes.len();
    let mut i: usize = 0;
    while i < n && panes[i] != pane
        invariant
            i <= n == panes@.len(),
            first_of(panes@, pane, 0) == first_of(panes@, pane, i as int),
        decreases n - i,
    {
        i = i + 1;
    }
    if i == n {
        i = 0;
    }
    if forward {
        if i + 1 == n {
            panes[0]
        } else {
            panes[i + 1]
        }
    } else if i == 0 {
        panes[n - 1]
    } else {
        panes[i - 1]
    }
}

impl App {
    /// The panes of the details screen.
    pub fn pane_list(&self) -> (r: Vec<DetailsPane>)
        ensures
            r@ == self@.panes(),
            r@.len() > 0,
    {
        let languages = match list_of(get_of(borrowed(&self.selected_details), "dubs")) {
            Some(v) => v.len() > 1,
            None => false,
        };
        let mut panes: Vec<DetailsPane> = Vec::new();
        if languages {
            panes.push(DetailsPane::Languages);
        }
        if self.available_seasons.len() > 0 {
            panes.push(DetailsPane::Seasons);
            panes.push(DetailsPane::Episodes);
        }
        panes.push(DetailsPane::Streams);
        assert(panes@ =~= self@.panes());
        panes
    }

    /// The next pane, or the one before, is chosen.
    pub fn cycle_details_pane(&mut self, forward: bool)
        ensures
            final(self)@ == old(self)@.pane_cycled(forward),
            final(self)@.steady(old(self)@),
    {
        if self.ui.active_screen != Screen::Details {
            return ;
        }
        let panes = self.pane_list();
        let next = neighbour_of(&panes, self.ui.details_pane, forward);
        self.ui = Ui { details_pane: next, ..self.ui };
    }
}

/// In a list without repetition, one on and one back is where it began.
proof fn lemma_neighbour(panes: Seq<DetailsPane>, pane: DetailsPane, forward: bool)
    requires
        panes.no_duplicates(),
        panes.contains(pane),
    ensures
        neighbour(panes, neighbour(panes, pane, forward), !forward) == pane,
{
    let other = neighbour(panes, pane, forward);
    lemma_first_of(panes, pane, 0);
    lemma_first_of(panes, other, 0);
    let i = first_of(panes, pane, 0)->0;
    let n = panes.len() as int;
    let j = if forward {
        if i + 1 == n {
            0
        } else {
            i + 1
        }
    } else if i == 0 {
        n - 1
    } else {
        i - 1
    };
    assert(panes[j] == other);
    assert(first_of(panes, other, 0) == Some(j));
}

/// Going one pane on and one pane back leads to the pane in use, if that is among the panes.
pub proof fn law_pane_there_and_back(m: AppV, forward: bool)
    requires
        m.ui.active_screen == Screen::Details,
        m.panes().contains(m.ui.details_pane),
    ensures
        m.pane_cycled(forward).pane_cycled(!forward).ui.details_pane == m.ui.details_pane,
{
    let p = m.panes();
    assert(m.pane_cycled(forward).panes() == p);
    assert(p.no_duplicates());
    lemma_neighbour(p, m.ui.details_pane, forward);
}

// ---------------------------------------------------------------------------
// Time
// ---------------------------------------------------------------------------

/// Whether at least `wait` milliseconds have passed.
pub open spec fn rested(now: u64, since: u64, wait: u64) -> bool {
    now - since >= wait
}

/// Whether at least `wait` milliseconds have passed.
pub fn has_rested(now: u64, since: u64, wait: u64) -> (r: bool)
    ensures
        r == rested(now, since, wait),
{
    now >= since && now - since >= wait
}

/// The names of the channels that hold a text in lower case.
pub open spec fn channel_names(v: Seq<ChannelV>, query: Seq<char>) -> Seq<Seq<char>>
    decreases v.len(),
{
    if v.len() == 0 {
        Seq::empty()
    } else if has(lowercase(v.last().name), query) {
        channel_names(v.drop_last(), query).push(v.last().name)
    } else {
        channel_names(v.drop_last(), query)
    }
}

/// The first ten of a list.
pub open spec fn first_ten(v: Seq<Seq<char>>) -> Seq<Seq<char>> {
    if v.len() <= 10 {
        v
    } else {
        v.take(10)
    }
}

/// The first ten names of channels that hold a text in lower case.
pub fn suggest_channels(v: &Vec<Channel>, query: &str) -> (r: Vec<String>)
    ensures
        texts(r@) == first_ten(channel_names(channels(v@), query@)),
{
    let ghost list = channels(v@);
    let mut r: Vec<String> = Vec::new();
    let mut i: usize = 0;
    proof {
        assert(list.take(0) =~= Seq::empty());
        assert(texts(r@) =~= Seq::empty());
    }
    while i < v.len()
        invariant
            i <= v@.len(),
            list == channels(v@),
            texts(r@) == channel_names(list.take(i as int), query@),
        decreases v@.len() - i,
    {
        proof {
            assert(list.take(i + 1).drop_last() =~= list.take(i as int));
            assert(list.take(i + 1).last() == v@[i as int]@);
        }
        if holds_text(to_lowercase(v[i].name.as_str()).as_str(), query) {
            let ghost done = texts(r@);
            let s = copy_text(v[i].name.as_str());
            r.push(s);
            assert(texts(r@) =~= done.push(s@));
        }
        i = i + 1;
    }
    assert(list.take(list.len() as int) =~= list);
    let ghost all = texts(r@);
    if r.len() > 10 {
        r.truncate(10);
    }
    assert(texts(r@) =~= first_ten(all));
    r
}

impl AppV {
    /// Whether a tick changes what is shown: at the start, while loading at every fifth tick, and
    /// while a status or notifications are shown.
    pub open spec fn tick_redraws(self, notifying: bool) -> bool {
        (self.ui.is_loading && self.ui.tick_count % 5 == 0) || self.ui.tick_count < 15 || notifying
            || self.ui.status_timer > 0
    }

    /// The status once it has grown older by a tick.
    pub open spec fn status_aged(self) -> Seq<char> {
        if self.ui.status_timer == 1 {
            Seq::empty()
        } else {
            self.status_message
        }
    }

    /// After a tick was counted and the status grew older.
    pub open spec fn tick_counted(self, redraw: bool) -> AppV {
        AppV {
            ui: Ui {
                tick_count: next_count(self.ui.tick_count),
                status_timer: one_less(self.ui.status_timer),
                dirty: self.ui.dirty || redraw,
                ..self.ui
            },
            status_message: self.status_aged(),
            ..self
        }
    }

    /// With old notifications going away, if any are shown.
    pub open spec fn notifications_aged(self, notifying: bool) -> AppV {
        if notifying {
            self.ask(EffectOf::ExpireNotifications)
        } else {
            self
        }
    }

    /// After suggestions for a text were looked for.
    pub open spec fn suggestions_due(self, query: Seq<char>) -> AppV {
        let m = AppV { last_suggest_query: query, ..self };
        if query.len() == 0 {
            AppV { search_suggestions: Seq::empty(), ..m }
        } else if self.ui.is_tv_mode {
            AppV {
                search_suggestions: first_ten(channel_names(self.tv_channels, lowercase(query))),
                ..m
            }
        } else {
            m.send(ActionOf::Suggest(query))
        }
    }

    /// After suggestions were looked for, if the search field has changed and then rested.
    pub open spec fn suggestions_ticked(self) -> AppV {
        let query = trim(self.search_query, CharClass::White);
        if query != self.last_suggest_query && rested(
            self.ui.now,
            self.ui.last_search_edit,
            350,
        ) {
            self.suggestions_due(query)
        } else {
            self
        }
    }

    /// With streams shown that were known.
    pub open spec fn known_shown(self, streams: Seq<JsonV>) -> AppV {
        AppV {
            selected_resources: Some(stream_list(streams)),
            ui: Ui {
                is_loading: false,
                resource_selected: if streams.len() > 0 {
                    Some(0)
                } else {
                    None
                },
                ..self.ui
            },
            ..self
        }.say(
            "Resolved "@ + decimal(streams.len()) + " direct stream sources (cached)."@,
            150,
        )
    }

    /// After the streams of an episode fell due.
    pub open spec fn episode_due(self, id: Seq<char>, season: usize, episode: usize) -> AppV {
        let m = AppV { pending_episode_fetch: None, ..self };
        match known_streams(self.stream_pool, id, season, episode) {
            Some(streams) => m.known_shown(streams),
            None => m.send(
                ActionOf::FetchEpisodeStreams {
                    subject_id: id,
                    season,
                    episode,
                    force_refresh: false,
                },
            ),
        }
    }

    /// After the streams of the chosen episode were looked for, if the user has rested.
    pub open spec fn episode_ticked(self) -> AppV {
        match self.pending_episode_fetch {
            Some((id, season, episode)) => if rested(self.ui.now, self.ui.last_episode_nav, 300) {
                self.episode_due(id, season, episode)
            } else {
                self
            },
            None => self,
        }
    }

    /// After a tick.
    pub open spec fn ticked(self, notifying: bool) -> AppV {
        self.tick_counted(self.tick_redraws(notifying)).notifications_aged(
            notifying,
        ).suggestions_ticked().episode_ticked()
    }
}

impl App {
    /// Counts a tick and lets the status grow older.
    fn count_tick(&mut self, redraw: bool)
        ensures
            final(self)@ == old(self)@.tick_counted(redraw),
    {
        let text = self.aged_status();
        let count: u64 = count_on(self.ui.tick_count);
        let timer: u64 = less_one(self.ui.status_timer);
        let dirty = self.ui.dirty || redraw;
        self.status_message = text;
        self.ui = Ui { tick_count: count, status_timer: timer, dirty, ..self.ui };
    }

    /// The status once it has grown older by a tick.
    fn aged_status(&self) -> (r: String)
        ensures
            r@ == self@.status_aged(),
    {
        if self.ui.status_timer == 1 {
            String::new()
        } else {
            copy_text(self.status_message.as_str())
        }
    }

    /// Looks for suggestions for a text.
    fn look_for_suggestions(&mut self, query: String)
        ensures
            final(self)@ == old(self)@.suggestions_due(query@),
    {
        self.last_suggest_query = copy_text(query.as_str());
        if is_blank(query.as_str()) {
            self.search_suggestions = Vec::new();
            assert(texts(self.search_suggestions@) =~= Seq::empty());
        } else if self.ui.is_tv_mode {
            let low = to_lowercase(query.as_str());
            self.search_suggestions = suggest_channels(&self.tv_channels, low.as_str());
        } else {
            self.send(ActionOf::Suggest(query));
        }
    }

    /// Looks for suggestions, if the search field has changed and then rested.
    fn tick_suggestions(&mut self)
        ensures
            final(self)@ == old(self)@.suggestions_ticked(),
    {
        let query = trimmed(self.search_query.as_str(), CharClass::White);
        if !same_text(query.as_str(), self.last_suggest_query.as_str()) && has_rested(
            self.ui.now,
            self.ui.last_search_edit,
            350,
        ) {
            self.look_for_suggestions(query);
        }
    }

    /// Shows streams that were known.
    fn show_known(&mut self, streams: Vec<Json>)
        ensures
            final(self)@ == old(self)@.known_shown(json_list(streams@)),
    {
        let n: usize = streams.len();
        let first: Option<usize> = if n > 0 {
            Some(0)
        } else {
            None
        };
        self.selected_resources = Some(stream_list_json(streams));
        self.ui = Ui { is_loading: false, resource_selected: first, ..self.ui };
        let text = cat3(
            "Resolved ",
            decimal_text(n as u64).as_str(),
            " direct stream sources (cached).",
        );
        self.say(text.as_str(), 150);
    }

    /// The streams of an episode are due.
    fn episode_due(&mut self, id: String, season: usize, episode: usize)
        ensures
            final(self)@ == old(self)@.episode_due(id@, season, episode),
    {
        self.pending_episode_fetch = None;
        let known = match self.stream_pool.streams(id.as_str(), season, episode) {
            Some(v) => Some(copy_list(v)),
            None => None,
        };
        match known {
            Some(v) => self.show_known(v),
            None => self.send(
                ActionOf::FetchEpisodeStreams {
                    subject_id: id,
                    season,
                    episode,
                    force_refresh: false,
                },
            ),
        }
    }

    /// Looks for the streams of the chosen episode, if the user has rested.
    fn tick_episode(&mut self)
        ensures
            final(self)@ == old(self)@.episode_ticked(),
    {
        let due = match &self.pending_episode_fetch {
            Some((id, season, episode)) => if has_rested(
                self.ui.now,
                self.ui.last_episode_nav,
                300,
            ) {
                Some((copy_text(id.as_str()), *season, *episode))
            } else {
                None
            },
            None => None,
        };
        match due {
            Some((id, season, episode)) => self.episode_due(id, season, episode),
            None => {},
        }
    }

    /// Time passes.
    pub fn tick(&mut self, notifying: bool)
        ensures
            final(self)@ == old(self)@.ticked(notifying),
            final(self)@.steady(old(self)@),
    {
        let redraw = (self.ui.is_loading && self.ui.tick_count % 5 == 0) || self.ui.tick_count < 15
            || notifying || self.ui.status_timer > 0;
        self.count_tick(redraw);
        if notifying {
            self.ask(EffectOf::ExpireNotifications);
        }
        self.tick_suggestions();
        self.tick_episode();
    }
}

} // verus!
