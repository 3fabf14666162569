//! The streams of an episode: choosing it, looking for them and showing them.
use vstd::prelude::*;
use crate::json::{
    Json, JsonV, copy_list, either_of, get_either, get_in, get_of, int_in, int_of, item_in, item_of,
    json_list, json_opt, json_ref, list_in, list_of, text_in, text_of_json,
};
use crate::numbers::{decimal, decimal_text};
use crate::providers::models::{ProviderKind, RequestContext};
use crate::strings::{cat2, copy_text, same_text, text_opt};
use crate::tui::app::{borrowed, count_on, next_count};
use crate::tui::browse::{list_json, stream_list, stream_list_json};
use crate::tui::commands::list_or_empty;
use crate::tui::pool::{
    PoolV, added, by_resolution, known_streams, order_streams, with_streams, without_streams,
};
use crate::tui::state::{ActionOf, App, AppV, EffectOf, Ui, marked, number_lists};

verus! {

// ---------------------------------------------------------------------------
// What is marked
// ---------------------------------------------------------------------------

/// The kind of title that details give: 2 for a series, and a film where they give none.
pub open spec fn media_kind(details: Option<JsonV>, key: Seq<char>, other: Seq<char>) -> i64 {
    match int_in(get_either(details, key, other)) {
        Some(n) => n,
        None => 1,
    }
}

/// The kind of title that details give: 2 for a series, and a film where they give none.
pub fn read_media_kind(details: Option<&Json>, key: &str, other: &str) -> (r: i64)
    ensures
        r == media_kind(json_ref(details), key@, other@),
{
    match int_of(either_of(details, key, other)) {
        Some(n) => n,
        None => 1,
    }
}

/// The number of a season in a list of seasons, one where it is not given.
pub open spec fn season_number(seasons: Seq<JsonV>, i: int) -> usize {
    match int_in(get_in(item_in(Some(seasons), i), "se"@)) {
        Some(n) => n as usize,
        None => 1,
    }
}

/// The number of a season in a list of seasons, one where it is not given.
pub fn read_season_number(seasons: &Vec<Json>, i: usize) -> (r: usize)
    ensures
        r == season_number(json_list(seasons@), i as int),
{
    let s = if i < seasons.len() {
        Some(&seasons[i])
    } else {
        None
    };
    match int_of(get_of(s, "se")) {
        Some(n) => #[verifier::truncate] (n as usize),
        None => 1,
    }
}

/// The number of an episode, one more than its place where it is not given.
pub open spec fn episode_number(numbers: Seq<Seq<usize>>, season: int, place: int) -> usize {
    if 0 <= season < numbers.len() && 0 <= place < numbers[season].len() {
        numbers[season][place]
    } else {
        (place + 1) as usize
    }
}

/// The number of an episode, one more than its place where it is not given.
fn read_episode_number(numbers: &Vec<Vec<usize>>, season: usize, place: usize) -> (r: usize)
    requires
        place < usize::MAX,
    ensures
        r == episode_number(number_lists(numbers@), season as int, place as int),
{
    if season < numbers.len() && place < numbers[season].len() {
        numbers[season][place]
    } else {
        place + 1
    }
}

impl AppV {
    /// The season and the episode that are marked; zero for a film.
    pub open spec fn episode_marked(self) -> (usize, usize) {
        if media_kind(self.selected_details, "subjectType"@, "stype"@) == 2 {
            let se = AppV::marked(self.ui.season_selected);
            let ep = AppV::marked(self.ui.episode_selected);
            (
                season_number(self.available_seasons, se as int),
                episode_number(self.available_episode_numbers, se as int, ep as int),
            )
        } else {
            (0, 0)
        }
    }

    /// The stream that is marked.
    pub open spec fn stream_marked(self) -> Option<JsonV> {
        item_in(
            list_in(get_in(self.selected_resources, "list"@)),
            AppV::marked(self.ui.resource_selected) as int,
        )
    }
}

impl App {
    /// The season and the episode that are marked; zero for a film.
    pub fn marked_episode(&self) -> (r: (usize, usize))
        requires
            AppV::marked(self@.ui.episode_selected) < usize::MAX,
        ensures
            r == self@.episode_marked(),
    {
        if read_media_kind(borrowed(&self.selected_details), "subjectType", "stype") == 2 {
            let se: usize = marked(self.ui.season_selected);
            let ep: usize = marked(self.ui.episode_selected);
            (
                read_season_number(&self.available_seasons, se),
                read_episode_number(&self.available_episode_numbers, se, ep),
            )
        } else {
            (0, 0)
        }
    }

    /// The stream that is marked.
    pub fn marked_stream(&self) -> (r: Option<&Json>)
        ensures
            json_ref(r) == self@.stream_marked(),
    {
        item_of(get_of(borrowed(&self.selected_resources), "list"), marked(self.ui.resource_selected))
    }

    /// The address of the stream that is marked.
    pub fn get_selected_link(&self) -> (r: Option<String>)
        ensures
            text_opt(r) == text_in(get_in(self@.stream_marked(), "resourceLink"@)),
    {
        text_of_json(get_of(self.marked_stream(), "resourceLink"))
    }

    /// The identifier of the stream that is marked.
    pub fn get_selected_resource_id(&self) -> (r: Option<String>)
        ensures
            text_opt(r) == text_in(get_in(self@.stream_marked(), "resourceId"@)),
    {
        text_of_json(get_of(self.marked_stream(), "resourceId"))
    }

    /// The release of 4KHDHub behind the stream that is marked.
    pub fn get_selected_release(&self) -> (r: Option<Json>)
        ensures
            json_opt(r) == get_in(self@.stream_marked(), "_fourk_release"@),
    {
        match get_of(self.marked_stream(), "_fourk_release") {
            Some(j) => Some(j.copy()),
            None => None,
        }
    }
}

// ---------------------------------------------------------------------------
// Choosing an episode
// ---------------------------------------------------------------------------

impl AppV {
    /// With an episode chosen whose streams are to be shown.
    pub open spec fn episode_chosen(self, season: usize, episode: usize) -> AppV {
        AppV {
            ui: Ui {
                selected_season: season,
                selected_episode: episode,
                resource_selected: None,
                active_resource_request: next_count(self.ui.active_resource_request),
                is_loading: true,
                is_fetching_streams: true,
                ..self.ui
            },
            stream_error: None,
            selected_resources: None,
            ..self
        }.say("Loading streams..."@, 90)
    }

    /// With streams that are known to be shown in a moment.
    pub open spec fn streams_promised(
        self,
        id: Seq<char>,
        season: usize,
        episode: usize,
        streams: Seq<JsonV>,
    ) -> AppV {
        AppV {
            stream_pool: with_streams(self.stream_pool, id, season, episode, streams),
            pending_episode_fetch: None,
            ..self
        }.ask(
            EffectOf::SendAfter(
                120,
                ActionOf::EpisodeStreamsReady(
                    self.context(),
                    self.ui.active_resource_request,
                    id,
                    season,
                    episode,
                    JsonV::List(streams),
                ),
            ),
        )
    }

    /// After the marked episode of a subject was chosen.
    pub open spec fn episode_fetched(self, id: Seq<char>, season: usize, episode: usize) -> AppV {
        let m = self.episode_chosen(season, episode);
        match known_streams(self.stream_pool, id, season, episode) {
            Some(v) => if v.len() > 0 {
                m.streams_promised(id, season, episode, v)
            } else {
                m.ask(EffectOf::ReadStreamCache(self.ui.active_provider, id, season, episode))
            },
            None => m.ask(EffectOf::ReadStreamCache(self.ui.active_provider, id, season, episode)),
        }
    }

    /// After the marked episode was chosen.
    pub open spec fn episode_triggered(self) -> AppV {
        match self.active_subject_id {
            Some(id) => self.episode_fetched(id, self.episode_marked().0, self.episode_marked().1),
            None => self,
        }
    }

    /// With an episode waiting until the user rests.
    pub open spec fn episode_waiting(self, id: Seq<char>, season: usize, episode: usize) -> AppV {
        AppV {
            ui: Ui { last_episode_nav: self.ui.now, ..self.ui },
            pending_episode_fetch: Some((id, season, episode)),
            ..self
        }
    }

    /// After the streams of an episode were looked for in the cache.
    pub open spec fn cache_read(
        self,
        id: Seq<char>,
        season: usize,
        episode: usize,
        cached: Option<JsonV>,
    ) -> AppV {
        match list_in(cached) {
            Some(v) => self.streams_promised(id, season, episode, v),
            None => self.episode_waiting(id, season, episode),
        }
    }
}

impl App {
    /// Chooses an episode whose streams are to be shown.
    fn choose_episode(&mut self, season: usize, episode: usize)
        ensures
            final(self)@ == old(self)@.episode_chosen(season, episode),
    {
        let request: u64 = count_on(self.ui.active_resource_request);
        self.ui = Ui {
            selected_season: season,
            selected_episode: episode,
            resource_selected: None,
            active_resource_request: request,
            is_loading: true,
            is_fetching_streams: true,
            ..self.ui
        };
        self.stream_error = None;
        self.selected_resources = None;
        self.say("Loading streams...", 90);
    }

    /// Has streams that are known shown in a moment.
    fn promise_streams(&mut self, id: String, season: usize, episode: usize, streams: Vec<Json>)
        ensures
            final(self)@ == old(self)@.streams_promised(
                id@,
                season,
                episode,
                json_list(streams@),
            ),
    {
        let context = self.request_context();
        let request: u64 = self.ui.active_resource_request;
        let copy = copy_list(&streams);
        self.stream_pool.put(id.as_str(), season, episode, copy);
        self.pending_episode_fetch = None;
        self.ask(
            EffectOf::SendAfter(
                120,
                ActionOf::EpisodeStreamsReady(
                    context,
                    request,
                    id,
                    season,
                    episode,
                    list_json(streams),
                ),
            ),
        );
    }

    /// The streams known for an episode.
    fn known(&self, id: &str, season: usize, episode: usize) -> (r: Option<Vec<Json>>)
        ensures
            match r {
                Some(v) => known_streams(self@.stream_pool, id@, season, episode) == Some(
                    json_list(v@),
                ),
                None => known_streams(self@.stream_pool, id@, season, episode) is None,
            },
    {
        match self.stream_pool.streams(id, season, episode) {
            Some(v) => Some(copy_list(v)),
            None => None,
        }
    }

    /// The marked episode of a subject is chosen.
    fn fetch_marked(&mut self, id: String, season: usize, episode: usize)
        ensures
            final(self)@ == old(self)@.episode_fetched(id@, season, episode),
    {
        let provider = self.ui.active_provider;
        let known = self.known(id.as_str(), season, episode);
        self.choose_episode(season, episode);
        match known {
            Some(v) => {
                if v.len() > 0 {
                    self.promise_streams(id, season, episode, v);
                } else {
                    self.ask(EffectOf::ReadStreamCache(provider, id, season, episode));
                }
            },
            None => self.ask(EffectOf::ReadStreamCache(provider, id, season, episode)),
        }
    }

    /// The marked episode is chosen.
    pub fn trigger_episode_fetch(&mut self)
        requires
            AppV::marked(old(self)@.ui.episode_selected) < usize::MAX,
        ensures
            final(self)@ == old(self)@.episode_triggered(),
    {
        match self.subject() {
            Some(id) => {
                let (season, episode) = self.marked_episode();
                self.fetch_marked(id, season, episode);
            },
            None => {},
        }
    }

    /// Has an episode wait until the user rests.
    fn wait_for_episode(&mut self, id: String, season: usize, episode: usize)
        ensures
            final(self)@ == old(self)@.episode_waiting(id@, season, episode),
    {
        self.ui = Ui { last_episode_nav: self.ui.now, ..self.ui };
        self.pending_episode_fetch = Some((id, season, episode));
    }

    /// The streams of an episode were looked for in the cache.
    pub fn stream_cache_read(
        &mut self,
        id: String,
        season: usize,
        episode: usize,
        cached: Option<Json>,
    )
        ensures
            final(self)@ == old(self)@.cache_read(id@, season, episode, json_opt(cached)),
            final(self)@.steady(old(self)@),
    {
        let streams = match list_of(borrowed(&cached)) {
            Some(v) => Some(copy_list(v)),
            None => None,
        };
        match streams {
            Some(v) => self.promise_streams(id, season, episode, v),
            None => self.wait_for_episode(id, season, episode),
        }
    }
}

// ---------------------------------------------------------------------------
// Looking for streams
// ---------------------------------------------------------------------------

/// The episodes of the seasons before a season.
pub open spec fn episodes_before(seasons: Seq<JsonV>, season: usize) -> int
    decreases seasons.len(),
{
    if seasons.len() == 0 {
        0
    } else {
        let s = seasons.last();
        let number = match int_in(s.get("se"@)) {
            Some(n) => n as usize,
            None => 0,
        };
        let count = match int_in(s.get("maxEp"@)) {
            Some(n) => n as usize,
            None => 1,
        };
        episodes_before(seasons.drop_last(), season) + (if number < season {
            count as int
        } else {
            0
        })
    }
}

/// The episodes that come before an episode.
pub open spec fn episodes_ahead(seasons: Seq<JsonV>, season: usize, episode: usize) -> int {
    episodes_before(seasons, season) + (if episode > 0 {
        episode - 1
    } else {
        0
    })
}

/// The page on which an episode is expected, with twenty episodes to a page.
pub open spec fn expected_page(seasons: Seq<JsonV>, season: usize, episode: usize) -> int {
    episodes_ahead(seasons, season, episode) / 20 + 1
}

/// Counting more seasons never counts fewer episodes.
proof fn lemma_episodes_before(seasons: Seq<JsonV>, season: usize, n: int)
    requires
        0 <= n <= seasons.len(),
    ensures
        0 <= episodes_before(seasons.take(n), season) <= episodes_before(seasons, season),
    decreases seasons.len(),
{
    if n < seasons.len() {
        lemma_episodes_before(seasons.drop_last(), season, n);
        assert(seasons.drop_last().take(n) =~= seasons.take(n));
    } else {
        assert(seasons.take(n) =~= seasons);
        if n > 0 {
            lemma_episodes_before(seasons.drop_last(), season, n - 1);
        }
    }
}

/// The page on which an episode is expected, if the episodes before it can be counted.
pub fn find_page(seasons: &Vec<Json>, season: usize, episode: usize) -> (r: Option<usize>)
    ensures
        match r {
            Some(p) => p == expected_page(json_list(seasons@), season, episode) && episodes_ahead(
                json_list(seasons@),
                season,
                episode,
            ) <= usize::MAX,
            None => episodes_ahead(json_list(seasons@), season, episode) > usize::MAX,
        },
{
    let ghost list = json_list(seasons@);
    let mut sum: usize = 0;
    let mut i: usize = 0;
    assert(list.take(0) =~= Seq::empty());
    while i < seasons.len()
        invariant
            i <= seasons@.len(),
            list == json_list(seasons@),
            sum == episodes_before(list.take(i as int), season),
        decreases seasons@.len() - i,
    {
        let s = &seasons[i];
        proof {
            assert(list.take(i + 1).drop_last() =~= list.take(i as int));
            assert(list.take(i + 1).last() == s@);
            lemma_episodes_before(list, season, i + 1);
        }
        let number: usize = match int_of(s.get("se")) {
            Some(n) => #[verifier::truncate] (n as usize),
            None => 0,
        };
        let count: usize = match int_of(s.get("maxEp")) {
            Some(n) => #[verifier::truncate] (n as usize),
            None => 1,
        };
        if number < season {
            if count > usize::MAX - sum {
                return None;
            }
            sum = sum + count;
        }
        i = i + 1;
    }
    assert(list.take(list.len() as int) =~= list);
    let more: usize = if episode > 0 {
        episode - 1
    } else {
        0
    };
    if more > usize::MAX - sum {
        return None;
    }
    Some((sum + more) / 20 + 1)
}

impl AppV {
    /// With the streams of an episode being looked for.
    pub open spec fn hunt_begun(
        self,
        id: Seq<char>,
        season: usize,
        episode: usize,
        force_refresh: bool,
    ) -> AppV {
        if force_refresh {
            self.streams_dropped(id, season, episode).request_begun()
        } else {
            self.request_begun()
        }
    }

    /// Without the streams known for an episode.
    pub open spec fn streams_dropped(self, id: Seq<char>, season: usize, episode: usize) -> AppV {
        AppV {
            stream_pool: without_streams(self.stream_pool, id, season, episode),
            ..self
        }
    }

    /// With a further request for streams.
    pub open spec fn request_begun(self) -> AppV {
        AppV {
            ui: Ui {
                active_resource_request: next_count(self.ui.active_resource_request),
                is_loading: true,
                is_fetching_streams: true,
                ..self.ui
            },
            selected_resources: None,
            stream_error: None,
            ..self
        }
    }

    /// With the streams of an episode asked of the outside.
    pub open spec fn hunt_asked(
        self,
        id: Seq<char>,
        season: usize,
        episode: usize,
        force_refresh: bool,
    ) -> AppV {
        self.ask(
            EffectOf::HuntStreams {
                context: self.context(),
                request: self.ui.active_resource_request,
                subject_id: id,
                season,
                episode,
                force_refresh,
                page: expected_page(self.available_seasons, season, episode) as usize,
            },
        )
    }

    /// With streams that are known to be shown in a moment.
    pub open spec fn known_sent(
        self,
        id: Seq<char>,
        season: usize,
        episode: usize,
        streams: Seq<JsonV>,
    ) -> AppV {
        self.ask(
            EffectOf::SendAfter(
                120,
                ActionOf::EpisodeStreamsReady(
                    self.context(),
                    self.ui.active_resource_request,
                    id,
                    season,
                    episode,
                    JsonV::List(streams),
                ),
            ),
        )
    }

    /// Whether the outside has to look for the streams of an episode.
    pub open spec fn hunts(
        self,
        id: Seq<char>,
        season: usize,
        episode: usize,
        force_refresh: bool,
    ) -> bool {
        &&& self.ui.active_provider == ProviderKind::MovieBox
        &&& self.stream_pool.contains_key(id)
        &&& force_refresh || known_streams(self.stream_pool, id, season, episode) is None
    }

    /// After the streams of an episode were wanted.
    pub open spec fn streams_wanted(
        self,
        id: Seq<char>,
        season: usize,
        episode: usize,
        force_refresh: bool,
    ) -> AppV {
        let m = self.hunt_begun(id, season, episode, force_refresh);
        if self.ui.active_provider == ProviderKind::FourKHdHub {
            m.ask(
                EffectOf::FetchReleases(
                    m.context(),
                    m.ui.active_resource_request,
                    id,
                    season,
                    episode,
                ),
            )
        } else if !self.stream_pool.contains_key(id) {
            m
        } else {
            match known_streams(m.stream_pool, id, season, episode) {
                Some(v) => m.known_sent(id, season, episode, v),
                None => m.hunt_asked(id, season, episode, force_refresh),
            }
        }
    }
}

impl App {
    /// Begins to look for the streams of an episode.
    fn begin_hunt(&mut self, id: &str, season: usize, episode: usize, force_refresh: bool)
        ensures
            final(self)@ == old(self)@.hunt_begun(id@, season, episode, force_refresh),
    {
        if force_refresh {
            self.drop_known(id, season, episode);
        }
        self.begin_request();
    }

    /// Drops the streams known for an episode.
    fn drop_known(&mut self, id: &str, season: usize, episode: usize)
        ensures
            final(self)@ == old(self)@.streams_dropped(id@, season, episode),
    {
        self.stream_pool.drop_streams(id, season, episode);
    }

    /// Begins a further request for streams.
    fn begin_request(&mut self)
        ensures
            final(self)@ == old(self)@.request_begun(),
    {
        let request: u64 = count_on(self.ui.active_resource_request);
        self.ui = Ui {
            active_resource_request: request,
            is_loading: true,
            is_fetching_streams: true,
            ..self.ui
        };
        self.selected_resources = None;
        self.stream_error = None;
    }

    /// Has streams that are known shown in a moment.
    fn send_known(&mut self, id: String, season: usize, episode: usize, streams: Vec<Json>)
        ensures
            final(self)@ == old(self)@.known_sent(id@, season, episode, json_list(streams@)),
    {
        let context = self.request_context();
        let request: u64 = self.ui.active_resource_request;
        self.ask(
            EffectOf::SendAfter(
                120,
                ActionOf::EpisodeStreamsReady(
                    context,
                    request,
                    id,
                    season,
                    episode,
                    list_json(streams),
                ),
            ),
        );
    }

    /// Asks the outside for the streams of an episode.
    fn ask_hunt(&mut self, id: String, season: usize, episode: usize, force_refresh: bool)
        requires
            episodes_ahead(old(self)@.available_seasons, season, episode) <= usize::MAX,
        ensures
            final(self)@ == old(self)@.hunt_asked(id@, season, episode, force_refresh),
    {
        let context = self.request_context();
        let request: u64 = self.ui.active_resource_request;
        let page: usize = match find_page(&self.available_seasons, season, episode) {
            Some(p) => p,
            None => 1,
        };
        self.ask(
            EffectOf::HuntStreams {
                context,
                request,
                subject_id: id,
                season,
                episode,
                force_refresh,
                page,
            },
        );
    }

    /// Whether streams of a subject are collected.
    fn collects(&self, id: &str) -> (r: bool)
        ensures
            r == self@.stream_pool.contains_key(id@),
    {
        self.stream_pool.position(id).is_some()
    }

    /// Whether the outside has to look for the streams of an episode.
    pub fn needs_hunt(&self, id: &str, season: usize, episode: usize, force_refresh: bool) -> (r:
        bool)
        ensures
            r == self@.hunts(id@, season, episode, force_refresh),
    {
        self.ui.active_provider == ProviderKind::MovieBox && self.collects(id) && (force_refresh
            || self.stream_pool.streams(id, season, episode).is_none())
    }

    /// The streams of an episode are wanted.
    pub fn fetch_episode_streams(
        &mut self,
        id: String,
        season: usize,
        episode: usize,
        force_refresh: bool,
    )
        requires
            old(self)@.hunts(id@, season, episode, force_refresh) ==> episodes_ahead(
                old(self)@.available_seasons,
                season,
                episode,
            ) <= usize::MAX,
        ensures
            final(self)@ == old(self)@.streams_wanted(id@, season, episode, force_refresh),
            final(self)@.steady(old(self)@),
    {
        let collected = self.collects(id.as_str());
        self.begin_hunt(id.as_str(), season, episode, force_refresh);
        if self.ui.active_provider == ProviderKind::FourKHdHub {
            let context = self.request_context();
            let request: u64 = self.ui.active_resource_request;
            self.ask(EffectOf::FetchReleases(context, request, id, season, episode));
        } else if collected {
            match self.known(id.as_str(), season, episode) {
                Some(v) => self.send_known(id, season, episode, v),
                None => self.ask_hunt(id, season, episode, force_refresh),
            }
        }
    }
}

/// After a refresh the streams of the episode are never taken from the pool.
pub proof fn law_refresh_passes_over_pool(m: AppV, id: Seq<char>, season: usize, episode: usize)
    requires
        m.ui.active_provider == ProviderKind::MovieBox,
        m.stream_pool.contains_key(id),
    ensures
        m.streams_wanted(id, season, episode, true) == m.hunt_begun(
            id,
            season,
            episode,
            true,
        ).hunt_asked(id, season, episode, true),
{
    let n = m.hunt_begun(id, season, episode, true);
    assert(known_streams(n.stream_pool, id, season, episode) is None);
}

// ---------------------------------------------------------------------------
// Streams that have come
// ---------------------------------------------------------------------------

impl AppV {
    /// Whether an answer is to the latest request, for the episode that is shown.
    pub open spec fn awaits(
        self,
        context: RequestContext,
        request: u64,
        id: Seq<char>,
        season: usize,
        episode: usize,
    ) -> bool {
        &&& request == self.ui.active_resource_request
        &&& context == self.context()
        &&& self.active_subject_id == Some(id)
        &&& season == self.ui.selected_season
        &&& episode == self.ui.selected_episode
    }

    /// With streams in the pool of a subject, if it has one.
    pub open spec fn pooled(self, id: Seq<char>, items: Seq<JsonV>, film: bool) -> AppV {
        AppV {
            stream_pool: if self.stream_pool.contains_key(id) {
                self.stream_pool.insert(id, added(self.stream_pool[id], items, film))
            } else {
                self.stream_pool
            },
            ..self
        }
    }

    /// With streams shown, the first marked.
    pub open spec fn streams_shown(self, streams: Seq<JsonV>) -> AppV {
        AppV {
            ui: Ui {
                is_loading: false,
                is_fetching_streams: false,
                resource_selected: if streams.len() > 0 {
                    Some(0)
                } else {
                    None
                },
                ..self.ui
            },
            selected_resources: Some(stream_list(streams)),
            stream_error: None,
            ..self
        }.say(decimal(streams.len()) + " streams available."@, 150)
    }

    /// With streams cached, if there are any.
    pub open spec fn streams_saved(
        self,
        id: Seq<char>,
        season: usize,
        episode: usize,
        streams: Seq<JsonV>,
    ) -> AppV {
        if streams.len() > 0 {
            self.ask(
                EffectOf::SaveStreamCache(
                    self.ui.active_provider,
                    id,
                    season,
                    episode,
                    JsonV::List(streams),
                ),
            )
        } else {
            self
        }
    }

    /// With the download started that waited for the streams.
    pub open spec fn waiting_download_started(self, id: Seq<char>) -> AppV {
        let m = AppV { ui: Ui { is_waiting_for_download_stream: false, ..self.ui }, ..self };
        match text_in(get_in(self.stream_marked(), "resourceId"@)) {
            Some(rid) => if self.ui.download_queue_total > 0 {
                m.ask(
                    EffectOf::FetchSeasonCaptions {
                        subject_id: id,
                        resource_id: rid,
                        preference: self.season_subtitle_preference,
                    },
                )
            } else {
                m.send(ActionOf::DownloadStream(None))
            },
            None => m.send(ActionOf::DownloadStream(None)),
        }
    }

    /// After streams were listed that belong to an episode of a subject.
    pub open spec fn streams_listed(
        self,
        id: Seq<char>,
        season: usize,
        episode: usize,
        streams: Seq<JsonV>,
    ) -> AppV {
        let m = self.streams_saved(id, season, episode, streams).streams_shown(streams);
        if self.ui.is_waiting_for_download_stream {
            m.waiting_download_started(id)
        } else {
            m
        }
    }

    /// The streams to show of those that have come: of a subject with a pool, all that are known
    /// of the episode; from the highest resolution down.
    pub open spec fn streams_to_show(
        self,
        id: Seq<char>,
        season: usize,
        episode: usize,
        items: Seq<JsonV>,
    ) -> Seq<JsonV> {
        by_resolution(
            if self.stream_pool.contains_key(id) {
                list_or_empty(known_streams(self.stream_pool, id, season, episode))
            } else {
                items
            },
        )
    }

    /// After the streams of an episode have come.
    pub open spec fn streams_came(
        self,
        context: RequestContext,
        request: u64,
        id: Seq<char>,
        season: usize,
        episode: usize,
        payload: JsonV,
    ) -> AppV {
        if !self.awaits(context, request, id, season, episode) {
            self
        } else {
            let items = list_or_empty(payload.list());
            let m = self.pooled(id, items, season == 0 && episode == 0);
            m.streams_listed(id, season, episode, m.streams_to_show(id, season, episode, items))
        }
    }

    /// With the reason shown why there are no streams.
    pub open spec fn streams_refused(self, error: Seq<char>) -> AppV {
        AppV {
            ui: Ui { is_loading: false, is_fetching_streams: false, ..self.ui },
            selected_resources: None,
            stream_error: Some(error),
            ..self
        }.say("Error: "@ + error, 150)
    }

    /// After the streams of an episode could not be had.
    pub open spec fn streams_failed(
        self,
        context: RequestContext,
        request: u64,
        id: Seq<char>,
        season: usize,
        episode: usize,
        error: Seq<char>,
    ) -> AppV {
        if !self.awaits(context, request, id, season, episode) {
            self
        } else {
            self.streams_refused(error)
        }
    }
}

impl App {
    /// Whether an answer is to the latest request, for the episode that is shown.
    fn awaits(
        &self,
        context: RequestContext,
        request: u64,
        id: &str,
        season: usize,
        episode: usize,
    ) -> (r: bool)
        ensures
            r == self@.awaits(context, request, id@, season, episode),
    {
        let same_id = match &self.active_subject_id {
            Some(s) => same_text(s.as_str(), id),
            None => false,
        };
        request == self.ui.active_resource_request && self.context_is_current(context) && same_id
            && season == self.ui.selected_season && episode == self.ui.selected_episode
    }

    /// Puts streams in the pool of a subject, if it has one.
    fn pool_streams(&mut self, id: &str, items: &Vec<Json>, film: bool)
        ensures
            final(self)@ == old(self)@.pooled(id@, json_list(items@), film),
            final(self)@.steady(old(self)@),
    {
        self.stream_pool.add(id, items, film);
    }

    /// Shows streams, the first marked.
    fn show_streams(&mut self, streams: Vec<Json>)
        ensures
            final(self)@ == old(self)@.streams_shown(json_list(streams@)),
    {
        let n: usize = streams.len();
        let first: Option<usize> = if n > 0 {
            Some(0)
        } else {
            None
        };
        self.ui = Ui {
            is_loading: false,
            is_fetching_streams: false,
            resource_selected: first,
            ..self.ui
        };
        self.selected_resources = Some(stream_list_json(streams));
        self.stream_error = None;
        let text = cat2(decimal_text(n as u64).as_str(), " streams available.");
        self.say(text.as_str(), 150);
    }

    /// Has streams cached, if there are any.
    fn save_streams(&mut self, id: &str, season: usize, episode: usize, streams: &Vec<Json>)
        ensures
            final(self)@ == old(self)@.streams_saved(id@, season, episode, json_list(streams@)),
    {
        if streams.len() > 0 {
            let provider = self.ui.active_provider;
            let list = list_json(copy_list(streams));
            self.ask(
                EffectOf::SaveStreamCache(provider, copy_text(id), season, episode, list),
            );
        }
    }

    /// No longer waits for streams to download.
    fn stop_waiting(&mut self)
        ensures
            final(self)@ == (AppV {
                ui: Ui { is_waiting_for_download_stream: false, ..old(self)@.ui },
                ..old(self)@
            }),
    {
        self.ui = Ui { is_waiting_for_download_stream: false, ..self.ui };
    }

    /// The subtitle that the episodes of a season get.
    pub fn subtitle_preference(&self) -> (r: Option<String>)
        ensures
            text_opt(r) == self@.season_subtitle_preference,
    {
        match &self.season_subtitle_preference {
            Some(s) => Some(copy_text(s.as_str())),
            None => None,
        }
    }

    /// Starts the download that waited for the streams.
    fn start_waiting_download(&mut self, id: &str)
        ensures
            final(self)@ == old(self)@.waiting_download_started(id@),
    {
        let rid = self.get_selected_resource_id();
        let preference = self.subtitle_preference();
        let season = self.ui.download_queue_total > 0;
        self.stop_waiting();
        match rid {
            Some(rid) => {
                if season {
                    self.ask(
                        EffectOf::FetchSeasonCaptions {
                            subject_id: copy_text(id),
                            resource_id: rid,
                            preference,
                        },
                    );
                } else {
                    self.send(ActionOf::DownloadStream(None));
                }
            },
            None => self.send(ActionOf::DownloadStream(None)),
        }
    }

    /// Lists streams that belong to an episode of a subject.
    fn list_streams(&mut self, id: &str, season: usize, episode: usize, streams: Vec<Json>)
        ensures
            final(self)@ == old(self)@.streams_listed(id@, season, episode, json_list(streams@)),
            final(self)@.steady(old(self)@),
    {
        let waiting = self.ui.is_waiting_for_download_stream;
        self.save_streams(id, season, episode, &streams);
        self.show_streams(streams);
        if waiting {
            self.start_waiting_download(id);
        }
    }

    /// The streams to show of those that have come.
    fn streams_to_show(&self, id: &str, season: usize, episode: usize, items: &Vec<Json>) -> (r: Vec<
        Json,
    >)
        ensures
            json_list(r@) == self@.streams_to_show(id@, season, episode, json_list(items@)),
    {
        if self.collects(id) {
            match self.stream_pool.streams(id, season, episode) {
                Some(v) => order_streams(v),
                None => {
                    let none: Vec<Json> = Vec::new();
                    assert(json_list(none@) =~= Seq::empty());
                    order_streams(&none)
                },
            }
        } else {
            order_streams(items)
        }
    }

    /// The streams of an episode have come.
    pub fn episode_streams_ready(
        &mut self,
        context: RequestContext,
        request: u64,
        id: &str,
        season: usize,
        episode: usize,
        payload: &Json,
    )
        ensures
            final(self)@ == old(self)@.streams_came(
                context,
                request,
                id@,
                season,
                episode,
                payload@,
            ),
            final(self)@.steady(old(self)@),
    {
        if !self.awaits(context, request, id, season, episode) {
            return ;
        }
        let items = match payload.as_list() {
            Some(v) => copy_list(v),
            None => {
                let none: Vec<Json> = Vec::new();
                assert(json_list(none@) =~= Seq::empty());
                none
            },
        };
        self.pool_streams(id, &items, season == 0 && episode == 0);
        let streams = self.streams_to_show(id, season, episode, &items);
        self.list_streams(id, season, episode, streams);
    }

    /// Shows the reason why there are no streams.
    fn refuse_streams(&mut self, error: &str)
        ensures
            final(self)@ == old(self)@.streams_refused(error@),
    {
        self.ui = Ui { is_loading: false, is_fetching_streams: false, ..self.ui };
        self.selected_resources = None;
        self.stream_error = Some(copy_text(error));
        let text = cat2("Error: ", error);
        self.say(text.as_str(), 150);
    }

    /// The streams of an episode could not be had.
    pub fn episode_streams_failed(
        &mut self,
        context: RequestContext,
        request: u64,
        id: &str,
        season: usize,
        episode: usize,
        error: &str,
    )
        ensures
            final(self)@ == old(self)@.streams_failed(
                context,
                request,
                id@,
                season,
                episode,
                error@,
            ),
            final(self)@.steady(old(self)@),
    {
        if self.awaits(context, request, id, season, episode) {
            self.refuse_streams(error);
        }
    }
}

/// An answer to an earlier request, to another provider or for another episode changes nothing.
pub proof fn law_late_answers_change_nothing(
    m: AppV,
    context: RequestContext,
    request: u64,
    id: Seq<char>,
    season: usize,
    episode: usize,
    payload: JsonV,
    error: Seq<char>,
)
    requires
        !m.awaits(context, request, id, season, episode),
    ensures
        m.streams_came(context, request, id, season, episode, payload) == m,
        m.streams_failed(context, request, id, season, episode, error) == m,
{
}

// ---------------------------------------------------------------------------
// The start of a pool
// ---------------------------------------------------------------------------

/// A number, or one in place of zero.
pub open spec fn at_least_one(n: usize) -> usize {
    if n > 0 {
        n
    } else {
        1
    }
}

impl AppV {
    /// The season and the episode to begin with: those shown, the first where none is, and zero for
    /// a film.
    pub open spec fn starting_episode(self) -> (usize, usize) {
        let kind = match int_in(get_in(self.selected_details, "subjectType"@)) {
            Some(n) => n,
            None => match int_in(get_in(self.selected_details, "stype"@)) {
                Some(n) => n,
                None => 1,
            },
        };
        if self.selected_details is None || kind == 2 {
            (at_least_one(self.ui.selected_season), at_least_one(self.ui.selected_episode))
        } else {
            (0, 0)
        }
    }

    /// With a pool started for a subject.
    pub open spec fn pool_started(self, id: Seq<char>, resolutions: Seq<u32>) -> AppV {
        AppV {
            stream_pool: self.stream_pool.insert(
                id,
                PoolV { resolutions, episodes: Map::empty() },
            ),
            ..self
        }
    }

    /// After a pool was wanted for a subject.
    pub open spec fn pool_wanted(self, id: Seq<char>) -> AppV {
        if self.ui.active_provider != ProviderKind::MovieBox {
            self.pool_started(id, Seq::empty()).episode_triggered()
        } else {
            self.ask(EffectOf::FetchResolutions(id))
        }
    }

    /// With an episode shown.
    pub open spec fn episode_set(self, season: usize, episode: usize) -> AppV {
        AppV { ui: Ui { selected_season: season, selected_episode: episode, ..self.ui }, ..self }
    }

    /// With streams kept that are shown already.
    pub open spec fn shown_kept(
        self,
        id: Seq<char>,
        season: usize,
        episode: usize,
        streams: Seq<JsonV>,
    ) -> AppV {
        AppV {
            ui: Ui { is_loading: false, is_fetching_streams: false, ..self.ui },
            stream_pool: with_streams(self.stream_pool, id, season, episode, streams),
            ..self
        }
    }

    /// After the resolutions of the streams of a subject were learnt.
    pub open spec fn pool_initialized(self, id: Seq<char>, resolutions: Seq<u32>) -> AppV {
        if self.active_subject_id != Some(id) {
            self
        } else {
            let (season, episode) = self.starting_episode();
            let m = self.pool_started(id, resolutions).episode_set(season, episode);
            let shown = list_or_empty(list_in(get_in(self.selected_resources, "list"@)));
            if shown.len() > 0 {
                m.shown_kept(id, season, episode, shown)
            } else {
                m.send(
                    ActionOf::FetchEpisodeStreams {
                        subject_id: id,
                        season,
                        episode,
                        force_refresh: false,
                    },
                )
            }
        }
    }
}

impl App {
    /// The season and the episode to begin with.
    fn starting_episode(&self) -> (r: (usize, usize))
        ensures
            r == self@.starting_episode(),
    {
        let details = borrowed(&self.selected_details);
        let kind: i64 = match int_of(get_of(details, "subjectType")) {
            Some(n) => n,
            None => match int_of(get_of(details, "stype")) {
                Some(n) => n,
                None => 1,
            },
        };
        if details.is_none() || kind == 2 {
            let se: usize = if self.ui.selected_season > 0 {
                self.ui.selected_season
            } else {
                1
            };
            let ep: usize = if self.ui.selected_episode > 0 {
                self.ui.selected_episode
            } else {
                1
            };
            (se, ep)
        } else {
            (0, 0)
        }
    }

    /// Starts a pool for a subject.
    fn start_pool(&mut self, id: &str, resolutions: Vec<u32>)
        ensures
            final(self)@ == old(self)@.pool_started(id@, resolutions@),
    {
        self.stream_pool.start(copy_text(id), resolutions);
    }

    /// A pool is wanted for a subject.
    pub fn init_stream_pool(&mut self, id: String)
        requires
            AppV::marked(old(self)@.ui.episode_selected) < usize::MAX,
        ensures
            final(self)@ == old(self)@.pool_wanted(id@),
            final(self)@.steady(old(self)@),
    {
        if self.ui.active_provider != ProviderKind::MovieBox {
            let none: Vec<u32> = Vec::new();
            assert(none@ =~= Seq::empty());
            self.start_pool(id.as_str(), none);
            self.trigger_episode_fetch();
        } else {
            self.ask(EffectOf::FetchResolutions(id));
        }
    }

    /// Shows an episode.
    pub fn set_episode(&mut self, season: usize, episode: usize)
        ensures
            final(self)@ == old(self)@.episode_set(season, episode),
    {
        self.ui = Ui { selected_season: season, selected_episode: episode, ..self.ui };
    }

    /// Keeps streams that are shown already.
    fn keep_shown(&mut self, id: &str, season: usize, episode: usize, streams: Vec<Json>)
        ensures
            final(self)@ == old(self)@.shown_kept(id@, season, episode, json_list(streams@)),
    {
        self.ui = Ui { is_loading: false, is_fetching_streams: false, ..self.ui };
        self.stream_pool.put(id, season, episode, streams);
    }

    /// The streams that are shown.
    fn shown_streams(&self) -> (r: Vec<Json>)
        ensures
            json_list(r@) == list_or_empty(list_in(get_in(self@.selected_resources, "list"@))),
    {
        match list_of(get_of(borrowed(&self.selected_resources), "list")) {
            Some(v) => copy_list(v),
            None => {
                let none: Vec<Json> = Vec::new();
                assert(json_list(none@) =~= Seq::empty());
                none
            },
        }
    }

    /// Whether a subject is the title of the details screen.
    pub fn is_subject(&self, id: &str) -> (r: bool)
        ensures
            r == (self@.active_subject_id == Some(id@)),
    {
        match &self.active_subject_id {
            Some(s) => same_text(s.as_str(), id),
            None => false,
        }
    }

    /// The resolutions of the streams of a subject are learnt.
    pub fn stream_pool_initialized(&mut self, id: String, resolutions: Vec<u32>)
        ensures
            final(self)@ == old(self)@.pool_initialized(id@, resolutions@),
            final(self)@.steady(old(self)@),
    {
        if !self.is_subject(id.as_str()) {
            return ;
        }
        let (season, episode) = self.starting_episode();
        let shown = self.shown_streams();
        self.start_pool(id.as_str(), resolutions);
        self.set_episode(season, episode);
        if shown.len() > 0 {
            self.keep_shown(id.as_str(), season, episode, shown);
        } else {
            self.send(
                ActionOf::FetchEpisodeStreams {
                    subject_id: id,
                    season,
                    episode,
                    force_refresh: false,
                },
            );
        }
    }
}

} // verus!
