//! Searching, suggestions, the home page and television.
use vstd::prelude::*;
use crate::json::{
    Json, JsonV, get_in, get_of, item_in, item_of, json_list, json_members, lemma_json_view,
    list_in, list_of, text_in, text_of_json,
};
use crate::numbers::{decimal, decimal_text};
use crate::outside::{lowercase, to_lowercase};
use crate::providers::iptv_org::m3u::{Channel, ChannelV, channels};
use crate::providers::models::{ProviderKind, RequestContext};
use crate::strings::{
    CharClass, before, begins, begins_with, cat3, cat5, copy_text, has, holds_entry, holds_text,
    is_blank, same_text, text_before, text_opt, texts, trim, trimmed,
};
use crate::tui::search::{
    answers, is_answer, merge_search, merged_search, or_text, rank_results, ranked, text_or,
};
use crate::tui::titles::normal_form;
use crate::tui::state::{
    ActionOf, App, AppV, EffectOf, EffectV, InputMode, NotificationKind, Screen, SearchResult,
    SearchResultOf, SearchResultV, Ui, effects, results,
};

verus! {

// ---------------------------------------------------------------------------
// Posters of results
// ---------------------------------------------------------------------------

/// The posters to fetch for results, in their order.
pub open spec fn poster_requests(v: Seq<SearchResultV>, skip_empty: bool) -> Seq<EffectV>
    decreases v.len(),
{
    if v.len() == 0 {
        Seq::empty()
    } else {
        let rest = poster_requests(v.drop_last(), skip_empty);
        match v.last().cover_url {
            Some(url) => if skip_empty && url.len() == 0 {
                rest
            } else {
                rest.push(EffectOf::FetchSearchPoster { id: v.last().id, url })
            },
            None => rest,
        }
    }
}

/// At most `n` results from `from` on.
pub open spec fn page_of(v: Seq<SearchResultV>, from: int, n: int) -> Seq<SearchResultV> {
    let a = if from <= v.len() {
        from
    } else {
        v.len() as int
    };
    let b = if a + n <= v.len() {
        a + n
    } else {
        v.len() as int
    };
    v.subrange(a, b)
}

impl AppV {
    /// With the posters asked for of at most `n` results from `from` on.
    pub open spec fn ask_posters(self, from: int, n: int, skip_empty: bool) -> AppV {
        AppV {
            effects: self.effects + poster_requests(
                page_of(self.search_results, from, n),
                skip_empty,
            ),
            ..self
        }
    }
}

impl App {
    /// Asks for the posters of at most `n` results from `from` on.
    pub fn ask_posters(&mut self, from: usize, n: usize, skip_empty: bool)
        ensures
            final(self)@ == old(self)@.ask_posters(from as int, n as int, skip_empty),
    {
        let len: usize = self.search_results.len();
        let a: usize = if from <= len { from } else { len };
        let b: usize = if n <= len - a { a + n } else { len };
        let ghost m = self@;
        let ghost page = page_of(m.search_results, from as int, n as int);
        proof {
            assert(page.take(0) =~= Seq::empty());
            assert(m.effects + Seq::<EffectV>::empty() =~= m.effects);
        }
        let mut i: usize = a;
        while i < b
            invariant
                a <= i <= b,
                page == m.search_results.subrange(a as int, b as int),
                m.search_results == results(self.search_results@),
                b <= m.search_results.len(),
                b <= m.search_results.len(),
                self@ == (AppV {
                    effects: m.effects + poster_requests(page.take(i - a), skip_empty),
                    ..m
                }),
            decreases b - i,
        {
            let ghost done = poster_requests(page.take(i - a), skip_empty);
            proof {
                assert(page.take(i - a + 1).drop_last() =~= page.take(i - a));
                assert(page.take(i - a + 1).last() == self.search_results@[i as int]@);
            }
            let id = copy_text(self.search_results[i].id.as_str());
            let url = match &self.search_results[i].cover_url {
                Some(u) => Some(copy_text(u.as_str())),
                None => None,
            };
            match url {
                Some(url) => {
                    if !(skip_empty && is_blank(url.as_str())) {
                        let ghost e: EffectV = EffectOf::FetchSearchPoster { id: id@, url: url@ };
                        self.ask(EffectOf::FetchSearchPoster { id, url });
                        proof {
                            assert(m.effects + done.push(e) =~= (m.effects + done).push(e));
                        }
                    }
                },
                None => {},
            }
            i = i + 1;
        }
        assert(page.take(b - a) =~= page);
    }
}

// ---------------------------------------------------------------------------
// Suggestions
// ---------------------------------------------------------------------------

/// The commands of the search field.
pub open spec fn commands(tv: bool) -> Seq<Seq<char>> {
    let common = seq!["/clear-cache"@, "/update"@, "/toggle-update"@, "/github"@];
    if tv {
        common + seq!["/list"@, "/config"@]
    } else {
        common + seq!["/discover"@, "/home"@, "/movies"@, "/shows"@, "/tvshows"@, "/anime"@]
    }
}

/// The commands of the search field.
fn command_list(tv: bool) -> (r: Vec<String>)
    ensures
        texts(r@) == commands(tv),
{
    let mut v: Vec<String> = Vec::new();
    v.push(copy_text("/clear-cache"));
    v.push(copy_text("/update"));
    v.push(copy_text("/toggle-update"));
    v.push(copy_text("/github"));
    if tv {
        v.push(copy_text("/list"));
        v.push(copy_text("/config"));
    } else {
        v.push(copy_text("/discover"));
        v.push(copy_text("/home"));
        v.push(copy_text("/movies"));
        v.push(copy_text("/shows"));
        v.push(copy_text("/tvshows"));
        v.push(copy_text("/anime"));
    }
    assert(texts(v@) =~= commands(tv));
    v
}

/// An object with a title.
pub open spec fn titled(title: Seq<char>) -> JsonV {
    JsonV::Object(seq![("title"@, JsonV::Text(title))])
}

/// The commands that begin with a text, each as an object with a title.
pub open spec fn matching_commands(v: Seq<Seq<char>>, query: Seq<char>) -> Seq<JsonV>
    decreases v.len(),
{
    if v.len() == 0 {
        Seq::empty()
    } else if begins(v.last(), query) {
        matching_commands(v.drop_last(), query).push(titled(v.last()))
    } else {
        matching_commands(v.drop_last(), query)
    }
}

/// An answer with titles, in the form in which searches are answered.
pub open spec fn answer_with(subjects: Seq<JsonV>) -> JsonV {
    JsonV::Object(
        seq![
            (
                "results"@,
                JsonV::List(seq![JsonV::Object(seq![("subjects"@, JsonV::List(subjects))])]),
            ),
        ],
    )
}

/// The titles in the answer to a search.
pub open spec fn subjects_of(payload: JsonV) -> Option<Seq<JsonV>> {
    list_in(get_in(item_in(list_in(payload.get("results"@)), 0), "subjects"@))
}

/// The titles in an answer are those it was made with.
pub proof fn law_answer_read_back(subjects: Seq<JsonV>)
    ensures
        subjects_of(answer_with(subjects)) == Some(subjects),
{
    let p = answer_with(subjects);
    let list = seq![JsonV::Object(seq![("subjects"@, JsonV::List(subjects))])];
    assert(p.get("results"@) == Some(JsonV::List(list)));
    assert(list[0].get("subjects"@) == Some(JsonV::List(subjects)));
}

/// An object with one member.
fn object_of(key: &str, value: Json) -> (r: Json)
    ensures
        r@ == JsonV::Object(seq![(key@, value@)]),
{
    let mut v: Vec<(String, Json)> = Vec::new();
    v.push((copy_text(key), value));
    let r = Json::Object(v);
    proof {
        lemma_json_view(r);
        assert(json_members(v@) =~= seq![(key@, value@)]);
    }
    r
}

/// A list as a JSON value.
pub fn list_json(v: Vec<Json>) -> (r: Json)
    ensures
        r@ == JsonV::List(json_list(v@)),
{
    let r = Json::List(v);
    proof {
        lemma_json_view(r);
    }
    r
}

/// The streams of an episode, in the form in which they are shown.
pub open spec fn stream_list(streams: Seq<JsonV>) -> JsonV {
    JsonV::Object(seq![("list"@, JsonV::List(streams))])
}

/// The streams of an episode, in the form in which they are shown.
pub fn stream_list_json(streams: Vec<Json>) -> (r: Json)
    ensures
        r@ == stream_list(json_list(streams@)),
{
    object_of("list", list_json(streams))
}

/// The titles in the answer to a search.
fn read_subjects<'a>(payload: &'a Json) -> (r: Option<&'a Vec<Json>>)
    ensures
        match r {
            Some(v) => subjects_of(payload@) == Some(json_list(v@)),
            None => subjects_of(payload@) is None,
        },
{
    list_of(get_of(item_of(payload.get("results"), 0), "subjects"))
}

/// The suggestion that a title becomes: the title up to a bracket, trimmed.
pub open spec fn suggestion(j: JsonV) -> Seq<char> {
    trim(
        before(text_or(text_in(j.get("title"@)), "Unknown"@), CharClass::Is('[')),
        CharClass::White,
    )
}

/// The suggestions among titles for a query, each once.
pub open spec fn suggestions(items: Seq<JsonV>, query: Seq<char>) -> Seq<Seq<char>>
    decreases items.len(),
{
    if items.len() == 0 {
        Seq::empty()
    } else {
        let rest = suggestions(items.drop_last(), query);
        let s = suggestion(items.last());
        if answers(s, query) && !rest.contains(s) {
            rest.push(s)
        } else {
            rest
        }
    }
}

/// The first eight of a list.
pub open spec fn first_eight(v: Seq<JsonV>) -> Seq<JsonV> {
    if v.len() <= 8 {
        v
    } else {
        v.take(8)
    }
}

/// The suggestions among titles for a query, each once.
fn read_suggestions(items: &Vec<Json>, query: &str) -> (r: Vec<String>)
    ensures
        texts(r@) == suggestions(first_eight(json_list(items@)), query@),
{
    let n: usize = if items.len() <= 8 { items.len() } else { 8 };
    let ghost list = first_eight(json_list(items@));
    let mut r: Vec<String> = Vec::new();
    let mut i: usize = 0;
    proof {
        assert(list.take(0) =~= Seq::empty());
        assert(texts(r@) =~= Seq::empty());
    }
    while i < n
        invariant
            i <= n <= items@.len(),
            n == list.len(),
            list == first_eight(json_list(items@)),
            texts(r@) == suggestions(list.take(i as int), query@),
        decreases n - i,
    {
        proof {
            assert(list.take(i + 1).drop_last() =~= list.take(i as int));
            assert(list.take(i + 1).last() == items@[i as int]@);
        }
        let raw = or_text(text_of_json(items[i].get("title")), "Unknown");
        let s = trimmed(text_before(raw.as_str(), CharClass::Is('[')).as_str(), CharClass::White);
        if is_answer(s.as_str(), query) && !holds_entry(&r, s.as_str()) {
            let ghost done = texts(r@);
            r.push(s);
            assert(texts(r@) =~= done.push(s@));
        }
        i = i + 1;
    }
    assert(list.take(n as int) =~= list);
    r
}

impl AppV {
    /// After suggestions for a query were wanted.
    pub open spec fn suggested(self, query: Seq<char>) -> AppV {
        if begins(query, "/"@) {
            let found = matching_commands(commands(self.ui.is_tv_mode), query);
            if found.len() > 0 {
                self.send(ActionOf::SuggestSuccess(query, answer_with(found)))
            } else {
                self
            }
        } else if self.ui.is_tv_mode {
            self
        } else if self.ui.active_provider != ProviderKind::MovieBox {
            AppV { search_suggestions: Seq::empty(), ..self }
        } else {
            self.ask(EffectOf::FetchSuggestions(query))
        }
    }

    /// After suggestions for a query have come.
    pub open spec fn suggestions_came(self, query: Seq<char>, payload: JsonV) -> AppV {
        if self.ui.suggest_index is Some || query != trim(self.search_query, CharClass::White) {
            self
        } else {
            AppV {
                search_suggestions: match subjects_of(payload) {
                    Some(v) => suggestions(first_eight(v), query),
                    None => Seq::empty(),
                },
                ..self
            }
        }
    }
}

impl App {
    /// Suggestions for a query are wanted.
    pub fn suggest(&mut self, query: String)
        ensures
            final(self)@ == old(self)@.suggested(query@),
            final(self)@.steady(old(self)@),
    {
        if begins_with(query.as_str(), "/") {
            let list = command_list(self.ui.is_tv_mode);
            let ghost all = texts(list@);
            let mut found: Vec<Json> = Vec::new();
            let mut i: usize = 0;
            proof {
                assert(all.take(0) =~= Seq::empty());
                assert(json_list(found@) =~= Seq::empty());
            }
            while i < list.len()
                invariant
                    i <= list@.len(),
                    all == texts(list@),
                    json_list(found@) == matching_commands(all.take(i as int), query@),
                decreases list@.len() - i,
            {
                proof {
                    assert(all.take(i + 1).drop_last() =~= all.take(i as int));
                    assert(all.take(i + 1).last() == list@[i as int]@);
                }
                if begins_with(list[i].as_str(), query.as_str()) {
                    let ghost done = json_list(found@);
                    let j = object_of("title", Json::Text(copy_text(list[i].as_str())));
                    found.push(j);
                    assert(json_list(found@) =~= done.push(j@));
                }
                i = i + 1;
            }
            proof {
                assert(all.take(all.len() as int) =~= all);
            }
            if found.len() > 0 {
                let ghost titles = json_list(found@);
                let mut list: Vec<Json> = Vec::new();
                let subjects = object_of("subjects", list_json(found));
                list.push(subjects);
                proof {
                    assert(json_list(list@) =~= seq![subjects@]);
                }
                let payload = object_of("results", list_json(list));
                assert(payload@ == answer_with(titles));
                self.send(ActionOf::SuggestSuccess(query, payload));
            }
            return ;
        }
        if self.ui.is_tv_mode {
            return ;
        }
        if self.ui.active_provider != ProviderKind::MovieBox {
            self.search_suggestions = Vec::new();
            assert(texts(self.search_suggestions@) =~= Seq::empty());
            return ;
        }
        self.ask(EffectOf::FetchSuggestions(query));
    }

    /// Suggestions for a query have come.
    pub fn suggest_success(&mut self, query: String, payload: Json)
        ensures
            final(self)@ == old(self)@.suggestions_came(query@, payload@),
            final(self)@.steady(old(self)@),
    {
        if self.ui.suggest_index.is_some() {
            return ;
        }
        let typed = trimmed(self.search_query.as_str(), CharClass::White);
        if !same_text(query.as_str(), typed.as_str()) {
            return ;
        }
        let found = match read_subjects(&payload) {
            Some(v) => read_suggestions(v, query.as_str()),
            None => {
                let none: Vec<String> = Vec::new();
                assert(texts(none@) =~= Seq::empty());
                none
            },
        };
        self.search_suggestions = found;
    }
}

// ---------------------------------------------------------------------------
// Searching
// ---------------------------------------------------------------------------

/// Whether a channel is shown for a query in lower case.
pub open spec fn channel_matches(c: ChannelV, query: Seq<char>) -> bool {
    query == "/list"@ || has(lowercase(c.name), query) || has(lowercase(c.group), query)
}

/// The result that a channel becomes.
pub open spec fn channel_result(c: ChannelV) -> SearchResultV {
    SearchResultOf {
        id: c.stream_url,
        title: c.name,
        stype: 3,
        release_year: c.group,
        cover_url: Some(c.logo),
        season: 1,
    }
}

/// The channels shown for a query in lower case.
pub open spec fn channel_results(v: Seq<ChannelV>, query: Seq<char>) -> Seq<SearchResultV>
    decreases v.len(),
{
    if v.len() == 0 {
        Seq::empty()
    } else if channel_matches(v.last(), query) {
        channel_results(v.drop_last(), query).push(channel_result(v.last()))
    } else {
        channel_results(v.drop_last(), query)
    }
}

/// The channels shown for a query in lower case.
pub fn find_channels(v: &Vec<Channel>, query: &str) -> (r: Vec<SearchResult>)
    ensures
        results(r@) == channel_results(channels(v@), query@),
{
    let all = same_text(query, "/list");
    let ghost list = channels(v@);
    let mut r: Vec<SearchResult> = Vec::new();
    let mut i: usize = 0;
    proof {
        assert(list.take(0) =~= Seq::empty());
        assert(results(r@) =~= Seq::empty());
    }
    while i < v.len()
        invariant
            i <= v@.len(),
            all == (query@ == "/list"@),
            list == channels(v@),
            results(r@) == channel_results(list.take(i as int), query@),
        decreases v@.len() - i,
    {
        proof {
            assert(list.take(i + 1).drop_last() =~= list.take(i as int));
            assert(list.take(i + 1).last() == v@[i as int]@);
        }
        let c = &v[i];
        if all || holds_text(to_lowercase(c.name.as_str()).as_str(), query) || holds_text(
            to_lowercase(c.group.as_str()).as_str(),
            query,
        ) {
            let ghost done = results(r@);
            let x = SearchResultOf {
                id: copy_text(c.stream_url.as_str()),
                title: copy_text(c.name.as_str()),
                stype: 3,
                release_year: copy_text(c.group.as_str()),
                cover_url: Some(copy_text(c.logo.as_str())),
                season: 1,
            };
            r.push(x);
            assert(results(r@) =~= done.push(x@));
        }
        i = i + 1;
    }
    assert(list.take(list.len() as int) =~= list);
    r
}

/// The tab of the home page that a command asks for.
pub open spec fn tab_of(query: Seq<char>) -> Option<Seq<char>> {
    if query == "/home"@ || query == "/discover"@ {
        Some("0"@)
    } else if query == "/movies"@ {
        Some("2"@)
    } else if query == "/shows"@ || query == "/tvshows"@ {
        Some("5"@)
    } else if query == "/anime"@ {
        Some("8"@)
    } else {
        None
    }
}

/// The tab of the home page that a command asks for.
fn tab_for(query: &str) -> (r: Option<String>)
    ensures
        text_opt(r) == tab_of(query@),
{
    if same_text(query, "/home") || same_text(query, "/discover") {
        Some(copy_text("0"))
    } else if same_text(query, "/movies") {
        Some(copy_text("2"))
    } else if same_text(query, "/shows") || same_text(query, "/tvshows") {
        Some(copy_text("5"))
    } else if same_text(query, "/anime") {
        Some(copy_text("8"))
    } else {
        None
    }
}

impl AppV {
    /// With the search field empty.
    pub open spec fn field_emptied(self) -> AppV {
        AppV { search_query: Seq::empty(), ..self }
    }

    /// With the search field empty and keys going to the commands.
    pub open spec fn field_left(self) -> AppV {
        AppV { search_query: Seq::empty(), ui: Ui { input_mode: InputMode::Normal, ..self.ui }, ..self }
    }

    /// After the command that looks for a newer version.
    pub open spec fn update_command(self) -> AppV {
        AppV {
            ui: Ui { active_screen: Screen::Startup, manual_update_check: true, ..self.ui },
            update_available: None,
            ..self
        }.field_left().send(ActionOf::CheckForUpdates)
    }

    /// After the command that switches automatic updates.
    pub open spec fn toggle_update_command(self) -> AppV {
        let on = !self.ui.auto_update;
        AppV { ui: Ui { auto_update: on, ..self.ui }, ..self }.field_left().ask(
            EffectOf::PersistConfig,
        ).notify(
            NotificationKind::Info,
            "Automatic updates"@,
            if on {
                "Enabled"@
            } else {
                "Disabled"@
            },
        )
    }

    /// With results, of which the first is marked.
    pub open spec fn with_results(self, found: Seq<SearchResultV>) -> AppV {
        AppV {
            search_results: found,
            ui: Ui {
                is_loading: false,
                search_selected: if found.len() == 0 {
                    None
                } else {
                    Some(0)
                },
                ..self.ui
            },
            ..self
        }
    }

    /// After a query for channels, also in lower case.
    pub open spec fn channels_searched(self, query: Seq<char>, low: Seq<char>) -> AppV {
        let m = self.with_results(channel_results(self.tv_channels, low));
        if m.search_results.len() == 0 {
            m.say("No matches for '"@ + query + "'."@, 150)
        } else {
            m.ask_posters(0, 15, true).say(
                "Found "@ + decimal(m.search_results.len()) + " channels."@,
                150,
            )
        }
    }

    /// After a query in television mode, also in lower case.
    pub open spec fn tv_searched(self, query: Seq<char>, low: Seq<char>) -> AppV {
        if low == "/config"@ {
            self.send(ActionOf::ShowTvWizard).field_emptied()
        } else if tab_of(low) is Some {
            self.say("Switch to streaming mode to use this command"@, 150).field_emptied()
        } else {
            self.channels_searched(query, low)
        }
    }

    /// After a query for titles.
    pub open spec fn titles_searched(self, query: Seq<char>, force_refresh: bool) -> AppV {
        AppV {
            ui: Ui {
                is_homepage_mode: false,
                current_page: 1,
                active_screen: Screen::Home,
                is_loading: true,
                search_selected: Some(0),
                suggest_index: None,
                ..self.ui
            },
            selected_details: None,
            selected_resources: None,
            search_suggestions: Seq::empty(),
            search_preview: None,
            ..self
        }.say("Searching for '"@ + query + "'..."@, 150).ask(
            EffectOf::Search { context: self.context(), query, force_refresh },
        )
    }

    /// After a command for a tab of the home page.
    pub open spec fn tab_command(self, tab_id: Seq<char>) -> AppV {
        if self.ui.active_provider != ProviderKind::MovieBox {
            self.say("4KHDHub has no discover feed; enter a title to search."@, 180)
        } else {
            self.send(ActionOf::FetchHomepage { tab_id, page: 1 })
        }
    }

    /// After a query was entered: a command is carried out, anything else is searched.
    pub open spec fn searched(self, query: Seq<char>, force_refresh: bool) -> AppV {
        let low = lowercase(trim(query, CharClass::White));
        if low == "/clear-cache"@ {
            self.send(ActionOf::ClearCache).field_emptied()
        } else if low == "/github"@ {
            self.ask(EffectOf::OpenUrl("https://github.com/mesamirh/MovieBox-Tui"@)).field_left()
        } else if low == "/update"@ {
            self.update_command()
        } else if low == "/toggle-update"@ {
            self.toggle_update_command()
        } else if self.ui.is_tv_mode {
            self.tv_searched(query, low)
        } else {
            match tab_of(low) {
                Some(tab_id) => self.tab_command(tab_id),
                None => self.titles_searched(query, force_refresh),
            }
        }
    }
}

impl App {
    /// Empties the search field.
    pub fn empty_field(&mut self)
        ensures
            final(self)@ == old(self)@.field_emptied(),
            final(self)@.steady(old(self)@),
    {
        self.search_query = String::new();
    }

    /// Empties the search field and has keys go to the commands.
    pub fn leave_field(&mut self)
        ensures
            final(self)@ == old(self)@.field_left(),
            final(self)@.steady(old(self)@),
    {
        self.search_query = String::new();
        self.ui = Ui { input_mode: InputMode::Normal, ..self.ui };
    }

    /// The command that looks for a newer version.
    fn update_command(&mut self)
        ensures
            final(self)@ == old(self)@.update_command(),
            final(self)@.steady(old(self)@),
    {
        self.ui = Ui { active_screen: Screen::Startup, manual_update_check: true, ..self.ui };
        self.update_available = None;
        self.leave_field();
        self.send(ActionOf::CheckForUpdates);
    }

    /// The command that switches automatic updates.
    fn toggle_update_command(&mut self)
        ensures
            final(self)@ == old(self)@.toggle_update_command(),
            final(self)@.steady(old(self)@),
    {
        let on = !self.ui.auto_update;
        self.ui = Ui { auto_update: on, ..self.ui };
        self.leave_field();
        self.ask(EffectOf::PersistConfig);
        let text = if on {
            "Enabled"
        } else {
            "Disabled"
        };
        self.notify(NotificationKind::Info, "Automatic updates", text);
    }

    /// Shows results, of which the first is marked.
    pub fn show_results(&mut self, found: Vec<SearchResult>)
        ensures
            final(self)@ == old(self)@.with_results(results(found@)),
    {
        let n: usize = found.len();
        let marked: Option<usize> = if n == 0 {
            None
        } else {
            Some(0)
        };
        self.search_results = found;
        self.ui = Ui { is_loading: false, search_selected: marked, ..self.ui };
    }

    /// A query for channels, also in lower case.
    fn search_channels(&mut self, query: &str, low: &str)
        ensures
            final(self)@ == old(self)@.channels_searched(query@, low@),
    {
        let found = find_channels(&self.tv_channels, low);
        let n: usize = found.len();
        self.show_results(found);
        if n == 0 {
            let text = cat3("No matches for '", query, "'.");
            self.say(text.as_str(), 150);
        } else {
            self.ask_posters(0, 15, true);
            let text = cat3("Found ", decimal_text(n as u64).as_str(), " channels.");
            self.say(text.as_str(), 150);
        }
    }

    /// A query in television mode, also in lower case.
    fn search_tv(&mut self, query: &str, low: &str)
        ensures
            final(self)@ == old(self)@.tv_searched(query@, low@),
            final(self)@.steady(old(self)@),
    {
        if same_text(low, "/config") {
            self.send(ActionOf::ShowTvWizard);
            self.empty_field();
        } else if tab_for(low).is_some() {
            self.say("Switch to streaming mode to use this command", 150);
            self.empty_field();
        } else {
            self.search_channels(query, low);
        }
    }

    /// A query for titles.
    fn search_titles(&mut self, query: String, force_refresh: bool)
        ensures
            final(self)@ == old(self)@.titles_searched(query@, force_refresh),
            final(self)@.steady(old(self)@),
    {
        self.ui = Ui {
            is_homepage_mode: false,
            current_page: 1,
            active_screen: Screen::Home,
            is_loading: true,
            search_selected: Some(0),
            suggest_index: None,
            ..self.ui
        };
        self.selected_details = None;
        self.selected_resources = None;
        self.search_suggestions = Vec::new();
        self.search_preview = None;
        assert(texts(self.search_suggestions@) =~= Seq::empty());
        let text = cat3("Searching for '", query.as_str(), "'...");
        self.say(text.as_str(), 150);
        let context = self.request_context();
        self.ask(EffectOf::Search { context, query, force_refresh });
    }

    /// A command for a tab of the home page.
    fn tab_command(&mut self, tab_id: String)
        ensures
            final(self)@ == old(self)@.tab_command(tab_id@),
            final(self)@.steady(old(self)@),
    {
        if self.ui.active_provider != ProviderKind::MovieBox {
            self.say("4KHDHub has no discover feed; enter a title to search.", 180);
        } else {
            self.send(ActionOf::FetchHomepage { tab_id, page: 1 });
        }
    }

    /// A query was entered: a command is carried out, anything else is searched.
    pub fn search(&mut self, query: String, force_refresh: bool)
        ensures
            final(self)@ == old(self)@.searched(query@, force_refresh),
            final(self)@.steady(old(self)@),
    {
        let low = to_lowercase(trimmed(query.as_str(), CharClass::White).as_str());
        if same_text(low.as_str(), "/clear-cache") {
            self.send(ActionOf::ClearCache);
            self.empty_field();
        } else if same_text(low.as_str(), "/github") {
            self.ask(EffectOf::OpenUrl(copy_text("https://github.com/mesamirh/MovieBox-Tui")));
            self.leave_field();
        } else if same_text(low.as_str(), "/update") {
            self.update_command();
        } else if same_text(low.as_str(), "/toggle-update") {
            self.toggle_update_command();
        } else if self.ui.is_tv_mode {
            self.search_tv(query.as_str(), low.as_str());
        } else {
            match tab_for(low.as_str()) {
                Some(tab_id) => self.tab_command(tab_id),
                None => self.search_titles(query, force_refresh),
            }
        }
    }
}

// ---------------------------------------------------------------------------
// Answers
// ---------------------------------------------------------------------------

impl AppV {
    /// With loading done, and the results of an earlier search gone if this is the first page.
    pub open spec fn page_begun(self, first: bool) -> AppV {
        AppV {
            ui: Ui { is_loading: false, ..self.ui },
            search_results: if first {
                Seq::empty()
            } else {
                self.search_results
            },
            ..self
        }
    }

    /// With the titles of an answer among the results.
    pub open spec fn titles_merged(self, query: Seq<char>, payload: JsonV) -> AppV {
        match subjects_of(payload) {
            Some(v) => AppV {
                search_results: ranked(
                    merged_search(self.search_results, v, query),
                    lowercase(query),
                ),
                ..self
            },
            None => self,
        }
    }

    /// With the first result marked and its preview asked for, if there is one.
    pub open spec fn first_marked(self) -> AppV {
        if self.search_results.len() == 0 {
            AppV { ui: Ui { search_selected: None, ..self.ui }, ..self }
        } else {
            AppV { ui: Ui { search_selected: Some(0), ..self.ui }, ..self }.send(
                ActionOf::FetchPreview(self.search_results[0].id),
            )
        }
    }

    /// With the outcome of a search in the status.
    pub open spec fn outcome_said(self, query: Seq<char>, provider: ProviderKind) -> AppV {
        if self.search_results.len() == 0 {
            self.say(
                "No matches for '"@ + query + "' on "@ + provider.name()
                    + ". Press Ctrl+P to try another provider."@,
                150,
            )
        } else {
            self.say(
                "Found "@ + decimal(self.search_results.len()) + " results on "@ + provider.name()
                    + "."@,
                150,
            )
        }
    }

    /// After results have come.
    pub open spec fn results_came(
        self,
        context: RequestContext,
        query: Seq<char>,
        payload: JsonV,
    ) -> AppV {
        if context != self.context() || query != trim(self.search_query, CharClass::White) {
            self
        } else {
            let first = self.ui.current_page <= 1;
            let m = self.page_begun(first).titles_merged(query, payload).ask_posters(
                0,
                15,
                false,
            ).outcome_said(query, context.provider);
            if first {
                m.first_marked()
            } else {
                m
            }
        }
    }

    /// After a search has failed.
    pub open spec fn search_failed(self, context: RequestContext, error: Seq<char>) -> AppV {
        if context != self.context() {
            self
        } else {
            AppV { ui: Ui { is_loading: false, ..self.ui }, ..self }.say(
                "Search failed: "@ + error,
                150,
            )
        }
    }
}

impl App {
    /// Begins a page of results.
    pub fn begin_page(&mut self, first: bool)
        ensures
            final(self)@ == old(self)@.page_begun(first),
    {
        if first {
            self.search_results = Vec::new();
            assert(results(self.search_results@) =~= Seq::empty());
        }
        self.ui = Ui { is_loading: false, ..self.ui };
    }

    /// Hands out the results, which are then gone.
    pub fn take_results(&mut self) -> (r: Vec<SearchResult>)
        ensures
            results(r@) == old(self)@.search_results,
            final(self)@ == (AppV { search_results: Seq::empty(), ..old(self)@ }),
    {
        let mut out: Vec<SearchResult> = Vec::new();
        out.append(&mut self.search_results);
        assert(results(out@) =~= old(self)@.search_results);
        assert(results(self.search_results@) =~= Seq::empty());
        out
    }

    /// Puts the titles of an answer among the results.
    fn merge_titles(&mut self, query: &str, payload: &Json)
        ensures
            final(self)@ == old(self)@.titles_merged(query@, payload@),
    {
        match read_subjects(payload) {
            Some(v) => {
                let mut found = self.take_results();
                merge_search(&mut found, v, query);
                let low = to_lowercase(query);
                self.search_results = rank_results(found, low.as_str());
            },
            None => {},
        }
    }

    /// Marks the first result and asks for its preview, if there is one.
    pub fn mark_first(&mut self)
        ensures
            final(self)@ == old(self)@.first_marked(),
    {
        if self.search_results.len() == 0 {
            self.ui = Ui { search_selected: None, ..self.ui };
        } else {
            let id = copy_text(self.search_results[0].id.as_str());
            self.ui = Ui { search_selected: Some(0), ..self.ui };
            self.send(ActionOf::FetchPreview(id));
        }
    }

    /// Puts the outcome of a search in the status.
    fn say_outcome(&mut self, query: &str, provider: ProviderKind)
        ensures
            final(self)@ == old(self)@.outcome_said(query@, provider),
    {
        let n: usize = self.search_results.len();
        let name = provider.label();
        let text = if n == 0 {
            cat5(
                "No matches for '",
                query,
                "' on ",
                name.as_str(),
                ". Press Ctrl+P to try another provider.",
            )
        } else {
            cat5("Found ", decimal_text(n as u64).as_str(), " results on ", name.as_str(), ".")
        };
        self.say(text.as_str(), 150);
    }

    /// Results have come.
    pub fn search_success(&mut self, context: RequestContext, query: String, payload: Json)
        ensures
            final(self)@ == old(self)@.results_came(context, query@, payload@),
            final(self)@.steady(old(self)@),
    {
        let typed = trimmed(self.search_query.as_str(), CharClass::White);
        if !self.context_is_current(context) || !same_text(query.as_str(), typed.as_str()) {
            return ;
        }
        let first = self.ui.current_page <= 1;
        self.begin_page(first);
        self.merge_titles(query.as_str(), &payload);
        self.ask_posters(0, 15, false);
        self.say_outcome(query.as_str(), context.provider);
        if first {
            self.mark_first();
        }
    }

    /// A search has failed.
    pub fn search_failure(&mut self, context: RequestContext, error: &str)
        ensures
            final(self)@ == old(self)@.search_failed(context, error@),
            final(self)@.steady(old(self)@),
    {
        if !self.context_is_current(context) {
            return ;
        }
        self.ui = Ui { is_loading: false, ..self.ui };
        let text = crate::strings::cat2("Search failed: ", error);
        self.say(text.as_str(), 150);
    }
}

// ---------------------------------------------------------------------------
// What is found
// ---------------------------------------------------------------------------

/// Every channel whose name or group, in lower case, holds the query is among the results, with its
/// stream, its name, its group and its logo; `/list` finds every channel.
pub proof fn law_channels_are_found(v: Seq<ChannelV>, query: Seq<char>, i: int)
    requires
        0 <= i < v.len(),
        has(lowercase(v[i].name), query) || has(lowercase(v[i].group), query) || query == "/list"@,
    ensures
        exists|j: int|
            0 <= j < channel_results(v, query).len() && {
                let r = #[trigger] channel_results(v, query)[j];
                &&& r.id == v[i].stream_url
                &&& r.title == v[i].name
                &&& r.release_year == v[i].group
                &&& r.cover_url == Some(v[i].logo)
                &&& r.stype == 3
            },
    decreases v.len(),
{
    let t = v.drop_last();
    let all = channel_results(v, query);
    if i < t.len() {
        law_channels_are_found(t, query, i);
        let j = choose|j: int|
            0 <= j < channel_results(t, query).len() && {
                let r = #[trigger] channel_results(t, query)[j];
                &&& r.id == t[i].stream_url
                &&& r.title == t[i].name
                &&& r.release_year == t[i].group
                &&& r.cover_url == Some(t[i].logo)
                &&& r.stype == 3
            };
        assert(all[j] == channel_results(t, query)[j]);
    } else {
        assert(all.last().id == v[i].stream_url);
        assert(all[all.len() - 1] == all.last());
    }
}

/// Every result is such a channel.
pub proof fn law_found_channels_match(v: Seq<ChannelV>, query: Seq<char>, j: int)
    requires
        0 <= j < channel_results(v, query).len(),
        query != "/list"@,
    ensures
        exists|i: int|
            0 <= i < v.len() && channel_results(v, query)[j].id == (#[trigger] v[i]).stream_url && (
            has(lowercase(v[i].name), query) || has(lowercase(v[i].group), query)),
    decreases v.len(),
{
    let t = v.drop_last();
    let head = channel_results(t, query);
    if j < head.len() {
        law_found_channels_match(t, query, j);
        let i = choose|i: int|
            0 <= i < t.len() && head[j].id == (#[trigger] t[i]).stream_url && (has(
                lowercase(t[i].name),
                query,
            ) || has(lowercase(t[i].group), query));
        assert(v[i] == t[i]);
    } else {
        assert(v[v.len() - 1] == v.last());
    }
}

/// Channels that are suggested are the first ten whose name, in lower case, holds what was typed.
pub proof fn law_channels_are_suggested(v: Seq<ChannelV>, c: ChannelV, query: Seq<char>)
    ensures
        has(lowercase(c.name), query) ==> crate::tui::app::channel_names(v.push(c), query)
            == crate::tui::app::channel_names(v, query).push(c.name),
        !(has(lowercase(c.name), query)) ==> crate::tui::app::channel_names(v.push(c), query)
            == crate::tui::app::channel_names(v, query),
        crate::tui::app::channel_names(Seq::empty(), query).len() == 0,
        crate::tui::app::first_ten(crate::tui::app::channel_names(v, query)).len() <= 10,
{
    assert(v.push(c).drop_last() =~= v);
}

/// What is suggested is the title of a subject up to a square bracket, trimmed; each title once, and
/// only if it answers the query.
pub proof fn law_titles_are_suggested(items: Seq<JsonV>, j: JsonV, query: Seq<char>, title: Seq<char>)
    requires
        j.get("title"@) == Some(JsonV::Text(title)),
    ensures
        ({
            let s = trim(before(title, CharClass::Is('[')), CharClass::White);
            let rest = suggestions(items, query);
            let matches = normal_form(query).len() == 0 || has(normal_form(s), normal_form(query));
            &&& matches && !rest.contains(s) ==> suggestions(items.push(j), query) == rest.push(s)
            &&& !matches || rest.contains(s) ==> suggestions(items.push(j), query) == rest
        }),
        suggestions(Seq::empty(), query).len() == 0,
        first_eight(items).len() <= 8,
        items.len() <= 8 ==> first_eight(items) == items,
{
    assert(items.push(j).drop_last() =~= items);
}

/// The commands that are suggested.
pub proof fn law_commands_on_offer()
    ensures
        commands(false) == seq![
            "/clear-cache"@,
            "/update"@,
            "/toggle-update"@,
            "/github"@,
            "/discover"@,
            "/home"@,
            "/movies"@,
            "/shows"@,
            "/tvshows"@,
            "/anime"@,
        ],
        commands(true) == seq![
            "/clear-cache"@,
            "/update"@,
            "/toggle-update"@,
            "/github"@,
            "/list"@,
            "/config"@,
        ],
{
    assert(commands(false) =~= seq![
        "/clear-cache"@,
        "/update"@,
        "/toggle-update"@,
        "/github"@,
        "/discover"@,
        "/home"@,
        "/movies"@,
        "/shows"@,
        "/tvshows"@,
        "/anime"@,
    ]);
    assert(commands(true) =~= seq![
        "/clear-cache"@,
        "/update"@,
        "/toggle-update"@,
        "/github"@,
        "/list"@,
        "/config"@,
    ]);
}

/// A command is suggested exactly if it begins with what was typed.
pub proof fn law_matching_commands(v: Seq<Seq<char>>, c: Seq<char>, query: Seq<char>)
    ensures
        begins(c, query) ==> matching_commands(v.push(c), query) == matching_commands(v, query).push(
            JsonV::Object(seq![("title"@, JsonV::Text(c))]),
        ),
        !begins(c, query) ==> matching_commands(v.push(c), query) == matching_commands(v, query),
        matching_commands(Seq::empty(), query).len() == 0,
{
    assert(v.push(c).drop_last() =~= v);
}

/// The tabs of the home page that commands lead to, and that nothing else does.
pub proof fn law_tabs(query: Seq<char>)
    ensures
        query == "/home"@ || query == "/discover"@ ==> tab_of(query) == Some("0"@),
        query == "/movies"@ ==> tab_of(query) == Some("2"@),
        query == "/shows"@ || query == "/tvshows"@ ==> tab_of(query) == Some("5"@),
        query == "/anime"@ ==> tab_of(query) == Some("8"@),
        query.len() == 0 || query[0] != '/' ==> tab_of(query) is None,
{
    reveal_strlit("/home");
    reveal_strlit("/discover");
    reveal_strlit("/movies");
    reveal_strlit("/shows");
    reveal_strlit("/tvshows");
    reveal_strlit("/anime");
    assert("/home"@.len() == 5 && "/discover"@.len() == 9 && "/movies"@.len() == 7);
    assert("/shows"@.len() == 6 && "/tvshows"@.len() == 8 && "/anime"@.len() == 6);
    assert("/shows"@[1] == 's' && "/anime"@[1] == 'a');
    assert("/home"@[0] == '/' && "/discover"@[0] == '/' && "/movies"@[0] == '/');
    assert("/shows"@[0] == '/' && "/tvshows"@[0] == '/' && "/anime"@[0] == '/');
}

/// The poster of every result that has one is asked for, by its identifier.
pub proof fn law_posters_are_asked_for(v: Seq<SearchResultV>, r: SearchResultV, skip_empty: bool)
    ensures
        r.cover_url is None ==> poster_requests(v.push(r), skip_empty) == poster_requests(
            v,
            skip_empty,
        ),
        r.cover_url is Some && (r.cover_url->0.len() > 0 || !skip_empty) ==> poster_requests(
            v.push(r),
            skip_empty,
        ) == poster_requests(v, skip_empty).push(
            EffectOf::FetchSearchPoster { id: r.id, url: r.cover_url->0 },
        ),
        r.cover_url is Some && r.cover_url->0.len() == 0 && skip_empty ==> poster_requests(
            v.push(r),
            skip_empty,
        ) == poster_requests(v, skip_empty),
{
    assert(v.push(r).drop_last() =~= v);
}

/// Results that were asked of another provider, before it was chosen anew, or for another query than
/// the one in the field change nothing.
pub proof fn law_stale_results_are_dropped(
    m: AppV,
    context: RequestContext,
    query: Seq<char>,
    payload: JsonV,
    error: Seq<char>,
)
    ensures
        context.provider != m.ui.active_provider || context.generation != m.ui.provider_generation
            || query != trim(m.search_query, CharClass::White) ==> m.results_came(
            context,
            query,
            payload,
        ) == m,
        context.provider != m.ui.active_provider || context.generation != m.ui.provider_generation
            ==> m.search_failed(context, error) == m,
        m.ui.suggest_index is Some || query != trim(m.search_query, CharClass::White)
            ==> m.suggestions_came(query, payload) == m,
{
}

/// Results that are awaited replace those of a first page and join those of a later one; the first of
/// a first page is marked and its preview asked for.
pub proof fn law_results_are_listed(m: AppV, subjects: Seq<JsonV>)
    ensures
        ({
            let query = trim(m.search_query, CharClass::White);
            let n = m.results_came(m.context(), query, answer_with(subjects));
            let before = if m.ui.current_page <= 1 {
                Seq::empty()
            } else {
                m.search_results
            };
            &&& n.search_results == ranked(
                merged_search(before, subjects, query),
                lowercase(query),
            )
            &&& !n.ui.is_loading
            &&& m.ui.current_page <= 1 && n.search_results.len() > 0 ==> n.ui.search_selected
                == Some(0usize) && n.effects.last() == EffectV::Send(ActionOf::FetchPreview(n.search_results[0].id))
            &&& m.ui.current_page <= 1 && n.search_results.len() == 0 ==> n.ui.search_selected is None
            &&& m.ui.current_page > 1 ==> n.ui.search_selected == m.ui.search_selected
        }),
{
    law_answer_read_back(subjects);
}

/// A page of results begins and ends within them.
pub proof fn law_page_of_results(v: Seq<SearchResultV>, from: int, n: int)
    requires
        0 <= from,
        0 <= n,
    ensures
        from + n <= v.len() ==> page_of(v, from, n) == v.subrange(from, from + n),
        from <= v.len() < from + n ==> page_of(v, from, n) == v.subrange(from, v.len() as int),
        from > v.len() ==> page_of(v, from, n).len() == 0,
{
}

/// What is suggested for a query: commands that begin as it does, titles of MovieBox, and nothing of
/// 4KHDHub.
pub proof fn law_what_is_suggested(m: AppV, query: Seq<char>)
    ensures
        query.len() > 0 && query[0] == '/' && matching_commands(commands(m.ui.is_tv_mode), query).len()
            > 0 ==> m.suggested(query) == m.ask(
            EffectOf::Send(
                ActionOf::SuggestSuccess(
                    query,
                    answer_with(matching_commands(commands(m.ui.is_tv_mode), query)),
                ),
            ),
        ),
        query.len() == 0 || query[0] != '/' ==> {
            &&& m.ui.is_tv_mode ==> m.suggested(query) == m
            &&& !m.ui.is_tv_mode && m.ui.active_provider == ProviderKind::MovieBox ==> m.suggested(
                query,
            ) == m.ask(EffectOf::FetchSuggestions(query))
            &&& !m.ui.is_tv_mode && m.ui.active_provider != ProviderKind::MovieBox ==> m.suggested(
                query,
            ).search_suggestions.len() == 0 && m.suggested(query).effects == m.effects
        },
{
    reveal_strlit("/");
    if query.len() > 0 && query[0] == '/' {
        assert(query.subrange(0, 1) =~= "/"@);
        assert(begins(query, "/"@));
    } else if begins(query, "/"@) {
        assert(query.subrange(0, 1)[0] == '/');
    }
}

/// The posters of the first fifteen results are asked for when results came.
pub proof fn law_posters_of_results(m: AppV, subjects: Seq<JsonV>)
    requires
        m.ui.current_page > 1,
    ensures
        ({
            let query = trim(m.search_query, CharClass::White);
            let n = m.results_came(m.context(), query, answer_with(subjects));
            &&& n.search_results.len() >= 15 ==> n.effects == m.effects + poster_requests(
                n.search_results.subrange(0, 15),
                false,
            )
            &&& n.search_results.len() < 15 ==> n.effects == m.effects + poster_requests(
                n.search_results.subrange(0, n.search_results.len() as int),
                false,
            )
        }),
{
    law_answer_read_back(subjects);
}

} // verus!
