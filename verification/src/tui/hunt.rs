//! Looking through the pages of a service for the streams of one episode, and what is made of the
//! answers of the services.
use vstd::prelude::*;
use crate::json::{Json, JsonV, int_in, int_of, json_list, json_opt, text_in, text_of_json};
use crate::providers::models::RequestContext;
use crate::strings::{copy_text, same_text, text_opt};
use crate::tui::browse::list_json;
use crate::tui::state::{Action, ActionOf, ActionV, App};

verus! {

/// A page of an answer: streams, and whether more follow.
pub struct Page {
    /// The streams.
    pub items: Vec<Json>,
    /// What the service says of further pages.
    pub pager: Json,
}

/// What a page of an answer means.
pub struct PageV {
    /// The streams.
    pub items: Seq<JsonV>,
    /// What the service says of further pages.
    pub pager: JsonV,
}

impl View for Page {
    type V = PageV;

    open spec fn view(&self) -> PageV {
        PageV { items: json_list(self.items@), pager: self.pager@ }
    }
}

/// What pages mean.
pub open spec fn pages(v: Seq<Page>) -> Seq<PageV> {
    Seq::new(v.len(), |i: int| v[i]@)
}

/// Whether a service says that more pages follow.
pub open spec fn has_more(pager: JsonV) -> bool {
    match pager.get("hasMore"@) {
        Some(b) => b.truth() == Some(true),
        None => false,
    }
}

/// Whether a service says that more pages follow.
fn says_more(pager: &Json) -> (r: bool)
    ensures
        r == has_more(pager@),
{
    match pager.get("hasMore") {
        Some(b) => match b.as_truth() {
            Some(b) => b,
            None => false,
        },
        None => false,
    }
}

/// A whole number under a key, zero where there is none.
pub open spec fn number_under(item: JsonV, key: Seq<char>) -> usize {
    match int_in(item.get(key)) {
        Some(n) => n as usize,
        None => 0,
    }
}

/// Whether a stream belongs to an episode.
pub open spec fn is_of(item: JsonV, season: usize, episode: usize) -> bool {
    number_under(item, "se"@) == season && number_under(item, "ep"@) == episode
}

/// Whether a list holds a stream of an episode.
pub open spec fn holds_episode(items: Seq<JsonV>, season: usize, episode: usize) -> bool {
    exists|i: int| 0 <= i < items.len() && is_of(#[trigger] items[i], season, episode)
}

/// A whole number under a key, zero where there is none.
fn read_number_under(item: &Json, key: &str) -> (r: usize)
    ensures
        r == number_under(item@, key@),
{
    match int_of(item.get(key)) {
        Some(n) => #[verifier::truncate] (n as usize),
        None => 0,
    }
}

/// Whether a list holds a stream of an episode.
fn any_of(items: &Vec<Json>, season: usize, episode: usize) -> (r: bool)
    ensures
        r == holds_episode(json_list(items@), season, episode),
{
    let mut i: usize = 0;
    while i < items.len()
        invariant
            i <= items@.len(),
            forall|j: int| 0 <= j < i ==> !is_of(#[trigger] json_list(items@)[j], season, episode),
        decreases items@.len() - i,
    {
        if read_number_under(&items[i], "se") == season && read_number_under(&items[i], "ep")
            == episode {
            assert(is_of(json_list(items@)[i as int], season, episode));
            return true;
        }
        i = i + 1;
    }
    false
}

/// A search through the pages of a service.
pub struct StreamHunt {
    /// The season; zero for a film.
    pub season: usize,
    /// The episode; zero for a film.
    pub episode: usize,
    /// The page to ask for next.
    pub page: usize,
    /// The resolutions in which there are streams.
    pub resolutions: Vec<u32>,
    /// The streams found.
    pub items: Vec<Json>,
    /// Whether a stream of the episode was found.
    pub found: bool,
    /// Whether no more pages are asked for.
    pub done: bool,
}

/// What a search through the pages of a service means.
pub struct StreamHuntV {
    /// The season; zero for a film.
    pub season: usize,
    /// The episode; zero for a film.
    pub episode: usize,
    /// The page to ask for next.
    pub page: usize,
    /// The resolutions in which there are streams.
    pub resolutions: Seq<u32>,
    /// The streams found.
    pub items: Seq<JsonV>,
    /// Whether a stream of the episode was found.
    pub found: bool,
    /// Whether no more pages are asked for.
    pub done: bool,
}

impl View for StreamHunt {
    type V = StreamHuntV;

    open spec fn view(&self) -> StreamHuntV {
        StreamHuntV {
            season: self.season,
            episode: self.episode,
            page: self.page,
            resolutions: self.resolutions@,
            items: json_list(self.items@),
            found: self.found,
            done: self.done,
        }
    }
}

/// The streams of pages, one page behind the other.
pub open spec fn all_items(v: Seq<PageV>) -> Seq<JsonV>
    decreases v.len(),
{
    if v.len() == 0 {
        Seq::empty()
    } else {
        all_items(v.drop_last()) + v.last().items
    }
}

/// Whether a page says that more follow.
pub open spec fn any_more(v: Seq<PageV>) -> bool {
    exists|i: int| 0 <= i < v.len() && has_more(#[trigger] v[i].pager)
}

/// The last page that is asked for.
pub open spec fn last_page(film: bool) -> int {
    if film {
        10
    } else {
        60
    }
}

impl StreamHuntV {
    /// Whether a film is looked for.
    pub open spec fn film(self) -> bool {
        self.season == 0 && self.episode == 0
    }

    /// The resolutions asked for on each page; zero stands for all.
    pub open spec fn asked(self) -> Seq<u32> {
        if self.film() || self.resolutions.len() == 0 {
            seq![0u32]
        } else {
            self.resolutions
        }
    }

    /// After the answers for a page. A film is looked for while more pages follow; an episode
    /// until it is found, as long as pages are not empty and more follow.
    pub open spec fn answered(self, answers: Seq<PageV>) -> StreamHuntV {
        let fresh = all_items(answers);
        let found = self.found || (!self.film() && holds_episode(
            fresh,
            self.season,
            self.episode,
        ));
        let stop = if self.film() {
            !any_more(answers)
        } else {
            found || fresh.len() == 0 || !any_more(answers)
        };
        StreamHuntV {
            items: self.items + fresh,
            found,
            page: if stop || self.page >= last_page(self.film()) {
                self.page
            } else {
                (self.page + 1) as usize
            },
            done: self.done || stop || self.page >= last_page(self.film()),
            ..self
        }
    }

    /// The streams, if those of the episode are among them.
    pub open spec fn outcome(self) -> Option<JsonV> {
        if self.items.len() > 0 && (self.film() || self.found) {
            Some(JsonV::List(self.items))
        } else {
            None
        }
    }
}

/// While a search goes on, the page asked for is one further than before and not past the last.
pub proof fn law_hunt_goes_on(h: StreamHuntV, answers: Seq<PageV>)
    requires
        !h.answered(answers).done,
    ensures
        h.answered(answers).page == h.page + 1,
        h.answered(answers).page <= last_page(h.film()),
{
}

/// A search through pages loses no stream that was found, and what was found stays found.
pub proof fn law_hunt_keeps(h: StreamHuntV, answers: Seq<PageV>)
    ensures
        h.answered(answers).items.take(h.items.len() as int) == h.items,
        h.found ==> h.answered(answers).found,
        h.done ==> h.answered(answers).done,
{
    assert(h.answered(answers).items.take(h.items.len() as int) =~= h.items);
}

impl StreamHunt {
    /// A search for an episode from a page on; one for a film begins at the first page.
    pub fn new(season: usize, episode: usize, page: usize, resolutions: Vec<u32>) -> (r: StreamHunt)
        ensures
            r@ == (StreamHuntV {
                season,
                episode,
                page: if season == 0 && episode == 0 {
                    1
                } else {
                    page
                },
                resolutions: resolutions@,
                items: Seq::empty(),
                found: false,
                done: false,
            }),
    {
        let items: Vec<Json> = Vec::new();
        assert(json_list(items@) =~= Seq::empty());
        StreamHunt {
            season,
            episode,
            page: if season == 0 && episode == 0 {
                1
            } else {
                page
            },
            resolutions,
            items,
            found: false,
            done: false,
        }
    }

    /// The resolutions to ask for on the page; zero stands for all.
    pub fn asks(&self) -> (r: Vec<u32>)
        ensures
            r@ == self@.asked(),
    {
        let mut r: Vec<u32> = Vec::new();
        if (self.season == 0 && self.episode == 0) || self.resolutions.len() == 0 {
            r.push(0);
        } else {
            r.extend_from_slice(self.resolutions.as_slice());
        }
        assert(r@ =~= self@.asked());
        r
    }

    /// Takes the answers for a page.
    pub fn answer(&mut self, answers: Vec<Page>)
        ensures
            final(self)@ == old(self)@.answered(pages(answers@)),
    {
        let ghost given = pages(answers@);
        let ghost before = json_list(self.items@);
        let film = self.season == 0 && self.episode == 0;
        let mut answers = answers;
        let mut fresh: Vec<Json> = Vec::new();
        let mut more = false;
        let n: usize = answers.len();
        // The answers are taken from the front, one after the other.
        let mut i: usize = 0;
        proof {
            assert(json_list(fresh@) =~= all_items(given.take(0)));
        }
        while i < n
            invariant
                i <= n == answers@.len() == given.len(),
                json_list(fresh@) == all_items(given.take(i as int)),
                forall|j: int| i <= j < n ==> #[trigger] answers@[j]@ == given[j],
                more == (exists|j: int| 0 <= j < i && has_more(#[trigger] given[j].pager)),
            decreases n - i,
        {
            let mut page = Page { items: Vec::new(), pager: Json::Null };
            answers.push(page);
            let taken = answers.swap_remove(i);
            let ghost done = json_list(fresh@);
            proof {
                assert(given.take(i + 1).drop_last() =~= given.take(i as int));
                assert(given.take(i + 1).last() == taken@);
            }
            if says_more(&taken.pager) {
                assert(has_more(given[i as int].pager));
                more = true;
            }
            let mut items = taken.items;
            let ghost extra = json_list(items@);
            fresh.append(&mut items);
            assert(json_list(fresh@) =~= done + extra);
            i = i + 1;
        }
        proof {
            assert(given.take(given.len() as int) =~= given);
            assert(more == any_more(given));
        }
        let empty = fresh.len() == 0;
        let found = self.found || (!film && any_of(&fresh, self.season, self.episode));
        let stop = if film {
            !more
        } else {
            found || empty || !more
        };
        let last: usize = if film {
            10
        } else {
            60
        };
        let ghost extra = json_list(fresh@);
        self.items.append(&mut fresh);
        assert(json_list(self.items@) =~= before + extra);
        self.found = found;
        if stop || self.page >= last {
            self.done = true;
        } else {
            self.page = self.page + 1;
        }
    }

    /// Gives the search up.
    pub fn give_up(&mut self)
        ensures
            final(self)@ == (StreamHuntV { done: true, ..old(self)@ }),
    {
        self.done = true;
    }

    /// The streams, if those of the episode are among them.
    pub fn outcome(self) -> (r: Option<Json>)
        ensures
            json_opt(r) == self@.outcome(),
    {
        if self.items.len() > 0 && ((self.season == 0 && self.episode == 0) || self.found) {
            Some(list_json(self.items))
        } else {
            None
        }
    }
}

impl App {
    /// The search for an episode of a subject from a page on.
    pub fn hunt_for(&self, id: &str, season: usize, episode: usize, page: usize) -> (r: StreamHunt)
        ensures
            r@ == (StreamHuntV {
                season,
                episode,
                page: if season == 0 && episode == 0 {
                    1
                } else {
                    page
                },
                resolutions: if self@.stream_pool.contains_key(id@) {
                    self@.stream_pool[id@].resolutions
                } else {
                    Seq::empty()
                },
                items: Seq::empty(),
                found: false,
                done: false,
            }),
    {
        let mut v: Vec<u32> = Vec::new();
        match self.stream_pool.position(id) {
            Some(i) => {
                v.extend_from_slice(self.stream_pool.pools[i].available_resolutions.as_slice());
                assert(v@ =~= self@.stream_pool[id@].resolutions);
            },
            None => {
                assert(v@ =~= Seq::empty());
            },
        }
        StreamHunt::new(season, episode, page, v)
    }
}

/// What follows a search through the pages of a service.
pub open spec fn hunt_result(
    context: RequestContext,
    request: u64,
    id: Seq<char>,
    season: usize,
    episode: usize,
    outcome: Option<JsonV>,
) -> ActionV {
    match outcome {
        Some(list) => ActionOf::EpisodeStreamsReady(context, request, id, season, episode, list),
        None => ActionOf::EpisodeStreamsFailed(
            context,
            request,
            id,
            season,
            episode,
            "Rate Limit"@,
        ),
    }
}

/// What follows a search through the pages of a service.
pub fn hunt_action(
    context: RequestContext,
    request: u64,
    id: String,
    season: usize,
    episode: usize,
    outcome: Option<Json>,
) -> (r: Action)
    ensures
        r@ == hunt_result(context, request, id@, season, episode, json_opt(outcome)),
{
    match outcome {
        Some(list) => ActionOf::EpisodeStreamsReady(context, request, id, season, episode, list),
        None => ActionOf::EpisodeStreamsFailed(
            context,
            request,
            id,
            season,
            episode,
            copy_text("Rate Limit"),
        ),
    }
}

/// What 4KHDHub has answered: the releases as JSON, or why there are none.
pub enum Releases {
    /// Releases, in the form in which streams are listed.
    Found(Json),
    /// There are none.
    Nothing,
    /// The request has failed.
    Failed(String),
}

/// What follows an answer of 4KHDHub.
pub open spec fn releases_result(
    context: RequestContext,
    request: u64,
    id: Seq<char>,
    season: usize,
    episode: usize,
    releases: Releases,
) -> ActionV {
    match releases {
        Releases::Found(list) => ActionOf::EpisodeStreamsReady(
            context,
            request,
            id,
            season,
            episode,
            list@,
        ),
        Releases::Nothing => ActionOf::EpisodeStreamsFailed(
            context,
            request,
            id,
            season,
            episode,
            "No exact release found"@,
        ),
        Releases::Failed(e) => ActionOf::EpisodeStreamsFailed(
            context,
            request,
            id,
            season,
            episode,
            e@,
        ),
    }
}

/// What follows an answer of 4KHDHub.
pub fn releases_action(
    context: RequestContext,
    request: u64,
    id: String,
    season: usize,
    episode: usize,
    releases: Releases,
) -> (r: Action)
    ensures
        r@ == releases_result(context, request, id@, season, episode, releases),
{
    match releases {
        Releases::Found(list) => ActionOf::EpisodeStreamsReady(
            context,
            request,
            id,
            season,
            episode,
            list,
        ),
        Releases::Nothing => ActionOf::EpisodeStreamsFailed(
            context,
            request,
            id,
            season,
            episode,
            copy_text("No exact release found"),
        ),
        Releases::Failed(e) => ActionOf::EpisodeStreamsFailed(
            context,
            request,
            id,
            season,
            episode,
            e,
        ),
    }
}

/// The address of the first caption in a language.
pub open spec fn caption_in(v: Seq<JsonV>, language: Seq<char>) -> Option<Seq<char>>
    decreases v.len(),
{
    if v.len() == 0 {
        None
    } else {
        let c = v[0];
        if text_in(c.get("language"@)) == Some(language) && text_in(c.get("url"@)) is Some {
            text_in(c.get("url"@))
        } else {
            caption_in(v.skip(1), language)
        }
    }
}

/// The address of the first caption in a language.
fn find_caption(v: &Vec<Json>, language: &str) -> (r: Option<String>)
    ensures
        text_opt(r) == caption_in(json_list(v@), language@),
{
    let ghost list = json_list(v@);
    let mut i: usize = 0;
    assert(list.skip(0) =~= list);
    while i < v.len()
        invariant
            i <= v@.len(),
            list == json_list(v@),
            caption_in(list, language@) == caption_in(list.skip(i as int), language@),
        decreases v@.len() - i,
    {
        let c = &v[i];
        proof {
            assert(list.skip(i as int)[0] == c@);
            assert(list.skip(i as int).skip(1) =~= list.skip(i + 1));
        }
        let same = match text_of_json(c.get("language")) {
            Some(l) => same_text(l.as_str(), language),
            None => false,
        };
        if same {
            match text_of_json(c.get("url")) {
                Some(u) => {
                    return Some(u);
                },
                None => {},
            }
        }
        i = i + 1;
    }
    None
}

/// What follows the captions of an episode of a season: without captions the download starts,
/// without a language wanted one is picked, and otherwise the caption in that language is taken.
pub open spec fn season_captions(captions: Option<JsonV>, preference: Option<Seq<char>>) -> ActionV {
    match captions {
        Some(c) => match preference {
            Some(language) => ActionOf::DownloadStream(
                match c.list() {
                    Some(v) => caption_in(v, language),
                    None => None,
                },
            ),
            None => ActionOf::ShowDownloadSubtitlePopup(c),
        },
        None => ActionOf::DownloadStream(None),
    }
}

/// What follows the captions of an episode of a season.
pub fn season_captions_action(captions: Option<Json>, preference: Option<String>) -> (r: Action)
    ensures
        r@ == season_captions(json_opt(captions), text_opt(preference)),
{
    match captions {
        Some(c) => match preference {
            Some(language) => {
                let url = match c.as_list() {
                    Some(v) => find_caption(v, language.as_str()),
                    None => None,
                };
                ActionOf::DownloadStream(url)
            },
            None => ActionOf::ShowDownloadSubtitlePopup(c),
        },
        None => ActionOf::DownloadStream(None),
    }
}

} // verus!
