//! Previews and details of titles.
use vstd::prelude::*;
use crate::json::{
    Json, JsonV, copy_list, get_in, get_of, int_in, int_of, item_in, item_of, json_list, json_members,
    json_opt, json_ref, lemma_json_view, list_in, list_of, member, text_in, text_of_json,
};
use crate::numbers::{decimal_int, decimal_int_text, parse_nat, read_number};
use crate::providers::iptv_org::m3u::{Channel, ChannelV, channels};
use crate::providers::models::{ProviderKind, RequestContext};
use crate::strings::{
    CharClass, begins, begins_with, cat2, copy_text, is_blank, same_text, split, split_text,
    text_opt, texts, trim, trimmed, without_prefix,
};
use crate::tui::app::borrowed;
use crate::tui::commands::list_or_empty;
use crate::tui::pool::StreamPool;
use crate::tui::search::{or_text, text_or};
use crate::tui::state::{
    ActionOf, App, AppV, DetailsPane, EffectOf, NotificationKind, Picture, Pictures, Screen, Ui,
    number_lists,
};

verus! {

/// An identifier, given as a number or as a text.
pub open spec fn loose_id(j: Option<JsonV>) -> Option<Seq<char>> {
    match j {
        Some(v) => match v.whole() {
            Some(n) => Some(decimal_int(n as int)),
            None => v.text(),
        },
        None => None,
    }
}

/// An identifier, given as a number or as a text.
fn read_loose_id(j: Option<&Json>) -> (r: Option<String>)
    ensures
        text_opt(r) == loose_id(json_ref(j)),
{
    match j {
        Some(v) => match v.as_int() {
            Some(n) => Some(decimal_int_text(n)),
            None => text_of_json(Some(v)),
        },
        None => None,
    }
}

/// The address of the poster that details give.
pub open spec fn cover_of(details: JsonV) -> Option<Seq<char>> {
    text_in(get_in(details.get("cover"@), "url"@))
}

/// The logo of the first channel with a stream.
pub open spec fn logo_of(v: Seq<ChannelV>, id: Seq<char>) -> Option<Seq<char>>
    decreases v.len(),
{
    if v.len() == 0 {
        None
    } else if v[0].stream_url == id {
        Some(v[0].logo)
    } else {
        logo_of(v.skip(1), id)
    }
}

/// The logo of the first channel with a stream.
fn find_logo(v: &Vec<Channel>, id: &str) -> (r: Option<String>)
    ensures
        text_opt(r) == logo_of(channels(v@), id@),
{
    let ghost list = channels(v@);
    let mut i: usize = 0;
    assert(list.skip(0) =~= list);
    while i < v.len()
        invariant
            i <= v@.len(),
            list == channels(v@),
            logo_of(list, id@) == logo_of(list.skip(i as int), id@),
        decreases v@.len() - i,
    {
        proof {
            assert(list.skip(i as int)[0] == v@[i as int]@);
            assert(list.skip(i as int).skip(1) =~= list.skip(i + 1));
        }
        if same_text(v[i].stream_url.as_str(), id) {
            return Some(copy_text(v[i].logo.as_str()));
        }
        i = i + 1;
    }
    None
}

// ---------------------------------------------------------------------------
// Previews
// ---------------------------------------------------------------------------

impl AppV {
    /// With a preview shown as being loaded or not.
    pub open spec fn preview_loading_set(self, on: bool) -> AppV {
        AppV { ui: Ui { preview_loading: on, ..self.ui }, ..self }
    }

    /// With a preview shown, or none.
    pub open spec fn preview_set(self, preview: Option<JsonV>) -> AppV {
        AppV {
            ui: Ui { preview_loading: false, ..self.ui },
            search_preview: preview,
            ..self
        }
    }

    /// After the preview of a title was wanted.
    pub open spec fn preview_wanted(self, id: Seq<char>) -> AppV {
        if !self.ui.is_tv_mode && self.ui.active_provider == ProviderKind::FourKHdHub {
            self.preview_set(None)
        } else {
            self.ask(EffectOf::LookUpPreview(id))
        }
    }

    /// With the poster of a title shown: the one that is kept, or else one that is fetched.
    pub open spec fn poster_asked(self, id: Seq<char>, details: JsonV, kept: bool) -> AppV {
        if kept {
            self.ask(EffectOf::UsePoster(id))
        } else {
            match cover_of(details) {
                Some(url) => self.ask(EffectOf::FetchPoster { id, url }),
                None => self,
            }
        }
    }

    /// With the preview of a title shown, and its poster asked for.
    pub open spec fn preview_shown(self, id: Seq<char>, preview: JsonV, kept: bool) -> AppV {
        self.preview_set(Some(preview)).ask(EffectOf::ForgetPoster).ask(
            EffectOf::Forget(Picture::PosterProtocol),
        ).poster_asked(id, preview, kept)
    }

    /// With the logo of a channel asked for, if it has one.
    pub open spec fn logo_asked(self, id: Seq<char>) -> AppV {
        match logo_of(self.tv_channels, id) {
            Some(url) => if url.len() > 0 {
                self.ask(EffectOf::FetchSearchPoster { id, url })
            } else {
                self
            },
            None => self,
        }
    }

    /// After the preview of a title was looked for among those kept.
    pub open spec fn preview_looked_up(
        self,
        id: Seq<char>,
        preview: Option<JsonV>,
        kept: bool,
    ) -> AppV {
        if self.ui.is_tv_mode {
            if kept {
                self.preview_loading_set(false)
            } else {
                self.preview_loading_set(false).logo_asked(id)
            }
        } else {
            match preview {
                Some(p) => self.preview_shown(id, p, kept),
                None => self.preview_loading_set(true).ask(EffectOf::FetchPreview(id)),
            }
        }
    }

    /// The identifier of the result that is marked.
    pub open spec fn marked_id(self) -> Option<Seq<char>> {
        match self.ui.search_selected {
            Some(i) => if i < self.search_results.len() {
                Some(self.search_results[i as int].id)
            } else {
                None
            },
            None => None,
        }
    }

    /// The identifier of the title that previews are shown of.
    pub open spec fn previewed_id(self) -> Option<Seq<char>> {
        if self.ui.active_screen == Screen::Details {
            loose_id(get_in(self.selected_details, "id"@))
        } else {
            self.marked_id()
        }
    }

    /// After the preview of a title has come.
    pub open spec fn preview_came(self, id: Seq<char>, preview: JsonV, kept: bool) -> AppV {
        if self.previewed_id() != Some(id) {
            self
        } else {
            self.ask(EffectOf::KeepPreview(id, preview)).preview_shown(id, preview, kept)
        }
    }

    /// After the poster of a title has come.
    pub open spec fn poster_came(self, id: Seq<char>) -> AppV {
        if self.marked_id() == Some(id) {
            self.ask(EffectOf::UsePoster(id)).ask(EffectOf::Forget(Picture::PosterProtocol))
        } else {
            self
        }
    }
}

impl App {
    /// Shows a preview as being loaded or not.
    fn set_preview_loading(&mut self, on: bool)
        ensures
            final(self)@ == old(self)@.preview_loading_set(on),
            final(self)@.steady(old(self)@),
    {
        self.ui = Ui { preview_loading: on, ..self.ui };
    }

    /// Shows a preview, or none.
    fn set_preview(&mut self, preview: Option<Json>)
        ensures
            final(self)@ == old(self)@.preview_set(json_opt(preview)),
    {
        self.ui = Ui { preview_loading: false, ..self.ui };
        self.search_preview = preview;
    }

    /// The preview of a title is wanted.
    pub fn fetch_preview(&mut self, id: String)
        ensures
            final(self)@ == old(self)@.preview_wanted(id@),
            final(self)@.steady(old(self)@),
    {
        if !self.ui.is_tv_mode && self.ui.active_provider == ProviderKind::FourKHdHub {
            self.set_preview(None);
        } else {
            self.ask(EffectOf::LookUpPreview(id));
        }
    }

    /// Has the poster of a title shown: the one that is kept, or else one that is fetched.
    fn ask_poster(&mut self, id: String, cover: Option<String>, kept: bool)
        ensures
            forall|details: JsonV|
                cover_of(details) == text_opt(cover) ==> final(self)@ == #[trigger] old(
                    self,
                )@.poster_asked(id@, details, kept),
    {
        if kept {
            self.ask(EffectOf::UsePoster(id));
        } else {
            match cover {
                Some(url) => self.ask(EffectOf::FetchPoster { id, url }),
                None => {},
            }
        }
    }

    /// Shows the preview of a title, and asks for its poster.
    fn show_preview(&mut self, id: String, preview: Json, kept: bool)
        ensures
            final(self)@ == old(self)@.preview_shown(id@, preview@, kept),
            final(self)@.steady(old(self)@),
    {
        let cover = text_of_json(get_of(preview.get("cover"), "url"));
        self.set_preview(Some(preview));
        self.ask(EffectOf::ForgetPoster);
        self.ask(EffectOf::Forget(Picture::PosterProtocol));
        self.ask_poster(id, cover, kept);
    }

    /// Asks for the logo of a channel, if it has one.
    fn ask_logo(&mut self, id: String)
        ensures
            final(self)@ == old(self)@.logo_asked(id@),
            final(self)@.steady(old(self)@),
    {
        match find_logo(&self.tv_channels, id.as_str()) {
            Some(url) => {
                if !is_blank(url.as_str()) {
                    self.ask(EffectOf::FetchSearchPoster { id, url });
                }
            },
            None => {},
        }
    }

    /// The preview of a title was looked for among those kept.
    pub fn preview_looked_up(&mut self, id: String, preview: Option<Json>, kept: bool)
        ensures
            final(self)@ == old(self)@.preview_looked_up(id@, json_opt(preview), kept),
            final(self)@.steady(old(self)@),
    {
        if self.ui.is_tv_mode {
            self.set_preview_loading(false);
            if !kept {
                self.ask_logo(id);
            }
        } else {
            match preview {
                Some(p) => self.show_preview(id, p, kept),
                None => {
                    self.set_preview_loading(true);
                    self.ask(EffectOf::FetchPreview(id));
                },
            }
        }
    }

    /// The identifier of the title that previews are shown of.
    fn previewed_id(&self) -> (r: Option<String>)
        ensures
            text_opt(r) == self@.previewed_id(),
    {
        if self.ui.active_screen == Screen::Details {
            read_loose_id(get_of(borrowed(&self.selected_details), "id"))
        } else {
            self.marked_result_id()
        }
    }

    /// The preview of a title has come.
    pub fn preview_success(&mut self, id: String, preview: Json, kept: bool)
        ensures
            final(self)@ == old(self)@.preview_came(id@, preview@, kept),
            final(self)@.steady(old(self)@),
    {
        let current = match self.previewed_id() {
            Some(s) => same_text(s.as_str(), id.as_str()),
            None => false,
        };
        if current {
            self.ask(EffectOf::KeepPreview(copy_text(id.as_str()), preview.copy()));
            self.show_preview(id, preview, kept);
        }
    }

    /// The poster of a title has come, and is kept.
    pub fn poster_success(&mut self, id: String)
        ensures
            final(self)@ == old(self)@.poster_came(id@),
            final(self)@.steady(old(self)@),
    {
        let current = match self.marked_result_id() {
            Some(s) => same_text(s.as_str(), id.as_str()),
            None => false,
        };
        if current {
            self.ask(EffectOf::UsePoster(id));
            self.ask(EffectOf::Forget(Picture::PosterProtocol));
        }
    }

    /// The preview of a title could not be had.
    pub fn preview_failure(&mut self, error: &str)
        ensures
            final(self)@ == old(self)@.preview_loading_set(false).say(
                "Preview failed: "@ + error@,
                150,
            ),
            final(self)@.steady(old(self)@),
    {
        self.set_preview_loading(false);
        let text = cat2("Preview failed: ", error);
        self.say(text.as_str(), 150);
    }
}

// ---------------------------------------------------------------------------
// Asking for details
// ---------------------------------------------------------------------------

impl AppV {
    /// After the details of a title were wanted.
    pub open spec fn details_wanted(self, id: Seq<char>, force_refresh: bool) -> AppV {
        AppV {
            ui: Ui { is_loading: true, ..self.ui },
            status_message: "Fetching details..."@,
            stream_pool: Map::empty(),
            ..self
        }.ask(EffectOf::Forget(Picture::PosterProtocol)).ask(EffectOf::AllowFetches).ask(
            EffectOf::FetchDetails(self.context(), id, force_refresh),
        )
    }

    /// After the details of a title could not be had.
    pub open spec fn details_failed(self, context: RequestContext, error: Seq<char>) -> AppV {
        if context != self.context() {
            self
        } else {
            AppV { ui: Ui { is_loading: false, ..self.ui }, ..self }.say(
                "Details fetch failed: "@ + error,
                150,
            )
        }
    }
}

/// A text without a prefix, as often as it begins with it.
pub open spec fn unprefixed(s: Seq<char>, prefix: Seq<char>) -> Seq<char>
    decreases s.len(),
{
    if prefix.len() > 0 && begins(s, prefix) {
        unprefixed(s.skip(prefix.len() as int), prefix)
    } else {
        s
    }
}

/// A text without a prefix, as often as it begins with it.
pub fn drop_prefixes(s: &str, prefix: &str) -> (r: String)
    requires
        prefix@.len() > 0,
    ensures
        r@ == unprefixed(s@, prefix@),
    decreases s@.len(),
{
    match without_prefix(s, prefix) {
        Some(rest) => drop_prefixes(rest.as_str(), prefix),
        None => copy_text(s),
    }
}

impl AppV {
    /// After a status was to be shown: an error is notified, anything else is put in the status.
    pub open spec fn status_set(self, text: Seq<char>) -> AppV {
        if begins(text, "Error:"@) {
            self.notify(
                NotificationKind::Error,
                "Operation failed"@,
                trim(unprefixed(text, "Error:"@), CharClass::White),
            )
        } else {
            self.say(text, 150)
        }
    }
}

impl App {
    /// The details of a title are wanted.
    pub fn fetch_details(&mut self, id: String, force_refresh: bool)
        ensures
            final(self)@ == old(self)@.details_wanted(id@, force_refresh),
            final(self)@.steady(old(self)@),
    {
        let context = self.request_context();
        self.status_message = copy_text("Fetching details...");
        self.stream_pool = StreamPool::new();
        self.ui = Ui { is_loading: true, ..self.ui };
        self.ask(EffectOf::Forget(Picture::PosterProtocol));
        self.ask(EffectOf::AllowFetches);
        self.ask(EffectOf::FetchDetails(context, id, force_refresh));
    }

    /// The details of a title could not be had.
    pub fn details_failure(&mut self, context: RequestContext, error: &str)
        ensures
            final(self)@ == old(self)@.details_failed(context, error@),
            final(self)@.steady(old(self)@),
    {
        if !self.context_is_current(context) {
            return ;
        }
        self.ui = Ui { is_loading: false, ..self.ui };
        let text = cat2("Details fetch failed: ", error);
        self.say(text.as_str(), 150);
    }

    /// A status is to be shown: an error is notified, anything else is put in the status.
    pub fn set_status(&mut self, text: &str)
        ensures
            final(self)@ == old(self)@.status_set(text@),
            final(self)@.steady(old(self)@),
    {
        proof {
            reveal_strlit("Error:");
        }
        if begins_with(text, "Error:") {
            let rest = drop_prefixes(text, "Error:");
            let reason = trimmed(rest.as_str(), CharClass::White);
            self.notify(NotificationKind::Error, "Operation failed", reason.as_str());
        } else {
            self.say(text, 150);
        }
    }
}

// ---------------------------------------------------------------------------
// Details that have come
// ---------------------------------------------------------------------------

/// The members of details that stay when another language is chosen.
pub open spec fn kept_keys() -> Seq<Seq<char>> {
    seq![
        "title"@,
        "synopsis"@,
        "cover"@,
        "year"@,
        "releaseDate"@,
        "duration"@,
        "countryName"@,
        "genre"@,
        "imdbRatingValue"@,
        "intro"@,
        "description"@,
        "dubs"@,
    ]
}

/// The members of details that stay when another language is chosen.
fn kept_key_list() -> (r: Vec<String>)
    ensures
        texts(r@) == kept_keys(),
{
    let mut v: Vec<String> = Vec::new();
    v.push(copy_text("title"));
    v.push(copy_text("synopsis"));
    v.push(copy_text("cover"));
    v.push(copy_text("year"));
    v.push(copy_text("releaseDate"));
    v.push(copy_text("duration"));
    v.push(copy_text("countryName"));
    v.push(copy_text("genre"));
    v.push(copy_text("imdbRatingValue"));
    v.push(copy_text("intro"));
    v.push(copy_text("description"));
    v.push(copy_text("dubs"));
    assert(texts(v@) =~= kept_keys());
    v
}

/// Members with a value under a key, in the place of one that was there or behind the others.
pub open spec fn with_member(
    v: Seq<(Seq<char>, JsonV)>,
    key: Seq<char>,
    value: JsonV,
) -> Seq<(Seq<char>, JsonV)>
    decreases v.len(),
{
    if v.len() == 0 {
        seq![(key, value)]
    } else if v[0].0 == key {
        v.update(0, (key, value))
    } else {
        seq![v[0]] + with_member(v.skip(1), key, value)
    }
}

/// Members with those taken over under some keys that another object has.
pub open spec fn taken_over(
    v: Seq<(Seq<char>, JsonV)>,
    other: JsonV,
    keys: Seq<Seq<char>>,
) -> Seq<(Seq<char>, JsonV)>
    decreases keys.len(),
{
    if keys.len() == 0 {
        v
    } else {
        let w = taken_over(v, other, keys.drop_last());
        match other.get(keys.last()) {
            Some(x) => with_member(w, keys.last(), x),
            None => w,
        }
    }
}

/// Details with what stays of earlier ones when another language is chosen.
pub open spec fn details_kept(fresh: JsonV, known: JsonV) -> JsonV {
    match fresh {
        JsonV::Object(v) => JsonV::Object(taken_over(v, known, kept_keys())),
        _ => fresh,
    }
}

/// A value put under a key is found there, and what is under other keys stays.
pub proof fn lemma_with_member(
    v: Seq<(Seq<char>, JsonV)>,
    key: Seq<char>,
    value: JsonV,
    other: Seq<char>,
)
    ensures
        member(with_member(v, key, value), other) == (if other == key {
            Some(value)
        } else {
            member(v, other)
        }),
    decreases v.len(),
{
    let w = with_member(v, key, value);
    if v.len() == 0 {
        assert(w.skip(1) =~= Seq::empty());
        reveal_with_fuel(member, 2);
    } else if v[0].0 == key {
        assert(w.skip(1) =~= v.skip(1));
    } else {
        lemma_with_member(v.skip(1), key, value, other);
        assert(w.skip(1) =~= with_member(v.skip(1), key, value));
        assert(w[0] == v[0]);
    }
}

/// Puts a value under a key.
fn set_member(v: &mut Vec<(String, Json)>, key: &str, value: Json)
    ensures
        json_members(final(v)@) == with_member(json_members(old(v)@), key@, value@),
{
    let ghost given = json_members(v@);
    let mut i: usize = 0;
    proof {
        assert(given.skip(0) =~= given);
        assert(given.take(0) + with_member(given.skip(0), key@, value@) =~= with_member(
            given,
            key@,
            value@,
        ));
    }
    while i < v.len()
        invariant
            i <= v@.len(),
            given == json_members(v@),
            given == json_members(old(v)@),
            given.take(i as int) + with_member(given.skip(i as int), key@, value@) == with_member(
                given,
                key@,
                value@,
            ),
        decreases v@.len() - i,
    {
        let ghost rest = given.skip(i as int);
        assert(rest[0] == (v@[i as int].0@, v@[i as int].1@));
        if same_text(v[i].0.as_str(), key) {
            v.set(i, (copy_text(key), value));
            assert(json_members(v@) =~= given.take(i as int) + rest.update(0, (key@, value@)));
            return ;
        }
        proof {
            assert(rest.skip(1) =~= given.skip(i + 1));
            assert(given.take(i as int) + (seq![rest[0]] + with_member(rest.skip(1), key@, value@))
                =~= given.take(i + 1) + with_member(given.skip(i + 1), key@, value@));
        }
        i = i + 1;
    }
    let k = copy_text(key);
    v.push((k, value));
    assert(given.skip(i as int) =~= Seq::empty());
    assert(json_members(v@) =~= given.take(i as int) + seq![(key@, value@)]);
}

/// Details with what stays of earlier ones when another language is chosen.
pub fn keep_details(fresh: Json, known: &Json) -> (r: Json)
    ensures
        r@ == details_kept(fresh@, known@),
{
    proof {
        lemma_json_view(fresh);
    }
    match fresh {
        Json::Object(members) => {
            let keys = kept_key_list();
            let mut v = members;
            let ghost given = json_members(v@);
            let ghost list = texts(keys@);
            let mut i: usize = 0;
            assert(list.take(0) =~= Seq::empty());
            while i < keys.len()
                invariant
                    i <= keys@.len(),
                    list == texts(keys@),
                    json_members(v@) == taken_over(given, known@, list.take(i as int)),
                decreases keys@.len() - i,
            {
                proof {
                    assert(list.take(i + 1).drop_last() =~= list.take(i as int));
                    assert(list.take(i + 1).last() == keys@[i as int]@);
                }
                match known.get(keys[i].as_str()) {
                    Some(x) => set_member(&mut v, keys[i].as_str(), x.copy()),
                    None => {},
                }
                i = i + 1;
            }
            assert(list.take(list.len() as int) =~= list);
            let r = Json::Object(v);
            proof {
                lemma_json_view(r);
            }
            r
        },
        other => other,
    }
}

/// The kind of title: that under one key if it is a number, else that under another, else a film.
pub open spec fn title_kind(details: JsonV) -> i64 {
    match int_in(details.get("subjectType"@)) {
        Some(n) => n,
        None => match int_in(details.get("stype"@)) {
            Some(n) => n,
            None => 1,
        },
    }
}

/// A whole number as a JSON value.
pub open spec fn whole_json(n: i64) -> JsonV {
    if n >= 0 {
        JsonV::Unsigned(n as u64)
    } else {
        JsonV::Negative(n)
    }
}

/// The season of a series for which no seasons are given.
pub open spec fn only_season(details: JsonV) -> JsonV {
    let count = match int_in(
        get_in(item_in(list_in(details.get("resourceDetectors"@)), 0), "totalEpisode"@),
    ) {
        Some(n) => n,
        None => 1,
    };
    JsonV::Object(
        seq![
            ("allEp"@, JsonV::Text(""@)),
            ("maxEp"@, whole_json(count)),
            ("se"@, JsonV::Unsigned(1)),
        ],
    )
}

/// The seasons that details give; a series has at least one.
pub open spec fn seasons_of(details: JsonV) -> Seq<JsonV> {
    match list_in(get_in(details.get("seasons"@), "seasons"@)) {
        Some(v) => v,
        None => if title_kind(details) == 2 {
            seq![only_season(details)]
        } else {
            Seq::empty()
        },
    }
}

/// The numbers in a list of texts, those that are none left out.
pub open spec fn numbers_in(v: Seq<Seq<char>>) -> Seq<usize>
    decreases v.len(),
{
    if v.len() == 0 {
        Seq::empty()
    } else {
        match parse_nat(trim(v.last(), CharClass::White), usize::MAX as nat) {
            Some(n) => numbers_in(v.drop_last()).push(n as usize),
            None => numbers_in(v.drop_last()),
        }
    }
}

/// The numbers of the episodes of a season: those listed, or else from one to their number.
pub open spec fn episodes_of(season: JsonV) -> Seq<usize> {
    let listed = text_or(text_in(season.get("allEp"@)), ""@);
    if listed.len() > 0 {
        numbers_in(split(listed, CharClass::Is(',')))
    } else {
        let count = match int_in(season.get("maxEp"@)) {
            Some(n) => n as usize,
            None => 1,
        };
        Seq::new(count as nat, |i: int| (i + 1) as usize)
    }
}

/// The numbers of the episodes of each season.
pub open spec fn all_episodes(seasons: Seq<JsonV>) -> Seq<Seq<usize>> {
    Seq::new(seasons.len(), |i: int| episodes_of(seasons[i]))
}

/// The place of the dubbed version with an identifier, the last if several have it, else the first
/// place.
pub open spec fn dub_place(dubs: Seq<JsonV>, id: Seq<char>) -> int
    decreases dubs.len(),
{
    if dubs.len() == 0 {
        0
    } else if loose_id(dubs.last().get("subjectId"@)) == Some(id) {
        dubs.len() - 1
    } else {
        dub_place(dubs.drop_last(), id)
    }
}

/// The kind of title.
fn read_title_kind(details: &Json) -> (r: i64)
    ensures
        r == title_kind(details@),
{
    match int_of(details.get("subjectType")) {
        Some(n) => n,
        None => match int_of(details.get("stype")) {
            Some(n) => n,
            None => 1,
        },
    }
}

/// The season of a series for which no seasons are given.
fn make_only_season(details: &Json) -> (r: Json)
    ensures
        r@ == only_season(details@),
{
    let count: i64 = match int_of(
        get_of(item_of(details.get("resourceDetectors"), 0), "totalEpisode"),
    ) {
        Some(n) => n,
        None => 1,
    };
    let number = if count >= 0 {
        Json::Unsigned(count as u64)
    } else {
        Json::Negative(count)
    };
    let mut v: Vec<(String, Json)> = Vec::new();
    v.push((copy_text("allEp"), Json::Text(copy_text(""))));
    v.push((copy_text("maxEp"), number));
    v.push((copy_text("se"), Json::Unsigned(1)));
    let r = Json::Object(v);
    proof {
        lemma_json_view(r);
        assert(json_members(v@) =~= only_season(details@)->Object_0);
    }
    r
}

/// The seasons that details give.
fn read_seasons(details: &Json) -> (r: Vec<Json>)
    ensures
        json_list(r@) == seasons_of(details@),
{
    match list_of(get_of(details.get("seasons"), "seasons")) {
        Some(v) => copy_list(v),
        None => {
            let mut v: Vec<Json> = Vec::new();
            if read_title_kind(details) == 2 {
                v.push(make_only_season(details));
            }
            assert(json_list(v@) =~= seasons_of(details@));
            v
        },
    }
}

/// The numbers in a list of texts, those that are none left out.
fn read_numbers(v: &Vec<String>) -> (r: Vec<usize>)
    ensures
        r@ == numbers_in(texts(v@)),
{
    let ghost list = texts(v@);
    let mut r: Vec<usize> = Vec::new();
    let mut i: usize = 0;
    assert(list.take(0) =~= Seq::empty());
    while i < v.len()
        invariant
            i <= v@.len(),
            list == texts(v@),
            r@ == numbers_in(list.take(i as int)),
        decreases v@.len() - i,
    {
        proof {
            assert(list.take(i + 1).drop_last() =~= list.take(i as int));
            assert(list.take(i + 1).last() == v@[i as int]@);
        }
        let s = trimmed(v[i].as_str(), CharClass::White);
        match read_number(s.as_str(), usize::MAX as u64) {
            Some(n) => r.push(n as usize),
            None => {},
        }
        i = i + 1;
    }
    assert(list.take(list.len() as int) =~= list);
    r
}

/// The numbers of the episodes of a season.
fn read_episodes(season: &Json) -> (r: Vec<usize>)
    ensures
        r@ == episodes_of(season@),
{
    let listed = or_text(text_of_json(season.get("allEp")), "");
    if !is_blank(listed.as_str()) {
        read_numbers(&split_text(listed.as_str(), CharClass::Is(',')))
    } else {
        let count: usize = match int_of(season.get("maxEp")) {
            Some(n) => #[verifier::truncate] (n as usize),
            None => 1,
        };
        let mut r: Vec<usize> = Vec::new();
        let mut i: usize = 0;
        while i < count
            invariant
                i <= count,
                r@ =~= Seq::new(i as nat, |i: int| (i + 1) as usize),
            decreases count - i,
        {
            i = i + 1;
            r.push(i);
        }
        r
    }
}

/// The numbers of the episodes of each season.
fn read_all_episodes(seasons: &Vec<Json>) -> (r: Vec<Vec<usize>>)
    ensures
        number_lists(r@) == all_episodes(json_list(seasons@)),
{
    let mut r: Vec<Vec<usize>> = Vec::new();
    let mut i: usize = 0;
    while i < seasons.len()
        invariant
            i <= seasons@.len(),
            number_lists(r@) =~= all_episodes(json_list(seasons@)).take(i as int),
        decreases seasons@.len() - i,
    {
        let ghost done = number_lists(r@);
        let v = read_episodes(&seasons[i]);
        r.push(v);
        assert(number_lists(r@) =~= done.push(v@));
        i = i + 1;
    }
    assert(number_lists(r@) =~= all_episodes(json_list(seasons@)));
    r
}

/// The place of the dubbed version with an identifier.
fn find_dub(dubs: &Vec<Json>, id: &str) -> (r: usize)
    ensures
        r == dub_place(json_list(dubs@), id@),
{
    let ghost list = json_list(dubs@);
    let mut n: usize = dubs.len();
    assert(list.take(n as int) =~= list);
    while n > 0
        invariant
            n <= dubs@.len(),
            list == json_list(dubs@),
            dub_place(list, id@) == dub_place(list.take(n as int), id@),
        decreases n,
    {
        proof {
            assert(list.take(n as int).drop_last() =~= list.take(n - 1));
            assert(list.take(n as int).last() == dubs@[n - 1]@);
        }
        let same = match read_loose_id(dubs[n - 1].get("subjectId")) {
            Some(s) => same_text(s.as_str(), id),
            None => false,
        };
        if same {
            return n - 1;
        }
        n = n - 1;
    }
    0
}

impl AppV {
    /// With the details of a title.
    pub open spec fn details_set(self, id: Seq<char>, details: JsonV) -> AppV {
        AppV {
            ui: Ui { is_loading: false, ..self.ui },
            active_subject_id: Some(id),
            selected_details: Some(details),
            ..self
        }
    }

    /// With the seasons of the title listed, and the first marked.
    pub open spec fn seasons_set(self, seasons: Seq<JsonV>, dub: usize) -> AppV {
        AppV {
            ui: Ui {
                season_selected: Some(0),
                episode_selected: Some(0),
                language_selected: Some(dub),
                ..self.ui
            },
            available_seasons: seasons,
            available_episode_numbers: all_episodes(seasons),
            ..self
        }
    }

    /// With the first episode shown, unless a language was chosen.
    pub open spec fn first_episode_set(self) -> AppV {
        if self.ui.language_chosen {
            self
        } else {
            self.episode_set(1, 1)
        }
    }

    /// With a language to be chosen.
    pub open spec fn language_asked(self) -> AppV {
        AppV {
            ui: Ui { details_pane: DetailsPane::Languages, is_loading: false, ..self.ui },
            ..self
        }.say("Please select a language dubbing."@, 150)
    }

    /// With the streams of a title to be found.
    pub open spec fn streams_opened(self, id: Seq<char>, pane: DetailsPane) -> AppV {
        AppV { ui: Ui { details_pane: pane, is_loading: true, ..self.ui }, ..self }.ask(
            EffectOf::AllowFetches,
        ).send(ActionOf::InitStreamPool(id))
    }

    /// The pane that a title is opened on.
    pub open spec fn opening_pane(self, details: JsonV) -> DetailsPane {
        if title_kind(details) == 2 && self.available_seasons.len() > 0 {
            DetailsPane::Seasons
        } else {
            DetailsPane::Streams
        }
    }

    /// After the details of a title were taken over.
    #[verifier::opaque]
    pub open spec fn title_shown(self, id: Seq<char>, details: JsonV) -> AppV {
        if list_or_empty(list_in(details.get("dubs"@))).len() > 1 && !self.ui.language_chosen {
            self.language_asked()
        } else {
            self.streams_opened(id, self.opening_pane(details))
        }
    }

    /// The details to show of those that have come.
    pub open spec fn details_to_show(self, payload: JsonV) -> JsonV {
        match self.selected_details {
            Some(known) => if self.ui.language_chosen && known is Object {
                details_kept(payload, known)
            } else {
                payload
            },
            None => payload,
        }
    }

    /// With the poster of a title asked for, unless one is shown.
    #[verifier::opaque]
    pub open spec fn poster_missed(
        self,
        id: Seq<char>,
        details: JsonV,
        pictures: Pictures,
    ) -> AppV {
        if pictures.shown {
            self
        } else {
            self.poster_asked(id, details, pictures.kept)
        }
    }

    /// After the details to show of a title are known.
    pub open spec fn details_listed(
        self,
        id: Seq<char>,
        details: JsonV,
        pictures: Pictures,
    ) -> AppV {
        self.details_set(id, details).poster_missed(id, details, pictures).seasons_set(
            seasons_of(details),
            dub_place(list_or_empty(list_in(details.get("dubs"@))), id) as usize,
        ).first_episode_set().title_shown(id, details)
    }

    /// After the details of a title have come.
    pub open spec fn details_came(
        self,
        context: RequestContext,
        id: Seq<char>,
        payload: JsonV,
        pictures: Pictures,
    ) -> AppV {
        if context != self.context() || self.ui.active_screen != Screen::Details {
            self
        } else {
            self.details_listed(id, self.details_to_show(payload), pictures)
        }
    }
}

impl App {
    /// Takes the details of a title.
    fn set_details(&mut self, id: &str, details: Json)
        ensures
            final(self)@ == old(self)@.details_set(id@, details@),
    {
        self.active_subject_id = Some(copy_text(id));
        self.selected_details = Some(details);
        self.ui = Ui { is_loading: false, ..self.ui };
    }

    /// Lists the seasons of the title, and marks the first.
    fn set_seasons(&mut self, seasons: Vec<Json>, dub: usize)
        ensures
            final(self)@ == old(self)@.seasons_set(json_list(seasons@), dub),
    {
        self.available_episode_numbers = read_all_episodes(&seasons);
        self.available_seasons = seasons;
        self.ui = Ui {
            season_selected: Some(0),
            episode_selected: Some(0),
            language_selected: Some(dub),
            ..self.ui
        };
    }

    /// Shows the first episode, unless a language was chosen.
    fn set_first_episode(&mut self)
        ensures
            final(self)@ == old(self)@.first_episode_set(),
    {
        if !self.ui.language_chosen {
            self.set_episode(1, 1);
        }
    }

    /// Has a language chosen.
    fn ask_language(&mut self)
        ensures
            final(self)@ == old(self)@.language_asked(),
    {
        self.ui = Ui { details_pane: DetailsPane::Languages, is_loading: false, ..self.ui };
        self.say("Please select a language dubbing.", 150);
    }

    /// Has the streams of a title found.
    fn open_streams(&mut self, id: String, pane: DetailsPane)
        ensures
            final(self)@ == old(self)@.streams_opened(id@, pane),
    {
        self.ui = Ui { details_pane: pane, is_loading: true, ..self.ui };
        self.ask(EffectOf::AllowFetches);
        self.send(ActionOf::InitStreamPool(id));
    }

    /// The pane that a title of a kind is opened on.
    fn opening_pane(&self, kind: i64) -> (r: DetailsPane)
        ensures
            forall|details: JsonV|
                title_kind(details) == kind ==> r == #[trigger] self@.opening_pane(details),
    {
        if kind == 2 && self.available_seasons.len() > 0 {
            DetailsPane::Seasons
        } else {
            DetailsPane::Streams
        }
    }

    /// The details to show of those that have come.
    fn details_to_show(&self, payload: Json) -> (r: Json)
        ensures
            r@ == self@.details_to_show(payload@),
    {
        match &self.selected_details {
            Some(known) => {
                proof {
                    lemma_json_view(*known);
                }
                let object = match known {
                    Json::Object(_) => true,
                    _ => false,
                };
                if self.ui.language_chosen && object {
                    keep_details(payload, known)
                } else {
                    payload
                }
            },
            None => payload,
        }
    }

    /// Lists the details to show of a title.
    fn list_details(&mut self, id: String, details: Json, pictures: Pictures)
        ensures
            final(self)@ == old(self)@.details_listed(id@, details@, pictures),
            final(self)@.steady(old(self)@),
    {
        let ghost shown = details@;
        let kind = read_title_kind(&details);
        let cover = text_of_json(get_of(details.get("cover"), "url"));
        let seasons = read_seasons(&details);
        let (dub, several): (usize, bool) = match list_of(details.get("dubs")) {
            Some(v) => (find_dub(v, id.as_str()), v.len() > 1),
            None => (0, false),
        };
        self.set_details(id.as_str(), details);
        self.miss_poster(copy_text(id.as_str()), cover, pictures, Ghost(shown));
        self.set_seasons(seasons, dub);
        self.set_first_episode();
        self.show_title(id, kind, several, Ghost(shown));
    }

    /// Asks for the poster of a title, unless one is shown.
    fn miss_poster(
        &mut self,
        id: String,
        cover: Option<String>,
        pictures: Pictures,
        Ghost(details): Ghost<JsonV>,
    )
        requires
            cover_of(details) == text_opt(cover),
        ensures
            final(self)@ == old(self)@.poster_missed(id@, details, pictures),
            final(self)@.steady(old(self)@),
    {
        proof {
            reveal(AppV::poster_missed);
        }
        if !pictures.shown {
            self.ask_poster(id, cover, pictures.kept);
        }
    }

    /// Shows a title whose details were taken over.
    fn show_title(
        &mut self,
        id: String,
        kind: i64,
        several: bool,
        Ghost(details): Ghost<JsonV>,
    )
        requires
            title_kind(details) == kind,
            several == (list_or_empty(list_in(details.get("dubs"@))).len() > 1),
        ensures
            final(self)@ == old(self)@.title_shown(id@, details),
            final(self)@.steady(old(self)@),
    {
        proof {
            reveal(AppV::title_shown);
        }
        if several && !self.ui.language_chosen {
            self.ask_language();
        } else {
            let pane = self.opening_pane(kind);
            assert(pane == self@.opening_pane(details));
            self.open_streams(id, pane);
        }
    }

    /// The details of a title have come.
    pub fn details_success(
        &mut self,
        context: RequestContext,
        id: String,
        payload: Json,
        pictures: Pictures,
    )
        ensures
            final(self)@ == old(self)@.details_came(context, id@, payload@, pictures),
            final(self)@.steady(old(self)@),
    {
        if !self.context_is_current(context) || self.ui.active_screen != Screen::Details {
            return ;
        }
        let details = self.details_to_show(payload);
        self.list_details(id, details, pictures);
    }
}

/// When another language was chosen, details keep what they were under the keys that stay.
pub proof fn law_details_kept(
    v: Seq<(Seq<char>, JsonV)>,
    known: JsonV,
    keys: Seq<Seq<char>>,
    key: Seq<char>,
)
    ensures
        member(taken_over(v, known, keys), key) == (if keys.contains(key) && known.get(key) is Some {
            known.get(key)
        } else {
            member(v, key)
        }),
    decreases keys.len(),
{
    if keys.len() > 0 {
        let t = keys.drop_last();
        law_details_kept(v, known, t, key);
        let w = taken_over(v, known, t);
        match known.get(keys.last()) {
            Some(x) => {
                lemma_with_member(w, keys.last(), x, key);
            },
            None => {},
        }
        assert(keys.contains(key) == (t.contains(key) || keys.last() == key)) by {
            if t.contains(key) {
                let i = choose|i: int| 0 <= i < t.len() && t[i] == key;
                assert(keys[i] == key);
            }
            if keys.contains(key) {
                let i = choose|i: int| 0 <= i < keys.len() && keys[i] == key;
                if i < t.len() {
                    assert(t[i] == key);
                }
            }
            assert(keys[keys.len() - 1] == keys.last());
        }
    }
}

} // verus!
