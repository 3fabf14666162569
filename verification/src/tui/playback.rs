//! Playing streams, and the subtitles they are played with.
use vstd::prelude::*;
use crate::json::{
    Json, JsonV, either_of, get_either, get_in, get_of, int_in, int_of, json_list, json_opt,
    list_in, list_of, text_in, text_of_json,
};
use crate::numbers::{decimal, decimal_text};
use crate::providers::models::ProviderKind;
use crate::providers::subtitles::{
    Lookup, SubtitleContext, SubtitleContextV, choose_lookup, extract_imdb_id, imdb_id_of,
    is_indonesian_label, lookup_for, names_indonesian,
};
use crate::strings::{
    cat2, cat3, cat5, chars_of, copy_text, digit, is_blank, is_digit, same_text, text_opt,
    text_range,
};
use crate::tui::app::borrowed;
use crate::tui::commands::list_or_empty;
use crate::tui::embedded::{
    ProbeReport, ProbeTrackV, container_supports_embedded_subs, format_embedded_notice,
    law_notice_is_empty, may_embed, notice, tracks,
};
use crate::tui::search::{or_text, text_or};
use crate::tui::state::{
    Action, ActionOf, ActionV, App, AppV, EffectOf, NotificationKind, PlaybackSource, PlaybackSourceV,
    PlayerKind, Screen, Ui, pairs,
};
use crate::tui::titles::{clean_moviebox_title, clean_title};

verus! {

// ---------------------------------------------------------------------------
// What subtitles are searched for
// ---------------------------------------------------------------------------

/// The digits of a text, in their order.
pub open spec fn digits_in(s: Seq<char>) -> Seq<char>
    decreases s.len(),
{
    if s.len() == 0 {
        Seq::empty()
    } else if is_digit(s.last()) {
        digits_in(s.drop_last()).push(s.last())
    } else {
        digits_in(s.drop_last())
    }
}

/// The digits of a text, in their order.
fn read_digits_in(s: &str) -> (r: Vec<char>)
    ensures
        r@ == digits_in(s@),
{
    let v = chars_of(s);
    let mut r: Vec<char> = Vec::new();
    let mut i: usize = 0;
    assert(v@.take(0) =~= Seq::empty());
    while i < v.len()
        invariant
            i <= v@.len(),
            r@ == digits_in(v@.take(i as int)),
        decreases v@.len() - i,
    {
        assert(v@.take(i + 1).drop_last() =~= v@.take(i as int));
        assert(v@.take(i + 1).last() == v@[i as int]);
        if digit(v[i]) {
            r.push(v[i]);
        }
        i = i + 1;
    }
    assert(v@.take(v@.len() as int) =~= v@);
    r
}

/// The year that details give: the first four digits of the date of release, or else of the year,
/// or else the year as a number.
pub open spec fn year_of(details: JsonV) -> Option<Seq<char>> {
    let date = match text_in(details.get("releaseDate"@)) {
        Some(s) => Some(s),
        None => text_in(details.get("year"@)),
    };
    let number = match details.get("year"@) {
        Some(y) => match y.unsigned() {
            Some(n) => Some(decimal(n as nat)),
            None => None,
        },
        None => None,
    };
    match date {
        Some(s) => if digits_in(s).len() >= 4 {
            Some(digits_in(s).take(4))
        } else {
            number
        },
        None => number,
    }
}

/// The year that details give.
fn read_year(details: &Json) -> (r: Option<String>)
    ensures
        text_opt(r) == year_of(details@),
{
    let date = match text_of_json(details.get("releaseDate")) {
        Some(s) => Some(s),
        None => text_of_json(details.get("year")),
    };
    match date {
        Some(s) => {
            let digits = read_digits_in(s.as_str());
            if digits.len() >= 4 {
                return Some(text_range(digits.as_slice(), 0, 4));
            }
        },
        None => {},
    }
    match details.get("year") {
        Some(y) => match y.as_unsigned() {
            Some(n) => Some(decimal_text(n)),
            None => None,
        },
        None => None,
    }
}

/// Whether details are those of a series.
pub open spec fn is_series(details: JsonV) -> bool {
    int_in(get_either(Some(details), "subjectType"@, "stype"@)) == Some(2i64)
}

impl AppV {
    /// What subtitles are searched for: the title of the details, if they give one.
    pub open spec fn subtitle_context(self) -> Option<SubtitleContextV> {
        match self.selected_details {
            Some(details) => {
                let title = match text_in(details.get("title"@)) {
                    Some(t) => clean_title(t),
                    None => Seq::empty(),
                };
                if title.len() == 0 {
                    None
                } else {
                    Some(self.context_for(details, title))
                }
            },
            None => None,
        }
    }

    /// What subtitles are searched for, for a title.
    pub open spec fn context_for(self, details: JsonV, title: Seq<char>) -> SubtitleContextV {
        SubtitleContextV {
            provider: self.ui.active_provider,
            subject_id: text_or(self.active_subject_id, Seq::empty()),
            resource_id: match text_in(get_in(self.stream_marked(), "resourceId"@)) {
                Some(id) => id,
                None => text_or(
                    text_in(get_either(Some(details), "resourceId"@, "resource_id"@)),
                    Seq::empty(),
                ),
            },
            title,
            year: year_of(details),
            is_episode: is_series(details),
            season: if is_series(details) {
                Some(self.ui.selected_season)
            } else {
                None
            },
            episode: if is_series(details) {
                Some(self.ui.selected_episode)
            } else {
                None
            },
            imdb_id: imdb_id_of(details),
        }
    }
}

/// An optional text, or an empty one.
fn or_empty(t: Option<String>) -> (r: String)
    ensures
        r@ == text_or(text_opt(t), Seq::empty()),
{
    match t {
        Some(s) => s,
        None => String::new(),
    }
}

impl App {
    /// What subtitles are searched for, for a title.
    fn context_for(&self, details: &Json, title: String) -> (r: SubtitleContext)
        ensures
            r@ == self@.context_for(details@, title@),
    {
        let resource_id = match self.get_selected_resource_id() {
            Some(id) => id,
            None => or_empty(
                text_of_json(either_of(Some(details), "resourceId", "resource_id")),
            ),
        };
        let series = match int_of(either_of(Some(details), "subjectType", "stype")) {
            Some(n) => n == 2,
            None => false,
        };
        let (season, episode): (Option<usize>, Option<usize>) = if series {
            (Some(self.ui.selected_season), Some(self.ui.selected_episode))
        } else {
            (None, None)
        };
        SubtitleContext {
            provider: self.ui.active_provider,
            subject_id: or_empty(self.subject()),
            resource_id,
            title,
            year: read_year(details),
            is_episode: series,
            season,
            episode,
            imdb_id: extract_imdb_id(details),
        }
    }

    /// What subtitles are searched for.
    pub fn build_subtitle_context(&self) -> (r: Option<SubtitleContext>)
        ensures
            match r {
                Some(c) => self@.subtitle_context() == Some(c@),
                None => self@.subtitle_context() is None,
            },
            r is Some ==> {
                let details = self@.selected_details->0;
                &&& r->0.provider == self@.ui.active_provider
                &&& details.get("subjectType"@) == Some(JsonV::Unsigned(2)) ==> r->0.is_episode
                    && r->0.season == Some(self@.ui.selected_season) && r->0.episode == Some(
                    self@.ui.selected_episode,
                )
                &&& details.get("subjectType"@) is None && details.get("stype"@) == Some(
                    JsonV::Unsigned(2),
                ) ==> r->0.is_episode && r->0.season == Some(self@.ui.selected_season)
                    && r->0.episode == Some(self@.ui.selected_episode)
                &&& details.get("subjectType"@) == Some(JsonV::Unsigned(1)) ==> !r->0.is_episode
                    && r->0.season is None && r->0.episode is None
            },
    {
        match &self.selected_details {
            Some(details) => {
                let title = match text_of_json(details.get("title")) {
                    Some(t) => clean_moviebox_title(t.as_str()),
                    None => String::new(),
                };
                if is_blank(title.as_str()) {
                    None
                } else {
                    Some(self.context_for(details, title))
                }
            },
            None => None,
        }
    }
}

// ---------------------------------------------------------------------------
// The subtitles to pick from
// ---------------------------------------------------------------------------

/// The choice of no subtitle.
pub open spec fn no_subtitle() -> (Seq<char>, Seq<char>) {
    ("None"@, ""@)
}

/// The captions in a list that have an address, each with its name.
pub open spec fn captions_of(v: Seq<JsonV>) -> Seq<(Seq<char>, Seq<char>)>
    decreases v.len(),
{
    if v.len() == 0 {
        Seq::empty()
    } else {
        let rest = captions_of(v.drop_last());
        let name = text_or(text_in(v.last().get("lanName"@)), "Unknown"@);
        let url = text_or(text_in(v.last().get("url"@)), ""@);
        if url.len() > 0 {
            rest.push((name, url))
        } else {
            rest
        }
    }
}

/// The captions in an answer.
pub open spec fn captions_in(answer: JsonV) -> Seq<(Seq<char>, Seq<char>)> {
    captions_of(list_or_empty(list_in(answer.get("extCaptions"@))))
}

/// Whether an Indonesian caption is among some.
pub open spec fn has_indonesian(v: Seq<(Seq<char>, Seq<char>)>) -> bool {
    exists|i: int| 0 <= i < v.len() && names_indonesian(#[trigger] v[i].0)
}

/// The captions in an answer, behind the choice of none, and whether an Indonesian one is among
/// them.
pub fn read_captions(answer: &Json) -> (r: (Vec<(String, String)>, bool))
    ensures
        pairs(r.0@) == seq![no_subtitle()] + captions_in(answer@),
        r.1 == has_indonesian(captions_in(answer@)),
{
    let mut out: Vec<(String, String)> = Vec::new();
    out.push((copy_text("None"), copy_text("")));
    let mut indonesian = false;
    proof {
        assert(pairs(out@) =~= seq![no_subtitle()] + captions_of(Seq::empty()));
        assert(captions_of(Seq::<JsonV>::empty()) =~= Seq::empty());
    }
    match list_of(answer.get("extCaptions")) {
        Some(v) => {
            let ghost list = json_list(v@);
            let mut i: usize = 0;
            assert(list.take(0) =~= Seq::empty());
            while i < v.len()
                invariant
                    i <= v@.len(),
                    list == json_list(v@),
                    pairs(out@) == seq![no_subtitle()] + captions_of(list.take(i as int)),
                    indonesian == has_indonesian(captions_of(list.take(i as int))),
                decreases v@.len() - i,
            {
                let ghost before = pairs(out@);
                let ghost done = captions_of(list.take(i as int));
                proof {
                    assert(list.take(i + 1).drop_last() =~= list.take(i as int));
                    assert(list.take(i + 1).last() == v@[i as int]@);
                }
                let name = or_text(text_of_json(v[i].get("lanName")), "Unknown");
                let url = or_text(text_of_json(v[i].get("url")), "");
                if !is_blank(url.as_str()) {
                    let fits = is_indonesian_label(name.as_str());
                    let ghost pair = (name@, url@);
                    let ghost was = indonesian;
                    if fits {
                        indonesian = true;
                    }
                    out.push((name, url));
                    proof {
                        let now = done.push(pair);
                        assert(pairs(out@) =~= before.push(pair));
                        assert(before.push(pair) =~= seq![no_subtitle()] + now);
                        assert(now[done.len() as int] == pair);
                        if was {
                            let k = choose|k: int|
                                0 <= k < done.len() && names_indonesian(#[trigger] done[k].0);
                            assert(now[k] == done[k]);
                            assert(names_indonesian(now[k].0));
                        }
                        if has_indonesian(now) && !fits {
                            let k = choose|k: int|
                                0 <= k < now.len() && names_indonesian(#[trigger] now[k].0);
                            assert(done[k] == now[k]);
                            assert(names_indonesian(done[k].0));
                        }
                        if fits {
                            assert(names_indonesian(now[done.len() as int].0));
                        }
                    }
                }
                i = i + 1;
            }
            assert(list.take(list.len() as int) =~= list);
        },
        None => {},
    }
    (out, indonesian)
}

/// Whether a list has a name.
pub open spec fn has_name(v: Seq<(Seq<char>, Seq<char>)>, name: Seq<char>) -> bool {
    exists|i: int| 0 <= i < v.len() && #[trigger] v[i].0 == name
}

/// A list with those of others behind it whose names it does not have yet.
pub open spec fn with_names(
    v: Seq<(Seq<char>, Seq<char>)>,
    more: Seq<(Seq<char>, Seq<char>)>,
) -> Seq<(Seq<char>, Seq<char>)>
    decreases more.len(),
{
    if more.len() == 0 {
        v
    } else {
        let w = with_names(v, more.drop_last());
        if has_name(w, more.last().0) {
            w
        } else {
            w.push(more.last())
        }
    }
}

/// A list that grows by names that it does not have keeps what it has, and has every name then.
pub proof fn law_with_names(
    v: Seq<(Seq<char>, Seq<char>)>,
    more: Seq<(Seq<char>, Seq<char>)>,
)
    ensures
        with_names(v, more).len() >= v.len(),
        with_names(v, more).take(v.len() as int) == v,
        forall|i: int| 0 <= i < more.len() ==> has_name(with_names(v, more), #[trigger] more[i].0),
    decreases more.len(),
{
    if more.len() == 0 {
        assert(v.take(v.len() as int) =~= v);
    } else {
        let t = more.drop_last();
        law_with_names(v, t);
        let w = with_names(v, t);
        let n = with_names(v, more);
        assert(n.take(v.len() as int) =~= w.take(v.len() as int));
        assert forall|i: int| 0 <= i < more.len() implies has_name(n, #[trigger] more[i].0) by {
            if i < t.len() {
                assert(more[i] == t[i]);
                assert(has_name(w, t[i].0));
                let k = choose|k: int| 0 <= k < w.len() && #[trigger] w[k].0 == t[i].0;
                assert(n[k] == w[k]);
            } else if !has_name(w, more.last().0) {
                assert(n[w.len() as int].0 == more[i].0);
            }
        }
    }
}

/// Whether a list has a name.
fn holds_name(v: &Vec<(String, String)>, name: &str) -> (r: bool)
    ensures
        r == has_name(pairs(v@), name@),
{
    let mut i: usize = 0;
    while i < v.len()
        invariant
            i <= v@.len(),
            forall|j: int| 0 <= j < i ==> #[trigger] pairs(v@)[j].0 != name@,
        decreases v@.len() - i,
    {
        if same_text(v[i].0.as_str(), name) {
            assert(pairs(v@)[i as int].0 == name@);
            return true;
        }
        i = i + 1;
    }
    false
}

/// A copy of a list.
fn copy_pairs(v: &Vec<(String, String)>) -> (r: Vec<(String, String)>)
    ensures
        pairs(r@) == pairs(v@),
{
    let mut r: Vec<(String, String)> = Vec::new();
    let mut i: usize = 0;
    while i < v.len()
        invariant
            i <= v@.len(),
            pairs(r@) =~= pairs(v@).take(i as int),
        decreases v@.len() - i,
    {
        let ghost done = pairs(r@);
        let a = copy_text(v[i].0.as_str());
        let b = copy_text(v[i].1.as_str());
        r.push((a, b));
        assert(pairs(r@) =~= done.push((a@, b@)));
        i = i + 1;
    }
    assert(pairs(v@).take(v@.len() as int) =~= pairs(v@));
    r
}

/// A list with those of others behind it whose names it does not have yet.
fn add_names(v: Vec<(String, String)>, more: &Vec<(String, String)>) -> (r: Vec<(String, String)>)
    ensures
        pairs(r@) == with_names(pairs(v@), pairs(more@)),
{
    let ghost given = pairs(v@);
    let ghost list = pairs(more@);
    let mut out = v;
    let mut i: usize = 0;
    assert(list.take(0) =~= Seq::empty());
    while i < more.len()
        invariant
            i <= more@.len(),
            list == pairs(more@),
            pairs(out@) == with_names(given, list.take(i as int)),
        decreases more@.len() - i,
    {
        let ghost before = pairs(out@);
        proof {
            assert(list.take(i + 1).drop_last() =~= list.take(i as int));
            assert(list.take(i + 1).last() == (more@[i as int].0@, more@[i as int].1@));
        }
        if !holds_name(&out, more[i].0.as_str()) {
            let a = copy_text(more[i].0.as_str());
            let b = copy_text(more[i].1.as_str());
            out.push((a, b));
            assert(pairs(out@) =~= before.push((a@, b@)));
        }
        i = i + 1;
    }
    assert(list.take(list.len() as int) =~= list);
    out
}

// ---------------------------------------------------------------------------
// The subtitle popup
// ---------------------------------------------------------------------------

impl AppV {
    /// With subtitles searched for at OpenSubtitles.
    #[verifier::opaque]
    pub open spec fn os_asked(self, context_id: Seq<char>, is_download: bool) -> AppV {
        AppV { ui: Ui { subtitle_searching: true, ..self.ui }, ..self }.notify(
            NotificationKind::Info,
            "Looking for subtitles"@,
            "Searching OpenSubtitles..."@,
        ).ask(EffectOf::SearchSubtitles { context_id, is_download })
    }

    /// With subtitles searched for at SubDL.
    #[verifier::opaque]
    pub open spec fn subdl_asked(self, context_id: Seq<char>, is_download: bool) -> AppV {
        AppV { ui: Ui { subtitle_searching: true, ..self.ui }, ..self }.notify(
            NotificationKind::Info,
            "Looking for subtitles"@,
            "Searching SubDL..."@,
        ).ask(EffectOf::SearchSubdl { context_id, is_download })
    }

    /// With subtitles searched for, at SubDL if it can be used and else at OpenSubtitles, unless that
    /// is going on or there is nothing to search for.
    #[verifier::opaque]
    pub open spec fn subtitles_searched(self, is_download: bool) -> AppV {
        match self.subtitle_context() {
            Some(c) => if self.ui.subtitle_searching {
                self
            } else {
                let context_id = c.subject_id + ":"@ + c.resource_id + ":"@ + decimal(
                    self.ui.selected_episode as nat,
                );
                if self.ui.subdl_enabled {
                    self.subdl_asked(context_id, is_download)
                } else {
                    self.os_asked(context_id, is_download)
                }
            },
            None => self,
        }
    }

    /// With subtitles offered, the first marked, over nothing but the details.
    pub open spec fn subtitles_offered(
        self,
        options: Seq<(Seq<char>, Seq<char>)>,
        is_download: bool,
    ) -> AppV {
        AppV {
            ui: Ui {
                show_help: false,
                player_picker_popup: false,
                is_download_subtitle_popup: is_download,
                subtitle_popup: !is_download,
                subtitle_selected: Some(0),
                os_waiting: false,
                ..self.ui
            },
            subtitle_list: options,
            ..self
        }
    }

    /// With a stream that waits for a subtitle.
    pub open spec fn link_pending(self, link: Seq<char>, open_with: bool) -> AppV {
        AppV {
            ui: Ui { pending_open_with: open_with, ..self.ui },
            pending_play_link: Some(link),
            ..self
        }
    }

    /// With nothing done until the search for subtitles is over.
    pub open spec fn subtitles_awaited(self) -> AppV {
        AppV {
            ui: Ui { os_waiting: true, ..self.ui },
            subtitle_list: Seq::empty(),
            os_subtitles: Seq::empty(),
            ..self
        }
    }

    /// With what is known of the subtitles inside a stream told, if anything is.
    #[verifier::opaque]
    pub open spec fn noticed(self, text: Seq<char>) -> AppV {
        if text.len() > 0 {
            self.notify(NotificationKind::Info, "Embedded subtitles"@, text)
        } else {
            self
        }
    }

    /// After a stream was probed for subtitles inside it, with the tracks found if it could be.
    pub open spec fn probed(self, url: Seq<char>, found: Option<Seq<ProbeTrackV>>) -> AppV {
        self.noticed(notice(may_embed(url), found))
    }

    /// With a hint at the subtitles that may be inside a stream, at once or after it was probed.
    #[verifier::opaque]
    pub open spec fn hinted(self, url: Seq<char>, headers: Seq<(Seq<char>, Seq<char>)>) -> AppV {
        if self.ui.probe_enabled {
            self.ask(EffectOf::ProbeStream(PlaybackSourceV { url, headers, subtitle: None }))
        } else {
            self.probed(url, None)
        }
    }

    /// With a stream played that has no subtitle, and a hint at those that may be inside it.
    pub open spec fn played_bare(self, link: Seq<char>, open_with: bool) -> AppV {
        let m = self.hinted(link, Seq::empty());
        if open_with {
            m.send(ActionOf::ShowPlayerPicker(link, None))
        } else {
            m.send(ActionOf::LaunchMpv(link, None))
        }
    }

    /// After the captions of a stream to play are known: they are offered if there are any; if there
    /// are none, those that are searched for are waited for, if they are.
    #[verifier::opaque]
    pub open spec fn captions_offered(
        self,
        link: Seq<char>,
        options: Seq<(Seq<char>, Seq<char>)>,
        search: bool,
        open_with: bool,
    ) -> AppV {
        if options.len() > 1 {
            self.subtitles_offered(options, false).link_pending(link, open_with)
        } else if search {
            self.link_pending(link, open_with).subtitles_awaited()
        } else {
            self.played_bare(link, open_with)
        }
    }

    /// After the captions of a stream to download are known.
    #[verifier::opaque]
    pub open spec fn download_captions_offered(
        self,
        options: Seq<(Seq<char>, Seq<char>)>,
        search: bool,
    ) -> AppV {
        if options.len() > 1 {
            self.subtitles_offered(options, true)
        } else if search {
            self.subtitles_awaited()
        } else {
            self.send(ActionOf::DownloadStream(None))
        }
    }

    /// Whether subtitles are searched for beside some captions: SubDL or OpenSubtitles can be used,
    /// and none of the captions is Indonesian.
    pub open spec fn searches_beside(self, captions: Seq<(Seq<char>, Seq<char>)>) -> bool {
        !has_indonesian(captions) && (self.ui.os_enabled || self.ui.subdl_enabled)
    }

    /// With subtitles searched for, if they are to be.
    #[verifier::opaque]
    pub open spec fn subtitles_searched_if(self, search: bool, is_download: bool) -> AppV {
        if search {
            self.subtitles_searched(is_download)
        } else {
            self
        }
    }

    /// After a subtitle for playback was to be picked.
    pub open spec fn subtitle_popup_asked(
        self,
        link: Seq<char>,
        answer: JsonV,
        open_with: bool,
    ) -> AppV {
        let captions = captions_in(answer);
        let search = self.searches_beside(captions);
        self.subtitles_searched_if(search, false).captions_offered(
            link,
            seq![no_subtitle()] + captions,
            search,
            open_with,
        )
    }

    /// After a subtitle for a download was to be picked.
    pub open spec fn download_popup_asked(self, answer: JsonV) -> AppV {
        let captions = captions_in(answer);
        let search = self.searches_beside(captions);
        self.subtitles_searched_if(search, true).download_captions_offered(
            seq![no_subtitle()] + captions,
            search,
        )
    }
}

impl App {
    /// What the streams are that subtitles are searched for.
    fn search_id(c: &SubtitleContext, episode: usize) -> (r: String)
        ensures
            r@ == c@.subject_id + ":"@ + c@.resource_id + ":"@ + decimal(episode as nat),
    {
        cat5(
            c.subject_id.as_str(),
            ":",
            c.resource_id.as_str(),
            ":",
            decimal_text(episode as u64).as_str(),
        )
    }

    /// Searches for subtitles at OpenSubtitles.
    fn ask_os(&mut self, context_id: String, is_download: bool)
        ensures
            final(self)@ == old(self)@.os_asked(context_id@, is_download),
            final(self)@.steady(old(self)@),
    {
        proof {
            reveal(AppV::os_asked);
        }
        self.ui = Ui { subtitle_searching: true, ..self.ui };
        self.notify(
            NotificationKind::Info,
            "Looking for subtitles",
            "Searching OpenSubtitles...",
        );
        self.ask(EffectOf::SearchSubtitles { context_id, is_download });
    }

    /// Searches for subtitles at SubDL.
    fn ask_subdl(&mut self, context_id: String, is_download: bool)
        ensures
            final(self)@ == old(self)@.subdl_asked(context_id@, is_download),
            final(self)@.steady(old(self)@),
    {
        proof {
            reveal(AppV::subdl_asked);
        }
        self.ui = Ui { subtitle_searching: true, ..self.ui };
        self.notify(NotificationKind::Info, "Looking for subtitles", "Searching SubDL...");
        self.ask(EffectOf::SearchSubdl { context_id, is_download });
    }

    /// Searches for subtitles, unless that is going on or there is nothing to search for.
    fn search_subtitles(&mut self, is_download: bool)
        ensures
            final(self)@ == old(self)@.subtitles_searched(is_download),
            final(self)@.steady(old(self)@),
    {
        proof {
            reveal(AppV::subtitles_searched);
        }
        match self.build_subtitle_context() {
            Some(c) => {
                if !self.ui.subtitle_searching {
                    let context_id = App::search_id(&c, self.ui.selected_episode);
                    if self.ui.subdl_enabled {
                        self.ask_subdl(context_id, is_download);
                    } else {
                        self.ask_os(context_id, is_download);
                    }
                }
            },
            None => {},
        }
    }

    /// Searches for subtitles, if they are to be searched for.
    fn search_subtitles_if(&mut self, search: bool, is_download: bool)
        ensures
            final(self)@ == old(self)@.subtitles_searched_if(search, is_download),
            final(self)@.steady(old(self)@),
    {
        proof {
            reveal(AppV::subtitles_searched_if);
        }
        if search {
            self.search_subtitles(is_download);
        }
    }

    /// Offers subtitles, the first marked.
    fn offer_subtitles(&mut self, options: Vec<(String, String)>, is_download: bool)
        ensures
            final(self)@ == old(self)@.subtitles_offered(pairs(options@), is_download),
    {
        self.subtitle_list = options;
        self.ui = Ui {
            show_help: false,
            player_picker_popup: false,
            is_download_subtitle_popup: is_download,
            subtitle_popup: !is_download,
            subtitle_selected: Some(0),
            os_waiting: false,
            ..self.ui
        };
    }

    /// Has a stream wait for a subtitle.
    fn keep_link(&mut self, link: String, open_with: bool)
        ensures
            final(self)@ == old(self)@.link_pending(link@, open_with),
    {
        self.pending_play_link = Some(link);
        self.ui = Ui { pending_open_with: open_with, ..self.ui };
    }

    /// Waits until the search for subtitles is over.
    fn await_subtitles(&mut self)
        ensures
            final(self)@ == old(self)@.subtitles_awaited(),
    {
        self.subtitle_list = Vec::new();
        self.os_subtitles = Vec::new();
        assert(pairs(self.subtitle_list@) =~= Seq::empty());
        assert(pairs(self.os_subtitles@) =~= Seq::empty());
        self.ui = Ui { os_waiting: true, ..self.ui };
    }

    /// Tells what is known of the subtitles inside a stream, if anything is.
    fn tell_notice(&mut self, text: &str)
        ensures
            final(self)@ == old(self)@.noticed(text@),
            final(self)@.steady(old(self)@),
    {
        proof {
            reveal(AppV::noticed);
        }
        if !is_blank(text) {
            self.notify(NotificationKind::Info, "Embedded subtitles", text);
        }
    }

    /// A stream was probed for subtitles inside it.
    pub fn stream_probed(&mut self, url: &str, report: Option<ProbeReport>)
        ensures
            final(self)@ == old(self)@.probed(
                url@,
                match report {
                    Some(p) => Some(tracks(p.tracks@)),
                    None => None,
                },
            ),
            final(self)@.steady(old(self)@),
    {
        let likely = container_supports_embedded_subs(url);
        let text = match &report {
            Some(p) => format_embedded_notice(likely, Some(p)),
            None => format_embedded_notice(likely, None),
        };
        self.tell_notice(text.as_str());
    }

    /// Hints at the subtitles that may be inside a stream.
    fn hint(&mut self, url: &str, headers: &Vec<(String, String)>)
        ensures
            final(self)@ == old(self)@.hinted(url@, pairs(headers@)),
            final(self)@.steady(old(self)@),
    {
        proof {
            reveal(AppV::hinted);
        }
        if self.ui.probe_enabled {
            let source = PlaybackSource {
                url: copy_text(url),
                headers: copy_pairs(headers),
                subtitle: None,
            };
            self.ask(EffectOf::ProbeStream(source));
        } else {
            self.stream_probed(url, None);
        }
    }

    /// Plays a stream that has no subtitle.
    fn play_bare(&mut self, link: String, open_with: bool)
        ensures
            final(self)@ == old(self)@.played_bare(link@, open_with),
            final(self)@.steady(old(self)@),
    {
        let none: Vec<(String, String)> = Vec::new();
        assert(pairs(none@) =~= Seq::empty());
        self.hint(link.as_str(), &none);
        if open_with {
            self.send(ActionOf::ShowPlayerPicker(link, None));
        } else {
            self.send(ActionOf::LaunchMpv(link, None));
        }
    }

    /// Offers the captions of a stream to play.
    fn offer_captions(
        &mut self,
        link: String,
        options: Vec<(String, String)>,
        search: bool,
        open_with: bool,
    )
        ensures
            final(self)@ == old(self)@.captions_offered(link@, pairs(options@), search, open_with),
            final(self)@.steady(old(self)@),
    {
        proof {
            reveal(AppV::captions_offered);
        }
        if options.len() > 1 {
            self.offer_subtitles(options, false);
            self.keep_link(link, open_with);
        } else if search {
            self.keep_link(link, open_with);
            self.await_subtitles();
        } else {
            self.play_bare(link, open_with);
        }
    }

    /// Offers the captions of a stream to download.
    fn offer_download_captions(&mut self, options: Vec<(String, String)>, search: bool)
        ensures
            final(self)@ == old(self)@.download_captions_offered(pairs(options@), search),
            final(self)@.steady(old(self)@),
    {
        proof {
            reveal(AppV::download_captions_offered);
        }
        if options.len() > 1 {
            self.offer_subtitles(options, true);
        } else if search {
            self.await_subtitles();
        } else {
            self.send(ActionOf::DownloadStream(None));
        }
    }

    /// A subtitle for playback is to be picked.
    pub fn show_subtitle_popup(&mut self, link: String, answer: &Json, open_with: bool)
        ensures
            final(self)@ == old(self)@.subtitle_popup_asked(link@, answer@, open_with),
            final(self)@.steady(old(self)@),
    {
        let (options, indonesian) = read_captions(answer);
        let search = !indonesian && (self.ui.os_enabled || self.ui.subdl_enabled);
        self.search_subtitles_if(search, false);
        self.offer_captions(link, options, search, open_with);
    }

    /// A subtitle for a download is to be picked.
    pub fn show_download_subtitle_popup(&mut self, answer: &Json)
        ensures
            final(self)@ == old(self)@.download_popup_asked(answer@),
            final(self)@.steady(old(self)@),
    {
        let (options, indonesian) = read_captions(answer);
        let search = !indonesian && (self.ui.os_enabled || self.ui.subdl_enabled);
        self.search_subtitles_if(search, true);
        self.offer_download_captions(options, search);
    }
}

// ---------------------------------------------------------------------------
// Answers of OpenSubtitles
// ---------------------------------------------------------------------------

impl AppV {
    /// What the stream is for which found subtitles are taken.
    pub open spec fn awaited_id(self) -> Seq<char> {
        text_or(self.active_subject_id, Seq::empty()) + ":"@ + text_or(
            text_in(get_in(self.stream_marked(), "resourceId"@)),
            Seq::empty(),
        ) + ":"@ + decimal(self.ui.selected_episode as nat)
    }

    /// With no search for subtitles going on.
    pub open spec fn search_ended(self) -> AppV {
        AppV { ui: Ui { subtitle_searching: false, ..self.ui }, ..self }
    }

    /// With subtitles no longer waited for.
    pub open spec fn wait_ended(self) -> AppV {
        AppV { ui: Ui { os_waiting: false, ..self.ui }, ..self }
    }

    /// With the stream played that waits, if one does.
    pub open spec fn pending_played(self) -> AppV {
        match self.pending_play_link {
            Some(link) => AppV { pending_play_link: None, ..self }.played_bare(
                link,
                self.ui.pending_open_with,
            ),
            None => self,
        }
    }

    /// With what waits done without subtitles.
    #[verifier::opaque]
    pub open spec fn resumed_bare(self, is_download: bool) -> AppV {
        if is_download {
            self.send(ActionOf::DownloadStream(None))
        } else {
            self.pending_played()
        }
    }

    /// With the subtitles kept that a search has found.
    pub open spec fn os_kept(self, found: Seq<(Seq<char>, Seq<char>)>) -> AppV {
        AppV { os_subtitles: found, ..self }
    }

    /// With no stream waiting for a subtitle, for a download.
    pub open spec fn link_dropped(self, is_download: bool) -> AppV {
        if is_download {
            AppV { pending_play_link: None, ..self }
        } else {
            self
        }
    }

    /// With only the subtitles offered that a search has found.
    #[verifier::opaque]
    pub open spec fn os_offered(
        self,
        found: Seq<(Seq<char>, Seq<char>)>,
        is_download: bool,
    ) -> AppV {
        self.os_kept(found).subtitles_offered(
            with_names(seq![no_subtitle()], found),
            is_download,
        ).link_dropped(is_download)
    }

    /// Whether the popup is open that an answer is for.
    pub open spec fn popup_open(self, is_download: bool) -> bool {
        if is_download {
            self.ui.is_download_subtitle_popup
        } else {
            self.ui.subtitle_popup
        }
    }

    /// With the subtitles offered beside others, if the popup is open.
    #[verifier::opaque]
    pub open spec fn os_added(self, found: Seq<(Seq<char>, Seq<char>)>, is_download: bool) -> AppV {
        if self.popup_open(is_download) {
            AppV {
                subtitle_list: with_names(self.subtitle_list, found),
                os_subtitles: found,
                ..self
            }
        } else {
            self
        }
    }

    /// After a search has found subtitles for what is shown.
    pub open spec fn os_found(self, found: Seq<(Seq<char>, Seq<char>)>, is_download: bool) -> AppV {
        if self.ui.os_waiting {
            if found.len() == 0 {
                self.wait_ended().resumed_bare(is_download)
            } else {
                self.wait_ended().os_offered(found, is_download)
            }
        } else {
            self.os_added(found, is_download)
        }
    }

    /// After OpenSubtitles has found subtitles.
    pub open spec fn os_came(
        self,
        context_id: Seq<char>,
        found: Seq<(Seq<char>, Seq<char>)>,
        is_download: bool,
    ) -> AppV {
        if context_id != self.awaited_id() {
            self.search_ended().wait_ended()
        } else {
            self.search_ended().os_found(found, is_download)
        }
    }

    /// With what waits for subtitles done without them, if anything waits.
    #[verifier::opaque]
    pub open spec fn wait_resumed(self, is_download: bool) -> AppV {
        if self.ui.os_waiting {
            self.wait_ended().resumed_bare(is_download)
        } else {
            self
        }
    }

    /// With what waits done without subtitles, and the reason told.
    #[verifier::opaque]
    pub open spec fn subtitles_missed(
        self,
        is_download: bool,
        source: Seq<char>,
        error: Seq<char>,
    ) -> AppV {
        AppV { subtitle_search_error: Some(error), ..self }.wait_resumed(is_download).notify(
            NotificationKind::Warning,
            "Subtitles unavailable"@,
            source + error,
        )
    }

    /// After OpenSubtitles has failed.
    pub open spec fn os_failed(
        self,
        context_id: Seq<char>,
        is_download: bool,
        error: Seq<char>,
    ) -> AppV {
        if context_id != self.awaited_id() {
            self.search_ended()
        } else {
            self.search_ended().subtitles_missed(is_download, "OpenSubtitles: "@, error)
        }
    }

    /// After SubDL has answered. What it has found is offered; where it has found nothing,
    /// OpenSubtitles is searched, if it can be used.
    pub open spec fn subdl_came(
        self,
        context_id: Seq<char>,
        found: Seq<(Seq<char>, Seq<char>)>,
        is_download: bool,
    ) -> AppV {
        if context_id == self.awaited_id() && found.len() == 0 && self.ui.os_enabled {
            self.os_asked(context_id, is_download)
        } else {
            self.os_came(context_id, found, is_download)
        }
    }

    /// After SubDL has failed. OpenSubtitles is searched, if it can be used.
    pub open spec fn subdl_failed(
        self,
        context_id: Seq<char>,
        is_download: bool,
        error: Seq<char>,
    ) -> AppV {
        if context_id != self.awaited_id() {
            self.search_ended()
        } else if self.ui.os_enabled {
            self.os_asked(context_id, is_download)
        } else {
            self.search_ended().subtitles_missed(is_download, "SubDL: "@, error)
        }
    }
}

impl App {
    /// What the stream is for which found subtitles are taken.
    fn awaited_id(&self) -> (r: String)
        ensures
            r@ == self@.awaited_id(),
    {
        cat5(
            or_empty(self.subject()).as_str(),
            ":",
            or_empty(self.get_selected_resource_id()).as_str(),
            ":",
            decimal_text(self.ui.selected_episode as u64).as_str(),
        )
    }

    /// Notes that no search for subtitles is going on.
    fn end_search(&mut self)
        ensures
            final(self)@ == old(self)@.search_ended(),
            final(self)@.steady(old(self)@),
    {
        self.ui = Ui { subtitle_searching: false, ..self.ui };
    }

    /// No longer waits for subtitles.
    fn end_wait(&mut self)
        ensures
            final(self)@ == old(self)@.wait_ended(),
            final(self)@.steady(old(self)@),
    {
        self.ui = Ui { os_waiting: false, ..self.ui };
    }

    /// Plays the stream that waits, if one does.
    fn play_pending(&mut self)
        ensures
            final(self)@ == old(self)@.pending_played(),
            final(self)@.steady(old(self)@),
    {
        match self.pending_play_link.take() {
            Some(link) => {
                let open_with = self.ui.pending_open_with;
                self.play_bare(link, open_with);
            },
            None => {},
        }
    }

    /// Does what waits without subtitles.
    fn resume_bare(&mut self, is_download: bool)
        ensures
            final(self)@ == old(self)@.resumed_bare(is_download),
            final(self)@.steady(old(self)@),
    {
        proof {
            reveal(AppV::resumed_bare);
        }
        if is_download {
            self.send(ActionOf::DownloadStream(None));
        } else {
            self.play_pending();
        }
    }

    /// Keeps the subtitles that a search has found.
    fn keep_os(&mut self, found: Vec<(String, String)>)
        ensures
            final(self)@ == old(self)@.os_kept(pairs(found@)),
    {
        self.os_subtitles = found;
    }

    /// Has no stream wait for a subtitle, for a download.
    fn drop_link(&mut self, is_download: bool)
        ensures
            final(self)@ == old(self)@.link_dropped(is_download),
    {
        if is_download {
            self.pending_play_link = None;
        }
    }

    /// Offers only the subtitles that a search has found.
    fn offer_os(&mut self, found: Vec<(String, String)>, is_download: bool)
        ensures
            final(self)@ == old(self)@.os_offered(pairs(found@), is_download),
            final(self)@.steady(old(self)@),
    {
        proof {
            reveal(AppV::os_offered);
        }
        let mut none: Vec<(String, String)> = Vec::new();
        none.push((copy_text("None"), copy_text("")));
        assert(pairs(none@) =~= seq![no_subtitle()]);
        let options = add_names(none, &found);
        self.keep_os(found);
        self.offer_subtitles(options, is_download);
        self.drop_link(is_download);
    }

    /// Offers subtitles beside others, if the popup is open.
    fn add_os(&mut self, found: Vec<(String, String)>, is_download: bool)
        ensures
            final(self)@ == old(self)@.os_added(pairs(found@), is_download),
            final(self)@.steady(old(self)@),
    {
        proof {
            reveal(AppV::os_added);
        }
        let open = if is_download {
            self.ui.is_download_subtitle_popup
        } else {
            self.ui.subtitle_popup
        };
        if open {
            let options = add_names(copy_pairs(&self.subtitle_list), &found);
            self.subtitle_list = options;
            self.os_subtitles = found;
        }
    }

    /// A search has found subtitles for what is shown.
    fn take_os(&mut self, found: Vec<(String, String)>, is_download: bool)
        ensures
            final(self)@ == old(self)@.os_found(pairs(found@), is_download),
            final(self)@.steady(old(self)@),
    {
        if self.ui.os_waiting {
            self.end_wait();
            if found.len() == 0 {
                self.resume_bare(is_download);
            } else {
                self.offer_os(found, is_download);
            }
        } else {
            self.add_os(found, is_download);
        }
    }

    /// Hears what a search has found.
    fn hear_os(
        &mut self,
        context_id: &str,
        found: Vec<(String, String)>,
        is_download: bool,
    )
        ensures
            final(self)@ == old(self)@.os_came(context_id@, pairs(found@), is_download),
    {
        let current = same_text(self.awaited_id().as_str(), context_id);
        self.end_search();
        if current {
            self.take_os(found, is_download);
        } else {
            self.end_wait();
        }
    }

    /// OpenSubtitles has found subtitles.
    pub fn open_subtitles_ready(
        &mut self,
        context_id: &str,
        found: Vec<(String, String)>,
        is_download: bool,
    )
        ensures
            final(self)@ == old(self)@.os_came(context_id@, pairs(found@), is_download),
            final(self)@.steady(old(self)@),
    {
        proof {
            lemma_os_came(self@, context_id@, pairs(found@), is_download);
        }
        self.hear_os(context_id, found, is_download);
    }

    /// Does what waits for subtitles without them, if anything waits.
    fn resume_wait(&mut self, is_download: bool)
        ensures
            final(self)@ == old(self)@.wait_resumed(is_download),
            final(self)@.steady(old(self)@),
    {
        proof {
            reveal(AppV::wait_resumed);
        }
        if self.ui.os_waiting {
            self.end_wait();
            self.resume_bare(is_download);
        }
    }

    /// Does what waits without subtitles, and tells the reason.
    fn miss_subtitles(&mut self, is_download: bool, source: &str, error: &str)
        ensures
            final(self)@ == old(self)@.subtitles_missed(is_download, source@, error@),
            final(self)@.steady(old(self)@),
    {
        proof {
            reveal(AppV::subtitles_missed);
        }
        self.subtitle_search_error = Some(copy_text(error));
        self.resume_wait(is_download);
        let text = cat2(source, error);
        self.notify(NotificationKind::Warning, "Subtitles unavailable", text.as_str());
    }

    /// OpenSubtitles has failed.
    pub fn open_subtitles_failed(&mut self, context_id: &str, is_download: bool, error: &str)
        ensures
            final(self)@ == old(self)@.os_failed(context_id@, is_download, error@),
            final(self)@.steady(old(self)@),
    {
        let current = same_text(self.awaited_id().as_str(), context_id);
        self.end_search();
        if current {
            self.miss_subtitles(is_download, "OpenSubtitles: ", error);
        }
    }

    /// SubDL has answered.
    pub fn subdl_ready(
        &mut self,
        context_id: String,
        found: Vec<(String, String)>,
        is_download: bool,
    )
        ensures
            final(self)@ == old(self)@.subdl_came(context_id@, pairs(found@), is_download),
            final(self)@.steady(old(self)@),
    {
        let current = same_text(self.awaited_id().as_str(), context_id.as_str());
        if current && found.len() == 0 && self.ui.os_enabled {
            self.ask_os(context_id, is_download);
        } else {
            self.open_subtitles_ready(context_id.as_str(), found, is_download);
        }
    }

    /// SubDL has failed.
    pub fn subdl_failed(&mut self, context_id: String, is_download: bool, error: &str)
        ensures
            final(self)@ == old(self)@.subdl_failed(context_id@, is_download, error@),
            final(self)@.steady(old(self)@),
    {
        let current = same_text(self.awaited_id().as_str(), context_id.as_str());
        if !current {
            self.end_search();
        } else if self.ui.os_enabled {
            self.ask_os(context_id, is_download);
        } else {
            self.end_search();
            self.miss_subtitles(is_download, "SubDL: ", error);
        }
    }
}

/// What a search for subtitles has found changes neither the provider nor the queue of downloads.
proof fn lemma_os_came(
    m: AppV,
    context_id: Seq<char>,
    found: Seq<(Seq<char>, Seq<char>)>,
    is_download: bool,
)
    ensures
        m.os_came(context_id, found, is_download).steady(m),
{
    reveal(AppV::hinted);
    reveal(AppV::noticed);
    reveal(AppV::resumed_bare);
    reveal(AppV::os_offered);
    reveal(AppV::os_added);
}

/// A popup that was closed is not opened again by subtitles that come late: all that changes is that
/// the search is over.
pub proof fn law_no_late_popup(m: AppV, found: Seq<(Seq<char>, Seq<char>)>, is_download: bool)
    requires
        !m.ui.os_waiting,
        !m.popup_open(is_download),
    ensures
        m.os_came(m.awaited_id(), found, is_download) == m.search_ended(),
        found.len() > 0 ==> m.subdl_came(m.awaited_id(), found, is_download) == m.search_ended(),
{
    let n = m.search_ended();
    assert(n.os_added(found, is_download) == n) by {
        reveal(AppV::os_added);
        assert(!n.popup_open(is_download));
    }
    assert(!n.ui.os_waiting);
}

// ---------------------------------------------------------------------------
// The quota
// ---------------------------------------------------------------------------

/// The title of the subtitle picker, with the downloads that remain at OpenSubtitles if that is known.
pub open spec fn picker_title(quota: Option<u32>) -> Seq<char> {
    "Select subtitle"@ + (match quota {
        Some(n) => " (OpenSubtitles: "@ + decimal(n as nat) + " downloads left today)"@,
        None => Seq::empty(),
    })
}

impl App {
    /// The title of the subtitle picker, while it is open.
    pub fn subtitle_title(&self) -> (r: Option<String>)
        ensures
            text_opt(r) == (if self@.ui.subtitle_popup || self@.ui.is_download_subtitle_popup {
                Some(picker_title(self@.ui.quota))
            } else {
                None
            }),
    {
        if !self.ui.subtitle_popup && !self.ui.is_download_subtitle_popup {
            return None;
        }
        let rest = match self.ui.quota {
            Some(n) => cat3(
                " (OpenSubtitles: ",
                decimal_text(n as u64).as_str(),
                " downloads left today)",
            ),
            None => String::new(),
        };
        Some(cat2("Select subtitle", rest.as_str()))
    }
}

// ---------------------------------------------------------------------------
// SubDL before OpenSubtitles
// ---------------------------------------------------------------------------

/// Whether what is asked for in one state and not yet in another searches OpenSubtitles.
pub open spec fn searches_os(before: AppV, after: AppV) -> bool {
    exists|i: int|
        before.effects.len() <= i < after.effects.len() && (
        #[trigger] after.effects[i]) is SearchSubtitles
}

/// Where SubDL can be used, a search for subtitles does not begin at OpenSubtitles, for playback or
/// for a download.
pub proof fn law_subdl_is_searched_first(
    m: AppV,
    link: Seq<char>,
    answer: JsonV,
    open_with: bool,
)
    requires
        m.ui.subdl_enabled,
    ensures
        !searches_os(m, m.subtitle_popup_asked(link, answer, open_with)),
        !searches_os(m, m.download_popup_asked(answer)),
{
    lemma_search_begins(m, false);
    lemma_search_begins(m, true);
    let captions = captions_in(answer);
    let search = m.searches_beside(captions);
    let options = seq![no_subtitle()] + captions;
    let a = m.subtitles_searched_if(search, false);
    let b = m.subtitles_searched_if(search, true);
    lemma_offer_asks(a, link, options, search, open_with);
    lemma_download_offer_asks(b, options, search);
    lemma_no_search(m, a, a.captions_offered(link, options, search, open_with));
    lemma_no_search(m, b, b.download_captions_offered(options, search));
}

/// Where OpenSubtitles is searched neither on the way to a state nor on the way from it, it is not
/// searched on the whole way.
proof fn lemma_no_search(a: AppV, b: AppV, c: AppV)
    requires
        a.effects.len() <= b.effects.len() <= c.effects.len(),
        c.effects.take(b.effects.len() as int) == b.effects,
        !searches_os(a, b),
        !searches_os(b, c),
    ensures
        !searches_os(a, c),
{
    if searches_os(a, c) {
        let i = choose|i: int|
            a.effects.len() <= i < c.effects.len() && (
            #[trigger] c.effects[i]) is SearchSubtitles;
        if i < b.effects.len() {
            assert(b.effects[i] == c.effects.take(b.effects.len() as int)[i]);
        }
    }
}

/// What is asked for when a search begins: at most one request, at SubDL where that can be used, and
/// a notification.
proof fn lemma_search_begins(m: AppV, is_download: bool)
    requires
        m.ui.subdl_enabled,
    ensures
        forall|search: bool|
            {
                let n = #[trigger] m.subtitles_searched_if(search, is_download);
                &&& m.effects.len() <= n.effects.len()
                &&& !searches_os(m, n)
            },
{
    reveal(AppV::subtitles_searched_if);
    reveal(AppV::subtitles_searched);
    reveal(AppV::subdl_asked);
}

/// Offering captions asks for no search.
proof fn lemma_offer_asks(
    m: AppV,
    link: Seq<char>,
    options: Seq<(Seq<char>, Seq<char>)>,
    search: bool,
    open_with: bool,
)
    ensures
        ({
            let n = m.captions_offered(link, options, search, open_with);
            &&& m.effects.len() <= n.effects.len()
            &&& n.effects.take(m.effects.len() as int) == m.effects
            &&& !searches_os(m, n)
        }),
{
    reveal(AppV::captions_offered);
    reveal(AppV::hinted);
    reveal(AppV::noticed);
    let n = m.captions_offered(link, options, search, open_with);
    assert(n.effects.take(m.effects.len() as int) =~= m.effects);
}

/// Offering captions of a download asks for no search.
proof fn lemma_download_offer_asks(
    m: AppV,
    options: Seq<(Seq<char>, Seq<char>)>,
    search: bool,
)
    ensures
        ({
            let n = m.download_captions_offered(options, search);
            &&& m.effects.len() <= n.effects.len()
            &&& n.effects.take(m.effects.len() as int) == m.effects
            &&& !searches_os(m, n)
        }),
{
    reveal(AppV::download_captions_offered);
    let n = m.download_captions_offered(options, search);
    assert(n.effects.take(m.effects.len() as int) =~= m.effects);
}

/// Subtitles that were found are offered, and nothing is asked for.
proof fn lemma_found_asks_nothing(
    m: AppV,
    context_id: Seq<char>,
    found: Seq<(Seq<char>, Seq<char>)>,
    is_download: bool,
)
    requires
        found.len() > 0,
    ensures
        m.os_came(context_id, found, is_download).effects == m.effects,
{
    reveal(AppV::os_offered);
    reveal(AppV::os_added);
}

/// A search at OpenSubtitles is asked for.
proof fn lemma_os_asked(m: AppV, context_id: Seq<char>, is_download: bool)
    ensures
        searches_os(m, m.os_asked(context_id, is_download)),
{
    reveal(AppV::os_asked);
    let n = m.os_asked(context_id, is_download);
    assert(n.effects[n.effects.len() - 1] is SearchSubtitles);
}

/// Where SubDL has found subtitles, OpenSubtitles is not searched; indeed nothing is asked for.
pub proof fn law_match_at_subdl_spares_quota(
    m: AppV,
    context_id: Seq<char>,
    found: Seq<(Seq<char>, Seq<char>)>,
    is_download: bool,
)
    requires
        found.len() > 0,
    ensures
        m.subdl_came(context_id, found, is_download).effects == m.effects,
        !searches_os(m, m.subdl_came(context_id, found, is_download)),
{
    lemma_found_asks_nothing(m, context_id, found, is_download);
}

/// Where SubDL has found nothing for what is shown, or has failed, OpenSubtitles is searched if it
/// can be used.
pub proof fn law_opensubtitles_follows_subdl(m: AppV, is_download: bool, error: Seq<char>)
    requires
        m.ui.os_enabled,
    ensures
        searches_os(m, m.subdl_came(m.awaited_id(), Seq::empty(), is_download)),
        searches_os(m, m.subdl_failed(m.awaited_id(), is_download, error)),
{
    lemma_os_asked(m, m.awaited_id(), is_download);
}

/// A stream that has no subtitle and may hold some inside gets a hint before it is played, where
/// streams are not probed; the stream is played all the same.
pub proof fn law_hint_before_playing(m: AppV, link: Seq<char>)
    requires
        !m.ui.probe_enabled,
        may_embed(link),
    ensures
        m.played_bare(link, false).effects == m.effects.push(
            EffectOf::Notify(
                NotificationKind::Info,
                "Embedded subtitles"@,
                notice(true, None),
            ),
        ).push(EffectOf::Send(ActionOf::LaunchMpv(link, None))),
{
    law_notice_is_empty(true, None);
    reveal(AppV::hinted);
    reveal(AppV::noticed);
}

// ---------------------------------------------------------------------------
// Playing
// ---------------------------------------------------------------------------

/// The name of a player on screen.
pub open spec fn player_name(kind: PlayerKind) -> Seq<char> {
    match kind {
        PlayerKind::Mpv => "MPV"@,
        PlayerKind::Iina => "IINA"@,
        PlayerKind::Vlc => "VLC"@,
    }
}

/// The name of a player on screen.
fn player_label(kind: PlayerKind) -> (r: String)
    ensures
        r@ == player_name(kind),
{
    match kind {
        PlayerKind::Mpv => copy_text("MPV"),
        PlayerKind::Iina => copy_text("IINA"),
        PlayerKind::Vlc => copy_text("VLC"),
    }
}

impl AppV {
    /// Where a subtitle is looked up unasked for what is shown.
    pub open spec fn lookup(self, chosen: bool) -> Lookup {
        lookup_for(
            self.ui.subdl_enabled,
            self.ui.os_enabled,
            self.ui.quota,
            self.subtitle_context() is Some,
            chosen,
        )
    }

    /// After a release of 4KHDHub was to be played: what stands for it is read first.
    pub open spec fn release_played(self, open_with: bool) -> AppV {
        match get_in(self.stream_marked(), "_fourk_release"@) {
            Some(release) => self.ask(EffectOf::ReadReleaseToPlay(release, open_with)),
            None => self,
        }
    }

    /// After what stands for a release was read. Nothing is played that is none.
    pub open spec fn read_release_played(
        self,
        release: JsonV,
        readable: bool,
        open_with: bool,
    ) -> AppV {
        if readable {
            self.notify(
                NotificationKind::Info,
                "Preparing playback"@,
                "Resolving the selected mirror."@,
            ).ask(EffectOf::PlayRelease(release, open_with, self.lookup(false)))
        } else {
            self
        }
    }

    /// After a stream with an address was to be played.
    pub open spec fn link_played(self, link: Seq<char>, open_with: bool) -> AppV {
        match text_in(get_in(self.stream_marked(), "resourceId"@)) {
            Some(resource_id) => self.notify(
                NotificationKind::Info,
                "Preparing playback"@,
                "Fetching subtitles."@,
            ).ask(
                EffectOf::FetchCaptions {
                    subject_id: text_or(text_in(get_in(self.selected_details, "id"@)), ""@),
                    resource_id,
                    link,
                    open_with,
                },
            ),
            None => self.played_bare(link, open_with),
        }
    }

    /// After the marked stream was to be played.
    pub open spec fn stream_played(self, open_with: bool) -> AppV {
        if self.ui.active_provider == ProviderKind::FourKHdHub {
            self.release_played(open_with)
        } else if self.ui.active_screen != Screen::Details {
            self
        } else {
            match text_in(get_in(self.stream_marked(), "resourceLink"@)) {
                Some(link) => self.link_played(link, open_with),
                None => self,
            }
        }
    }

    /// After a stream was to be played with the first player.
    pub open spec fn first_player_started(
        self,
        link: Seq<char>,
        subtitle: Option<Seq<char>>,
    ) -> AppV {
        if self.available_players.len() == 0 {
            self.player_missing()
        } else {
            self.notify(
                NotificationKind::Info,
                "Opening player"@,
                "Launching "@ + player_name(self.available_players[0]) + "."@,
            ).send(ActionOf::LaunchPlayer(self.available_players[0], link, subtitle))
        }
    }

    /// With the word that there is no player.
    pub open spec fn player_missing(self) -> AppV {
        self.notify(
            NotificationKind::Error,
            "Player unavailable"@,
            "Install mpv, IINA, or VLC."@,
        )
    }

    /// With a player to be picked.
    pub open spec fn picker_shown(
        self,
        playback: Option<PlaybackSourceV>,
        link: Option<Seq<char>>,
        subtitle: Option<Seq<char>>,
    ) -> AppV {
        AppV {
            ui: Ui {
                show_help: false,
                tv_config_popup: false,
                player_picker_popup: true,
                player_picker_selected: Some(0),
                subtitle_popup: false,
                ..self.ui
            },
            player_picker_playback: playback,
            player_picker_link: link,
            player_picker_subtitle: subtitle,
            ..self
        }
    }

    /// After a player was to be picked for a source.
    pub open spec fn playback_picker_asked(self, source: PlaybackSourceV) -> AppV {
        if self.available_players.len() == 0 {
            self.say("No media player found. Install mpv, IINA, or VLC."@, 150)
        } else {
            self.picker_shown(Some(source), None, None)
        }
    }

    /// After a player was to be picked for a stream.
    pub open spec fn player_picker_asked(
        self,
        link: Seq<char>,
        subtitle: Option<Seq<char>>,
    ) -> AppV {
        if self.available_players.len() == 0 {
            self.player_missing()
        } else {
            self.picker_shown(None, Some(link), subtitle)
        }
    }

    /// With the player picker hidden.
    pub open spec fn picker_hidden(self) -> AppV {
        AppV { ui: Ui { player_picker_popup: false, ..self.ui }, ..self }
    }

    /// After a player was started with a source; VLC takes none that needs headers.
    pub open spec fn playback_launched(self, kind: PlayerKind, source: PlaybackSourceV) -> AppV {
        if kind == PlayerKind::Vlc && source.headers.len() > 0 {
            self.picker_hidden().say(
                "This source needs headers VLC cannot provide; use mpv or IINA."@,
                180,
            )
        } else {
            self.picker_hidden().source_hinted(source).ask(EffectOf::StartPlayback(kind, source))
        }
    }

    /// With a hint at the subtitles that may be inside a source, if it has no other.
    #[verifier::opaque]
    pub open spec fn source_hinted(self, source: PlaybackSourceV) -> AppV {
        if source.subtitle is None {
            self.hinted(source.url, source.headers)
        } else {
            self
        }
    }
}

impl App {
    /// Where a subtitle is looked up unasked for what is shown.
    pub fn choose_lookup(&self, chosen: bool) -> (r: Lookup)
        ensures
            r == self@.lookup(chosen),
    {
        choose_lookup(
            self.ui.subdl_enabled,
            self.ui.os_enabled,
            self.ui.quota,
            self.build_subtitle_context().is_some(),
            chosen,
        )
    }

    /// A release of 4KHDHub is to be played.
    fn play_release(&mut self, open_with: bool)
        ensures
            final(self)@ == old(self)@.release_played(open_with),
            final(self)@.steady(old(self)@),
    {
        match self.get_selected_release() {
            Some(release) => self.ask(EffectOf::ReadReleaseToPlay(release, open_with)),
            None => {},
        }
    }

    /// What stands for a release was read, to be played.
    pub fn play_read_release(&mut self, release: Json, readable: bool, open_with: bool)
        ensures
            final(self)@ == old(self)@.read_release_played(release@, readable, open_with),
            final(self)@.steady(old(self)@),
    {
        if readable {
            let lookup = self.choose_lookup(false);
            self.notify(
                NotificationKind::Info,
                "Preparing playback",
                "Resolving the selected mirror.",
            );
            self.ask(EffectOf::PlayRelease(release, open_with, lookup));
        }
    }

    /// A stream with an address is to be played.
    fn play_link(&mut self, link: String, open_with: bool)
        ensures
            final(self)@ == old(self)@.link_played(link@, open_with),
            final(self)@.steady(old(self)@),
    {
        let subject_id = or_text(
            text_of_json(get_of(borrowed(&self.selected_details), "id")),
            "",
        );
        match self.get_selected_resource_id() {
            Some(resource_id) => {
                self.notify(NotificationKind::Info, "Preparing playback", "Fetching subtitles.");
                self.ask(EffectOf::FetchCaptions { subject_id, resource_id, link, open_with });
            },
            None => self.play_bare(link, open_with),
        }
    }

    /// The marked stream is to be played.
    pub fn play_stream(&mut self, open_with: bool)
        ensures
            final(self)@ == old(self)@.stream_played(open_with),
            final(self)@.steady(old(self)@),
    {
        if self.ui.active_provider == ProviderKind::FourKHdHub {
            self.play_release(open_with);
        } else if self.ui.active_screen == Screen::Details {
            match self.get_selected_link() {
                Some(link) => self.play_link(link, open_with),
                None => {},
            }
        }
    }

    /// Says that there is no player.
    fn miss_player(&mut self)
        ensures
            final(self)@ == old(self)@.player_missing(),
    {
        self.notify(
            NotificationKind::Error,
            "Player unavailable",
            "Install mpv, IINA, or VLC.",
        );
    }

    /// A stream is to be played with the first player.
    pub fn launch_mpv(&mut self, link: String, subtitle: Option<String>)
        ensures
            final(self)@ == old(self)@.first_player_started(link@, text_opt(subtitle)),
            final(self)@.steady(old(self)@),
    {
        if self.available_players.len() == 0 {
            self.miss_player();
        } else {
            let kind = self.available_players[0];
            let text = cat3("Launching ", player_label(kind).as_str(), ".");
            self.notify(NotificationKind::Info, "Opening player", text.as_str());
            self.send(ActionOf::LaunchPlayer(kind, link, subtitle));
        }
    }

    /// Has a player picked.
    fn show_picker(
        &mut self,
        playback: Option<PlaybackSource>,
        link: Option<String>,
        subtitle: Option<String>,
    )
        ensures
            final(self)@ == old(self)@.picker_shown(
                crate::tui::state::source_opt(playback),
                text_opt(link),
                text_opt(subtitle),
            ),
    {
        self.player_picker_playback = playback;
        self.player_picker_link = link;
        self.player_picker_subtitle = subtitle;
        self.ui = Ui {
            show_help: false,
            tv_config_popup: false,
            player_picker_popup: true,
            player_picker_selected: Some(0),
            subtitle_popup: false,
            ..self.ui
        };
    }

    /// A player is to be picked for a source.
    pub fn show_playback_picker(&mut self, source: PlaybackSource)
        ensures
            final(self)@ == old(self)@.playback_picker_asked(source@),
            final(self)@.steady(old(self)@),
    {
        if self.available_players.len() == 0 {
            self.say("No media player found. Install mpv, IINA, or VLC.", 150);
        } else {
            self.show_picker(Some(source), None, None);
        }
    }

    /// A player is to be picked for a stream.
    pub fn show_player_picker(&mut self, link: String, subtitle: Option<String>)
        ensures
            final(self)@ == old(self)@.player_picker_asked(link@, text_opt(subtitle)),
            final(self)@.steady(old(self)@),
    {
        if self.available_players.len() == 0 {
            self.miss_player();
        } else {
            self.show_picker(None, Some(link), subtitle);
        }
    }

    /// A player is started with a stream.
    pub fn launch_player(&mut self, kind: PlayerKind, link: String, subtitle: Option<String>)
        ensures
            final(self)@ == old(self)@.picker_hidden().ask(
                EffectOf::StartPlayer(kind, link@, text_opt(subtitle)),
            ),
            final(self)@.steady(old(self)@),
    {
        self.hide_picker();
        self.ask(EffectOf::StartPlayer(kind, link, subtitle));
    }

    /// A player is started with a source.
    pub fn launch_playback(&mut self, kind: PlayerKind, source: PlaybackSource)
        ensures
            final(self)@ == old(self)@.playback_launched(kind, source@),
            final(self)@.steady(old(self)@),
    {
        self.hide_picker();
        if kind == PlayerKind::Vlc && source.headers.len() > 0 {
            self.say("This source needs headers VLC cannot provide; use mpv or IINA.", 180);
        } else {
            self.hint_source(&source);
            self.ask(EffectOf::StartPlayback(kind, source));
        }
    }

    /// Hints at the subtitles that may be inside a source, if it has no other.
    fn hint_source(&mut self, source: &PlaybackSource)
        ensures
            final(self)@ == old(self)@.source_hinted(source@),
            final(self)@.steady(old(self)@),
    {
        proof {
            reveal(AppV::source_hinted);
        }
        if source.subtitle.is_none() {
            self.hint(source.url.as_str(), &source.headers);
        }
    }

    /// Players were found.
    pub fn players_detected(&mut self, players: Vec<PlayerKind>)
        ensures
            final(self)@ == (AppV { available_players: players@, ..old(self)@ }),
            final(self)@.steady(old(self)@),
    {
        self.available_players = players;
    }
}

/// What follows the captions of a stream to play, or that there are none.
pub open spec fn captions_result(link: Seq<char>, answer: Option<JsonV>, open_with: bool) -> ActionV {
    match answer {
        Some(a) => ActionOf::ShowSubtitlePopup(link, a, open_with),
        None => if open_with {
            ActionOf::ShowPlayerPicker(link, None)
        } else {
            ActionOf::LaunchMpv(link, None)
        },
    }
}

/// What follows the captions of a stream to play, or that there are none.
pub fn captions_action(link: String, answer: Option<Json>, open_with: bool) -> (r: Action)
    ensures
        r@ == captions_result(link@, json_opt(answer), open_with),
{
    match answer {
        Some(a) => ActionOf::ShowSubtitlePopup(link, a, open_with),
        None => if open_with {
            ActionOf::ShowPlayerPicker(link, None)
        } else {
            ActionOf::LaunchMpv(link, None)
        },
    }
}

/// What follows a release that was resolved, with a subtitle or without, or could not be.
pub open spec fn release_result(
    resolved: Result<PlaybackSource, String>,
    subtitle: Option<Seq<char>>,
    open_with: bool,
) -> ActionV {
    match resolved {
        Ok(source) => {
            let s = PlaybackSourceV { subtitle, ..source@ };
            if open_with {
                ActionOf::ShowPlaybackPicker(s)
            } else {
                ActionOf::LaunchPlayback(PlayerKind::Mpv, s)
            }
        },
        Err(e) => ActionOf::SetStatus("Error: 4KHDHub source failed: "@ + e@),
    }
}

/// What follows a release that was resolved, with a subtitle or without, or could not be.
pub fn release_action(
    resolved: Result<PlaybackSource, String>,
    subtitle: Option<String>,
    open_with: bool,
) -> (r: Action)
    ensures
        r@ == release_result(resolved, text_opt(subtitle), open_with),
{
    match resolved {
        Ok(source) => {
            let s = PlaybackSource { url: source.url, headers: source.headers, subtitle };
            if open_with {
                ActionOf::ShowPlaybackPicker(s)
            } else {
                ActionOf::LaunchPlayback(PlayerKind::Mpv, s)
            }
        },
        Err(e) => ActionOf::SetStatus(cat2("Error: 4KHDHub source failed: ", e.as_str())),
    }
}

} // verus!
