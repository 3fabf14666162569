//! What keys do.
use vstd::prelude::*;
use crate::outside::{graphemes, lowercase, to_lowercase};
use crate::strings::{
    CharClass, begins, begins_with, cat3, copy_text, copy_texts, has, holds_entry, holds_text, is_blank,
    lower_text, same_text, text_opt, texts, to_lower, trim, trimmed,
};
use crate::tui::state::{
    Action, ActionOf, ActionV, App, AppV, DetailsPane, EffectOf, InputMode, Key, KeyCode, Screen,
    TvCatalog, TvCatalogV, Ui, marked, pairs, results,
};
use crate::tui::text::{all_but_last, remove_last_grapheme};

verus! {

// ---------------------------------------------------------------------------
// The search field
// ---------------------------------------------------------------------------

impl AppV {
    /// With the search field left.
    pub open spec fn editing_left(self) -> AppV {
        AppV { ui: Ui { input_mode: InputMode::Normal, ..self.ui }, ..self }.say(""@, 150)
    }

    /// With a query entered.
    pub open spec fn query_entered(self, query: Seq<char>) -> AppV {
        let m = AppV {
            ui: Ui {
                input_mode: InputMode::Normal,
                suggest_index: None,
                search_selected: None,
                last_search_edit: self.ui.now,
                ..self.ui
            },
            search_suggestions: Seq::empty(),
            ..self
        };
        m.send(
            if self.ui.suggest_index is Some {
                ActionOf::SelectSuggestion { query }
            } else {
                ActionOf::Search { query, force_refresh: false }
            },
        )
    }

    /// With another text in the search field.
    pub open spec fn query_edited(self, text: Seq<char>) -> AppV {
        AppV {
            ui: Ui { suggest_index: None, last_search_edit: self.ui.now, ..self.ui },
            search_query: text,
            ..self
        }
    }

    /// The suggestion above the marked one; the last is above the first.
    pub open spec fn suggestion_above(self) -> usize {
        match self.ui.suggest_index {
            None => (self.search_suggestions.len() - 1) as usize,
            Some(i) => if i == 0 {
                (self.search_suggestions.len() - 1) as usize
            } else {
                (i - 1) as usize
            },
        }
    }

    /// The suggestion below the marked one; the first is below the last.
    pub open spec fn suggestion_below(self) -> usize {
        match self.ui.suggest_index {
            None => 0,
            Some(i) => if i == self.search_suggestions.len() - 1 {
                0
            } else {
                (i + 1) as usize
            },
        }
    }

    /// With a suggestion marked, and taken over into the search field.
    pub open spec fn suggestion_marked(self, i: usize) -> AppV {
        let m = AppV { ui: Ui { suggest_index: Some(i), ..self.ui }, ..self };
        if i < self.search_suggestions.len() {
            m.query_replaced(self.search_suggestions[i as int])
        } else {
            m
        }
    }

    /// With a suggestion in the search field.
    pub open spec fn query_replaced(self, text: Seq<char>) -> AppV {
        AppV { search_query: text, last_suggest_query: trim(text, CharClass::White), ..self }
    }

    /// After a key in the search field.
    #[verifier::opaque]
    pub open spec fn field_key(self, code: KeyCode) -> AppV {
        match code {
            KeyCode::Esc => self.editing_left(),
            KeyCode::Enter => if trim(self.search_query, CharClass::White).len() > 0 {
                self.query_entered(trim(self.search_query, CharClass::White))
            } else {
                self
            },
            KeyCode::Backspace => self.query_edited(all_but_last(graphemes(self.search_query))),
            KeyCode::Char(c) => self.query_edited(self.search_query.push(c)),
            KeyCode::Up => if self.search_suggestions.len() > 0 {
                self.suggestion_marked(self.suggestion_above())
            } else {
                self
            },
            KeyCode::Down => if self.search_suggestions.len() > 0 {
                self.suggestion_marked(self.suggestion_below())
            } else {
                self
            },
            _ => self,
        }
    }
}

impl App {
    /// Leaves the search field.
    fn leave_editing(&mut self)
        ensures
            final(self)@ == old(self)@.editing_left(),
    {
        self.ui = Ui { input_mode: InputMode::Normal, ..self.ui };
        self.say("", 150);
    }

    /// Takes the text of the search field as a query.
    fn enter_query(&mut self, query: String)
        ensures
            final(self)@ == old(self)@.query_entered(query@),
    {
        let chosen = self.ui.suggest_index.is_some();
        let action: Action = if chosen {
            ActionOf::SelectSuggestion { query }
        } else {
            ActionOf::Search { query, force_refresh: false }
        };
        self.search_suggestions = Vec::new();
        assert(texts(self.search_suggestions@) =~= Seq::empty());
        self.ui = Ui {
            input_mode: InputMode::Normal,
            suggest_index: None,
            search_selected: None,
            last_search_edit: self.ui.now,
            ..self.ui
        };
        self.send(action);
    }

    /// Puts another text in the search field.
    fn edit_query(&mut self, text: String)
        ensures
            final(self)@ == old(self)@.query_edited(text@),
    {
        self.ui = Ui { suggest_index: None, last_search_edit: self.ui.now, ..self.ui };
        self.search_query = text;
    }

    /// The suggestion above the marked one.
    fn suggestion_above(&self) -> (r: usize)
        requires
            self@.search_suggestions.len() > 0,
        ensures
            r == self@.suggestion_above(),
    {
        match self.ui.suggest_index {
            None => self.search_suggestions.len() - 1,
            Some(i) => if i == 0 {
                self.search_suggestions.len() - 1
            } else {
                i - 1
            },
        }
    }

    /// The suggestion below the marked one.
    fn suggestion_below(&self) -> (r: usize)
        requires
            self@.search_suggestions.len() > 0,
            self@.ui.suggest_index != Some(usize::MAX),
        ensures
            r == self@.suggestion_below(),
    {
        match self.ui.suggest_index {
            None => 0,
            Some(i) => if i == self.search_suggestions.len() - 1 {
                0
            } else {
                i + 1
            },
        }
    }

    /// Marks a suggestion, and takes it over into the search field.
    fn mark_suggestion(&mut self, i: usize)
        ensures
            final(self)@ == old(self)@.suggestion_marked(i),
    {
        self.ui = Ui { suggest_index: Some(i), ..self.ui };
        if i < self.search_suggestions.len() {
            let text = copy_text(self.search_suggestions[i].as_str());
            self.replace_query(text);
        }
    }

    /// Puts a suggestion in the search field.
    fn replace_query(&mut self, text: String)
        ensures
            final(self)@ == old(self)@.query_replaced(text@),
    {
        self.last_suggest_query = trimmed(text.as_str(), CharClass::White);
        self.search_query = text;
    }

    /// Whether there are suggestions.
    fn has_suggestions(&self) -> (r: bool)
        ensures
            r == (self@.search_suggestions.len() > 0),
    {
        self.search_suggestions.len() > 0
    }

    /// The text of the search field without its last cluster.
    fn shorter_query(&self) -> (r: String)
        ensures
            r@ == all_but_last(graphemes(self@.search_query)),
    {
        let mut text = copy_text(self.search_query.as_str());
        remove_last_grapheme(&mut text);
        text
    }

    /// The text of the search field with a character behind it.
    fn longer_query(&self, c: char) -> (r: String)
        ensures
            r@ == self@.search_query.push(c),
    {
        let mut text = copy_text(self.search_query.as_str());
        text.push(c);
        text
    }

    /// The text of the search field, trimmed.
    pub fn typed_query(&self) -> (r: String)
        ensures
            r@ == trim(self@.search_query, CharClass::White),
    {
        trimmed(self.search_query.as_str(), CharClass::White)
    }

    /// A key in the search field.
    fn press_in_field(&mut self, code: KeyCode)
        requires
            old(self)@.ui.suggest_index != Some(usize::MAX),
        ensures
            final(self)@ == old(self)@.field_key(code),
    {
        proof {
            reveal(AppV::field_key);
        }
        match code {
            KeyCode::Esc => self.leave_editing(),
            KeyCode::Enter => {
                let query = self.typed_query();
                if !is_blank(query.as_str()) {
                    self.enter_query(query);
                }
            },
            KeyCode::Backspace => {
                let text = self.shorter_query();
                self.edit_query(text);
            },
            KeyCode::Char(c) => {
                let text = self.longer_query(c);
                self.edit_query(text);
            },
            KeyCode::Up => {
                if self.has_suggestions() {
                    let i = self.suggestion_above();
                    self.mark_suggestion(i);
                }
            },
            KeyCode::Down => {
                if self.has_suggestions() {
                    let i = self.suggestion_below();
                    self.mark_suggestion(i);
                }
            },
            _ => {},
        }
    }
}

// ---------------------------------------------------------------------------
// The television wizard
// ---------------------------------------------------------------------------

/// The ways in which playlists are grouped.
pub open spec fn groupings() -> Seq<Seq<char>> {
    seq!["Grouped by category"@, "Grouped by language"@, "Grouped by broadcast area"@]
}

/// The ways in which playlists are grouped.
pub fn grouping_list() -> (r: Vec<String>)
    ensures
        texts(r@) == groupings(),
{
    let mut v: Vec<String> = Vec::new();
    v.push(copy_text("Grouped by category"));
    v.push(copy_text("Grouped by language"));
    v.push(copy_text("Grouped by broadcast area"));
    assert(texts(v@) =~= groupings());
    v
}

/// The names in a list of names and codes.
pub open spec fn names(v: Seq<(Seq<char>, Seq<char>)>) -> Seq<Seq<char>> {
    Seq::new(v.len(), |i: int| v[i].0)
}

/// The names in a list of names and codes.
fn name_list(v: &Vec<(String, String)>) -> (r: Vec<String>)
    ensures
        texts(r@) == names(pairs(v@)),
{
    let mut r: Vec<String> = Vec::new();
    let mut i: usize = 0;
    while i < v.len()
        invariant
            i <= v@.len(),
            texts(r@) =~= names(pairs(v@)).take(i as int),
        decreases v@.len() - i,
    {
        let ghost done = texts(r@);
        let s = copy_text(v[i].0.as_str());
        r.push(s);
        assert(texts(r@) =~= done.push(s@));
        i = i + 1;
    }
    assert(texts(r@) =~= names(pairs(v@)));
    r
}

/// The code behind the first entry with a name.
pub open spec fn code_of(v: Seq<(Seq<char>, Seq<char>)>, name: Seq<char>) -> Option<Seq<char>>
    decreases v.len(),
{
    if v.len() == 0 {
        None
    } else if v[0].0 == name {
        Some(v[0].1)
    } else {
        code_of(v.skip(1), name)
    }
}

/// The code behind the first entry with a name.
fn find_code(v: &Vec<(String, String)>, name: &str) -> (r: Option<String>)
    ensures
        text_opt(r) == code_of(pairs(v@), name@),
{
    let ghost list = pairs(v@);
    let mut i: usize = 0;
    assert(list.skip(0) =~= list);
    while i < v.len()
        invariant
            i <= v@.len(),
            list == pairs(v@),
            code_of(list, name@) == code_of(list.skip(i as int), name@),
        decreases v@.len() - i,
    {
        proof {
            assert(list.skip(i as int)[0] == (v@[i as int].0@, v@[i as int].1@));
            assert(list.skip(i as int).skip(1) =~= list.skip(i + 1));
        }
        if same_text(v[i].0.as_str(), name) {
            return Some(copy_text(v[i].1.as_str()));
        }
        i = i + 1;
    }
    None
}

/// The address of the playlist that an option stands for.
pub open spec fn playlist_url(c: TvCatalogV, option: Seq<char>) -> Option<Seq<char>> {
    if c.categories.contains(option) {
        Some("https://iptv-org.github.io/iptv/categories/"@ + lowercase(option) + ".m3u"@)
    } else {
        match code_of(c.languages, option) {
            Some(code) => Some("https://iptv-org.github.io/iptv/languages/"@ + code + ".m3u"@),
            None => match code_of(c.countries, option) {
                Some(code) => Some("https://iptv-org.github.io/iptv/countries/"@ + code + ".m3u"@),
                None => None,
            },
        }
    }
}

/// The addresses of the playlists that options stand for.
pub open spec fn playlist_urls(c: TvCatalogV, options: Seq<Seq<char>>) -> Seq<Seq<char>>
    decreases options.len(),
{
    if options.len() == 0 {
        Seq::empty()
    } else {
        match playlist_url(c, options.last()) {
            Some(url) => playlist_urls(c, options.drop_last()).push(url),
            None => playlist_urls(c, options.drop_last()),
        }
    }
}

/// The address of the playlist that an option stands for.
fn find_playlist(c: &TvCatalog, option: &str) -> (r: Option<String>)
    ensures
        text_opt(r) == playlist_url(c@, option@),
{
    if holds_entry(&c.categories, option) {
        let low = to_lowercase(option);
        Some(cat3("https://iptv-org.github.io/iptv/categories/", low.as_str(), ".m3u"))
    } else {
        match find_code(&c.languages, option) {
            Some(code) => Some(
                cat3("https://iptv-org.github.io/iptv/languages/", code.as_str(), ".m3u"),
            ),
            None => match find_code(&c.countries, option) {
                Some(code) => Some(
                    cat3("https://iptv-org.github.io/iptv/countries/", code.as_str(), ".m3u"),
                ),
                None => None,
            },
        }
    }
}

/// The addresses of the playlists that options stand for.
pub fn find_playlists(c: &TvCatalog, options: &Vec<String>) -> (r: Vec<String>)
    ensures
        texts(r@) == playlist_urls(c@, texts(options@)),
{
    let ghost list = texts(options@);
    let mut r: Vec<String> = Vec::new();
    let mut i: usize = 0;
    proof {
        assert(list.take(0) =~= Seq::empty());
        assert(texts(r@) =~= Seq::empty());
    }
    while i < options.len()
        invariant
            i <= options@.len(),
            list == texts(options@),
            texts(r@) == playlist_urls(c@, list.take(i as int)),
        decreases options@.len() - i,
    {
        let ghost done = texts(r@);
        proof {
            assert(list.take(i + 1).drop_last() =~= list.take(i as int));
            assert(list.take(i + 1).last() == options@[i as int]@);
        }
        match find_playlist(c, options[i].as_str()) {
            Some(url) => {
                r.push(url);
                assert(texts(r@) =~= done.push(url@));
            },
            None => {},
        }
        i = i + 1;
    }
    assert(list.take(list.len() as int) =~= list);
    r
}

/// A list without a text.
pub open spec fn without_entry(v: Seq<Seq<char>>, s: Seq<char>) -> Seq<Seq<char>>
    decreases v.len(),
{
    if v.len() == 0 {
        Seq::empty()
    } else if v.last() == s {
        without_entry(v.drop_last(), s)
    } else {
        without_entry(v.drop_last(), s).push(v.last())
    }
}

/// Options with one more, or without it if it is among them.
pub open spec fn option_toggled(v: Seq<Seq<char>>, s: Seq<char>) -> Seq<Seq<char>> {
    if v.contains(s) {
        without_entry(v, s)
    } else {
        v.push(s)
    }
}

/// What is left once a text is taken out of a list.
proof fn lemma_without_entry(v: Seq<Seq<char>>, s: Seq<char>)
    ensures
        !without_entry(v, s).contains(s),
        !v.contains(s) ==> without_entry(v, s) == v,
    decreases v.len(),
{
    if v.len() > 0 {
        let t = v.drop_last();
        lemma_without_entry(t, s);
        if !v.contains(s) {
            assert(v.last() != s) by {
                assert(v[v.len() - 1] == v.last());
            }
            assert forall|i: int| 0 <= i < t.len() implies t[i] != s by {
                assert(t[i] == v[i]);
            }
            assert(without_entry(v, s) =~= v);
        }
        let w = without_entry(v, s);
        assert forall|i: int| 0 <= i < w.len() implies w[i] != s by {
            if v.last() != s {
                if i < w.len() - 1 {
                    assert(w[i] == without_entry(t, s)[i]);
                }
            }
        }
    } else {
        assert(v =~= Seq::empty());
    }
}

/// Choosing an option twice leaves the options as they were, if it was not among them.
pub proof fn law_option_toggled_twice(v: Seq<Seq<char>>, s: Seq<char>)
    requires
        !v.contains(s),
    ensures
        option_toggled(v, s).contains(s),
        option_toggled(option_toggled(v, s), s) == v,
{
    let w = v.push(s);
    assert(w[w.len() - 1] == s);
    assert(w.drop_last() =~= v);
    lemma_without_entry(v, s);
}

/// Options with one more, or without it if it is among them.
fn toggle_option(v: &Vec<String>, s: &str) -> (r: Vec<String>)
    ensures
        texts(r@) == option_toggled(texts(v@), s@),
{
    if holds_entry(v, s) {
        let ghost list = texts(v@);
        let mut r: Vec<String> = Vec::new();
        let mut i: usize = 0;
        proof {
            assert(list.take(0) =~= Seq::empty());
            assert(texts(r@) =~= Seq::empty());
        }
        while i < v.len()
            invariant
                i <= v@.len(),
                list == texts(v@),
                texts(r@) == without_entry(list.take(i as int), s@),
            decreases v@.len() - i,
        {
            let ghost done = texts(r@);
            proof {
                assert(list.take(i + 1).drop_last() =~= list.take(i as int));
                assert(list.take(i + 1).last() == v@[i as int]@);
            }
            if !same_text(v[i].as_str(), s) {
                let x = copy_text(v[i].as_str());
                r.push(x);
                assert(texts(r@) =~= done.push(x@));
            }
            i = i + 1;
        }
        assert(list.take(list.len() as int) =~= list);
        r
    } else {
        let mut r = copy_texts(v);
        let ghost done = texts(r@);
        let x = copy_text(s);
        r.push(x);
        assert(texts(r@) =~= done.push(x@));
        r
    }
}

impl AppV {
    /// With options offered, the first marked.
    pub open spec fn options_offered(self, step: usize, options: Seq<Seq<char>>) -> AppV {
        AppV {
            ui: Ui { tv_wizard_step: step, tv_wizard_selected_idx: 0, ..self.ui },
            tv_wizard_options: options,
            ..self
        }
    }

    /// With the wizard shown or hidden.
    pub open spec fn wizard_set(self, on: bool) -> AppV {
        AppV { ui: Ui { tv_config_popup: on, ..self.ui }, ..self }
    }

    /// With an option marked.
    pub open spec fn option_marked(self, i: usize) -> AppV {
        AppV { ui: Ui { tv_wizard_selected_idx: i, ..self.ui }, ..self }
    }

    /// The option above the marked one; the last is above the first.
    pub open spec fn option_above(self) -> usize {
        if self.ui.tv_wizard_selected_idx > 0 {
            (self.ui.tv_wizard_selected_idx - 1) as usize
        } else if self.tv_wizard_options.len() == 0 {
            0
        } else {
            (self.tv_wizard_options.len() - 1) as usize
        }
    }

    /// The option below the marked one; the first is below the last.
    pub open spec fn option_below(self) -> usize {
        if self.ui.tv_wizard_selected_idx < self.tv_wizard_options.len() - 1 {
            (self.ui.tv_wizard_selected_idx + 1) as usize
        } else {
            0
        }
    }

    /// The option that is marked.
    pub open spec fn marked_option(self) -> Option<Seq<char>> {
        if self.ui.tv_wizard_selected_idx < self.tv_wizard_options.len() {
            Some(self.tv_wizard_options[self.ui.tv_wizard_selected_idx as int])
        } else {
            None
        }
    }

    /// The options of a grouping.
    pub open spec fn options_of(self, grouping: Seq<char>) -> Seq<Seq<char>> {
        if grouping == "Grouped by category"@ {
            self.tv_catalog.categories
        } else if grouping == "Grouped by language"@ {
            names(self.tv_catalog.languages)
        } else {
            names(self.tv_catalog.countries)
        }
    }

    /// With the playlists chosen being loaded.
    pub open spec fn playlists_asked(self) -> AppV {
        AppV {
            ui: Ui { tv_config_popup: false, is_loading: true, ..self.ui },
            ..self
        }.say("Fetching TV channels..."@, 150).ask(
            EffectOf::FetchTvChannels(playlist_urls(self.tv_catalog, self.tv_wizard_selections)),
        )
    }

    /// After the blank was pressed in the wizard.
    pub open spec fn option_chosen(self) -> AppV {
        match self.marked_option() {
            Some(s) => AppV {
                tv_wizard_selections: option_toggled(self.tv_wizard_selections, s),
                ..self
            },
            None => self,
        }
    }

    /// After the first step of the wizard.
    pub open spec fn grouping_chosen(self) -> AppV {
        match self.marked_option() {
            Some(s) => self.options_offered(1, self.options_of(s)),
            None => self,
        }
    }

    /// After a key in the wizard.
    #[verifier::opaque]
    pub open spec fn wizard_key(self, code: KeyCode) -> AppV {
        match code {
            KeyCode::Esc => if self.ui.tv_wizard_step == 1 {
                self.options_offered(0, groupings())
            } else {
                self.wizard_set(false)
            },
            KeyCode::Up => self.option_marked(self.option_above()),
            KeyCode::Down => self.option_marked(self.option_below()),
            KeyCode::Enter => if self.ui.tv_wizard_step == 0 {
                self.grouping_chosen()
            } else {
                self.playlists_asked()
            },
            KeyCode::Char(c) => if c == ' ' && self.ui.tv_wizard_step == 1 {
                self.option_chosen()
            } else {
                self
            },
            _ => self,
        }
    }
}

impl App {
    /// Offers options, the first marked.
    fn offer_options(&mut self, step: usize, options: Vec<String>)
        ensures
            final(self)@ == old(self)@.options_offered(step, texts(options@)),
    {
        self.ui = Ui { tv_wizard_step: step, tv_wizard_selected_idx: 0, ..self.ui };
        self.tv_wizard_options = options;
    }

    /// Shows or hides the wizard.
    fn set_wizard(&mut self, on: bool)
        ensures
            final(self)@ == old(self)@.wizard_set(on),
    {
        self.ui = Ui { tv_config_popup: on, ..self.ui };
    }

    /// Marks an option.
    fn mark_option(&mut self, i: usize)
        ensures
            final(self)@ == old(self)@.option_marked(i),
    {
        self.ui = Ui { tv_wizard_selected_idx: i, ..self.ui };
    }

    /// The option above the marked one.
    fn option_above(&self) -> (r: usize)
        ensures
            r == self@.option_above(),
    {
        if self.ui.tv_wizard_selected_idx > 0 {
            self.ui.tv_wizard_selected_idx - 1
        } else if self.tv_wizard_options.len() == 0 {
            0
        } else {
            self.tv_wizard_options.len() - 1
        }
    }

    /// The option below the marked one.
    fn option_below(&self) -> (r: usize)
        ensures
            r == self@.option_below(),
    {
        let n: usize = self.tv_wizard_options.len();
        if n > 0 && self.ui.tv_wizard_selected_idx < n - 1 {
            self.ui.tv_wizard_selected_idx + 1
        } else {
            0
        }
    }

    /// The option that is marked.
    fn marked_option(&self) -> (r: Option<String>)
        ensures
            text_opt(r) == self@.marked_option(),
    {
        let i: usize = self.ui.tv_wizard_selected_idx;
        if i < self.tv_wizard_options.len() {
            Some(copy_text(self.tv_wizard_options[i].as_str()))
        } else {
            None
        }
    }

    /// The options of a grouping.
    fn options_of(&self, grouping: &str) -> (r: Vec<String>)
        ensures
            texts(r@) == self@.options_of(grouping@),
    {
        if same_text(grouping, "Grouped by category") {
            copy_texts(&self.tv_catalog.categories)
        } else if same_text(grouping, "Grouped by language") {
            name_list(&self.tv_catalog.languages)
        } else {
            name_list(&self.tv_catalog.countries)
        }
    }

    /// Has the playlists chosen loaded.
    fn ask_playlists(&mut self)
        ensures
            final(self)@ == old(self)@.playlists_asked(),
    {
        let urls = find_playlists(&self.tv_catalog, &self.tv_wizard_selections);
        self.ui = Ui { tv_config_popup: false, is_loading: true, ..self.ui };
        self.say("Fetching TV channels...", 150);
        self.ask(EffectOf::FetchTvChannels(urls));
    }

    /// The blank is pressed in the wizard.
    fn choose_option(&mut self)
        ensures
            final(self)@ == old(self)@.option_chosen(),
    {
        match self.marked_option() {
            Some(s) => {
                self.tv_wizard_selections = toggle_option(&self.tv_wizard_selections, s.as_str());
            },
            None => {},
        }
    }

    /// The first step of the wizard is done.
    fn choose_grouping(&mut self)
        ensures
            final(self)@ == old(self)@.grouping_chosen(),
    {
        match self.marked_option() {
            Some(s) => {
                let options = self.options_of(s.as_str());
                self.offer_options(1, options);
            },
            None => {},
        }
    }

    /// A key in the wizard.
    fn press_in_wizard(&mut self, code: KeyCode)
        ensures
            final(self)@ == old(self)@.wizard_key(code),
            final(self)@.steady(old(self)@),
    {
        proof {
            reveal(AppV::wizard_key);
        }
        match code {
            KeyCode::Esc => {
                if self.ui.tv_wizard_step == 1 {
                    self.offer_options(0, grouping_list());
                } else {
                    self.set_wizard(false);
                }
            },
            KeyCode::Up => {
                let i = self.option_above();
                self.mark_option(i);
            },
            KeyCode::Down => {
                let i = self.option_below();
                self.mark_option(i);
            },
            KeyCode::Enter => {
                if self.ui.tv_wizard_step == 0 {
                    self.choose_grouping();
                } else {
                    self.ask_playlists();
                }
            },
            KeyCode::Char(c) => {
                if c == ' ' && self.ui.tv_wizard_step == 1 {
                    self.choose_option();
                }
            },
            _ => {},
        }
    }
}

// ---------------------------------------------------------------------------
// The home screen
// ---------------------------------------------------------------------------

impl AppV {
    /// Whether a query is entered again: there are no results, and the status says that the last
    /// search found none or failed.
    pub open spec fn retries(self) -> bool {
        &&& self.search_results.len() == 0
        &&& trim(self.search_query, CharClass::White).len() > 0
        &&& (begins(lower_text(self.status_message), "no matches"@) || has(
            lower_text(self.status_message),
            "search failed"@,
        ))
    }

    /// The action that a key on the home screen stands for.
    pub open spec fn home_action(self, key: Key) -> Option<ActionV> {
        match key.code {
            KeyCode::Esc => Some(ActionOf::GoBack),
            KeyCode::Up => Some(ActionOf::MoveUp),
            KeyCode::Down => Some(ActionOf::MoveDown),
            KeyCode::Left => Some(ActionOf::MoveLeft),
            KeyCode::Right => Some(ActionOf::MoveRight),
            KeyCode::Enter => Some(
                if self.retries() {
                    ActionOf::Search {
                        query: trim(self.search_query, CharClass::White),
                        force_refresh: true,
                    }
                } else {
                    ActionOf::Submit
                },
            ),
            KeyCode::Char(c) => if c == '?' {
                Some(ActionOf::ToggleHelp)
            } else if c == 'q' {
                Some(ActionOf::Quit)
            } else if c == 'r' && (key.ctrl || key.other) {
                Some(ActionOf::Refresh)
            } else {
                None
            },
            _ => None,
        }
    }

    /// With a player to be picked for the channel that is marked.
    pub open spec fn channel_opened(self) -> AppV {
        match self.ui.search_selected {
            Some(i) => if i < self.search_results.len() {
                self.send(ActionOf::ShowPlayerPicker(self.search_results[i as int].id, None))
            } else {
                self
            },
            None => self,
        }
    }

    /// With the search field entered by typing a character.
    pub open spec fn field_entered(self, c: char) -> AppV {
        AppV {
            ui: Ui {
                input_mode: InputMode::Editing,
                suggest_index: None,
                last_search_edit: self.ui.now,
                ..self.ui
            },
            search_query: self.search_query.push(c),
            search_suggestions: Seq::empty(),
            ..self
        }.say(""@, 150)
    }

    /// After a key on the home screen.
    #[verifier::opaque]
    pub open spec fn home_key(self, key: Key) -> AppV {
        match self.home_action(key) {
            Some(a) => self.send(a),
            None => match key.code {
                KeyCode::Char(c) => if (c == 'o' || c == 'O') && self.ui.is_tv_mode {
                    self.channel_opened()
                } else if !key.ctrl && !key.other {
                    self.field_entered(c)
                } else {
                    self
                },
                _ => self,
            },
        }
    }
}

impl App {
    /// Whether a query is entered again.
    fn retries(&self) -> (r: bool)
        ensures
            r == self@.retries(),
    {
        let query = self.typed_query();
        let status = to_lower(self.status_message.as_str());
        self.search_results.len() == 0 && !is_blank(query.as_str()) && (begins_with(
            status.as_str(),
            "no matches",
        ) || holds_text(status.as_str(), "search failed"))
    }

    /// The action that a key on the home screen stands for.
    fn home_action(&self, key: Key) -> (r: Option<Action>)
        ensures
            match r {
                Some(a) => self@.home_action(key) == Some(a@),
                None => self@.home_action(key) is None,
            },
    {
        match key.code {
            KeyCode::Esc => Some(ActionOf::GoBack),
            KeyCode::Up => Some(ActionOf::MoveUp),
            KeyCode::Down => Some(ActionOf::MoveDown),
            KeyCode::Left => Some(ActionOf::MoveLeft),
            KeyCode::Right => Some(ActionOf::MoveRight),
            KeyCode::Enter => if self.retries() {
                Some(ActionOf::Search { query: self.typed_query(), force_refresh: true })
            } else {
                Some(ActionOf::Submit)
            },
            KeyCode::Char(c) => if c == '?' {
                Some(ActionOf::ToggleHelp)
            } else if c == 'q' {
                Some(ActionOf::Quit)
            } else if c == 'r' && (key.ctrl || key.other) {
                Some(ActionOf::Refresh)
            } else {
                None
            },
            _ => None,
        }
    }

    /// The identifier of the result that is marked.
    pub fn marked_result_id(&self) -> (r: Option<String>)
        ensures
            text_opt(r) == (match self@.ui.search_selected {
                Some(i) => if i < self@.search_results.len() {
                    Some(self@.search_results[i as int].id)
                } else {
                    None
                },
                None => None,
            }),
    {
        match self.ui.search_selected {
            Some(i) => if i < self.search_results.len() {
                Some(copy_text(self.search_results[i].id.as_str()))
            } else {
                None
            },
            None => None,
        }
    }

    /// Has a player picked for the channel that is marked.
    fn open_channel(&mut self)
        ensures
            final(self)@ == old(self)@.channel_opened(),
    {
        match self.marked_result_id() {
            Some(id) => self.send(ActionOf::ShowPlayerPicker(id, None)),
            None => {},
        }
    }

    /// Enters the search field by typing a character.
    fn enter_field(&mut self, c: char)
        ensures
            final(self)@ == old(self)@.field_entered(c),
    {
        let text = self.longer_query(c);
        self.ui = Ui {
            input_mode: InputMode::Editing,
            suggest_index: None,
            last_search_edit: self.ui.now,
            ..self.ui
        };
        self.search_query = text;
        self.search_suggestions = Vec::new();
        assert(texts(self.search_suggestions@) =~= Seq::empty());
        self.say("", 150);
    }

    /// A key on the home screen.
    fn press_at_home(&mut self, key: Key)
        ensures
            final(self)@ == old(self)@.home_key(key),
            final(self)@.steady(old(self)@),
    {
        proof {
            reveal(AppV::home_key);
        }
        match self.home_action(key) {
            Some(a) => self.send(a),
            None => match key.code {
                KeyCode::Char(c) => {
                    if (c == 'o' || c == 'O') && self.ui.is_tv_mode {
                        self.open_channel();
                    } else if !key.ctrl && !key.other {
                        self.enter_field(c);
                    }
                },
                _ => {},
            },
        }
    }
}

// ---------------------------------------------------------------------------
// The details screen
// ---------------------------------------------------------------------------

impl AppV {
    /// Whether a download has to be confirmed.
    pub open spec fn confirming(self) -> bool {
        self.ui.show_season_download_confirm || self.ui.show_episode_download_confirm
    }

    /// The action that confirms a download.
    pub open spec fn confirmation(self) -> ActionV {
        if self.ui.show_season_download_confirm {
            ActionOf::ConfirmDownloadSeason
        } else {
            ActionOf::ConfirmDownloadEpisode
        }
    }

    /// Whether yes is marked where a download has to be confirmed.
    pub open spec fn yes_marked(self) -> bool {
        if self.ui.show_season_download_confirm {
            self.ui.season_download_confirm_yes_selected
        } else {
            self.ui.episode_download_confirm_yes_selected
        }
    }

    /// With the confirmation dismissed.
    #[verifier::opaque]
    pub open spec fn dismissed(self) -> AppV {
        if self.ui.show_season_download_confirm {
            AppV { ui: Ui { show_season_download_confirm: false, ..self.ui }, ..self }
        } else {
            AppV { ui: Ui { show_episode_download_confirm: false, ..self.ui }, ..self }
        }
    }

    /// With yes or no marked.
    #[verifier::opaque]
    pub open spec fn answer_marked(self, yes: bool) -> AppV {
        if self.ui.show_season_download_confirm {
            AppV { ui: Ui { season_download_confirm_yes_selected: yes, ..self.ui }, ..self }
        } else if self.ui.show_episode_download_confirm {
            AppV { ui: Ui { episode_download_confirm_yes_selected: yes, ..self.ui }, ..self }
        } else {
            self
        }
    }

    /// The action that a character on the details screen stands for.
    pub open spec fn details_char_action(self, c: char) -> Option<ActionV> {
        let free = !self.ui.subtitle_popup && !self.ui.player_picker_popup;
        if c == 'y' || c == 'Y' {
            if self.confirming() {
                Some(self.confirmation())
            } else {
                None
            }
        } else if c == 'q' {
            Some(ActionOf::Quit)
        } else if c == 'o' || c == 'O' {
            if free && self.ui.details_pane == DetailsPane::Streams {
                Some(ActionOf::PlayStream(true))
            } else {
                None
            }
        } else if c == 'd' || c == 'D' {
            if !free {
                None
            } else if self.ui.details_pane != DetailsPane::Seasons {
                Some(ActionOf::PromptDownloadEpisode)
            } else if self.available_seasons.len() > 0 {
                Some(ActionOf::PromptDownloadSeason)
            } else {
                None
            }
        } else if c == 'r' {
            Some(ActionOf::Refresh)
        } else if c == '?' {
            Some(ActionOf::ToggleHelp)
        } else if c == 'b' {
            Some(ActionOf::GoBack)
        } else {
            None
        }
    }

    /// After Enter on the details screen.
    #[verifier::opaque]
    pub open spec fn details_entered(self, shift: bool) -> AppV {
        if self.confirming() {
            if self.yes_marked() {
                self.send(self.confirmation())
            } else {
                self.dismissed()
            }
        } else if self.ui.subtitle_popup || self.ui.player_picker_popup
            || self.ui.is_download_subtitle_popup {
            self.send(ActionOf::Submit)
        } else {
            match self.ui.details_pane {
                DetailsPane::Streams => self.send(ActionOf::PlayStream(shift)),
                DetailsPane::Seasons => self.episode_triggered(),
                DetailsPane::Episodes => self.episode_triggered(),
                DetailsPane::Languages => self.send(
                    ActionOf::SelectLanguage(AppV::marked(self.ui.language_selected)),
                ),
            }
        }
    }

    /// After a character was typed on the details screen.
    #[verifier::opaque]
    pub open spec fn details_char(self, c: char) -> AppV {
        if c == 'n' || c == 'N' {
            if self.confirming() {
                self.dismissed()
            } else {
                self
            }
        } else {
            match self.details_char_action(c) {
                Some(a) => self.send(a),
                None => self,
            }
        }
    }

    /// After a key on the details screen.
    #[verifier::opaque]
    pub open spec fn details_key(self, key: Key) -> AppV {
        match key.code {
            KeyCode::Tab => self.send(ActionOf::TabPane),
            KeyCode::BackTab => self.send(ActionOf::BackTabPane),
            KeyCode::Esc => if self.confirming() {
                self.dismissed()
            } else {
                self.send(ActionOf::GoBack)
            },
            KeyCode::Up => self.send(ActionOf::MoveUp),
            KeyCode::Down => self.send(ActionOf::MoveDown),
            KeyCode::Left => self.answer_marked(true),
            KeyCode::Right => self.answer_marked(false),
            KeyCode::Enter => self.details_entered(key.shift),
            KeyCode::Char(c) => self.details_char(c),
            _ => self,
        }
    }
}

impl App {
    /// Whether a download has to be confirmed.
    fn confirming(&self) -> (r: bool)
        ensures
            r == self@.confirming(),
    {
        self.ui.show_season_download_confirm || self.ui.show_episode_download_confirm
    }

    /// The action that confirms a download.
    fn confirmation(&self) -> (r: Action)
        ensures
            r@ == self@.confirmation(),
    {
        if self.ui.show_season_download_confirm {
            ActionOf::ConfirmDownloadSeason
        } else {
            ActionOf::ConfirmDownloadEpisode
        }
    }

    /// Whether yes is marked where a download has to be confirmed.
    fn yes_marked(&self) -> (r: bool)
        ensures
            r == self@.yes_marked(),
    {
        if self.ui.show_season_download_confirm {
            self.ui.season_download_confirm_yes_selected
        } else {
            self.ui.episode_download_confirm_yes_selected
        }
    }

    /// Dismisses the confirmation.
    fn dismiss(&mut self)
        ensures
            final(self)@ == old(self)@.dismissed(),
    {
        proof {
            reveal(AppV::dismissed);
        }
        if self.ui.show_season_download_confirm {
            self.ui = Ui { show_season_download_confirm: false, ..self.ui };
        } else {
            self.ui = Ui { show_episode_download_confirm: false, ..self.ui };
        }
    }

    /// Marks yes or no.
    fn mark_answer(&mut self, yes: bool)
        ensures
            final(self)@ == old(self)@.answer_marked(yes),
    {
        proof {
            reveal(AppV::answer_marked);
        }
        if self.ui.show_season_download_confirm {
            self.ui = Ui { season_download_confirm_yes_selected: yes, ..self.ui };
        } else if self.ui.show_episode_download_confirm {
            self.ui = Ui { episode_download_confirm_yes_selected: yes, ..self.ui };
        }
    }

    /// The action that a character on the details screen stands for.
    fn details_char_action(&self, c: char) -> (r: Option<Action>)
        ensures
            match r {
                Some(a) => self@.details_char_action(c) == Some(a@),
                None => self@.details_char_action(c) is None,
            },
    {
        let free = !self.ui.subtitle_popup && !self.ui.player_picker_popup;
        if c == 'y' || c == 'Y' {
            if self.confirming() {
                Some(self.confirmation())
            } else {
                None
            }
        } else if c == 'q' {
            Some(ActionOf::Quit)
        } else if c == 'o' || c == 'O' {
            if free && self.ui.details_pane == DetailsPane::Streams {
                Some(ActionOf::PlayStream(true))
            } else {
                None
            }
        } else if c == 'd' || c == 'D' {
            if !free {
                None
            } else if self.ui.details_pane != DetailsPane::Seasons {
                Some(ActionOf::PromptDownloadEpisode)
            } else if self.available_seasons.len() > 0 {
                Some(ActionOf::PromptDownloadSeason)
            } else {
                None
            }
        } else if c == 'r' {
            Some(ActionOf::Refresh)
        } else if c == '?' {
            Some(ActionOf::ToggleHelp)
        } else if c == 'b' {
            Some(ActionOf::GoBack)
        } else {
            None
        }
    }

    /// Enter on the details screen.
    fn enter_in_details(&mut self, shift: bool)
        requires
            AppV::marked(old(self)@.ui.episode_selected) < usize::MAX,
        ensures
            final(self)@ == old(self)@.details_entered(shift),
    {
        proof {
            reveal(AppV::details_entered);
        }
        if self.confirming() {
            if self.yes_marked() {
                let a = self.confirmation();
                self.send(a);
            } else {
                self.dismiss();
            }
        } else if self.ui.subtitle_popup || self.ui.player_picker_popup
            || self.ui.is_download_subtitle_popup {
            self.send(ActionOf::Submit);
        } else {
            match self.ui.details_pane {
                DetailsPane::Streams => self.send(ActionOf::PlayStream(shift)),
                DetailsPane::Seasons => self.trigger_episode_fetch(),
                DetailsPane::Episodes => self.trigger_episode_fetch(),
                DetailsPane::Languages => {
                    let i: usize = marked(self.ui.language_selected);
                    self.send(ActionOf::SelectLanguage(i));
                },
            }
        }
    }

    /// A character is typed on the details screen.
    fn type_in_details(&mut self, c: char)
        ensures
            final(self)@ == old(self)@.details_char(c),
    {
        proof {
            reveal(AppV::details_char);
        }
        if c == 'n' || c == 'N' {
            if self.confirming() {
                self.dismiss();
            }
        } else {
            match self.details_char_action(c) {
                Some(a) => self.send(a),
                None => {},
            }
        }
    }

    /// A key on the details screen.
    fn press_in_details(&mut self, key: Key)
        requires
            AppV::marked(old(self)@.ui.episode_selected) < usize::MAX,
        ensures
            final(self)@ == old(self)@.details_key(key),
    {
        proof {
            reveal(AppV::details_key);
        }
        match key.code {
            KeyCode::Tab => self.send(ActionOf::TabPane),
            KeyCode::BackTab => self.send(ActionOf::BackTabPane),
            KeyCode::Esc => {
                if self.confirming() {
                    self.dismiss();
                } else {
                    self.send(ActionOf::GoBack);
                }
            },
            KeyCode::Up => self.send(ActionOf::MoveUp),
            KeyCode::Down => self.send(ActionOf::MoveDown),
            KeyCode::Left => self.mark_answer(true),
            KeyCode::Right => self.mark_answer(false),
            KeyCode::Enter => self.enter_in_details(key.shift),
            KeyCode::Char(c) => self.type_in_details(c),
            _ => {},
        }
    }
}

// ---------------------------------------------------------------------------
// All keys
// ---------------------------------------------------------------------------

/// Whether a key is a character together with control.
pub open spec fn is_ctrl(key: Key, c: char) -> bool {
    key.ctrl && key.code == KeyCode::Char(c)
}

impl AppV {
    /// After a key that has no meaning everywhere.
    #[verifier::opaque]
    pub open spec fn screen_key(self, key: Key) -> AppV {
        match self.ui.input_mode {
            InputMode::Editing => self.field_key(key.code),
            InputMode::Normal => match self.ui.active_screen {
                Screen::Startup => self,
                Screen::Home => if self.ui.tv_config_popup {
                    self.wizard_key(key.code)
                } else {
                    self.home_key(key)
                },
                Screen::Details => self.details_key(key),
            },
        }
    }

    /// After a key was pressed.
    pub open spec fn key_pressed(self, key: Key) -> AppV {
        if is_ctrl(key, 'c') {
            self.send(ActionOf::Quit)
        } else if is_ctrl(key, 't') {
            self.send(ActionOf::ToggleTvMode)
        } else if is_ctrl(key, 'p') {
            self.provider_switched(self.ui.active_provider.next())
        } else if (key.code == KeyCode::Char('x') || key.code == KeyCode::Char('X'))
            && self.ui.download_progress is Some {
            self.send(ActionOf::CancelDownload)
        } else if key.code == KeyCode::F(1) {
            self.send(ActionOf::ToggleHelp)
        } else {
            self.screen_key(key)
        }
    }
}

/// A key in the search field changes neither the provider nor the queue of downloads.
proof fn lemma_field_key(m: AppV, code: KeyCode)
    ensures
        m.field_key(code).steady(m),
{
    reveal(AppV::field_key);
}

/// Answering a question changes neither the provider nor the queue of downloads.
proof fn lemma_dismissed(m: AppV)
    ensures
        m.dismissed().steady(m),
        m.answer_marked(true).steady(m),
        m.answer_marked(false).steady(m),
{
    reveal(AppV::dismissed);
    reveal(AppV::answer_marked);
}

/// Having an episode's streams found changes neither the provider nor the queue of downloads.
proof fn lemma_episode_triggered(m: AppV)
    ensures
        m.episode_triggered().steady(m),
{
}

/// Choosing on the details screen changes neither the provider nor the queue of downloads.
proof fn lemma_details_entered(m: AppV, shift: bool)
    ensures
        m.details_entered(shift).steady(m),
{
    reveal(AppV::details_entered);
    lemma_dismissed(m);
    lemma_episode_triggered(m);
}

/// A character typed on the details screen changes neither the provider nor the queue of downloads.
proof fn lemma_details_char(m: AppV, c: char)
    ensures
        m.details_char(c).steady(m),
{
    reveal(AppV::details_char);
    lemma_dismissed(m);
}

/// A key on the details screen changes neither the provider nor the queue of downloads.
proof fn lemma_details_key(m: AppV, key: Key)
    ensures
        m.details_key(key).steady(m),
{
    reveal(AppV::details_key);
    lemma_dismissed(m);
    lemma_details_entered(m, key.shift);
    if let KeyCode::Char(c) = key.code {
        lemma_details_char(m, c);
    }
}

impl App {
    /// A key that has no meaning everywhere.
    fn press_on_screen(&mut self, key: Key)
        requires
            AppV::marked(old(self)@.ui.episode_selected) < usize::MAX,
            old(self)@.ui.suggest_index != Some(usize::MAX),
        ensures
            final(self)@ == old(self)@.screen_key(key),
            final(self)@.steady(old(self)@),
    {
        proof {
            reveal(AppV::screen_key);
            lemma_field_key(self@, key.code);
            lemma_details_key(self@, key);
        }
        match self.ui.input_mode {
            InputMode::Editing => self.press_in_field(key.code),
            InputMode::Normal => match self.ui.active_screen {
                Screen::Startup => {},
                Screen::Home => {
                    if self.ui.tv_config_popup {
                        self.press_in_wizard(key.code);
                    } else {
                        self.press_at_home(key);
                    }
                },
                Screen::Details => self.press_in_details(key),
            },
        }
    }

    /// A key is pressed. The result says whether the program ends at once.
    pub fn press(&mut self, key: Key) -> (quit: bool)
        requires
            AppV::marked(old(self)@.ui.episode_selected) < usize::MAX,
            old(self)@.ui.suggest_index != Some(usize::MAX),
        ensures
            final(self)@ == old(self)@.key_pressed(key),
            quit == is_ctrl(key, 'c'),
            final(self)@.queue() == old(self)@.queue(),
            !is_ctrl(key, 'p') ==> final(self)@.context() == old(self)@.context(),
    {
        if key.ctrl && key.code == KeyCode::Char('c') {
            self.send(ActionOf::Quit);
            return true;
        }
        if key.ctrl && key.code == KeyCode::Char('t') {
            self.send(ActionOf::ToggleTvMode);
        } else if key.ctrl && key.code == KeyCode::Char('p') {
            self.cycle_provider();
        } else if (key.code == KeyCode::Char('x') || key.code == KeyCode::Char('X'))
            && self.ui.download_progress.is_some() {
            self.send(ActionOf::CancelDownload);
        } else if key.code == KeyCode::F(1) {
            self.send(ActionOf::ToggleHelp);
        } else {
            self.press_on_screen(key);
        }
        false
    }
}

/// On the home screen every character but `q` and the question mark, typed without control or
/// another modifier than shift, starts a search at once. Television mode, its wizard and a running
/// download have keys of their own.
pub proof fn law_typing_searches(m: AppV, c: char, shift: bool)
    requires
        m.ui.active_screen == Screen::Home,
        m.ui.input_mode == InputMode::Normal,
        !m.ui.tv_config_popup,
        !m.ui.is_tv_mode,
        m.ui.download_progress is None,
        c != 'q',
        c != '?',
    ensures
        m.key_pressed(
            (Key { code: KeyCode::Char(c), ctrl: false, shift, other: false }),
        ) == m.field_entered(c),
        m.field_entered(c).ui.input_mode == InputMode::Editing,
        m.field_entered(c).search_query == m.search_query.push(c),
{
    reveal(AppV::screen_key);
    reveal(AppV::home_key);
}

} // verus!
