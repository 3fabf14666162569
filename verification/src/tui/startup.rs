//! How the application starts, keeps its settings, looks for updates and fits the terminal.
use vstd::prelude::*;
use crate::json::{
    Json, JsonV, get_in, get_of, json_list, json_members, json_opt, json_ref, lemma_json_view, member, text_in,
    text_of_json,
};
use crate::numbers::{decimal, decimal2, decimal2_text, decimal_text};
use crate::providers::iptv_org::m3u::channels;
use crate::providers::models::ProviderKind;
use crate::strings::{begins, begins_with, cat2, cat3, cat5, copy_text, same_text, text_opt, texts};
use crate::tui::app::borrowed;
use crate::tui::details::unprefixed;
use crate::tui::keys::{grouping_list, groupings};
use crate::tui::pool::StreamPool;
use crate::tui::search::text_or;
use crate::tui::state::{
    Action, ActionOf, ActionV, App, AppV, DetailsPane, EffectOf, InputMode, NotificationKind,
    Screen, TvCatalog, TvCatalogV, Ui, effects, number_lists, pairs, results,
};

verus! {

// ---------------------------------------------------------------------------
// Settings
// ---------------------------------------------------------------------------

/// The settings that are kept from one run to the next.
#[derive(Clone, Copy, PartialEq, Eq, Structural, Debug)]
pub struct Settings {
    /// Whether updates are looked for at the start.
    pub auto_update: bool,
    /// When updates were last looked for, in seconds.
    pub last_update_check: u64,
    /// The provider in use.
    pub active_provider: ProviderKind,
}

/// The settings of a first run.
pub open spec fn first_settings() -> Settings {
    Settings {
        auto_update: true,
        last_update_check: 0,
        active_provider: ProviderKind::MovieBox,
    }
}

/// The settings that a value gives; those of a first run where it gives none.
pub open spec fn settings_in(config: Option<JsonV>) -> Settings {
    Settings {
        auto_update: match get_in(config, "auto_update"@) {
            Some(v) => match v.truth() {
                Some(b) => b,
                None => first_settings().auto_update,
            },
            None => first_settings().auto_update,
        },
        last_update_check: match get_in(config, "last_update_check"@) {
            Some(v) => match v.unsigned() {
                Some(n) => n,
                None => first_settings().last_update_check,
            },
            None => first_settings().last_update_check,
        },
        active_provider: if text_in(get_in(config, "active_provider"@)) == Some(
            ProviderKind::FourKHdHub.key(),
        ) {
            ProviderKind::FourKHdHub
        } else {
            first_settings().active_provider
        },
    }
}

/// The value that settings are kept as.
pub open spec fn settings_value(s: Settings) -> JsonV {
    JsonV::Object(
        seq![
            ("active_provider"@, JsonV::Text(s.active_provider.key())),
            ("auto_update"@, JsonV::Bool(s.auto_update)),
            ("last_update_check"@, JsonV::Unsigned(s.last_update_check)),
        ],
    )
}

/// Settings that are kept are read back as they were.
pub proof fn law_settings_read_back(s: Settings)
    ensures
        settings_in(Some(settings_value(s))) == s,
{
    reveal_strlit("active_provider");
    reveal_strlit("auto_update");
    reveal_strlit("last_update_check");
    reveal_strlit("moviebox");
    reveal_strlit("4khdhub");
    assert("active_provider"@.len() != "auto_update"@.len());
    assert("active_provider"@.len() != "last_update_check"@.len());
    assert("auto_update"@.len() != "last_update_check"@.len());
    assert("moviebox"@.len() != "4khdhub"@.len());
    reveal_with_fuel(member, 4);
    let v = settings_value(s)->Object_0;
    assert(v.skip(1)[0] == v[1]);
    assert(v.skip(1).skip(1)[0] == v[2]);
}

/// The settings that a value gives.
pub fn read_settings(config: Option<&Json>) -> (r: Settings)
    ensures
        r == settings_in(json_ref(config)),
{
    let auto_update = match get_of(config, "auto_update") {
        Some(v) => match v.as_truth() {
            Some(b) => b,
            None => true,
        },
        None => true,
    };
    let last_update_check: u64 = match get_of(config, "last_update_check") {
        Some(v) => match v.as_unsigned() {
            Some(n) => n,
            None => 0,
        },
        None => 0,
    };
    let fourk = match text_of_json(get_of(config, "active_provider")) {
        Some(s) => same_text(s.as_str(), ProviderKind::FourKHdHub.cache_key().as_str()),
        None => false,
    };
    Settings {
        auto_update,
        last_update_check,
        active_provider: if fourk {
            ProviderKind::FourKHdHub
        } else {
            ProviderKind::MovieBox
        },
    }
}

impl AppV {
    /// The settings to keep.
    pub open spec fn settings(self) -> Settings {
        Settings {
            auto_update: self.ui.auto_update,
            last_update_check: self.ui.last_update_check,
            active_provider: self.ui.active_provider,
        }
    }
}

/// The plain values at the start.
pub open spec fn first_ui(s: Settings) -> Ui {
    Ui {
        now: 0,
        active_screen: Screen::Startup,
        input_mode: InputMode::Normal,
        details_pane: DetailsPane::Streams,
        active_provider: s.active_provider,
        provider_generation: 0,
        is_homepage_mode: false,
        is_tv_mode: false,
        is_loading: false,
        is_fetching_streams: false,
        auto_update: s.auto_update,
        last_update_check: s.last_update_check,
        manual_update_check: false,
        tick_count: 0,
        status_timer: 0,
        dirty: true,
        clear_terminal_before_draw: false,
        sixel: false,
        image_supported: true,
        image_picker: false,
        poster_rows: 3,
        show_help: false,
        tv_config_popup: false,
        tv_wizard_step: 0,
        tv_wizard_selected_idx: 0,
        player_picker_popup: false,
        subtitle_popup: false,
        is_download_subtitle_popup: false,
        show_season_download_confirm: false,
        season_download_confirm_yes_selected: false,
        show_episode_download_confirm: false,
        episode_download_confirm_yes_selected: false,
        suggest_index: None,
        search_selected: None,
        resource_selected: None,
        season_selected: None,
        episode_selected: None,
        language_selected: None,
        subtitle_selected: None,
        player_picker_selected: None,
        selected_season: 0,
        selected_episode: 0,
        current_page: 1,
        last_search_edit: 0,
        last_episode_nav: 0,
        active_resource_request: 0,
        download_progress: None,
        is_waiting_for_download_stream: false,
        download_queue_total: 0,
        preview_loading: false,
        os_waiting: false,
        subtitle_searching: false,
        language_chosen: false,
        pending_open_with: false,
        visible_items: 0,
        os_enabled: false,
        subdl_enabled: false,
        probe_enabled: false,
        quota: None,
    }
}

/// The plain values at the start.
fn make_first_ui(s: Settings) -> (r: Ui)
    ensures
        r == first_ui(s),
{
    Ui {
        now: 0,
        active_screen: Screen::Startup,
        input_mode: InputMode::Normal,
        details_pane: DetailsPane::Streams,
        active_provider: s.active_provider,
        provider_generation: 0,
        is_homepage_mode: false,
        is_tv_mode: false,
        is_loading: false,
        is_fetching_streams: false,
        auto_update: s.auto_update,
        last_update_check: s.last_update_check,
        manual_update_check: false,
        tick_count: 0,
        status_timer: 0,
        dirty: true,
        clear_terminal_before_draw: false,
        sixel: false,
        image_supported: true,
        image_picker: false,
        poster_rows: 3,
        show_help: false,
        tv_config_popup: false,
        tv_wizard_step: 0,
        tv_wizard_selected_idx: 0,
        player_picker_popup: false,
        subtitle_popup: false,
        is_download_subtitle_popup: false,
        show_season_download_confirm: false,
        season_download_confirm_yes_selected: false,
        show_episode_download_confirm: false,
        episode_download_confirm_yes_selected: false,
        suggest_index: None,
        search_selected: None,
        resource_selected: None,
        season_selected: None,
        episode_selected: None,
        language_selected: None,
        subtitle_selected: None,
        player_picker_selected: None,
        selected_season: 0,
        selected_episode: 0,
        current_page: 1,
        last_search_edit: 0,
        last_episode_nav: 0,
        active_resource_request: 0,
        download_progress: None,
        is_waiting_for_download_stream: false,
        download_queue_total: 0,
        preview_loading: false,
        os_waiting: false,
        subtitle_searching: false,
        language_chosen: false,
        pending_open_with: false,
        visible_items: 0,
        os_enabled: false,
        subdl_enabled: false,
        probe_enabled: false,
        quota: None,
    }
}

/// The application at the start.
pub open spec fn first_app(config: Option<JsonV>, catalog: TvCatalogV) -> AppV {
    AppV {
        ui: first_ui(settings_in(config)),
        status_message: Seq::empty(),
        search_query: Seq::empty(),
        last_suggest_query: Seq::empty(),
        current_tab_id: Seq::empty(),
        active_subject_id: None,
        stream_error: None,
        download_status: None,
        pending_play_link: None,
        player_picker_link: None,
        player_picker_subtitle: None,
        player_picker_playback: None,
        season_subtitle_preference: None,
        subtitle_search_error: None,
        update_available: None,
        search_preview: None,
        selected_details: None,
        selected_resources: None,
        available_seasons: Seq::empty(),
        available_episode_numbers: Seq::empty(),
        search_results: Seq::empty(),
        search_suggestions: Seq::empty(),
        tv_channels: Seq::empty(),
        tv_catalog: catalog,
        tv_wizard_options: groupings(),
        tv_wizard_selections: Seq::empty(),
        subtitle_list: Seq::empty(),
        os_subtitles: Seq::empty(),
        available_players: Seq::empty(),
        download_queue: Seq::empty(),
        stream_pool: Map::empty(),
        pending_episode_fetch: None,
        effects: Seq::empty(),
    }
}

impl App {
    /// The application at the start, with the settings that were kept and the playlists on offer.
    pub fn new(config: Option<Json>, catalog: TvCatalog) -> (r: App)
        ensures
            r@ == first_app(json_opt(config), catalog@),
    {
        let settings = read_settings(borrowed(&config));
        let r = App {
            ui: make_first_ui(settings),
            status_message: String::new(),
            search_query: String::new(),
            last_suggest_query: String::new(),
            current_tab_id: String::new(),
            active_subject_id: None,
            stream_error: None,
            download_status: None,
            pending_play_link: None,
            player_picker_link: None,
            player_picker_subtitle: None,
            player_picker_playback: None,
            season_subtitle_preference: None,
            subtitle_search_error: None,
            update_available: None,
            search_preview: None,
            selected_details: None,
            selected_resources: None,
            available_seasons: Vec::new(),
            available_episode_numbers: Vec::new(),
            search_results: Vec::new(),
            search_suggestions: Vec::new(),
            tv_channels: Vec::new(),
            tv_catalog: catalog,
            tv_wizard_options: grouping_list(),
            tv_wizard_selections: Vec::new(),
            subtitle_list: Vec::new(),
            os_subtitles: Vec::new(),
            available_players: Vec::new(),
            download_queue: Vec::new(),
            stream_pool: StreamPool::new(),
            pending_episode_fetch: None,
            effects: Vec::new(),
        };
        proof {
            assert(json_list(r.available_seasons@) =~= Seq::empty());
            assert(number_lists(r.available_episode_numbers@) =~= Seq::empty());
            assert(results(r.search_results@) =~= Seq::empty());
            assert(texts(r.search_suggestions@) =~= Seq::empty());
            assert(channels(r.tv_channels@) =~= Seq::empty());
            assert(texts(r.tv_wizard_selections@) =~= Seq::empty());
            assert(pairs(r.subtitle_list@) =~= Seq::empty());
            assert(pairs(r.os_subtitles@) =~= Seq::empty());
            assert(r.available_players@ =~= Seq::empty());
            assert(r.download_queue@ =~= Seq::empty());
            assert(effects(r.effects@) =~= Seq::empty());
        }
        r
    }

    /// The value that the settings are kept as.
    pub fn config(&self) -> (r: Json)
        ensures
            r@ == settings_value(self@.settings()),
    {
        let mut v: Vec<(String, Json)> = Vec::new();
        v.push((copy_text("active_provider"), Json::Text(self.ui.active_provider.cache_key())));
        v.push((copy_text("auto_update"), Json::Bool(self.ui.auto_update)));
        v.push((copy_text("last_update_check"), Json::Unsigned(self.ui.last_update_check)));
        let r = Json::Object(v);
        proof {
            lemma_json_view(r);
            assert(json_members(v@) =~= settings_value(self@.settings())->Object_0);
        }
        r
    }
}

// ---------------------------------------------------------------------------
// The start
// ---------------------------------------------------------------------------

/// What the terminal can show of pictures.
#[derive(Clone, Copy, PartialEq, Eq, Structural, Debug)]
pub enum PictureSupport {
    /// It could not be asked.
    Unknown,
    /// Only half blocks.
    HalfBlocks,
    /// Sixels, in cells of a height.
    Sixel(u16),
    /// Pictures of another kind, in cells of a height.
    Other(u16),
}

/// The rows that a poster of 96 pixels takes, at least three.
pub open spec fn rows_for(cell: u16) -> int {
    let rows = (96 + cell - 1) / (cell as int);
    if rows < 3 {
        3
    } else {
        rows
    }
}

impl AppV {
    /// With pictures prepared in cells of a height.
    pub open spec fn pictures_prepared(self, sixel: bool, cell: u16) -> AppV {
        AppV {
            ui: Ui {
                image_picker: true,
                sixel,
                poster_rows: if cell > 0 {
                    rows_for(cell) as u16
                } else {
                    self.ui.poster_rows
                },
                ..self.ui
            },
            ..self
        }
    }

    /// After the terminal was asked what it can show of pictures.
    pub open spec fn pictures_probed(self, support: PictureSupport) -> AppV {
        if self.ui.image_picker || !self.ui.image_supported {
            self
        } else {
            match support {
                PictureSupport::Unknown | PictureSupport::HalfBlocks => AppV {
                    ui: Ui { image_supported: false, ..self.ui },
                    ..self
                },
                PictureSupport::Sixel(h) => self.pictures_prepared(true, h),
                PictureSupport::Other(h) => self.pictures_prepared(false, h),
            }
        }
    }

    /// With updates looked for.
    pub open spec fn update_looked_for(self, now: u64) -> AppV {
        AppV {
            ui: Ui { last_update_check: now, manual_update_check: false, ..self.ui },
            ..self
        }.ask(EffectOf::PersistConfig).send(ActionOf::CheckForUpdates)
    }

    /// After the start, at a time in seconds: the client opens its session, and updates are looked
    /// for if an hour has passed; otherwise the home screen is shown.
    pub open spec fn started(self, now: u64) -> AppV {
        if self.ui.auto_update && now - self.ui.last_update_check > 3600 {
            self.client_opened().update_looked_for(now)
        } else {
            self.client_opened().home_entered()
        }
    }

    /// With the session of the client opened, if it is in use.
    #[verifier::opaque]
    pub open spec fn client_opened(self) -> AppV {
        if self.ui.active_provider == ProviderKind::MovieBox {
            self.ask(EffectOf::InitClient)
        } else {
            self
        }
    }

    /// With the home screen shown.
    pub open spec fn home_entered(self) -> AppV {
        AppV { ui: Ui { active_screen: Screen::Home, ..self.ui }, ..self }
    }
}

impl App {
    /// Prepares pictures in cells of a height.
    fn prepare_pictures(&mut self, sixel: bool, cell: u16)
        ensures
            final(self)@ == old(self)@.pictures_prepared(sixel, cell),
    {
        let rows: u16 = if cell > 0 {
            let n: u32 = (96 + cell as u32 - 1) / cell as u32;
            proof {
                assert(n <= 96) by (nonlinear_arith)
                    requires
                        n == (96 + cell as u32 - 1) / cell as int,
                        1 <= cell,
                ;
            }
            if n < 3 {
                3
            } else {
                n as u16
            }
        } else {
            self.ui.poster_rows
        };
        self.ui = Ui { image_picker: true, sixel, poster_rows: rows, ..self.ui };
    }

    /// The terminal was asked what it can show of pictures.
    pub fn probe_pictures(&mut self, support: PictureSupport)
        ensures
            final(self)@ == old(self)@.pictures_probed(support),
    {
        if self.ui.image_picker || !self.ui.image_supported {
            return ;
        }
        match support {
            PictureSupport::Unknown | PictureSupport::HalfBlocks => {
                self.ui = Ui { image_supported: false, ..self.ui };
            },
            PictureSupport::Sixel(h) => self.prepare_pictures(true, h),
            PictureSupport::Other(h) => self.prepare_pictures(false, h),
        }
    }

    /// Looks for updates.
    fn look_for_update(&mut self, now: u64)
        ensures
            final(self)@ == old(self)@.update_looked_for(now),
    {
        self.ui = Ui { last_update_check: now, manual_update_check: false, ..self.ui };
        self.ask(EffectOf::PersistConfig);
        self.send(ActionOf::CheckForUpdates);
    }

    /// The start, at a time in seconds.
    pub fn start(&mut self, now: u64)
        ensures
            final(self)@ == old(self)@.started(now),
    {
        let due = self.ui.auto_update && now > self.ui.last_update_check && now
            - self.ui.last_update_check > 3600;
        self.open_client();
        if due {
            self.look_for_update(now);
        } else {
            self.enter_home();
        }
    }

    /// Opens the session of the client, if it is in use.
    fn open_client(&mut self)
        ensures
            final(self)@ == old(self)@.client_opened(),
    {
        proof {
            reveal(AppV::client_opened);
        }
        if self.ui.active_provider == ProviderKind::MovieBox {
            self.ask(EffectOf::InitClient);
        }
    }

    /// Shows the home screen.
    fn enter_home(&mut self)
        ensures
            final(self)@ == old(self)@.home_entered(),
    {
        self.ui = Ui { active_screen: Screen::Home, ..self.ui };
    }
}

// ---------------------------------------------------------------------------
// Updates
// ---------------------------------------------------------------------------

impl AppV {
    /// With the update check left.
    pub open spec fn startup_left(self) -> AppV {
        AppV {
            ui: Ui {
                active_screen: if self.ui.active_screen == Screen::Startup {
                    Screen::Home
                } else {
                    self.ui.active_screen
                },
                manual_update_check: false,
                ..self.ui
            },
            ..self
        }
    }

    /// After a newer version was looked for: what came of it is said, if it was asked for; a newer
    /// version is always said.
    pub open spec fn update_came(self, version: Seq<char>) -> AppV {
        let m = self.startup_left();
        if version == "none"@ {
            if self.ui.manual_update_check {
                m.notify(
                    NotificationKind::Success,
                    "Up to date"@,
                    "You are using the latest version."@,
                )
            } else {
                m
            }
        } else if begins(version, "error:"@) {
            if self.ui.manual_update_check {
                m.notify(
                    NotificationKind::Error,
                    "Update check failed"@,
                    unprefixed(version, "error:"@),
                )
            } else {
                m
            }
        } else {
            m.update_told(version)
        }
    }

    /// With the word that there is a newer version.
    pub open spec fn update_told(self, version: Seq<char>) -> AppV {
        AppV { update_available: Some(version), ..self }.notify(
            NotificationKind::Info,
            "Update Available"@,
            "Version v"@ + version
                + " is available! Download at github.com/mesamirh/MovieBox-Tui"@,
        )
    }
}

impl App {
    /// Leaves the update check.
    fn leave_startup(&mut self)
        ensures
            final(self)@ == old(self)@.startup_left(),
    {
        let screen = if self.ui.active_screen == Screen::Startup {
            Screen::Home
        } else {
            self.ui.active_screen
        };
        self.ui = Ui { active_screen: screen, manual_update_check: false, ..self.ui };
    }

    /// Says that there is a newer version.
    fn tell_update(&mut self, version: &str)
        ensures
            final(self)@ == old(self)@.update_told(version@),
    {
        self.update_available = Some(copy_text(version));
        let text = cat3(
            "Version v",
            version,
            " is available! Download at github.com/mesamirh/MovieBox-Tui",
        );
        self.notify(NotificationKind::Info, "Update Available", text.as_str());
    }

    /// A newer version was looked for.
    pub fn update_result(&mut self, version: &str)
        ensures
            final(self)@ == old(self)@.update_came(version@),
            final(self)@.steady(old(self)@),
    {
        proof {
            reveal_strlit("error:");
        }
        let manual = self.ui.manual_update_check;
        self.leave_startup();
        if same_text(version, "none") {
            if manual {
                self.notify(
                    NotificationKind::Success,
                    "Up to date",
                    "You are using the latest version.",
                );
            }
        } else if begins_with(version, "error:") {
            if manual {
                let reason = crate::tui::details::drop_prefixes(version, "error:");
                self.notify(NotificationKind::Error, "Update check failed", reason.as_str());
            }
        } else {
            self.tell_update(version);
        }
    }
}

/// What follows the search for a newer version.
pub open spec fn update_text(found: Result<Option<Seq<char>>, Seq<char>>) -> Seq<char> {
    match found {
        Ok(Some(v)) => v,
        Ok(None) => "none"@,
        Err(e) => "error:"@ + e,
    }
}

/// What follows the search for a newer version.
pub fn update_action(found: Result<Option<String>, String>) -> (r: Action)
    ensures
        r@ == ActionV::UpdateAvailable(
            update_text(
                match found {
                    Ok(v) => Ok(text_opt(v)),
                    Err(e) => Err(e@),
                },
            ),
        ),
{
    match found {
        Ok(Some(v)) => ActionOf::UpdateAvailable(v),
        Ok(None) => ActionOf::UpdateAvailable(copy_text("none")),
        Err(e) => ActionOf::UpdateAvailable(cat2("error:", e.as_str())),
    }
}

/// The milliseconds for which the result of an update check is held back, so that it can be seen.
pub fn update_pause(elapsed: u64) -> (r: u64)
    ensures
        r == (if elapsed < 1500 {
            (1500 - elapsed) as u64
        } else {
            0
        }),
{
    if elapsed < 1500 {
        1500 - elapsed
    } else {
        0
    }
}

// ---------------------------------------------------------------------------
// Drawing
// ---------------------------------------------------------------------------

/// Whether the terminal is too small to draw on.
pub fn too_small(width: u16, height: u16) -> (r: bool)
    ensures
        r == (width < 85 || height < 24),
{
    width < 85 || height < 24
}

/// The lines shown where the terminal is too small.
pub open spec fn small_lines(width: u16, height: u16) -> Seq<Seq<char>> {
    seq![
        "Terminal too small ("@ + decimal(width as nat) + "x"@ + decimal(height as nat) + ")."@,
        "Minimum required size: 85x24"@,
        "Please enlarge your terminal window."@,
    ]
}

/// The lines shown where the terminal is too small.
pub fn small_message(width: u16, height: u16) -> (r: Vec<String>)
    ensures
        texts(r@) == small_lines(width, height),
{
    let mut v: Vec<String> = Vec::new();
    v.push(
        cat5(
            "Terminal too small (",
            decimal_text(width as u64).as_str(),
            "x",
            decimal_text(height as u64).as_str(),
            ").",
        ),
    );
    v.push(copy_text("Minimum required size: 85x24"));
    v.push(copy_text("Please enlarge your terminal window."));
    assert(texts(v@) =~= small_lines(width, height));
    v
}

/// The empty lines above the message, which puts it in the middle of its frame.
pub fn padding_top(height: u16) -> (r: u16)
    ensures
        r == (if height >= 5 {
            (height - 5) / 2
        } else {
            0
        }),
{
    if height >= 5 {
        (height - 5) / 2
    } else {
        0
    }
}

impl AppV {
    /// The line above the gauge of a download.
    pub open spec fn gauge_title(self) -> Seq<char> {
        let status = text_or(self.download_status, "Downloading..."@);
        if self.ui.download_queue_total > 0 {
            " Download: S"@ + decimal2(self.ui.selected_season as nat) + "E"@ + decimal2(
                self.ui.selected_episode as nat,
            ) + " ("@ + decimal(
                (self.ui.download_queue_total - self.download_queue.len()) as nat,
            ) + "/"@ + decimal(self.ui.download_queue_total as nat) + ") | "@ + status
                + " [X] Cancel "@
        } else {
            " Download: "@ + status + " [X] Cancel "@
        }
    }
}

impl App {
    /// The line above the gauge of a download.
    pub fn gauge_title(&self) -> (r: String)
        requires
            self@.ui.download_queue_total > 0 ==> self@.download_queue.len()
                <= self@.ui.download_queue_total,
        ensures
            r@ == self@.gauge_title(),
    {
        let status = match &self.download_status {
            Some(s) => copy_text(s.as_str()),
            None => copy_text("Downloading..."),
        };
        if self.ui.download_queue_total > 0 {
            let total: usize = self.ui.download_queue_total;
            let current: usize = total - self.download_queue.len();
            let mut r = cat5(
                " Download: S",
                decimal2_text(self.ui.selected_season as u64).as_str(),
                "E",
                decimal2_text(self.ui.selected_episode as u64).as_str(),
                " (",
            );
            r.append(decimal_text(current as u64).as_str());
            r.append("/");
            r.append(decimal_text(total as u64).as_str());
            r.append(") | ");
            r.append(status.as_str());
            r.append(" [X] Cancel ");
            r
        } else {
            cat3(" Download: ", status.as_str(), " [X] Cancel ")
        }
    }
}

} // verus!
