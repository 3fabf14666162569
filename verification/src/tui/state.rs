//! What the application knows, what can happen to it, and what it asks of the outside.
use vstd::prelude::*;
use crate::json::{Json, JsonV, json_list, json_opt};
use crate::providers::iptv_org::m3u::{Channel, ChannelV, channels};
use crate::providers::models::{ProviderKind, RequestContext};
use crate::providers::subtitles::Lookup;
use crate::tui::embedded::ProbeReport;
use crate::tui::pool::{PoolV, StreamPool};
use crate::strings::{copy_text, text_opt, texts};

verus! {


/// The screens.
#[derive(Clone, Copy, PartialEq, Eq, Structural, Debug)]
pub enum Screen {
    /// The update check at the start.
    Startup,
    /// Search, suggestions and results.
    Home,
    /// One title with its streams.
    Details,
}

/// Where typed characters go.
#[derive(Clone, Copy, PartialEq, Eq, Structural, Debug)]
pub enum InputMode {
    /// To the commands.
    Normal,
    /// Into the search field.
    Editing,
}

/// The panes of the details screen.
#[derive(Clone, Copy, PartialEq, Eq, Structural, Debug)]
pub enum DetailsPane {
    /// Dubbed versions.
    Languages,
    /// Seasons.
    Seasons,
    /// Episodes of the season.
    Episodes,
    /// Streams of the episode or film.
    Streams,
}

/// How a notification is meant.
#[derive(Clone, Copy, PartialEq, Eq, Structural, Debug)]
pub enum NotificationKind {
    /// For information.
    Info,
    /// Something has succeeded.
    Success,
    /// Something is not possible now.
    Warning,
    /// Something has failed.
    Error,
}

/// The players that can be started.
#[derive(Clone, Copy, PartialEq, Eq, Structural, Debug)]
pub enum PlayerKind {
    /// mpv.
    Mpv,
    /// IINA.
    Iina,
    /// VLC.
    Vlc,
}

/// A key on the keyboard.
#[derive(Clone, Copy, PartialEq, Eq, Structural, Debug)]
pub enum KeyCode {
    /// Escape.
    Esc,
    /// Enter.
    Enter,
    /// Backspace.
    Backspace,
    /// Tab.
    Tab,
    /// Tab with shift.
    BackTab,
    /// Arrow up.
    Up,
    /// Arrow down.
    Down,
    /// Arrow left.
    Left,
    /// Arrow right.
    Right,
    /// A character.
    Char(char),
    /// A function key.
    F(u8),
    /// Any other key.
    Other,
}

/// A key together with the modifiers held down.
#[derive(Clone, Copy, PartialEq, Eq, Structural, Debug)]
pub struct Key {
    /// The key.
    pub code: KeyCode,
    /// Whether control is held down.
    pub ctrl: bool,
    /// Whether shift is held down.
    pub shift: bool,
    /// Whether any other modifier is held down.
    pub other: bool,
}

/// How far a download has come.
#[derive(Clone, Copy, PartialEq, Eq, Structural, Debug)]
pub struct Progress {
    /// The bytes that have arrived.
    pub downloaded: u64,
    /// The bytes expected, zero if that is not known.
    pub total: u64,
}

/// Pictures that the drawing side holds.
#[derive(Clone, Copy, PartialEq, Eq, Structural, Debug)]
pub enum Picture {
    /// The poster, ready to draw.
    PosterProtocol,
    /// The posters of the results, ready to draw.
    SearchPosters,
}

/// What the drawing side holds of the poster of a title.
#[derive(Clone, Copy, PartialEq, Eq, Structural, Debug)]
pub struct Pictures {
    /// Whether a poster is shown.
    pub shown: bool,
    /// Whether the title's poster is kept.
    pub kept: bool,
}

/// The parts of the state that are plain values.
#[derive(Clone, Copy)]
pub struct Ui {
    /// Milliseconds on a clock that never goes back.
    pub now: u64,
    /// The screen shown.
    pub active_screen: Screen,
    /// Where typed characters go.
    pub input_mode: InputMode,
    /// The pane in use on the details screen.
    pub details_pane: DetailsPane,
    /// The provider in use.
    pub active_provider: ProviderKind,
    /// How often the provider was switched.
    pub provider_generation: u64,
    /// Whether the results come from the home page.
    pub is_homepage_mode: bool,
    /// Whether television channels are shown.
    pub is_tv_mode: bool,
    /// Whether something is being loaded.
    pub is_loading: bool,
    /// Whether streams are being looked for.
    pub is_fetching_streams: bool,
    /// Whether updates are looked for at the start.
    pub auto_update: bool,
    /// When updates were last looked for, in seconds.
    pub last_update_check: u64,
    /// Whether the running update check was asked for.
    pub manual_update_check: bool,
    /// The ticks so far.
    pub tick_count: u64,
    /// The ticks for which the status stays.
    pub status_timer: u64,
    /// Whether the screen has to be drawn again.
    pub dirty: bool,
    /// Whether the terminal has to be cleared before it is drawn.
    pub clear_terminal_before_draw: bool,
    /// Whether pictures are drawn as sixels.
    pub sixel: bool,
    /// Whether the terminal can show pictures.
    pub image_supported: bool,
    /// Whether pictures can be prepared for drawing.
    pub image_picker: bool,
    /// The rows that a poster takes.
    pub poster_rows: u16,
    /// Whether the help is shown.
    pub show_help: bool,
    /// Whether the television wizard is shown.
    pub tv_config_popup: bool,
    /// The step of the television wizard.
    pub tv_wizard_step: usize,
    /// The option marked in the television wizard.
    pub tv_wizard_selected_idx: usize,
    /// Whether a player is being picked.
    pub player_picker_popup: bool,
    /// Whether a subtitle for playback is being picked.
    pub subtitle_popup: bool,
    /// Whether a subtitle for a download is being picked.
    pub is_download_subtitle_popup: bool,
    /// Whether the download of a season has to be confirmed.
    pub show_season_download_confirm: bool,
    /// Whether the answer marked is yes.
    pub season_download_confirm_yes_selected: bool,
    /// Whether the download of an episode has to be confirmed.
    pub show_episode_download_confirm: bool,
    /// Whether the answer marked is yes.
    pub episode_download_confirm_yes_selected: bool,
    /// The suggestion marked.
    pub suggest_index: Option<usize>,
    /// The result marked.
    pub search_selected: Option<usize>,
    /// The stream marked.
    pub resource_selected: Option<usize>,
    /// The season marked.
    pub season_selected: Option<usize>,
    /// The episode marked.
    pub episode_selected: Option<usize>,
    /// The language marked.
    pub language_selected: Option<usize>,
    /// The subtitle marked.
    pub subtitle_selected: Option<usize>,
    /// The player marked.
    pub player_picker_selected: Option<usize>,
    /// The season whose streams are shown.
    pub selected_season: usize,
    /// The episode whose streams are shown.
    pub selected_episode: usize,
    /// The page of the results.
    pub current_page: usize,
    /// When the search field was last edited.
    pub last_search_edit: u64,
    /// When an episode was last chosen.
    pub last_episode_nav: u64,
    /// The number of the latest request for streams.
    pub active_resource_request: u64,
    /// How far the running download has come.
    pub download_progress: Option<Progress>,
    /// Whether a download starts once its stream is known.
    pub is_waiting_for_download_stream: bool,
    /// The episodes that were queued for download.
    pub download_queue_total: usize,
    /// Whether a preview is being loaded.
    pub preview_loading: bool,
    /// Whether playing or downloading waits for subtitles that are searched for.
    pub os_waiting: bool,
    /// Whether subtitles are being searched.
    pub subtitle_searching: bool,
    /// Whether a language was chosen for the title.
    pub language_chosen: bool,
    /// Whether the stream picked is opened with a player of choice.
    pub pending_open_with: bool,
    /// The results that fit on the screen.
    pub visible_items: usize,
    /// Whether OpenSubtitles can be used.
    pub os_enabled: bool,
    /// Whether SubDL can be used.
    pub subdl_enabled: bool,
    /// Whether streams are probed for subtitles inside them.
    pub probe_enabled: bool,
    /// The downloads that remain at OpenSubtitles, if that is known.
    pub quota: Option<u32>,
}

/// What holds around the application.
#[derive(Clone, Copy, PartialEq, Eq, Structural, Debug)]
pub struct Surroundings {
    /// Milliseconds on a clock that never goes back.
    pub now: u64,
    /// Whether OpenSubtitles can be used.
    pub os_enabled: bool,
    /// Whether SubDL can be used.
    pub subdl_enabled: bool,
    /// Whether streams are probed for subtitles inside them.
    pub probe_enabled: bool,
    /// The downloads that remain at OpenSubtitles, if that is known.
    pub quota: Option<u32>,
    /// The results that fit on the screen.
    pub visible_items: usize,
}

/// A title among the results.
pub struct SearchResultOf<T> {
    /// The identifier of the title, or the address of a channel.
    pub id: T,
    /// The title.
    pub title: T,
    /// The kind of title: 1 a film, 2 a series, 3 a channel.
    pub stype: i64,
    /// The release date, or the group of a channel.
    pub release_year: T,
    /// The address of a poster.
    pub cover_url: Option<T>,
    /// The latest season.
    pub season: usize,
}

/// A title among the results.
pub type SearchResult = SearchResultOf<String>;

/// What a title among the results means.
pub type SearchResultV = SearchResultOf<Seq<char>>;

impl View for SearchResult {
    type V = SearchResultV;

    open spec fn view(&self) -> SearchResultV {
        SearchResultOf {
            id: self.id@,
            title: self.title@,
            stype: self.stype,
            release_year: self.release_year@,
            cover_url: text_opt(self.cover_url),
            season: self.season,
        }
    }
}

/// What a list of results means.
pub open spec fn results(v: Seq<SearchResult>) -> Seq<SearchResultV> {
    Seq::new(v.len(), |i: int| v[i]@)
}

/// What a list of pairs of texts means.
pub open spec fn pairs(v: Seq<(String, String)>) -> Seq<(Seq<char>, Seq<char>)> {
    Seq::new(v.len(), |i: int| (v[i].0@, v[i].1@))
}

/// The playlists on offer.
pub struct TvCatalog {
    /// The categories.
    pub categories: Vec<String>,
    /// The languages with their codes.
    pub languages: Vec<(String, String)>,
    /// The countries with their codes.
    pub countries: Vec<(String, String)>,
}

/// What the playlists on offer mean.
pub struct TvCatalogV {
    /// The categories.
    pub categories: Seq<Seq<char>>,
    /// The languages with their codes.
    pub languages: Seq<(Seq<char>, Seq<char>)>,
    /// The countries with their codes.
    pub countries: Seq<(Seq<char>, Seq<char>)>,
}

impl View for TvCatalog {
    type V = TvCatalogV;

    open spec fn view(&self) -> TvCatalogV {
        TvCatalogV {
            categories: texts(self.categories@),
            languages: pairs(self.languages@),
            countries: pairs(self.countries@),
        }
    }
}

/// What an episode waiting to be looked up means.
pub open spec fn pending(v: Option<(String, usize, usize)>) -> Option<(Seq<char>, usize, usize)> {
    match v {
        Some((id, se, ep)) => Some((id@, se, ep)),
        None => None,
    }
}

/// Where a stream can be played from.
pub struct PlaybackSource {
    /// The address of the stream.
    pub url: String,
    /// The headers that the server asks for.
    pub headers: Vec<(String, String)>,
    /// A file with subtitles.
    pub subtitle: Option<String>,
}

/// What a source means.
pub struct PlaybackSourceV {
    /// The address of the stream.
    pub url: Seq<char>,
    /// The headers that the server asks for.
    pub headers: Seq<(Seq<char>, Seq<char>)>,
    /// A file with subtitles.
    pub subtitle: Option<Seq<char>>,
}

impl View for PlaybackSource {
    type V = PlaybackSourceV;

    open spec fn view(&self) -> PlaybackSourceV {
        PlaybackSourceV {
            url: self.url@,
            headers: pairs(self.headers@),
            subtitle: text_opt(self.subtitle),
        }
    }
}

/// What an optional source means.
pub open spec fn source_opt(v: Option<PlaybackSource>) -> Option<PlaybackSourceV> {
    match v {
        Some(s) => Some(s@),
        None => None,
    }
}

/// Something that happens, over a type of texts, of JSON values and of playback sources.
pub enum ActionOf<T, J, S> {
    /// Time passes. Whether notifications are showing.
    Tick(bool),
    /// The program ends.
    Quit,
    /// The terminal gains or loses the focus.
    FocusChange,
    /// The terminal changes its size.
    Resize,
    /// A provider is chosen.
    SwitchProvider(ProviderKind),
    /// A key is pressed.
    Key(Key),
    /// The help is shown or hidden.
    ToggleHelp,
    /// Television mode is entered or left.
    ToggleTvMode,
    /// The television wizard is asked for.
    ShowTvWizard,
    /// Channels have been loaded.
    TvChannelsLoaded(Vec<Channel>),
    /// The user goes back.
    GoBack,
    /// The user wants fresh data.
    Refresh,
    /// The caches are to be emptied.
    ClearCache,
    /// A dubbed version is chosen.
    SelectLanguage(usize),
    /// Suggestions for a query are wanted.
    Suggest(T),
    /// Suggestions for a query have come.
    SuggestSuccess(T, J),
    /// A suggestion is chosen.
    SelectSuggestion {
        /// The suggestion.
        query: T,
    },
    /// A query is to be searched.
    Search {
        /// The query.
        query: T,
        /// Whether caches are passed over.
        force_refresh: bool,
    },
    /// A page of a tab of the home page is wanted.
    FetchHomepage {
        /// The tab.
        tab_id: T,
        /// The page.
        page: usize,
    },
    /// Results have come.
    SearchSuccess {
        /// What was asked of whom.
        context: RequestContext,
        /// The query.
        query: T,
        /// The results.
        payload: J,
    },
    /// A search has failed.
    SearchFailure(RequestContext, T),
    /// A page of the home page has come.
    HomepageSuccess {
        /// The tab.
        tab_id: T,
        /// The page.
        page: usize,
        /// The titles.
        payload: J,
    },
    /// The home page has failed.
    HomepageFailure(T),
    /// Up.
    MoveUp,
    /// The next pane.
    TabPane,
    /// The pane before.
    BackTabPane,
    /// Down.
    MoveDown,
    /// Left.
    MoveLeft,
    /// Right.
    MoveRight,
    /// The marked entry is chosen.
    Submit,
    /// The details of a title are wanted.
    FetchDetails(T, bool),
    /// The preview of a title is wanted.
    FetchPreview(T),
    /// The preview of a title was looked for among those kept.
    PreviewLookedUp(T, Option<J>, bool),
    /// The preview of a title has come. Whether its picture is kept.
    PreviewSuccess(T, J, bool),
    /// The preview of a title could not be had.
    PreviewFailure(T),
    /// The poster of a title has come, and is kept.
    PosterSuccess(T),
    /// The poster of a result has come, and is kept.
    SearchPosterLoaded,
    /// The details of a title have come.
    DetailsSuccess(RequestContext, T, J, Pictures),
    /// The details of a title could not be had.
    DetailsFailure(RequestContext, T),
    /// A stream is to be played, with a player of choice or not.
    PlayStream(bool),
    /// A stream is to be played with mpv.
    LaunchMpv(T, Option<T>),
    /// A player is to be picked for a stream.
    ShowPlayerPicker(T, Option<T>),
    /// A player is started with a stream.
    LaunchPlayer(PlayerKind, T, Option<T>),
    /// A player is to be picked for a source.
    ShowPlaybackPicker(S),
    /// A player is started with a source.
    LaunchPlayback(PlayerKind, S),
    /// The marked stream is to be downloaded, with a subtitle or not.
    DownloadStream(Option<T>),
    /// A download starts, with a subtitle or not.
    StartDownload(Option<T>, Option<T>),
    /// The download of an episode has to be confirmed.
    PromptDownloadEpisode,
    /// The download of an episode is confirmed.
    ConfirmDownloadEpisode,
    /// The download of a season has to be confirmed.
    PromptDownloadSeason,
    /// The download of a season is confirmed.
    ConfirmDownloadSeason,
    /// The next episode of the queue is due.
    ProcessDownloadQueue,
    /// A download has come further.
    UpdateDownload(Option<Progress>, Option<T>),
    /// A download is complete, in a file.
    DownloadCompleted(T),
    /// A download has failed.
    DownloadFailed(T),
    /// A download was paused, for a file.
    DownloadPaused(T),
    /// The download shown is done with.
    ClearDownload,
    /// The running download is to stop.
    CancelDownload,
    /// The streams of an episode are wanted.
    FetchEpisodeStreams {
        /// The subject.
        subject_id: T,
        /// The season.
        season: usize,
        /// The episode.
        episode: usize,
        /// Whether caches are passed over.
        force_refresh: bool,
    },
    /// The streams of an episode have come.
    EpisodeStreamsReady(RequestContext, u64, T, usize, usize, J),
    /// Streams of an episode were looked for in the cache.
    StreamCacheRead(T, usize, usize, Option<J>),
    /// The streams of an episode could not be had.
    EpisodeStreamsFailed(RequestContext, u64, T, usize, usize, T),
    /// The streams known for a subject are wanted.
    InitStreamPool(T),
    /// The resolutions in which a subject has streams are known.
    StreamPoolInitialized(T, Vec<u32>),
    /// A status is to be shown.
    SetStatus(T),
    /// A subtitle for playback is to be picked.
    ShowSubtitlePopup(T, J, bool),
    /// A subtitle for a download is to be picked.
    ShowDownloadSubtitlePopup(J),
    /// SubDL has found subtitles, each with its marker, or none.
    SubdlReady {
        /// What they were searched for.
        context_id: T,
        /// The subtitles.
        candidates: Vec<(String, String)>,
        /// Whether they are for a download.
        is_download: bool,
    },
    /// SubDL has failed.
    SubdlFailed {
        /// What was searched for.
        context_id: T,
        /// Whether it was for a download.
        is_download: bool,
        /// The reason.
        error: T,
    },
    /// A stream was probed for subtitles inside it.
    StreamProbed(T, Option<ProbeReport>),
    /// What stands for a release is to be played. Whether it can be read as one, and whether a player
    /// is picked.
    PlayReadRelease(J, bool, bool),
    /// What stands for a release is to be downloaded, with a subtitle or not. Whether it can be read
    /// as one.
    DownloadReadRelease(J, bool, Option<T>),
    /// OpenSubtitles has found subtitles, each with its marker.
    OpenSubtitlesReady {
        /// What they were searched for.
        context_id: T,
        /// The subtitles.
        candidates: Vec<(String, String)>,
        /// Whether they are for a download.
        is_download: bool,
    },
    /// OpenSubtitles has failed.
    OpenSubtitlesFailed {
        /// What was searched for.
        context_id: T,
        /// Whether it was for a download.
        is_download: bool,
        /// The reason.
        error: T,
    },
    /// Players were found.
    PlayersDetected(Vec<PlayerKind>),
    /// A newer version is looked for.
    CheckForUpdates,
    /// A newer version was looked for.
    UpdateAvailable(T),
}

/// Something that happens.
pub type Action = ActionOf<String, Json, PlaybackSource>;

/// What something that happens means.
pub type ActionV = ActionOf<Seq<char>, JsonV, PlaybackSourceV>;

impl View for Action {
    type V = ActionV;

    open spec fn view(&self) -> ActionV {
        match *self {
            ActionOf::Tick(b) => ActionOf::Tick(b),
            ActionOf::Quit => ActionOf::Quit,
            ActionOf::FocusChange => ActionOf::FocusChange,
            ActionOf::Resize => ActionOf::Resize,
            ActionOf::SwitchProvider(p) => ActionOf::SwitchProvider(p),
            ActionOf::Key(k) => ActionOf::Key(k),
            ActionOf::ToggleHelp => ActionOf::ToggleHelp,
            ActionOf::ToggleTvMode => ActionOf::ToggleTvMode,
            ActionOf::ShowTvWizard => ActionOf::ShowTvWizard,
            ActionOf::TvChannelsLoaded(v) => ActionOf::TvChannelsLoaded(v),
            ActionOf::GoBack => ActionOf::GoBack,
            ActionOf::Refresh => ActionOf::Refresh,
            ActionOf::ClearCache => ActionOf::ClearCache,
            ActionOf::SelectLanguage(i) => ActionOf::SelectLanguage(i),
            ActionOf::Suggest(q) => ActionOf::Suggest(q@),
            ActionOf::SuggestSuccess(q, j) => ActionOf::SuggestSuccess(q@, j@),
            ActionOf::SelectSuggestion { query } => ActionOf::SelectSuggestion { query: query@ },
            ActionOf::Search { query, force_refresh } => ActionOf::Search {
                query: query@,
                force_refresh,
            },
            ActionOf::FetchHomepage { tab_id, page } => ActionOf::FetchHomepage {
                tab_id: tab_id@,
                page,
            },
            ActionOf::SearchSuccess { context, query, payload } => ActionOf::SearchSuccess {
                context,
                query: query@,
                payload: payload@,
            },
            ActionOf::SearchFailure(c, e) => ActionOf::SearchFailure(c, e@),
            ActionOf::HomepageSuccess { tab_id, page, payload } => ActionOf::HomepageSuccess {
                tab_id: tab_id@,
                page,
                payload: payload@,
            },
            ActionOf::HomepageFailure(e) => ActionOf::HomepageFailure(e@),
            ActionOf::MoveUp => ActionOf::MoveUp,
            ActionOf::TabPane => ActionOf::TabPane,
            ActionOf::BackTabPane => ActionOf::BackTabPane,
            ActionOf::MoveDown => ActionOf::MoveDown,
            ActionOf::MoveLeft => ActionOf::MoveLeft,
            ActionOf::MoveRight => ActionOf::MoveRight,
            ActionOf::Submit => ActionOf::Submit,
            ActionOf::FetchDetails(id, f) => ActionOf::FetchDetails(id@, f),
            ActionOf::FetchPreview(id) => ActionOf::FetchPreview(id@),
            ActionOf::PreviewLookedUp(id, j, b) => ActionOf::PreviewLookedUp(id@, json_opt(j), b),
            ActionOf::PreviewSuccess(id, j, b) => ActionOf::PreviewSuccess(id@, j@, b),
            ActionOf::PreviewFailure(e) => ActionOf::PreviewFailure(e@),
            ActionOf::PosterSuccess(id) => ActionOf::PosterSuccess(id@),
            ActionOf::SearchPosterLoaded => ActionOf::SearchPosterLoaded,
            ActionOf::DetailsSuccess(c, id, j, p) => ActionOf::DetailsSuccess(c, id@, j@, p),
            ActionOf::DetailsFailure(c, e) => ActionOf::DetailsFailure(c, e@),
            ActionOf::PlayStream(b) => ActionOf::PlayStream(b),
            ActionOf::LaunchMpv(l, s) => ActionOf::LaunchMpv(l@, text_opt(s)),
            ActionOf::ShowPlayerPicker(l, s) => ActionOf::ShowPlayerPicker(l@, text_opt(s)),
            ActionOf::LaunchPlayer(k, l, s) => ActionOf::LaunchPlayer(k, l@, text_opt(s)),
            ActionOf::ShowPlaybackPicker(s) => ActionOf::ShowPlaybackPicker(s@),
            ActionOf::LaunchPlayback(k, s) => ActionOf::LaunchPlayback(k, s@),
            ActionOf::DownloadStream(s) => ActionOf::DownloadStream(text_opt(s)),
            ActionOf::StartDownload(s, l) => ActionOf::StartDownload(text_opt(s), text_opt(l)),
            ActionOf::PromptDownloadEpisode => ActionOf::PromptDownloadEpisode,
            ActionOf::ConfirmDownloadEpisode => ActionOf::ConfirmDownloadEpisode,
            ActionOf::PromptDownloadSeason => ActionOf::PromptDownloadSeason,
            ActionOf::ConfirmDownloadSeason => ActionOf::ConfirmDownloadSeason,
            ActionOf::ProcessDownloadQueue => ActionOf::ProcessDownloadQueue,
            ActionOf::UpdateDownload(p, s) => ActionOf::UpdateDownload(p, text_opt(s)),
            ActionOf::DownloadCompleted(s) => ActionOf::DownloadCompleted(s@),
            ActionOf::DownloadFailed(s) => ActionOf::DownloadFailed(s@),
            ActionOf::DownloadPaused(s) => ActionOf::DownloadPaused(s@),
            ActionOf::ClearDownload => ActionOf::ClearDownload,
            ActionOf::CancelDownload => ActionOf::CancelDownload,
            ActionOf::FetchEpisodeStreams { subject_id, season, episode, force_refresh } =>
                ActionOf::FetchEpisodeStreams {
                subject_id: subject_id@,
                season,
                episode,
                force_refresh,
            },
            ActionOf::EpisodeStreamsReady(c, r, id, se, ep, j) => ActionOf::EpisodeStreamsReady(
                c,
                r,
                id@,
                se,
                ep,
                j@,
            ),
            ActionOf::StreamCacheRead(id, se, ep, j) => ActionOf::StreamCacheRead(
                id@,
                se,
                ep,
                json_opt(j),
            ),
            ActionOf::EpisodeStreamsFailed(c, r, id, se, ep, e) => ActionOf::EpisodeStreamsFailed(
                c,
                r,
                id@,
                se,
                ep,
                e@,
            ),
            ActionOf::InitStreamPool(id) => ActionOf::InitStreamPool(id@),
            ActionOf::StreamPoolInitialized(id, v) => ActionOf::StreamPoolInitialized(id@, v),
            ActionOf::SetStatus(s) => ActionOf::SetStatus(s@),
            ActionOf::ShowSubtitlePopup(l, j, b) => ActionOf::ShowSubtitlePopup(l@, j@, b),
            ActionOf::ShowDownloadSubtitlePopup(j) => ActionOf::ShowDownloadSubtitlePopup(j@),
            ActionOf::SubdlReady { context_id, candidates, is_download } => ActionOf::SubdlReady {
                context_id: context_id@,
                candidates,
                is_download,
            },
            ActionOf::SubdlFailed { context_id, is_download, error } => ActionOf::SubdlFailed {
                context_id: context_id@,
                is_download,
                error: error@,
            },
            ActionOf::StreamProbed(u, r) => ActionOf::StreamProbed(u@, r),
            ActionOf::PlayReadRelease(j, b, o) => ActionOf::PlayReadRelease(j@, b, o),
            ActionOf::DownloadReadRelease(j, b, s) => ActionOf::DownloadReadRelease(
                j@,
                b,
                text_opt(s),
            ),
            ActionOf::OpenSubtitlesReady { context_id, candidates, is_download } =>
                ActionOf::OpenSubtitlesReady { context_id: context_id@, candidates, is_download },
            ActionOf::OpenSubtitlesFailed { context_id, is_download, error } =>
                ActionOf::OpenSubtitlesFailed {
                context_id: context_id@,
                is_download,
                error: error@,
            },
            ActionOf::PlayersDetected(v) => ActionOf::PlayersDetected(v),
            ActionOf::CheckForUpdates => ActionOf::CheckForUpdates,
            ActionOf::UpdateAvailable(s) => ActionOf::UpdateAvailable(s@),
        }
    }
}

/// What follows once a subtitle has been fetched.
pub enum ThenOf<T> {
    /// A stream is played, with a player of choice or not.
    Play {
        /// The address of the stream.
        link: T,
        /// Whether a player is picked first.
        open_with: bool,
    },
    /// The marked stream is downloaded.
    Download,
}

/// What follows once a subtitle has been fetched.
pub type Then = ThenOf<String>;

/// What follows once a subtitle has been fetched.
pub type ThenV = ThenOf<Seq<char>>;

impl View for Then {
    type V = ThenV;

    open spec fn view(&self) -> ThenV {
        match *self {
            ThenOf::Play { link, open_with } => ThenOf::Play { link: link@, open_with },
            ThenOf::Download => ThenOf::Download,
        }
    }
}

/// Work that is asked of the outside, over a type of texts, of JSON values, of playback
/// sources, of lists of texts, of what follows a subtitle and of actions.
pub enum EffectOf<T, J, S, L, N, A> {
    /// The action is to be handled next.
    Send(A),
    /// The action is to be handled after some milliseconds.
    SendAfter(u64, A),
    /// A notification is shown.
    Notify(NotificationKind, T, T),
    /// Notifications that have been shown long enough go away.
    ExpireNotifications,
    /// The settings are saved.
    PersistConfig,
    /// The MovieBox client opens its session.
    InitClient,
    /// Running requests for streams are given up.
    CancelFetches,
    /// Requests for streams are allowed again.
    RenewFetches,
    /// A picture is given up.
    Forget(Picture),
    /// The poster is given up.
    ForgetPoster,
    /// A poster that is kept is shown.
    UsePoster(T),
    /// The poster of a title is fetched.
    FetchPoster {
        /// The title.
        id: T,
        /// The address of the poster.
        url: T,
    },
    /// The preview of a title is looked for among those kept.
    LookUpPreview(T),
    /// The preview of a title is asked for.
    FetchPreview(T),
    /// The preview of a title is kept.
    KeepPreview(T, J),
    /// The details of a title are asked for, from the cache unless that is passed over.
    FetchDetails(RequestContext, T, bool),
    /// Requests for streams that were given up may go on.
    AllowFetches,
    /// The playlists chosen earlier are loaded.
    LoadTvConfig,
    /// The playlists chosen are saved and loaded.
    FetchTvChannels(L),
    /// The cached streams of an episode are given up.
    InvalidateStreamCache(ProviderKind, T, usize, usize),
    /// The cached streams of an episode are read.
    ReadStreamCache(ProviderKind, T, usize, usize),
    /// The streams of an episode are cached.
    SaveStreamCache(ProviderKind, T, usize, usize, J),
    /// The releases of an episode are asked of 4KHDHub.
    FetchReleases(RequestContext, u64, T, usize, usize),
    /// The streams of an episode are looked for, from a page on, in the cache first unless that
    /// is passed over.
    HuntStreams {
        /// Who is asked.
        context: RequestContext,
        /// The number of the request.
        request: u64,
        /// The subject.
        subject_id: T,
        /// The season.
        season: usize,
        /// The episode.
        episode: usize,
        /// Whether the cache is passed over.
        force_refresh: bool,
        /// The page.
        page: usize,
    },
    /// The resolutions in which a subject has streams are asked for.
    FetchResolutions(T),
    /// The captions of a stream are fetched for the download of a season.
    FetchSeasonCaptions {
        /// The subject.
        subject_id: T,
        /// The stream.
        resource_id: T,
        /// The language wanted.
        preference: Option<T>,
    },
    /// What stands for a release is read as one, to be played with a player of choice or not.
    ReadReleaseToPlay(J, bool),
    /// What stands for a release is read as one, to be downloaded with a subtitle or not.
    ReadReleaseToDownload(J, Option<T>),
    /// A release is resolved and played, with a player of choice or not, and with a subtitle that is
    /// looked up.
    PlayRelease(J, bool, Lookup),
    /// A stream is probed for subtitles inside it.
    ProbeStream(S),
    /// The captions of a stream are fetched before it is played.
    FetchCaptions {
        /// The title.
        subject_id: T,
        /// The stream.
        resource_id: T,
        /// The address of the stream.
        link: T,
        /// Whether it is opened with a player of choice.
        open_with: bool,
    },
    /// Subtitles are searched for at SubDL.
    SearchSubdl {
        /// What they are searched for.
        context_id: T,
        /// Whether they are for a download.
        is_download: bool,
    },
    /// Subtitles are searched for at OpenSubtitles.
    SearchSubtitles {
        /// What they are searched for.
        context_id: T,
        /// Whether they are for a download.
        is_download: bool,
    },
    /// A player is started with a stream.
    StartPlayer(PlayerKind, T, Option<T>),
    /// A player is started with a source.
    StartPlayback(PlayerKind, S),
    /// A release is resolved and downloaded, with a subtitle that was chosen or is looked up.
    DownloadRelease(J, Option<T>, Lookup),
    /// The captions of a stream are fetched before it is downloaded.
    FetchDownloadCaptions {
        /// The title.
        subject_id: T,
        /// The stream.
        resource_id: T,
    },
    /// A download may run.
    AllowDownload,
    /// The running download stops.
    StopDownload,
    /// A download runs.
    StartDownload {
        /// The address.
        link: T,
        /// The address of a subtitle, or its path.
        subtitle: Option<T>,
        /// The directory, below that of downloads.
        dir: T,
        /// The name of the file, but for a number and the extension.
        base_name: T,
        /// The extension.
        extension: T,
    },
    /// A newer version is looked for.
    CheckForUpdates,
    /// All caches are emptied.
    ClearAllCache,
    /// Suggestions are asked for.
    FetchSuggestions(T),
    /// A page is opened in the browser.
    OpenUrl(T),
    /// The poster of a result is fetched.
    FetchSearchPoster {
        /// The result.
        id: T,
        /// The address of the poster.
        url: T,
    },
    /// The first page of results is asked for, from the cache unless that is passed over.
    Search {
        /// Who is asked.
        context: RequestContext,
        /// The query.
        query: T,
        /// Whether caches are passed over.
        force_refresh: bool,
    },
    /// A further page of results is asked for.
    SearchPage {
        /// Who is asked.
        context: RequestContext,
        /// The query.
        query: T,
        /// The page.
        page: usize,
    },
    /// A page of the home page is asked for, from the cache and from the service.
    FetchHomepage {
        /// The tab.
        tab_id: T,
        /// The page.
        page: usize,
    },
    /// A subtitle of OpenSubtitles is fetched into the cache, if its number is known.
    ResolveSubtitle {
        /// The provider of the title.
        provider: ProviderKind,
        /// The title.
        subject_id: T,
        /// The season.
        season: usize,
        /// The episode.
        episode: usize,
        /// The number of the file.
        file_id: Option<u32>,
        /// The language.
        lang: T,
        /// What follows.
        next: N,
    },
    /// A subtitle of SubDL is fetched into the cache, if its identifier is known.
    ResolveSubdl {
        /// The provider of the title.
        provider: ProviderKind,
        /// The title.
        subject_id: T,
        /// The season.
        season: usize,
        /// The episode.
        episode: usize,
        /// The identifier of the archive.
        subtitle_id: Option<T>,
        /// The language.
        lang: T,
        /// What follows.
        next: N,
    },
}

/// Work that is asked of the outside.
pub type Effect = EffectOf<String, Json, PlaybackSource, Vec<String>, Then, Action>;

/// What work that is asked of the outside means.
pub type EffectV = EffectOf<Seq<char>, JsonV, PlaybackSourceV, Seq<Seq<char>>, ThenV, ActionV>;

impl View for Effect {
    type V = EffectV;

    open spec fn view(&self) -> EffectV {
        match *self {
            EffectOf::Send(a) => EffectOf::Send(a@),
            EffectOf::SendAfter(ms, a) => EffectOf::SendAfter(ms, a@),
            EffectOf::Notify(k, a, b) => EffectOf::Notify(k, a@, b@),
            EffectOf::ExpireNotifications => EffectOf::ExpireNotifications,
            EffectOf::PersistConfig => EffectOf::PersistConfig,
            EffectOf::InitClient => EffectOf::InitClient,
            EffectOf::CancelFetches => EffectOf::CancelFetches,
            EffectOf::RenewFetches => EffectOf::RenewFetches,
            EffectOf::Forget(p) => EffectOf::Forget(p),
            EffectOf::ForgetPoster => EffectOf::ForgetPoster,
            EffectOf::UsePoster(id) => EffectOf::UsePoster(id@),
            EffectOf::FetchPoster { id, url } => EffectOf::FetchPoster { id: id@, url: url@ },
            EffectOf::LookUpPreview(id) => EffectOf::LookUpPreview(id@),
            EffectOf::FetchPreview(id) => EffectOf::FetchPreview(id@),
            EffectOf::KeepPreview(id, j) => EffectOf::KeepPreview(id@, j@),
            EffectOf::FetchDetails(c, id, f) => EffectOf::FetchDetails(c, id@, f),
            EffectOf::AllowFetches => EffectOf::AllowFetches,
            EffectOf::LoadTvConfig => EffectOf::LoadTvConfig,
            EffectOf::FetchTvChannels(v) => EffectOf::FetchTvChannels(texts(v@)),
            EffectOf::InvalidateStreamCache(p, id, se, ep) => EffectOf::InvalidateStreamCache(
                p,
                id@,
                se,
                ep,
            ),
            EffectOf::ReadStreamCache(p, id, se, ep) => EffectOf::ReadStreamCache(p, id@, se, ep),
            EffectOf::SaveStreamCache(p, id, se, ep, j) => EffectOf::SaveStreamCache(
                p,
                id@,
                se,
                ep,
                j@,
            ),
            EffectOf::FetchReleases(c, r, id, se, ep) => EffectOf::FetchReleases(
                c,
                r,
                id@,
                se,
                ep,
            ),
            EffectOf::HuntStreams {
                context,
                request,
                subject_id,
                season,
                episode,
                force_refresh,
                page,
            } => EffectOf::HuntStreams {
                context,
                request,
                subject_id: subject_id@,
                season,
                episode,
                force_refresh,
                page,
            },
            EffectOf::FetchResolutions(id) => EffectOf::FetchResolutions(id@),
            EffectOf::FetchSeasonCaptions { subject_id, resource_id, preference } =>
                EffectOf::FetchSeasonCaptions {
                subject_id: subject_id@,
                resource_id: resource_id@,
                preference: text_opt(preference),
            },
            EffectOf::ReadReleaseToPlay(j, b) => EffectOf::ReadReleaseToPlay(j@, b),
            EffectOf::ReadReleaseToDownload(j, s) => EffectOf::ReadReleaseToDownload(
                j@,
                text_opt(s),
            ),
            EffectOf::PlayRelease(j, b, l) => EffectOf::PlayRelease(j@, b, l),
            EffectOf::ProbeStream(s) => EffectOf::ProbeStream(s@),
            EffectOf::FetchCaptions { subject_id, resource_id, link, open_with } =>
                EffectOf::FetchCaptions {
                subject_id: subject_id@,
                resource_id: resource_id@,
                link: link@,
                open_with,
            },
            EffectOf::SearchSubdl { context_id, is_download } => EffectOf::SearchSubdl {
                context_id: context_id@,
                is_download,
            },
            EffectOf::SearchSubtitles { context_id, is_download } => EffectOf::SearchSubtitles {
                context_id: context_id@,
                is_download,
            },
            EffectOf::StartPlayer(k, l, s) => EffectOf::StartPlayer(k, l@, text_opt(s)),
            EffectOf::StartPlayback(k, s) => EffectOf::StartPlayback(k, s@),
            EffectOf::DownloadRelease(j, s, l) => EffectOf::DownloadRelease(j@, text_opt(s), l),
            EffectOf::FetchDownloadCaptions { subject_id, resource_id } =>
                EffectOf::FetchDownloadCaptions {
                subject_id: subject_id@,
                resource_id: resource_id@,
            },
            EffectOf::AllowDownload => EffectOf::AllowDownload,
            EffectOf::StopDownload => EffectOf::StopDownload,
            EffectOf::StartDownload { link, subtitle, dir, base_name, extension } =>
                EffectOf::StartDownload {
                link: link@,
                subtitle: text_opt(subtitle),
                dir: dir@,
                base_name: base_name@,
                extension: extension@,
            },
            EffectOf::CheckForUpdates => EffectOf::CheckForUpdates,
            EffectOf::ClearAllCache => EffectOf::ClearAllCache,
            EffectOf::FetchSuggestions(q) => EffectOf::FetchSuggestions(q@),
            EffectOf::OpenUrl(u) => EffectOf::OpenUrl(u@),
            EffectOf::FetchSearchPoster { id, url } => EffectOf::FetchSearchPoster {
                id: id@,
                url: url@,
            },
            EffectOf::Search { context, query, force_refresh } => EffectOf::Search {
                context,
                query: query@,
                force_refresh,
            },
            EffectOf::SearchPage { context, query, page } => EffectOf::SearchPage {
                context,
                query: query@,
                page,
            },
            EffectOf::FetchHomepage { tab_id, page } => EffectOf::FetchHomepage {
                tab_id: tab_id@,
                page,
            },
            EffectOf::ResolveSubtitle {
                provider,
                subject_id,
                season,
                episode,
                file_id,
                lang,
                next,
            } => EffectOf::ResolveSubtitle {
                provider,
                subject_id: subject_id@,
                season,
                episode,
                file_id,
                lang: lang@,
                next: next@,
            },
            EffectOf::ResolveSubdl {
                provider,
                subject_id,
                season,
                episode,
                subtitle_id,
                lang,
                next,
            } => EffectOf::ResolveSubdl {
                provider,
                subject_id: subject_id@,
                season,
                episode,
                subtitle_id: text_opt(subtitle_id),
                lang: lang@,
                next: next@,
            },
        }
    }
}

/// What a list of requests means.
pub open spec fn effects(v: Seq<Effect>) -> Seq<EffectV> {
    Seq::new(v.len(), |i: int| v[i]@)
}

/// What a list of lists of numbers means.
pub open spec fn number_lists(v: Seq<Vec<usize>>) -> Seq<Seq<usize>> {
    Seq::new(v.len(), |i: int| v[i]@)
}

/// The application.
pub struct App {
    /// The parts that are plain values.
    pub ui: Ui,
    /// The line of status.
    pub status_message: String,
    /// The text of the search field.
    pub search_query: String,
    /// The query for which suggestions were last asked.
    pub last_suggest_query: String,
    /// The tab of the home page.
    pub current_tab_id: String,
    /// The title of the details screen.
    pub active_subject_id: Option<String>,
    /// Why no streams can be shown.
    pub stream_error: Option<String>,
    /// The line about the running download.
    pub download_status: Option<String>,
    /// The stream for which a subtitle is being picked.
    pub pending_play_link: Option<String>,
    /// The stream for which a player is being picked.
    pub player_picker_link: Option<String>,
    /// The subtitle for the stream for which a player is being picked.
    pub player_picker_subtitle: Option<String>,
    /// The source for which a player is being picked.
    pub player_picker_playback: Option<PlaybackSource>,
    /// The subtitle that the episodes of a season get.
    pub season_subtitle_preference: Option<String>,
    /// Why no subtitles can be shown.
    pub subtitle_search_error: Option<String>,
    /// The newer version.
    pub update_available: Option<String>,
    /// The preview of the marked result.
    pub search_preview: Option<Json>,
    /// The details of the title.
    pub selected_details: Option<Json>,
    /// The streams shown.
    pub selected_resources: Option<Json>,
    /// The seasons of the title.
    pub available_seasons: Vec<Json>,
    /// The numbers of the episodes of each season.
    pub available_episode_numbers: Vec<Vec<usize>>,
    /// The results.
    pub search_results: Vec<SearchResult>,
    /// The suggestions.
    pub search_suggestions: Vec<String>,
    /// The channels.
    pub tv_channels: Vec<Channel>,
    /// The playlists on offer.
    pub tv_catalog: TvCatalog,
    /// The options of the television wizard.
    pub tv_wizard_options: Vec<String>,
    /// The options chosen, each once.
    pub tv_wizard_selections: Vec<String>,
    /// The subtitles to pick from, each with its address.
    pub subtitle_list: Vec<(String, String)>,
    /// The subtitles that a search has found, each with its marker.
    pub os_subtitles: Vec<(String, String)>,
    /// The players found.
    pub available_players: Vec<PlayerKind>,
    /// The episodes to download.
    pub download_queue: Vec<(usize, usize)>,
    /// The streams known.
    pub stream_pool: StreamPool,
    /// The episode whose streams are looked for once the user rests.
    pub pending_episode_fetch: Option<(String, usize, usize)>,
    /// The work asked of the outside and not yet taken.
    pub effects: Vec<Effect>,
}

/// What the application means.
pub struct AppV {
    /// The parts that are plain values.
    pub ui: Ui,
    /// The line of status.
    pub status_message: Seq<char>,
    /// The text of the search field.
    pub search_query: Seq<char>,
    /// The query for which suggestions were last asked.
    pub last_suggest_query: Seq<char>,
    /// The tab of the home page.
    pub current_tab_id: Seq<char>,
    /// The title of the details screen.
    pub active_subject_id: Option<Seq<char>>,
    /// Why no streams can be shown.
    pub stream_error: Option<Seq<char>>,
    /// The line about the running download.
    pub download_status: Option<Seq<char>>,
    /// The stream for which a subtitle is being picked.
    pub pending_play_link: Option<Seq<char>>,
    /// The stream for which a player is being picked.
    pub player_picker_link: Option<Seq<char>>,
    /// The subtitle for the stream for which a player is being picked.
    pub player_picker_subtitle: Option<Seq<char>>,
    /// The source for which a player is being picked.
    pub player_picker_playback: Option<PlaybackSourceV>,
    /// The subtitle that the episodes of a season get.
    pub season_subtitle_preference: Option<Seq<char>>,
    /// Why no subtitles can be shown.
    pub subtitle_search_error: Option<Seq<char>>,
    /// The newer version.
    pub update_available: Option<Seq<char>>,
    /// The preview of the marked result.
    pub search_preview: Option<JsonV>,
    /// The details of the title.
    pub selected_details: Option<JsonV>,
    /// The streams shown.
    pub selected_resources: Option<JsonV>,
    /// The seasons of the title.
    pub available_seasons: Seq<JsonV>,
    /// The numbers of the episodes of each season.
    pub available_episode_numbers: Seq<Seq<usize>>,
    /// The results.
    pub search_results: Seq<SearchResultV>,
    /// The suggestions.
    pub search_suggestions: Seq<Seq<char>>,
    /// The channels.
    pub tv_channels: Seq<ChannelV>,
    /// The playlists on offer.
    pub tv_catalog: TvCatalogV,
    /// The options of the television wizard.
    pub tv_wizard_options: Seq<Seq<char>>,
    /// The options chosen, each once.
    pub tv_wizard_selections: Seq<Seq<char>>,
    /// The subtitles to pick from, each with its address.
    pub subtitle_list: Seq<(Seq<char>, Seq<char>)>,
    /// The subtitles that a search has found, each with its marker.
    pub os_subtitles: Seq<(Seq<char>, Seq<char>)>,
    /// The players found.
    pub available_players: Seq<PlayerKind>,
    /// The episodes to download.
    pub download_queue: Seq<(usize, usize)>,
    /// The streams known.
    pub stream_pool: Map<Seq<char>, PoolV>,
    /// The episode whose streams are looked for once the user rests.
    pub pending_episode_fetch: Option<(Seq<char>, usize, usize)>,
    /// The work asked of the outside and not yet taken.
    pub effects: Seq<EffectV>,
}

impl View for App {
    type V = AppV;

    open spec fn view(&self) -> AppV {
        AppV {
            ui: self.ui,
            status_message: self.status_message@,
            search_query: self.search_query@,
            last_suggest_query: self.last_suggest_query@,
            current_tab_id: self.current_tab_id@,
            active_subject_id: text_opt(self.active_subject_id),
            stream_error: text_opt(self.stream_error),
            download_status: text_opt(self.download_status),
            pending_play_link: text_opt(self.pending_play_link),
            player_picker_link: text_opt(self.player_picker_link),
            player_picker_subtitle: text_opt(self.player_picker_subtitle),
            player_picker_playback: source_opt(self.player_picker_playback),
            season_subtitle_preference: text_opt(self.season_subtitle_preference),
            subtitle_search_error: text_opt(self.subtitle_search_error),
            update_available: text_opt(self.update_available),
            search_preview: json_opt(self.search_preview),
            selected_details: json_opt(self.selected_details),
            selected_resources: json_opt(self.selected_resources),
            available_seasons: json_list(self.available_seasons@),
            available_episode_numbers: number_lists(self.available_episode_numbers@),
            search_results: results(self.search_results@),
            search_suggestions: texts(self.search_suggestions@),
            tv_channels: channels(self.tv_channels@),
            tv_catalog: self.tv_catalog@,
            tv_wizard_options: texts(self.tv_wizard_options@),
            tv_wizard_selections: texts(self.tv_wizard_selections@),
            subtitle_list: pairs(self.subtitle_list@),
            os_subtitles: pairs(self.os_subtitles@),
            available_players: self.available_players@,
            download_queue: self.download_queue@,
            stream_pool: self.stream_pool@,
            pending_episode_fetch: pending(self.pending_episode_fetch),
            effects: effects(self.effects@),
        }
    }
}

impl AppV {
    /// With one more piece of work asked for.
    pub open spec fn ask(self, e: EffectV) -> AppV {
        AppV { effects: self.effects.push(e), ..self }
    }

    /// With an action to be handled next.
    pub open spec fn send(self, a: ActionV) -> AppV {
        self.ask(EffectOf::Send(a))
    }

    /// With a notification shown.
    pub open spec fn notify(self, k: NotificationKind, title: Seq<char>, text: Seq<char>) -> AppV {
        self.ask(EffectOf::Notify(k, title, text))
    }

    /// With a status for some ticks.
    pub open spec fn say(self, text: Seq<char>, ticks: u64) -> AppV {
        AppV { ui: Ui { status_timer: ticks, ..self.ui }, status_message: text, ..self }
    }

    /// With the terminal cleared before it is drawn, where pictures are drawn as sixels.
    pub open spec fn sixel_redraw(self) -> AppV {
        if self.ui.image_picker && self.ui.sixel {
            AppV { ui: Ui { clear_terminal_before_draw: true, ..self.ui }, ..self }
        } else {
            self
        }
    }

    /// Who is asked now.
    pub open spec fn context(self) -> RequestContext {
        RequestContext {
            provider: self.ui.active_provider,
            generation: self.ui.provider_generation,
        }
    }

    /// The provider in use, the episodes that wait for download and how many were queued.
    pub open spec fn standing(self) -> (RequestContext, Seq<(usize, usize)>, usize) {
        (self.context(), self.download_queue, self.ui.download_queue_total)
    }

    /// The episodes that wait for download, and how many were queued.
    pub open spec fn queue(self) -> (Seq<(usize, usize)>, usize) {
        (self.download_queue, self.ui.download_queue_total)
    }

    /// No more episodes wait for download than were queued.
    pub open spec fn queue_fits(self) -> bool {
        self.download_queue.len() <= self.ui.download_queue_total
    }

    /// Whether the provider in use is that of another state, and the queue fits if it did there.
    pub open spec fn fitting(self, before: AppV) -> bool {
        self.context() == before.context() && (before.queue_fits() ==> self.queue_fits())
    }

    /// Whether the provider in use and the queue of downloads are those of another state.
    pub open spec fn steady(self, before: AppV) -> bool {
        self.standing() == before.standing()
    }

    /// The index marked in a list, zero if none is.
    pub open spec fn marked(i: Option<usize>) -> usize {
        match i {
            Some(i) => i,
            None => 0,
        }
    }
}

impl App {
    /// Asks for a piece of work.
    pub fn ask(&mut self, e: Effect)
        ensures
            final(self)@ == old(self)@.ask(e@),
            final(self)@.steady(old(self)@),
    {
        let ghost before = effects(self.effects@);
        self.effects.push(e);
        assert(effects(self.effects@) =~= before.push(e@));
    }

    /// Asks for an action to be handled next.
    pub fn send(&mut self, a: Action)
        ensures
            final(self)@ == old(self)@.send(a@),
            final(self)@.steady(old(self)@),
    {
        self.ask(EffectOf::Send(a));
    }

    /// Shows a notification.
    pub fn notify(&mut self, k: NotificationKind, title: &str, text: &str)
        ensures
            final(self)@ == old(self)@.notify(k, title@, text@),
            final(self)@.steady(old(self)@),
    {
        self.ask(EffectOf::Notify(k, copy_text(title), copy_text(text)));
    }

    /// Shows a status for some ticks.
    pub fn say(&mut self, text: &str, ticks: u64)
        ensures
            final(self)@ == old(self)@.say(text@, ticks),
    {
        self.status_message = copy_text(text);
        self.ui = Ui { status_timer: ticks, ..self.ui };
    }

    /// Has the terminal cleared before it is drawn, where pictures are drawn as sixels.
    pub fn prepare_sixel_redraw(&mut self)
        ensures
            final(self)@ == old(self)@.sixel_redraw(),
    {
        if self.ui.image_picker && self.ui.sixel {
            self.ui = Ui { clear_terminal_before_draw: true, ..self.ui };
        }
    }

    /// Who is asked now.
    pub fn request_context(&self) -> (r: RequestContext)
        ensures
            r == self@.context(),
    {
        RequestContext {
            provider: self.ui.active_provider,
            generation: self.ui.provider_generation,
        }
    }

    /// Whether an answer belongs to the provider in use and came after the last switch.
    pub fn context_is_current(&self, context: RequestContext) -> (r: bool)
        ensures
            r == (context == self@.context()),
    {
        context.provider == self.ui.active_provider && context.generation
            == self.ui.provider_generation
    }

    /// Hands out the work asked for.
    pub fn take_effects(&mut self) -> (r: Vec<Effect>)
        ensures
            effects(r@) == old(self)@.effects,
            final(self)@ == (AppV { effects: Seq::empty(), ..old(self)@ }),
    {
        let mut out: Vec<Effect> = Vec::new();
        out.append(&mut self.effects);
        assert(effects(out@) =~= old(self)@.effects);
        assert(effects(self.effects@) =~= Seq::empty());
        out
    }
}

/// The index marked in a list, zero if none is.
pub fn marked(i: Option<usize>) -> (r: usize)
    ensures
        r == AppV::marked(i),
{
    match i {
        Some(i) => i,
        None => 0,
    }
}

} // verus!
