//! Downloading streams: what is downloaded, where it goes, and the queue of a season.
use vstd::prelude::*;
use crate::download::{safe_file_stem, stem_for};
use crate::json::{
    Json, JsonV, get_either, get_in, get_of, either_of, int_in, int_of, json_list, json_opt,
    text_in, text_of_json,
};
use crate::numbers::{decimal, decimal2, decimal2_text, decimal_text, digits_value, lemma_decimal};
use crate::providers::models::ProviderKind;
use crate::strings::{
    CharClass, after_last, cat2, cat3, cat4, cat5, chars_of, copy_text, find_last, holds_entry,
    lower_text, rfind, same_text, same_text_opt, text_after_last, text_opt, text_range, texts,
    to_lower,
};
use crate::tui::app::borrowed;
use crate::tui::search::{or_text, text_or};
use crate::tui::state::{
    Action, ActionOf, ActionV, App, AppV, EffectOf, NotificationKind, Progress, Screen, Ui,
};
use crate::tui::streams::{media_kind, read_media_kind};
use crate::tui::titles::{clean_moviebox_title, clean_title};

verus! {

// ---------------------------------------------------------------------------
// Where a download goes
// ---------------------------------------------------------------------------

/// A path without slashes, and steps to the same place, at its end.
pub open spec fn without_tail(s: Seq<char>) -> Seq<char>
    decreases s.len(),
{
    if s.len() > 0 && s.last() == '/' {
        without_tail(s.drop_last())
    } else if s.len() >= 2 && s.last() == '.' && s[s.len() - 2] == '/' {
        without_tail(s.take(s.len() - 2))
    } else {
        s
    }
}

/// The extension of the file that a path leads to: what stands behind the last dot of its name, unless
/// that dot begins the name.
pub open spec fn extension_in(path: Seq<char>) -> Option<Seq<char>> {
    let name = after_last(without_tail(path), CharClass::Is('/'));
    match rfind(name, "."@) {
        Some(i) => if i > 0 {
            Some(name.skip(i + 1))
        } else {
            None
        },
        None => None,
    }
}

/// Whether an extension is that of a video.
pub open spec fn is_video(ext: Seq<char>) -> bool {
    ext == "mp4"@ || ext == "mkv"@ || ext == "webm"@ || ext == "avi"@ || ext == "mov"@ || ext
        == "m4v"@
}

/// The extension that a download gets: that of the stream's file if it is a video's, else `mp4`.
pub open spec fn video_extension(name: Option<Seq<char>>) -> Seq<char> {
    match name {
        Some(n) => match extension_in(n) {
            Some(e) => if is_video(lower_text(e)) {
                lower_text(e)
            } else {
                "mp4"@
            },
            None => "mp4"@,
        },
        None => "mp4"@,
    }
}

/// The extension of the file that a path leads to.
fn find_extension(path: &str) -> (r: Option<String>)
    ensures
        text_opt(r) == extension_in(path@),
{
    let v = chars_of(path);
    let mut n: usize = v.len();
    assert(v@.take(n as int) =~= v@);
    while n > 0 && (v[n - 1] == '/' || (n >= 2 && v[n - 1] == '.' && v[n - 2] == '/'))
        invariant
            n <= v@.len(),
            without_tail(v@) == without_tail(v@.take(n as int)),
        decreases n,
    {
        if v[n - 1] == '/' {
            assert(v@.take(n as int).drop_last() =~= v@.take(n - 1));
            n = n - 1;
        } else {
            assert(v@.take(n as int).take(n - 2) =~= v@.take(n - 2));
            n = n - 2;
        }
    }
    let whole = text_range(v.as_slice(), 0, n);
    let name = chars_of(text_after_last(whole.as_str(), CharClass::Is('/')).as_str());
    proof {
        reveal_strlit(".");
    }
    let end: usize = name.len();
    match find_last(name.as_slice(), chars_of(".").as_slice()) {
        Some(i) => if i > 0 {
            Some(text_range(name.as_slice(), i + 1, end))
        } else {
            None
        },
        None => None,
    }
}

/// The extension that a download gets.
fn pick_extension(name: Option<String>) -> (r: String)
    ensures
        r@ == video_extension(text_opt(name)),
{
    match name {
        Some(n) => match find_extension(n.as_str()) {
            Some(e) => {
                let low = to_lower(e.as_str());
                let s = low.as_str();
                if same_text(s, "mp4") || same_text(s, "mkv") || same_text(s, "webm") || same_text(
                    s,
                    "avi",
                ) || same_text(s, "mov") || same_text(s, "m4v") {
                    low
                } else {
                    copy_text("mp4")
                }
            },
            None => copy_text("mp4"),
        },
        None => copy_text("mp4"),
    }
}

/// A name with a number behind it, from the second on.
pub open spec fn numbered(base: Seq<char>, n: nat) -> Seq<char> {
    if n <= 1 {
        base
    } else {
        base + "_"@ + decimal(n)
    }
}

/// The name of a file with a number and an extension.
pub open spec fn file_name(base: Seq<char>, n: nat, ext: Seq<char>) -> Seq<char> {
    numbered(base, n) + "."@ + ext
}

/// Different numbers give different names.
proof fn lemma_file_names_differ(base: Seq<char>, ext: Seq<char>, a: nat, b: nat)
    requires
        1 <= a < b,
    ensures
        file_name(base, a, ext) != file_name(base, b, ext),
{
    reveal_strlit("_");
    lemma_decimal(a);
    lemma_decimal(b);
    let x = file_name(base, a, ext);
    let y = file_name(base, b, ext);
    if x == y {
        let tail = ("."@ + ext).len() as int;
        assert(numbered(base, a) =~= x.take(x.len() - tail));
        assert(numbered(base, b) =~= y.take(y.len() - tail));
        if a == 1 {
            assert(numbered(base, b).len() > base.len());
        } else {
            let k = base.len() as int + 1;
            assert(decimal(a) =~= numbered(base, a).skip(k));
            assert(decimal(b) =~= numbered(base, b).skip(k));
            assert(digits_value(decimal(a)) == digits_value(decimal(b)));
        }
    }
}

/// The names of a file with the numbers from one on.
pub open spec fn first_names(base: Seq<char>, ext: Seq<char>, n: nat) -> Seq<Seq<char>> {
    Seq::new(n, |i: int| file_name(base, (i + 1) as nat, ext))
}

/// No more names are taken than there are files.
proof fn lemma_taken(base: Seq<char>, ext: Seq<char>, n: nat, taken: Seq<Seq<char>>)
    requires
        forall|k: nat| 1 <= k <= n ==> taken.contains(#[trigger] file_name(base, k, ext)),
    ensures
        n <= taken.len(),
{
    let s = first_names(base, ext, n);
    assert(s.no_duplicates()) by {
        assert forall|i: int, j: int| 0 <= i < s.len() && 0 <= j < s.len() && i != j implies s[i]
            != s[j] by {
            if i < j {
                lemma_file_names_differ(base, ext, (i + 1) as nat, (j + 1) as nat);
            } else {
                lemma_file_names_differ(base, ext, (j + 1) as nat, (i + 1) as nat);
            }
        }
    }
    s.unique_seq_to_set();
    taken.lemma_cardinality_of_set();
    assert(s.to_set().subset_of(taken.to_set())) by {
        assert forall|x: Seq<char>| s.to_set().contains(x) implies taken.to_set().contains(x) by {
            let i = choose|i: int| 0 <= i < s.len() && s[i] == x;
            assert(taken.contains(file_name(base, (i + 1) as nat, ext)));
        }
    }
    vstd::set_lib::lemma_len_subset(s.to_set(), taken.to_set());
}

/// The first number under which no file is there. Every lower number is taken.
pub fn first_free(base: &str, ext: &str, taken: &Vec<String>) -> (r: u64)
    requires
        taken@.len() < usize::MAX,
    ensures
        r >= 1,
        !texts(taken@).contains(file_name(base@, r as nat, ext@)),
        forall|k: nat|
            1 <= k < r ==> texts(taken@).contains(#[trigger] file_name(base@, k, ext@)),
{
    let bound: usize = taken.len();
    let mut n: u64 = 1;
    loop
        invariant
            bound == taken@.len() < usize::MAX,
            1 <= n <= bound + 1,
            forall|k: nat|
                1 <= k < n ==> texts(taken@).contains(#[trigger] file_name(base@, k, ext@)),
        decreases bound + 1 - n,
    {
        let name = numbered_file(base, n, ext);
        if !holds_entry(taken, name.as_str()) {
            return n;
        }
        proof {
            assert forall|k: nat| 1 <= k <= n implies texts(taken@).contains(
                #[trigger] file_name(base@, k, ext@),
            ) by {}
            lemma_taken(base@, ext@, n as nat, texts(taken@));
        }
        n = n + 1;
    }
}

/// The name of a file with a number and an extension.
pub fn numbered_file(base: &str, n: u64, ext: &str) -> (r: String)
    ensures
        r@ == file_name(base@, n as nat, ext@),
{
    let stem = if n <= 1 {
        copy_text(base)
    } else {
        cat3(base, "_", decimal_text(n).as_str())
    };
    cat3(stem.as_str(), ".", ext)
}

impl AppV {
    /// The name that files get for the title shown.
    pub open spec fn safe_title(self) -> Seq<char> {
        stem_for(
            clean_title(
                text_or(text_in(get_in(self.selected_details, "title"@)), "MovieBox-Tui_Stream"@),
            ),
        )
    }

    /// Whether the title shown is a series.
    pub open spec fn is_series_download(self) -> bool {
        media_kind(self.selected_details, "stype"@, "subjectType"@) == 2
    }

    /// The directory that a download goes to, below that of downloads.
    pub open spec fn download_dir(self) -> Seq<char> {
        if self.is_series_download() {
            "MovieBox-TUI/Series/"@ + self.safe_title() + "/Season "@ + decimal(
                self.ui.selected_season as nat,
            )
        } else {
            "MovieBox-TUI/Movies"@
        }
    }

    /// The name of the file of a download, but for a number and the extension.
    pub open spec fn download_name(self) -> Seq<char> {
        if self.is_series_download() {
            self.safe_title() + "_S"@ + decimal2(self.ui.selected_season as nat) + "E"@ + decimal2(
                self.ui.selected_episode as nat,
            )
        } else {
            self.safe_title()
        }
    }

    /// The extension of the file of a download.
    pub open spec fn download_extension(self) -> Seq<char> {
        video_extension(text_in(get_either(self.stream_marked(), "fileName"@, "title"@)))
    }

    /// With a download that waits for its stream, or the word that there is none.
    pub open spec fn download_postponed(self) -> AppV {
        if self.ui.is_fetching_streams {
            AppV { ui: Ui { is_waiting_for_download_stream: true, ..self.ui }, ..self }.notify(
                NotificationKind::Info,
                "Preparing download"@,
                "Waiting for stream details."@,
            )
        } else {
            self.notify(
                NotificationKind::Warning,
                "Download unavailable"@,
                "Select a downloadable stream first."@,
            )
        }
    }

    /// With a download that runs.
    pub open spec fn download_begun(self, link: Seq<char>, subtitle: Option<Seq<char>>) -> AppV {
        AppV {
            ui: Ui {
                is_waiting_for_download_stream: false,
                download_progress: Some(Progress { downloaded: 0, total: 0 }),
                ..self.ui
            },
            download_status: Some("Preparing download..."@),
            ..self
        }.ask(EffectOf::AllowDownload).notify(
            NotificationKind::Info,
            "Download started"@,
            "Partial data will be preserved."@,
        ).ask(
            EffectOf::StartDownload {
                link,
                subtitle,
                dir: self.download_dir(),
                base_name: self.download_name(),
                extension: self.download_extension(),
            },
        )
    }

    /// After a download was to start: nothing happens while another runs, or off the details screen.
    pub open spec fn download_started(
        self,
        subtitle: Option<Seq<char>>,
        link: Option<Seq<char>>,
    ) -> AppV {
        if self.ui.download_progress is Some || self.ui.active_screen != Screen::Details {
            self
        } else {
            match link {
                Some(l) => self.download_begun(l, subtitle),
                None => self.download_postponed(),
            }
        }
    }
}

impl App {
    /// The name that files get for the title shown.
    fn safe_title(&self) -> (r: String)
        ensures
            r@ == self@.safe_title(),
    {
        let title = or_text(
            text_of_json(get_of(borrowed(&self.selected_details), "title")),
            "MovieBox-Tui_Stream",
        );
        safe_file_stem(clean_moviebox_title(title.as_str()).as_str())
    }

    /// The directory, the name and the extension of a download.
    fn download_place(&self) -> (r: (String, String, String))
        ensures
            r.0@ == self@.download_dir(),
            r.1@ == self@.download_name(),
            r.2@ == self@.download_extension(),
    {
        let title = self.safe_title();
        let series = read_media_kind(borrowed(&self.selected_details), "stype", "subjectType") == 2;
        let extension = pick_extension(
            text_of_json(either_of(self.marked_stream(), "fileName", "title")),
        );
        if series {
            let season: u64 = self.ui.selected_season as u64;
            let episode: u64 = self.ui.selected_episode as u64;
            let dir = cat4(
                "MovieBox-TUI/Series/",
                title.as_str(),
                "/Season ",
                decimal_text(season).as_str(),
            );
            let name = cat5(
                title.as_str(),
                "_S",
                decimal2_text(season).as_str(),
                "E",
                decimal2_text(episode).as_str(),
            );
            (dir, name, extension)
        } else {
            (copy_text("MovieBox-TUI/Movies"), title, extension)
        }
    }

    /// Has a download wait for its stream, or says that there is none.
    fn postpone_download(&mut self)
        ensures
            final(self)@ == old(self)@.download_postponed(),
    {
        if self.ui.is_fetching_streams {
            self.ui = Ui { is_waiting_for_download_stream: true, ..self.ui };
            self.notify(
                NotificationKind::Info,
                "Preparing download",
                "Waiting for stream details.",
            );
        } else {
            self.notify(
                NotificationKind::Warning,
                "Download unavailable",
                "Select a downloadable stream first.",
            );
        }
    }

    /// Begins a download.
    fn begin_download(&mut self, link: String, subtitle: Option<String>)
        ensures
            final(self)@ == old(self)@.download_begun(link@, text_opt(subtitle)),
    {
        let (dir, base_name, extension) = self.download_place();
        self.download_status = Some(copy_text("Preparing download..."));
        self.ui = Ui {
            is_waiting_for_download_stream: false,
            download_progress: Some(Progress { downloaded: 0, total: 0 }),
            ..self.ui
        };
        self.ask(EffectOf::AllowDownload);
        self.notify(
            NotificationKind::Info,
            "Download started",
            "Partial data will be preserved.",
        );
        self.ask(EffectOf::StartDownload { link, subtitle, dir, base_name, extension });
    }

    /// A download is to start.
    pub fn start_resilient_download(&mut self, subtitle: Option<String>, link: Option<String>)
        ensures
            final(self)@ == old(self)@.download_started(text_opt(subtitle), text_opt(link)),
            final(self)@.steady(old(self)@),
    {
        if self.ui.download_progress.is_some() || self.ui.active_screen != Screen::Details {
            return ;
        }
        match link {
            Some(l) => self.begin_download(l, subtitle),
            None => self.postpone_download(),
        }
    }
}

/// The place of a download of the title shown lies below the directory of downloads: the names that
/// it is made of hold no slash.
pub proof fn law_title_has_no_slash(m: AppV, i: int)
    requires
        0 <= i < m.safe_title().len(),
    ensures
        m.safe_title()[i] != '/',
        m.safe_title()[i] != '\\',
{
    crate::download::law_stem_is_safe(
        clean_title(
            text_or(text_in(get_in(m.selected_details, "title"@)), "MovieBox-Tui_Stream"@),
        ),
    );
}

// ---------------------------------------------------------------------------
// Asking for a download
// ---------------------------------------------------------------------------

impl AppV {
    /// After the marked stream was to be downloaded.
    pub open spec fn stream_downloaded(self, subtitle: Option<Seq<char>>) -> AppV {
        if self.ui.active_provider == ProviderKind::FourKHdHub {
            match get_in(self.stream_marked(), "_fourk_release"@) {
                Some(release) => self.ask(EffectOf::ReadReleaseToDownload(release, subtitle)),
                None => self.send(ActionOf::StartDownload(subtitle, None)),
            }
        } else {
            self.send(
                ActionOf::StartDownload(
                    subtitle,
                    text_in(get_in(self.stream_marked(), "resourceLink"@)),
                ),
            )
        }
    }

    /// After what stands for a release was read. A download of what is none has no address.
    pub open spec fn read_release_downloaded(
        self,
        release: JsonV,
        readable: bool,
        subtitle: Option<Seq<char>>,
    ) -> AppV {
        if readable {
            self.notify(
                NotificationKind::Info,
                "Preparing download"@,
                "Resolving the selected mirror."@,
            ).ask(EffectOf::DownloadRelease(release, subtitle, self.lookup(subtitle is Some)))
        } else {
            self.send(ActionOf::StartDownload(subtitle, None))
        }
    }

    /// With the captions of a stream asked for, before it is downloaded.
    pub open spec fn captions_asked(self, subject_id: Seq<char>, resource_id: Seq<char>) -> AppV {
        self.notify(
            NotificationKind::Info,
            "Preparing download"@,
            "Fetching subtitles."@,
        ).ask(EffectOf::FetchDownloadCaptions { subject_id, resource_id })
    }

    /// With the download of an episode no longer to be confirmed.
    pub open spec fn episode_accepted(self) -> AppV {
        AppV { ui: Ui { show_episode_download_confirm: false, ..self.ui }, ..self }
    }

    /// With the download of an episode to be confirmed.
    pub open spec fn episode_prompted(self) -> AppV {
        AppV {
            ui: Ui {
                show_episode_download_confirm: true,
                episode_download_confirm_yes_selected: false,
                ..self.ui
            },
            ..self
        }
    }

    /// With the download of a season to be confirmed.
    pub open spec fn season_prompted(self) -> AppV {
        AppV {
            ui: Ui {
                show_season_download_confirm: true,
                season_download_confirm_yes_selected: false,
                ..self.ui
            },
            ..self
        }
    }

    /// After the download of an episode was confirmed.
    pub open spec fn episode_confirmed(self) -> AppV {
        match text_in(get_in(self.stream_marked(), "resourceId"@)) {
            Some(resource_id) => self.episode_accepted().captions_asked(
                text_or(self.active_subject_id, Seq::empty()),
                resource_id,
            ),
            None => self.episode_accepted().send(ActionOf::DownloadStream(None)),
        }
    }
}

impl App {
    /// The marked stream is to be downloaded.
    pub fn download_stream(&mut self, subtitle: Option<String>)
        ensures
            final(self)@ == old(self)@.stream_downloaded(text_opt(subtitle)),
            final(self)@.steady(old(self)@),
    {
        if self.ui.active_provider == ProviderKind::FourKHdHub {
            match self.get_selected_release() {
                Some(release) => self.ask(EffectOf::ReadReleaseToDownload(release, subtitle)),
                None => self.send(ActionOf::StartDownload(subtitle, None)),
            }
        } else {
            let link = self.get_selected_link();
            self.send(ActionOf::StartDownload(subtitle, link));
        }
    }

    /// What stands for a release was read, to be downloaded.
    pub fn download_read_release(
        &mut self,
        release: Json,
        readable: bool,
        subtitle: Option<String>,
    )
        ensures
            final(self)@ == old(self)@.read_release_downloaded(
                release@,
                readable,
                text_opt(subtitle),
            ),
            final(self)@.steady(old(self)@),
    {
        if readable {
            let lookup = self.choose_lookup(subtitle.is_some());
            self.notify(
                NotificationKind::Info,
                "Preparing download",
                "Resolving the selected mirror.",
            );
            self.ask(EffectOf::DownloadRelease(release, subtitle, lookup));
        } else {
            self.send(ActionOf::StartDownload(subtitle, None));
        }
    }

    /// Asks for the captions of a stream, before it is downloaded.
    fn ask_captions(&mut self, subject_id: String, resource_id: String)
        ensures
            final(self)@ == old(self)@.captions_asked(subject_id@, resource_id@),
    {
        self.notify(NotificationKind::Info, "Preparing download", "Fetching subtitles.");
        self.ask(EffectOf::FetchDownloadCaptions { subject_id, resource_id });
    }

    /// Has the download of an episode no longer confirmed.
    fn accept_episode(&mut self)
        ensures
            final(self)@ == old(self)@.episode_accepted(),
    {
        self.ui = Ui { show_episode_download_confirm: false, ..self.ui };
    }

    /// The download of an episode has to be confirmed.
    pub fn prompt_download_episode(&mut self)
        ensures
            final(self)@ == old(self)@.episode_prompted(),
            final(self)@.steady(old(self)@),
    {
        self.ui = Ui {
            show_episode_download_confirm: true,
            episode_download_confirm_yes_selected: false,
            ..self.ui
        };
    }

    /// The download of a season has to be confirmed.
    pub fn prompt_download_season(&mut self)
        ensures
            final(self)@ == old(self)@.season_prompted(),
            final(self)@.steady(old(self)@),
    {
        self.ui = Ui {
            show_season_download_confirm: true,
            season_download_confirm_yes_selected: false,
            ..self.ui
        };
    }

    /// Takes up the download of an episode.
    fn take_up_episode(&mut self)
        ensures
            final(self)@ == old(self)@.episode_confirmed(),
    {
        let rid = self.get_selected_resource_id();
        let subject_id = match self.subject() {
            Some(s) => s,
            None => String::new(),
        };
        self.accept_episode();
        match rid {
            Some(resource_id) => self.ask_captions(subject_id, resource_id),
            None => self.send(ActionOf::DownloadStream(None)),
        }
    }

    /// The download of an episode is confirmed.
    pub fn confirm_download_episode(&mut self)
        ensures
            final(self)@ == old(self)@.episode_confirmed(),
            final(self)@.steady(old(self)@),
    {
        proof {
            lemma_episode_confirmed(self@);
        }
        self.take_up_episode();
    }
}

// ---------------------------------------------------------------------------
// The queue of a season
// ---------------------------------------------------------------------------

/// The place of the first season with a number.
pub open spec fn season_place(seasons: Seq<JsonV>, number: usize) -> Option<int>
    decreases seasons.len(),
{
    if seasons.len() == 0 {
        None
    } else {
        let n = match int_in(seasons[0].get("se"@)) {
            Some(n) => n as usize,
            None => 0,
        };
        if n == number {
            Some(0)
        } else {
            match season_place(seasons.skip(1), number) {
                Some(i) => Some(i + 1),
                None => None,
            }
        }
    }
}

/// The place of the first season with a number.
fn find_season(seasons: &Vec<Json>, number: usize) -> (r: Option<usize>)
    ensures
        match r {
            Some(i) => season_place(json_list(seasons@), number) == Some(i as int),
            None => season_place(json_list(seasons@), number) is None,
        },
{
    let ghost list = json_list(seasons@);
    let mut i: usize = 0;
    assert(list.skip(0) =~= list);
    while i < seasons.len()
        invariant
            i <= seasons@.len(),
            list == json_list(seasons@),
            season_place(list, number) == (match season_place(list.skip(i as int), number) {
                Some(k) => Some(k + i),
                None => None,
            }),
        decreases seasons@.len() - i,
    {
        proof {
            assert(list.skip(i as int)[0] == seasons@[i as int]@);
            assert(list.skip(i as int).skip(1) =~= list.skip(i + 1));
        }
        let n: usize = match int_of(seasons[i].get("se")) {
            Some(n) => #[verifier::truncate] (n as usize),
            None => 0,
        };
        if n == number {
            return Some(i);
        }
        i = i + 1;
    }
    None
}

/// The episodes of a season, to be downloaded.
pub open spec fn queue_of(season: usize, episodes: Seq<usize>) -> Seq<(usize, usize)> {
    Seq::new(episodes.len(), |i: int| (season, episodes[i]))
}

impl AppV {
    /// The place of the season shown, if its episodes are known.
    pub open spec fn shown_season(self) -> Option<int> {
        match season_place(self.available_seasons, self.ui.selected_season) {
            Some(i) => if i < self.available_episode_numbers.len() {
                Some(i)
            } else {
                None
            },
            None => None,
        }
    }

    /// With the season no longer to be confirmed, and no subtitle wanted for it.
    pub open spec fn season_accepted(self) -> AppV {
        AppV {
            ui: Ui { show_season_download_confirm: false, ..self.ui },
            season_subtitle_preference: None,
            ..self
        }
    }

    /// With episodes queued.
    pub open spec fn queued(self, queue: Seq<(usize, usize)>) -> AppV {
        AppV {
            ui: Ui { download_queue_total: queue.len() as usize, ..self.ui },
            download_queue: queue,
            ..self
        }.send(ActionOf::ProcessDownloadQueue)
    }

    /// After the download of a season was confirmed.
    pub open spec fn season_confirmed(self) -> AppV {
        match self.shown_season() {
            Some(i) => self.season_accepted().queued(
                queue_of(self.ui.selected_season, self.available_episode_numbers[i]),
            ),
            None => self.season_accepted(),
        }
    }

    /// With the word that a season is complete, if one was downloaded.
    pub open spec fn season_done(self) -> AppV {
        if self.ui.download_queue_total > 0 {
            AppV { ui: Ui { download_queue_total: 0, ..self.ui }, ..self }.notify(
                NotificationKind::Success,
                "Season downloaded"@,
                decimal(self.ui.download_queue_total as nat) + " files completed."@,
            )
        } else {
            self
        }
    }

    /// After the first episode of the queue was taken up.
    pub open spec fn queue_taken(self) -> AppV {
        let (season, episode) = self.download_queue[0];
        let total = self.ui.download_queue_total;
        AppV {
            ui: Ui { selected_season: season, selected_episode: episode, ..self.ui },
            download_queue: self.download_queue.skip(1),
            ..self
        }.notify(
            NotificationKind::Info,
            "Preparing episode"@,
            "S"@ + decimal2(season as nat) + "E"@ + decimal2(episode as nat) + " \u{b7} "@ + decimal(
                (total - (self.download_queue.len() - 1)) as nat,
            ) + "/"@ + decimal(total as nat),
        ).send(
            ActionOf::FetchEpisodeStreams {
                subject_id: text_or(self.active_subject_id, Seq::empty()),
                season,
                episode,
                force_refresh: false,
            },
        ).send(ActionOf::DownloadStream(None))
    }

    /// After the next episode of the queue fell due.
    pub open spec fn queue_processed(self) -> AppV {
        if self.ui.download_progress is Some {
            self.ask(EffectOf::SendAfter(2000, ActionOf::ProcessDownloadQueue))
        } else if self.download_queue.len() > 0 {
            self.queue_taken()
        } else {
            self.season_done()
        }
    }
}

impl App {
    /// The place of the season shown, if its episodes are known.
    fn shown_season(&self) -> (r: Option<usize>)
        ensures
            match r {
                Some(i) => self@.shown_season() == Some(i as int) && i
                    < self.available_episode_numbers@.len(),
                None => self@.shown_season() is None,
            },
    {
        match find_season(&self.available_seasons, self.ui.selected_season) {
            Some(i) => if i < self.available_episode_numbers.len() {
                Some(i)
            } else {
                None
            },
            None => None,
        }
    }

    /// Has the season no longer confirmed, and no subtitle wanted for it.
    fn accept_season(&mut self)
        ensures
            final(self)@ == old(self)@.season_accepted(),
    {
        self.season_subtitle_preference = None;
        self.ui = Ui { show_season_download_confirm: false, ..self.ui };
    }

    /// The episodes of a season, to be downloaded.
    fn make_queue(&self, i: usize) -> (r: Vec<(usize, usize)>)
        requires
            i < self.available_episode_numbers@.len(),
        ensures
            r@ == queue_of(
                self@.ui.selected_season,
                self@.available_episode_numbers[i as int],
            ),
    {
        let season: usize = self.ui.selected_season;
        let numbers = &self.available_episode_numbers[i];
        let mut queue: Vec<(usize, usize)> = Vec::new();
        let mut k: usize = 0;
        while k < numbers.len()
            invariant
                k <= numbers@.len(),
                queue@ =~= queue_of(season, numbers@).take(k as int),
            decreases numbers@.len() - k,
        {
            queue.push((season, numbers[k]));
            k = k + 1;
        }
        assert(queue@ =~= queue_of(season, numbers@));
        queue
    }

    /// Queues episodes.
    fn queue_up(&mut self, queue: Vec<(usize, usize)>)
        ensures
            final(self)@ == old(self)@.queued(queue@),
            final(self)@.queue() == (queue@, queue@.len() as usize),
            queue@.len() <= usize::MAX,
    {
        let n: usize = queue.len();
        self.download_queue = queue;
        self.ui = Ui { download_queue_total: n, ..self.ui };
        self.send(ActionOf::ProcessDownloadQueue);
    }

    /// The download of a season is confirmed.
    pub fn confirm_download_season(&mut self)
        ensures
            final(self)@ == old(self)@.season_confirmed(),
            final(self)@.fitting(old(self)@),
    {
        match self.shown_season() {
            Some(i) => {
                let queue = self.make_queue(i);
                self.accept_season();
                self.queue_up(queue);
            },
            None => self.accept_season(),
        }
    }

    /// Says that a season is complete, if one was downloaded.
    fn finish_season(&mut self)
        ensures
            final(self)@ == old(self)@.season_done(),
    {
        if self.ui.download_queue_total > 0 {
            let text = cat2(
                decimal_text(self.ui.download_queue_total as u64).as_str(),
                " files completed.",
            );
            self.ui = Ui { download_queue_total: 0, ..self.ui };
            self.notify(NotificationKind::Success, "Season downloaded", text.as_str());
        }
    }

    /// Takes up the first episode of the queue.
    fn take_queue(&mut self)
        requires
            old(self)@.download_queue.len() > 0,
            old(self)@.download_queue.len() - 1 <= old(self)@.ui.download_queue_total,
        ensures
            final(self)@ == old(self)@.queue_taken(),
    {
        let ghost queue = self.download_queue@;
        let (season, episode) = self.download_queue.remove(0);
        proof {
            assert(self.download_queue@ =~= queue.skip(1));
        }
        let total: usize = self.ui.download_queue_total;
        let number: usize = total - self.download_queue.len();
        let subject_id = match self.subject() {
            Some(s) => s,
            None => String::new(),
        };
        let mut text = cat5(
            "S",
            decimal2_text(season as u64).as_str(),
            "E",
            decimal2_text(episode as u64).as_str(),
            " \u{b7} ",
        );
        text.append(decimal_text(number as u64).as_str());
        text.append("/");
        text.append(decimal_text(total as u64).as_str());
        self.ui = Ui { selected_season: season, selected_episode: episode, ..self.ui };
        self.notify(NotificationKind::Info, "Preparing episode", text.as_str());
        self.send(
            ActionOf::FetchEpisodeStreams { subject_id, season, episode, force_refresh: false },
        );
        self.send(ActionOf::DownloadStream(None));
    }

    /// The next episode of the queue is due.
    pub fn process_download_queue(&mut self)
        requires
            old(self)@.ui.download_progress is None ==> old(self)@.download_queue.len()
                <= old(self)@.ui.download_queue_total + 1,
        ensures
            final(self)@ == old(self)@.queue_processed(),
            final(self)@.fitting(old(self)@),
    {
        if self.ui.download_progress.is_some() {
            self.ask(EffectOf::SendAfter(2000, ActionOf::ProcessDownloadQueue));
        } else if self.download_queue.len() > 0 {
            self.take_queue();
        } else {
            self.finish_season();
        }
    }
}

/// Confirming the download of an episode changes neither the provider nor the queue of downloads.
proof fn lemma_episode_confirmed(m: AppV)
    ensures
        m.episode_confirmed().steady(m),
{
}

/// An episode that is taken up leaves the others in the queue, in their order, and the number of
/// episodes queued as it was.
pub proof fn law_queue_in_order(m: AppV)
    requires
        m.ui.download_progress is None,
        m.download_queue.len() > 0,
    ensures
        m.queue_processed().download_queue == m.download_queue.skip(1),
        m.queue_processed().ui.download_queue_total == m.ui.download_queue_total,
        m.queue_processed().ui.selected_season == m.download_queue[0].0,
        m.queue_processed().ui.selected_episode == m.download_queue[0].1,
{
}

// ---------------------------------------------------------------------------
// The course of a download
// ---------------------------------------------------------------------------

impl AppV {
    /// With no download shown.
    pub open spec fn download_hidden(self) -> AppV {
        AppV { ui: Ui { download_progress: None, ..self.ui }, download_status: None, ..self }
    }

    /// With the queue given up.
    pub open spec fn queue_dropped(self) -> AppV {
        AppV {
            ui: Ui { download_progress: None, download_queue_total: 0, ..self.ui },
            download_status: None,
            download_queue: Seq::empty(),
            ..self
        }
    }

    /// After a download has come further: the screen is drawn again only if something has changed.
    pub open spec fn download_updated(
        self,
        progress: Option<Progress>,
        status: Option<Seq<char>>,
    ) -> AppV {
        if self.shows(progress, status) {
            self
        } else {
            self.download_set(progress, status)
        }
    }

    /// Whether a download is shown as it is.
    pub open spec fn shows(self, progress: Option<Progress>, status: Option<Seq<char>>) -> bool {
        self.ui.download_progress == progress && self.download_status == status
    }

    /// With a download shown, and the screen to be drawn again.
    pub open spec fn download_set(
        self,
        progress: Option<Progress>,
        status: Option<Seq<char>>,
    ) -> AppV {
        AppV {
            ui: Ui { download_progress: progress, dirty: true, ..self.ui },
            download_status: status,
            ..self
        }
    }

    /// After a download was completed.
    pub open spec fn download_completed(self, path: Seq<char>) -> AppV {
        AppV {
            ui: Ui { download_progress: Some(Progress { downloaded: 1, total: 1 }), ..self.ui },
            download_status: Some("Completed"@),
            ..self
        }.notify(NotificationKind::Success, "Download complete"@, "Saved to "@ + path).ask(
            EffectOf::SendAfter(2000, ActionOf::ClearDownload),
        )
    }

    /// After the download shown was done with.
    pub open spec fn download_cleared(self) -> AppV {
        let m = self.download_hidden();
        if self.download_queue.len() > 0 {
            m.send(ActionOf::ProcessDownloadQueue)
        } else {
            m.season_done()
        }
    }

    /// After the running download was to stop.
    pub open spec fn download_cancelled(self) -> AppV {
        AppV { download_status: Some("Cancelling..."@), ..self }.ask(
            EffectOf::StopDownload,
        ).notify(
            NotificationKind::Warning,
            "Cancelling download"@,
            "Partial data will be preserved."@,
        )
    }
}

impl App {
    /// Shows no download.
    fn hide_download(&mut self)
        ensures
            final(self)@ == old(self)@.download_hidden(),
    {
        self.download_status = None;
        self.ui = Ui { download_progress: None, ..self.ui };
    }

    /// Gives up the queue.
    fn drop_queue(&mut self)
        ensures
            final(self)@ == old(self)@.queue_dropped(),
    {
        self.download_status = None;
        self.download_queue = Vec::new();
        assert(self.download_queue@ =~= Seq::empty());
        self.ui = Ui { download_progress: None, download_queue_total: 0, ..self.ui };
    }

    /// A download has come further.
    pub fn update_download(&mut self, progress: Option<Progress>, status: Option<String>)
        ensures
            final(self)@ == old(self)@.download_updated(progress, text_opt(status)),
            final(self)@.steady(old(self)@),
    {
        if !self.shows(progress, &status) {
            self.set_download(progress, status);
        }
    }

    /// Whether a download is shown as it is.
    fn shows(&self, progress: Option<Progress>, status: &Option<String>) -> (r: bool)
        ensures
            r == self@.shows(progress, text_opt(*status)),
    {
        let still = match (self.ui.download_progress, progress) {
            (Some(a), Some(b)) => a == b,
            (None, None) => true,
            _ => false,
        };
        still && same_text_opt(&self.download_status, status)
    }

    /// Shows a download, and has the screen drawn again.
    fn set_download(&mut self, progress: Option<Progress>, status: Option<String>)
        ensures
            final(self)@ == old(self)@.download_set(progress, text_opt(status)),
    {
        self.download_status = status;
        self.ui = Ui { download_progress: progress, dirty: true, ..self.ui };
    }

    /// A download is complete.
    pub fn download_completed(&mut self, path: &str)
        ensures
            final(self)@ == old(self)@.download_completed(path@),
            final(self)@.steady(old(self)@),
    {
        self.download_status = Some(copy_text("Completed"));
        self.ui = Ui {
            download_progress: Some(Progress { downloaded: 1, total: 1 }),
            ..self.ui
        };
        let text = cat2("Saved to ", path);
        self.notify(NotificationKind::Success, "Download complete", text.as_str());
        self.ask(EffectOf::SendAfter(2000, ActionOf::ClearDownload));
    }

    /// A download has failed.
    pub fn download_failed(&mut self, error: &str)
        ensures
            final(self)@ == old(self)@.queue_dropped().notify(
                NotificationKind::Error,
                "Download failed"@,
                "Partial file preserved. "@ + error@,
            ),
            final(self)@.fitting(old(self)@),
    {
        self.drop_queue();
        let text = cat2("Partial file preserved. ", error);
        self.notify(NotificationKind::Error, "Download failed", text.as_str());
    }

    /// A download was paused.
    pub fn download_paused(&mut self, path: &str)
        ensures
            final(self)@ == old(self)@.queue_dropped().notify(
                NotificationKind::Warning,
                "Download paused"@,
                "Start again to resume "@ + path@ + ".part"@,
            ),
            final(self)@.fitting(old(self)@),
    {
        self.drop_queue();
        let text = cat3("Start again to resume ", path, ".part");
        self.notify(NotificationKind::Warning, "Download paused", text.as_str());
    }

    /// The download shown is done with.
    pub fn clear_download(&mut self)
        ensures
            final(self)@ == old(self)@.download_cleared(),
            final(self)@.fitting(old(self)@),
    {
        self.hide_download();
        if self.download_queue.len() > 0 {
            self.send(ActionOf::ProcessDownloadQueue);
        } else {
            self.finish_season();
        }
    }

    /// The running download is to stop.
    pub fn cancel_download(&mut self)
        ensures
            final(self)@ == old(self)@.download_cancelled(),
            final(self)@.steady(old(self)@),
    {
        self.download_status = Some(copy_text("Cancelling..."));
        self.ask(EffectOf::StopDownload);
        self.notify(
            NotificationKind::Warning,
            "Cancelling download",
            "Partial data will be preserved.",
        );
    }
}

/// What follows the captions of a stream to download, or that there are none.
pub open spec fn download_captions(answer: Option<JsonV>) -> ActionV {
    match answer {
        Some(a) => ActionOf::ShowDownloadSubtitlePopup(a),
        None => ActionOf::DownloadStream(None),
    }
}

/// What follows the captions of a stream to download, or that there are none.
pub fn download_captions_action(answer: Option<Json>) -> (r: Action)
    ensures
        r@ == download_captions(json_opt(answer)),
{
    match answer {
        Some(a) => ActionOf::ShowDownloadSubtitlePopup(a),
        None => ActionOf::DownloadStream(None),
    }
}

/// What follows a release that was resolved for a download, or could not be.
pub open spec fn release_download(
    url: Result<Seq<char>, Seq<char>>,
    subtitle: Option<Seq<char>>,
) -> ActionV {
    match url {
        Ok(u) => ActionOf::StartDownload(subtitle, Some(u)),
        Err(e) => ActionOf::SetStatus("Resolve failed: "@ + e),
    }
}

/// What follows a release that was resolved for a download, or could not be.
pub fn release_download_action(url: Result<String, String>, subtitle: Option<String>) -> (r: Action)
    ensures
        r@ == release_download(
            match url {
                Ok(u) => Ok(u@),
                Err(e) => Err(e@),
            },
            text_opt(subtitle),
        ),
{
    match url {
        Ok(u) => ActionOf::StartDownload(subtitle, Some(u)),
        Err(e) => ActionOf::SetStatus(cat2("Resolve failed: ", e.as_str())),
    }
}

} // verus!
