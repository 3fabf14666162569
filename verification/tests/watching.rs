use moviebox_tui::json::Json;
use moviebox_tui::providers::models::ProviderKind;
use moviebox_tui::providers::subtitles::{choose_lookup, Lookup};
use moviebox_tui::tui::downloads::{
    download_captions_action, first_free, numbered_file, release_download_action,
};
use moviebox_tui::tui::hunt::{
    hunt_action, releases_action, season_captions_action, Page, Releases, StreamHunt,
};
use moviebox_tui::tui::embedded::{ProbeReport, ProbeTrack};
use moviebox_tui::tui::navigate::subtitle_action;
use moviebox_tui::tui::playback::{captions_action, release_action};
use moviebox_tui::tui::state::{
    Action, ActionOf, App, DetailsPane, Effect, EffectOf, Key, KeyCode, NotificationKind, Pictures,
    PlaybackSource, PlayerKind, Progress, Screen, SearchResultOf, Surroundings, ThenOf, TvCatalog,
};

fn text(s: &str) -> Json {
    Json::Text(s.to_string())
}

fn number(n: u64) -> Json {
    Json::Unsigned(n)
}

fn object(members: Vec<(&str, Json)>) -> Json {
    Json::Object(members.into_iter().map(|(k, v)| (k.to_string(), v)).collect())
}

fn home() -> App {
    let catalog = TvCatalog { categories: vec![], languages: vec![], countries: vec![] };
    let mut app = App::new(None, catalog);
    app.observe(around(10_000, false));
    app.ui.active_screen = Screen::Home;
    app
}

fn around(now: u64, os_enabled: bool) -> Surroundings {
    Surroundings {
        now,
        os_enabled,
        subdl_enabled: false,
        probe_enabled: false,
        quota: None,
        visible_items: 5,
    }
}

fn act(app: &mut App, action: Action) -> Vec<Effect> {
    assert!(app.accepts(&action));
    assert!(!app.handle_action(action));
    app.take_effects()
}

fn press(app: &mut App, code: KeyCode) -> Vec<Effect> {
    act(app, ActionOf::Key(Key { code, ctrl: false, shift: false, other: false }))
}

fn sent(effects: &[Effect]) -> Vec<&Action> {
    effects
        .iter()
        .filter_map(|e| match e {
            EffectOf::Send(a) => Some(a),
            _ => None,
        })
        .collect()
}

const NO_PICTURES: Pictures = Pictures { shown: false, kept: false };

/// A series with two seasons, of which the second lists its episodes.
fn series() -> Json {
    object(vec![
        ("title", text("Dark S1-S2")),
        ("subjectType", number(2)),
        ("releaseDate", text("2017-12-01")),
        (
            "seasons",
            object(vec![(
                "seasons",
                Json::List(vec![
                    object(vec![("se", number(1)), ("maxEp", number(3))]),
                    object(vec![("se", number(2)), ("maxEp", number(9)), ("allEp", text("1, 2,x,4"))]),
                ]),
            )]),
        ),
    ])
}

fn stream(se: u64, ep: u64, resolution: u64, link: &str) -> Json {
    object(vec![
        ("se", number(se)),
        ("ep", number(ep)),
        ("resolution", number(resolution)),
        ("resourceLink", text(link)),
        ("resourceId", text(&format!("r-{link}"))),
    ])
}

/// An application that shows the details of a title.
fn showing(details: Json) -> App {
    let mut app = home();
    app.ui.active_screen = Screen::Details;
    let context = app.request_context();
    act(&mut app, ActionOf::DetailsSuccess(context, "s1".into(), details, NO_PICTURES));
    app
}

fn ready(app: &mut App, streams: Vec<Json>) -> Vec<Effect> {
    let action = ActionOf::EpisodeStreamsReady(
        app.request_context(),
        app.ui.active_resource_request,
        "s1".into(),
        app.ui.selected_season,
        app.ui.selected_episode,
        Json::List(streams),
    );
    act(app, action)
}

fn links(app: &App) -> Vec<String> {
    match app.selected_resources.as_ref().and_then(|r| r.get("list")) {
        Some(Json::List(v)) => v
            .iter()
            .map(|j| j.get("resourceLink").and_then(|l| l.as_text()).cloned().unwrap_or_default())
            .collect(),
        _ => Vec::new(),
    }
}

/// A film with one stream that can be played.
fn film() -> App {
    let mut app = showing(object(vec![
        ("title", text("Alien (1979)")),
        ("id", text("d1")),
        ("year", number(1979)),
    ]));
    app.stream_pool.start("s1".into(), vec![]);
    app.ui.selected_season = 0;
    app.ui.selected_episode = 0;
    ready(&mut app, vec![stream(0, 0, 720, "http://f/a.mkv")]);
    app
}

#[test]
fn a_result_is_opened() {
    let mut app = home();
    app.search_results = vec![SearchResultOf {
        id: "s1".to_string(),
        title: "Dark".to_string(),
        stype: 2,
        release_year: String::new(),
        cover_url: None,
        season: 0,
    }];
    app.ui.search_selected = Some(0);
    // Nothing is opened right after typing.
    app.ui.last_search_edit = 9_501;
    assert!(act(&mut app, ActionOf::Submit).is_empty());
    app.ui.last_search_edit = 9_500;
    let asked = act(&mut app, ActionOf::Submit);
    assert_eq!(app.ui.active_screen, Screen::Details);
    assert_eq!(app.status_message, "Loading details for Dark...");
    assert!(matches!(sent(&asked)[0], ActionOf::FetchDetails(id, false) if id == "s1"));
    let asked = act(&mut app, ActionOf::FetchDetails("s1".into(), false));
    assert!(asked.iter().any(|e| matches!(e, EffectOf::FetchDetails(_, id, false) if id == "s1")));
}

#[test]
fn details_list_the_episodes() {
    let app = showing(series());
    assert_eq!(app.available_episode_numbers, vec![vec![1, 2, 3], vec![1, 2, 4]]);
    assert_eq!(app.ui.details_pane, DetailsPane::Seasons);
    assert_eq!((app.ui.selected_season, app.ui.selected_episode), (1, 1));
    assert_eq!(app.active_subject_id.as_deref(), Some("s1"));
    // A series without seasons has one, as long as its first source says.
    let bare = showing(object(vec![
        ("stype", number(2)),
        ("resourceDetectors", Json::List(vec![object(vec![("totalEpisode", number(2))])])),
    ]));
    assert_eq!(bare.available_episode_numbers, vec![vec![1, 2]]);
    let film = showing(object(vec![]));
    assert!(film.available_seasons.is_empty());
    assert_eq!(film.ui.details_pane, DetailsPane::Streams);
}

#[test]
fn languages_are_asked_for_first() {
    let dub = |id: &str| object(vec![("subjectId", text(id))]);
    let details = || {
        object(vec![
            ("title", text("Dark")),
            ("dubs", Json::List(vec![dub("s0"), dub("s1"), dub("s2")])),
        ])
    };
    let mut app = showing(details());
    assert_eq!(app.ui.details_pane, DetailsPane::Languages);
    assert_eq!(app.ui.language_selected, Some(1));
    assert_eq!(app.status_message, "Please select a language dubbing.");
    let asked = act(&mut app, ActionOf::MoveDown);
    assert!(matches!(sent(&asked)[0], ActionOf::SelectLanguage(2)));
    let asked = act(&mut app, ActionOf::SelectLanguage(2));
    assert!(app.ui.language_chosen);
    assert!(matches!(sent(&asked)[0], ActionOf::FetchDetails(id, false) if id == "s2"));
    // The title is kept, and what is not kept is fresh.
    let context = app.request_context();
    let fresh = object(vec![("title", text("Other")), ("stype", number(1))]);
    let asked = act(&mut app, ActionOf::DetailsSuccess(context, "s2".into(), fresh, NO_PICTURES));
    let shown = app.selected_details.as_ref().unwrap();
    assert_eq!(shown.get("title").and_then(|t| t.as_text()).map(|s| s.as_str()), Some("Dark"));
    assert_eq!(shown.get("stype").and_then(|t| t.as_int()), Some(1));
    assert!(matches!(sent(&asked)[0], ActionOf::InitStreamPool(id) if id == "s2"));
    assert!(act(&mut app, ActionOf::SelectLanguage(9)).is_empty());
}

#[test]
fn streams_are_collected_and_ordered() {
    let mut app = showing(series());
    let asked = act(&mut app, ActionOf::InitStreamPool("s1".into()));
    assert!(matches!(&asked[0], EffectOf::FetchResolutions(id) if id == "s1"));
    let asked = act(&mut app, ActionOf::StreamPoolInitialized("s1".into(), vec![720]));
    assert!(matches!(
        sent(&asked)[0],
        ActionOf::FetchEpisodeStreams { season: 1, episode: 1, force_refresh: false, .. }
    ));
    let asked = act(
        &mut app,
        ActionOf::FetchEpisodeStreams {
            subject_id: "s1".into(),
            season: 1,
            episode: 1,
            force_refresh: false,
        },
    );
    assert!(matches!(&asked[0], EffectOf::HuntStreams { page: 1, episode: 1, .. }));
    let asked = ready(
        &mut app,
        vec![
            stream(1, 1, 360, "a"),
            stream(1, 1, 1080, "b"),
            stream(1, 2, 720, "c"),
            stream(1, 1, 360, "a"),
            stream(1, 1, 1080, "d"),
        ],
    );
    assert_eq!(links(&app), vec!["b", "d", "a"]);
    assert_eq!(app.status_message, "3 streams available.");
    assert_eq!(app.ui.resource_selected, Some(0));
    assert!(matches!(&asked[0], EffectOf::SaveStreamCache(_, _, 1, 1, _)));
    assert_eq!(app.hunt_for("s1", 1, 1, 1).asks(), vec![1080, 720, 360]);
    assert_eq!(app.get_selected_link().as_deref(), Some("b"));
    // The next episode is known already, and is shown after a moment.
    app.ui.details_pane = DetailsPane::Episodes;
    let asked = act(&mut app, ActionOf::MoveDown);
    assert_eq!(app.ui.selected_episode, 2);
    assert!(matches!(
        &asked[0],
        EffectOf::SendAfter(120, ActionOf::EpisodeStreamsReady(_, _, _, 1, 2, _))
    ));
    // The one after is looked for in the cache, and once the user rests.
    let asked = act(&mut app, ActionOf::MoveDown);
    assert!(matches!(&asked[0], EffectOf::ReadStreamCache(_, _, 1, 3)));
    act(&mut app, ActionOf::StreamCacheRead("s1".into(), 1, 3, None));
    app.observe(around(10_299, false));
    assert!(act(&mut app, ActionOf::Tick(false)).is_empty());
    app.observe(around(10_300, false));
    let asked = act(&mut app, ActionOf::Tick(false));
    assert!(matches!(
        sent(&asked)[0],
        ActionOf::FetchEpisodeStreams { season: 1, episode: 3, force_refresh: false, .. }
    ));
}

#[test]
fn late_streams_are_not_shown() {
    let mut app = film();
    let context = app.request_context();
    let request = app.ui.active_resource_request;
    act(
        &mut app,
        ActionOf::EpisodeStreamsReady(context, request + 1, "s1".into(), 0, 0, Json::List(vec![])),
    );
    act(
        &mut app,
        ActionOf::EpisodeStreamsFailed(context, request, "s2".into(), 0, 0, "x".into()),
    );
    assert_eq!(links(&app), vec!["http://f/a.mkv"]);
    act(
        &mut app,
        ActionOf::EpisodeStreamsFailed(context, request, "s1".into(), 0, 0, "Rate Limit".into()),
    );
    assert_eq!(app.stream_error.as_deref(), Some("Rate Limit"));
    assert_eq!(app.status_message, "Error: Rate Limit");
}

#[test]
fn a_refresh_passes_over_what_is_known() {
    let mut app = film();
    let asked = act(&mut app, ActionOf::Refresh);
    assert!(matches!(&asked[0], EffectOf::InvalidateStreamCache(_, id, 0, 0) if id == "s1"));
    let asked = act(
        &mut app,
        ActionOf::FetchEpisodeStreams {
            subject_id: "s1".into(),
            season: 0,
            episode: 0,
            force_refresh: true,
        },
    );
    assert!(matches!(&asked[0], EffectOf::HuntStreams { force_refresh: true, .. }));
    ready(&mut app, vec![stream(0, 0, 720, "x")]);
    let asked = act(
        &mut app,
        ActionOf::FetchEpisodeStreams {
            subject_id: "s1".into(),
            season: 0,
            episode: 0,
            force_refresh: false,
        },
    );
    assert!(matches!(&asked[0], EffectOf::SendAfter(120, _)));
}

#[test]
fn pages_are_estimated_from_the_seasons_before() {
    let mut app = showing(series());
    app.available_seasons = vec![
        object(vec![("se", number(1)), ("maxEp", number(30))]),
        object(vec![("se", number(2)), ("maxEp", number(30))]),
    ];
    app.stream_pool.start("s1".into(), vec![]);
    let asked = act(
        &mut app,
        ActionOf::FetchEpisodeStreams {
            subject_id: "s1".into(),
            season: 2,
            episode: 11,
            force_refresh: false,
        },
    );
    assert!(matches!(&asked[0], EffectOf::HuntStreams { page: 3, .. }));
}

fn page(items: Vec<Json>, more: bool) -> Page {
    Page { items, pager: object(vec![("hasMore", Json::Bool(more))]) }
}

#[test]
fn hunts_end_with_the_episode() {
    let mut hunt = StreamHunt::new(1, 5, 2, vec![1080, 720]);
    assert_eq!(hunt.asks(), vec![1080, 720]);
    hunt.answer(vec![page(vec![stream(1, 4, 1080, "a")], true), page(vec![], false)]);
    assert!(!hunt.done);
    assert_eq!(hunt.page, 3);
    hunt.answer(vec![page(vec![stream(1, 5, 1080, "b")], true)]);
    assert!(hunt.done && hunt.found);
    assert!(matches!(hunt.outcome(), Some(Json::List(v)) if v.len() == 2));
    let mut hunt = StreamHunt::new(1, 5, 1, vec![]);
    assert_eq!(hunt.asks(), vec![0]);
    hunt.answer(vec![page(vec![], true)]);
    assert!(hunt.done);
    assert!(hunt.outcome().is_none());
    let mut hunt = StreamHunt::new(1, 5, 60, vec![]);
    hunt.answer(vec![page(vec![stream(1, 1, 1, "a")], true)]);
    assert!(hunt.done);
}

#[test]
fn films_are_hunted_from_the_first_page() {
    let mut hunt = StreamHunt::new(0, 0, 7, vec![1080]);
    assert_eq!(hunt.page, 1);
    assert_eq!(hunt.asks(), vec![0]);
    for _ in 0..9 {
        hunt.answer(vec![page(vec![stream(0, 0, 1, "a")], true)]);
        assert!(!hunt.done);
    }
    hunt.answer(vec![page(vec![stream(0, 0, 1, "a")], true)]);
    assert!(hunt.done);
    let mut hunt = StreamHunt::new(0, 0, 1, vec![]);
    hunt.answer(vec![page(vec![stream(0, 0, 1, "a")], true)]);
    hunt.give_up();
    assert!(hunt.done);
    assert!(hunt.outcome().is_some());
}

#[test]
fn outcomes_of_hunts_become_actions() {
    let context = home().request_context();
    assert!(matches!(
        hunt_action(context, 1, "s".into(), 1, 1, None),
        ActionOf::EpisodeStreamsFailed(_, 1, _, 1, 1, e) if e == "Rate Limit"
    ));
    assert!(matches!(
        hunt_action(context, 1, "s".into(), 1, 1, Some(Json::List(vec![]))),
        ActionOf::EpisodeStreamsReady(..)
    ));
    assert!(matches!(
        releases_action(context, 1, "s".into(), 1, 1, Releases::Nothing),
        ActionOf::EpisodeStreamsFailed(_, _, _, _, _, e) if e == "No exact release found"
    ));
    assert!(matches!(
        releases_action(context, 1, "s".into(), 1, 1, Releases::Failed("down".into())),
        ActionOf::EpisodeStreamsFailed(_, _, _, _, _, e) if e == "down"
    ));
    let captions = || {
        Json::List(vec![
            object(vec![("language", text("en")), ("url", text("http://en"))]),
            object(vec![("language", text("id")), ("url", text("http://id"))]),
        ])
    };
    assert!(matches!(
        season_captions_action(Some(captions()), Some("id".into())),
        ActionOf::DownloadStream(Some(u)) if u == "http://id"
    ));
    assert!(matches!(
        season_captions_action(Some(captions()), Some("fr".into())),
        ActionOf::DownloadStream(None)
    ));
    assert!(matches!(
        season_captions_action(Some(captions()), None),
        ActionOf::ShowDownloadSubtitlePopup(_)
    ));
    assert!(matches!(season_captions_action(None, None), ActionOf::DownloadStream(None)));
}

fn captions(v: Vec<(&str, &str)>) -> Json {
    let list = v
        .into_iter()
        .map(|(name, url)| object(vec![("lanName", text(name)), ("url", text(url))]))
        .collect();
    object(vec![("extCaptions", Json::List(list))])
}

#[test]
fn playing_asks_for_captions() {
    let mut app = film();
    let asked = press(&mut app, KeyCode::Enter);
    assert!(matches!(sent(&asked)[0], ActionOf::PlayStream(false)));
    let asked = act(&mut app, ActionOf::PlayStream(false));
    assert!(asked.iter().any(|e| matches!(
        e,
        EffectOf::FetchCaptions { subject_id, resource_id, link, open_with: false }
            if subject_id == "d1" && resource_id == "r-http://f/a.mkv" && link == "http://f/a.mkv"
    )));
    assert!(matches!(
        captions_action("l".into(), None, true),
        ActionOf::ShowPlayerPicker(l, None) if l == "l"
    ));
    assert!(matches!(captions_action("l".into(), None, false), ActionOf::LaunchMpv(_, None)));
    assert!(matches!(
        captions_action("l".into(), Some(Json::Null), false),
        ActionOf::ShowSubtitlePopup(_, _, false)
    ));
}

#[test]
fn captions_are_offered() {
    let mut app = film();
    let answer = captions(vec![("English", "http://en"), ("", ""), ("Indonesian", "http://id")]);
    let asked = act(&mut app, ActionOf::ShowSubtitlePopup("l".into(), answer, false));
    assert!(asked.is_empty());
    assert!(app.ui.subtitle_popup);
    assert_eq!(app.subtitle_list.len(), 3);
    assert_eq!(app.subtitle_list[0], ("None".to_string(), String::new()));
    act(&mut app, ActionOf::MoveDown);
    let asked = act(&mut app, ActionOf::Submit);
    assert!(!app.ui.subtitle_popup);
    assert!(matches!(
        sent(&asked)[0],
        ActionOf::LaunchMpv(l, Some(s)) if l == "l" && s == "http://en"
    ));
    // Without captions the stream is played as it is.
    let asked = act(&mut app, ActionOf::ShowSubtitlePopup("l".into(), Json::Null, true));
    assert!(matches!(sent(&asked)[0], ActionOf::ShowPlayerPicker(_, None)));
}

#[test]
fn opensubtitles_is_searched_where_indonesian_is_missing() {
    let mut app = film();
    app.observe(around(10_000, true));
    let asked = act(&mut app, ActionOf::ShowSubtitlePopup("l".into(), Json::Null, false));
    assert!(app.ui.os_waiting && app.ui.subtitle_searching && !app.ui.subtitle_popup);
    let id = match &asked[1] {
        EffectOf::SearchSubtitles { context_id, is_download: false } => context_id.clone(),
        _ => panic!("expected a search"),
    };
    assert_eq!(id, "s1:r-http://f/a.mkv:0");
    let found = vec![("A".to_string(), "os:7:id".to_string()), ("A".to_string(), "x".to_string())];
    act(
        &mut app,
        ActionOf::OpenSubtitlesReady { context_id: id, candidates: found, is_download: false },
    );
    assert!(app.ui.subtitle_popup && !app.ui.os_waiting);
    assert_eq!(app.subtitle_list.len(), 2);
    act(&mut app, ActionOf::MoveDown);
    let asked = act(&mut app, ActionOf::Submit);
    match &asked[0] {
        EffectOf::ResolveSubtitle { file_id, lang, next, subject_id, .. } => {
            assert_eq!((*file_id, lang.as_str(), subject_id.as_str()), (Some(7), "id", "s1"));
            assert!(matches!(next, ThenOf::Play { link, open_with: false } if link == "l"));
        }
        _ => panic!("expected a subtitle"),
    }
    assert!(matches!(
        subtitle_action(ThenOf::Play { link: "l".into(), open_with: true }, Some("/s".into())),
        ActionOf::ShowPlayerPicker(_, Some(s)) if s == "/s"
    ));
    assert!(matches!(subtitle_action(ThenOf::Download, None), ActionOf::DownloadStream(None)));
}

#[test]
fn late_subtitles_open_no_popup() {
    let mut app = film();
    app.observe(around(10_000, true));
    let answer = captions(vec![("English", "http://en")]);
    act(&mut app, ActionOf::ShowSubtitlePopup("l".into(), answer, false));
    act(&mut app, ActionOf::GoBack);
    assert!(!app.ui.subtitle_popup);
    act(
        &mut app,
        ActionOf::OpenSubtitlesReady {
            context_id: "s1:r-http://f/a.mkv:0".into(),
            candidates: vec![("A".into(), "os:7:id".into())],
            is_download: false,
        },
    );
    assert!(!app.ui.subtitle_popup);
    assert_eq!(app.subtitle_list.len(), 2);
    // A search that found nothing for another title ends the wait.
    app.ui.os_waiting = true;
    act(
        &mut app,
        ActionOf::OpenSubtitlesReady {
            context_id: "other".into(),
            candidates: vec![],
            is_download: false,
        },
    );
    assert!(!app.ui.os_waiting);
}

#[test]
fn failed_subtitle_searches_play_without() {
    let mut app = film();
    app.observe(around(10_000, true));
    act(&mut app, ActionOf::ShowSubtitlePopup("l".into(), Json::Null, false));
    let asked = act(
        &mut app,
        ActionOf::OpenSubtitlesFailed {
            context_id: "s1:r-http://f/a.mkv:0".into(),
            is_download: false,
            error: "quota".into(),
        },
    );
    assert!(matches!(sent(&asked)[0], ActionOf::LaunchMpv(l, None) if l == "l"));
    assert!(asked.iter().any(|e| matches!(
        e,
        EffectOf::Notify(NotificationKind::Warning, t, b)
            if t == "Subtitles unavailable" && b == "OpenSubtitles: quota"
    )));
    assert_eq!(app.subtitle_search_error.as_deref(), Some("quota"));
}

#[test]
fn subtitle_contexts_name_the_title() {
    let app = film();
    let c = app.build_subtitle_context().unwrap();
    assert_eq!(c.title, "Alien (1979)");
    assert_eq!(c.year.as_deref(), Some("1979"));
    assert_eq!(c.resource_id, "r-http://f/a.mkv");
    assert!(!c.is_episode && c.season.is_none());
    let app = showing(series());
    let c = app.build_subtitle_context().unwrap();
    assert_eq!(c.title, "Dark");
    assert_eq!(c.year.as_deref(), Some("2017"));
    assert_eq!((c.is_episode, c.season, c.episode), (true, Some(1), Some(1)));
    assert!(showing(object(vec![])).build_subtitle_context().is_none());
}

#[test]
fn players_are_picked() {
    let mut app = film();
    let asked = act(&mut app, ActionOf::LaunchMpv("l".into(), None));
    assert!(matches!(
        &asked[0],
        EffectOf::Notify(NotificationKind::Error, _, b) if b == "Install mpv, IINA, or VLC."
    ));
    act(&mut app, ActionOf::PlayersDetected(vec![PlayerKind::Iina, PlayerKind::Vlc]));
    let asked = act(&mut app, ActionOf::LaunchMpv("l".into(), None));
    assert!(matches!(sent(&asked)[0], ActionOf::LaunchPlayer(PlayerKind::Iina, _, None)));
    act(&mut app, ActionOf::ShowPlayerPicker("l".into(), Some("s".into())));
    assert!(app.ui.player_picker_popup);
    act(&mut app, ActionOf::MoveUp);
    assert_eq!(app.ui.player_picker_selected, Some(1));
    act(&mut app, ActionOf::MoveDown);
    assert_eq!(app.ui.player_picker_selected, Some(0));
    act(&mut app, ActionOf::MoveDown);
    let asked = act(&mut app, ActionOf::Submit);
    assert!(matches!(
        sent(&asked)[0],
        ActionOf::LaunchPlayer(PlayerKind::Vlc, l, Some(s)) if l == "l" && s == "s"
    ));
    let asked = act(&mut app, ActionOf::LaunchPlayer(PlayerKind::Vlc, "l".into(), None));
    assert!(matches!(&asked[0], EffectOf::StartPlayer(PlayerKind::Vlc, _, None)));
}

#[test]
fn sources_with_headers_need_a_player_that_takes_them() {
    let source = || PlaybackSource {
        url: "u".into(),
        headers: vec![("Referer".into(), "r".into())],
        subtitle: None,
    };
    let mut app = film();
    assert!(act(&mut app, ActionOf::LaunchPlayback(PlayerKind::Vlc, source())).is_empty());
    assert_eq!(
        app.status_message,
        "This source needs headers VLC cannot provide; use mpv or IINA."
    );
    let asked = act(&mut app, ActionOf::LaunchPlayback(PlayerKind::Mpv, source()));
    assert!(matches!(&asked[0], EffectOf::StartPlayback(PlayerKind::Mpv, s) if s.url == "u"));
    match release_action(Ok(source()), Some("/sub".into()), false) {
        ActionOf::LaunchPlayback(PlayerKind::Mpv, s) => {
            assert_eq!(s.subtitle.as_deref(), Some("/sub"))
        }
        _ => panic!("expected playback"),
    }
    assert!(matches!(
        release_action(Err("gone".into()), None, false),
        ActionOf::SetStatus(s) if s == "Error: 4KHDHub source failed: gone"
    ));
}

#[test]
fn releases_are_resolved_before_they_are_played() {
    let mut app = film();
    app.ui.active_provider = ProviderKind::FourKHdHub;
    assert!(act(&mut app, ActionOf::PlayStream(false)).is_empty());
    app.selected_resources = Some(object(vec![(
        "list",
        Json::List(vec![object(vec![("_fourk_release", object(vec![("n", number(1))]))])]),
    )]));
    let asked = act(&mut app, ActionOf::PlayStream(true));
    assert_eq!(asked.len(), 1);
    let release = match asked.into_iter().next() {
        Some(EffectOf::ReadReleaseToPlay(release, true)) => release,
        _ => panic!("expected a release"),
    };
    // What cannot be read as a release is not played.
    assert!(act(&mut app, ActionOf::PlayReadRelease(release.copy(), false, true)).is_empty());
    let asked = act(&mut app, ActionOf::PlayReadRelease(release.copy(), true, true));
    assert!(matches!(&asked[1], EffectOf::PlayRelease(_, true, Lookup::Nowhere)));
    let asked = act(&mut app, ActionOf::DownloadStream(None));
    assert!(matches!(&asked[0], EffectOf::ReadReleaseToDownload(_, None)));
    let asked = act(&mut app, ActionOf::DownloadReadRelease(release.copy(), false, None));
    assert!(matches!(sent(&asked)[0], ActionOf::StartDownload(None, None)));
    app.observe(Surroundings { subdl_enabled: true, ..around(10_000, true) });
    let asked = act(&mut app, ActionOf::DownloadReadRelease(release.copy(), true, None));
    assert!(matches!(
        &asked[1],
        EffectOf::DownloadRelease(_, None, Lookup::Subdl { fallback: true })
    ));
    app.observe(Surroundings { subdl_enabled: true, quota: Some(3), ..around(10_000, true) });
    let asked = act(&mut app, ActionOf::PlayReadRelease(release, true, false));
    assert!(matches!(
        &asked[1],
        EffectOf::PlayRelease(_, false, Lookup::Subdl { fallback: false })
    ));
    assert!(matches!(
        release_download_action(Ok("u".into()), None),
        ActionOf::StartDownload(None, Some(u)) if u == "u"
    ));
    assert!(matches!(
        release_download_action(Err("x".into()), None),
        ActionOf::SetStatus(s) if s == "Resolve failed: x"
    ));
}

#[test]
fn an_episode_is_downloaded() {
    let mut app = film();
    let asked = press(&mut app, KeyCode::Char('d'));
    assert!(matches!(sent(&asked)[0], ActionOf::PromptDownloadEpisode));
    act(&mut app, ActionOf::PromptDownloadEpisode);
    // No is marked first.
    press(&mut app, KeyCode::Enter);
    assert!(!app.ui.show_episode_download_confirm);
    act(&mut app, ActionOf::PromptDownloadEpisode);
    press(&mut app, KeyCode::Left);
    let asked = press(&mut app, KeyCode::Enter);
    assert!(matches!(sent(&asked)[0], ActionOf::ConfirmDownloadEpisode));
    let asked = act(&mut app, ActionOf::ConfirmDownloadEpisode);
    assert!(matches!(
        &asked[1],
        EffectOf::FetchDownloadCaptions { subject_id, .. } if subject_id == "s1"
    ));
    assert!(matches!(download_captions_action(None), ActionOf::DownloadStream(None)));
    let asked = act(&mut app, ActionOf::DownloadStream(Some("http://sub".into())));
    match &asked[0] {
        EffectOf::Send(ActionOf::StartDownload(Some(s), Some(l))) => {
            assert_eq!((s.as_str(), l.as_str()), ("http://sub", "http://f/a.mkv"))
        }
        _ => panic!("expected a download"),
    }
    let asked = act(
        &mut app,
        ActionOf::StartDownload(Some("http://sub".into()), Some("http://f/a.mkv".into())),
    );
    match &asked[2] {
        EffectOf::StartDownload { link, subtitle, dir, base_name, extension } => {
            assert_eq!(link, "http://f/a.mkv");
            assert_eq!(subtitle.as_deref(), Some("http://sub"));
            assert_eq!(dir, "MovieBox-TUI/Movies");
            assert_eq!(base_name, "Alien_(1979)");
            assert_eq!(extension, "mp4");
        }
        _ => panic!("expected a download"),
    }
    // One download runs at a time.
    assert!(act(&mut app, ActionOf::StartDownload(None, Some("x".into()))).is_empty());
    assert_eq!(app.gauge_title(), " Download: Preparing download... [X] Cancel ");
    let asked = press(&mut app, KeyCode::Char('x'));
    assert!(matches!(sent(&asked)[0], ActionOf::CancelDownload));
    let asked = act(&mut app, ActionOf::CancelDownload);
    assert!(matches!(asked[0], EffectOf::StopDownload));
    let asked = act(&mut app, ActionOf::DownloadPaused("/d/a.mp4".into()));
    assert!(app.ui.download_progress.is_none());
    assert!(matches!(
        &asked[0],
        EffectOf::Notify(NotificationKind::Warning, _, b) if b == "Start again to resume /d/a.mp4.part"
    ));
}

#[test]
fn series_are_downloaded_by_season() {
    let mut app = showing(series());
    app.ui.selected_season = 2;
    act(&mut app, ActionOf::ConfirmDownloadSeason);
    assert_eq!(app.download_queue, vec![(2, 1), (2, 2), (2, 4)]);
    assert_eq!(app.ui.download_queue_total, 3);
    let asked = act(&mut app, ActionOf::ProcessDownloadQueue);
    assert_eq!((app.ui.selected_season, app.ui.selected_episode), (2, 1));
    assert!(matches!(
        &asked[0],
        EffectOf::Notify(NotificationKind::Info, _, b) if b == "S02E01 \u{b7} 1/3"
    ));
    // The download waits for the streams, and then for their captions.
    app.ui.is_fetching_streams = true;
    act(&mut app, ActionOf::StartDownload(None, None));
    assert!(app.ui.is_waiting_for_download_stream);
    app.stream_pool.start("s1".into(), vec![]);
    let asked = ready(&mut app, vec![stream(2, 1, 720, "http://e")]);
    assert!(asked.iter().any(|e| matches!(
        e,
        EffectOf::FetchSeasonCaptions { resource_id, preference: None, .. } if resource_id == "r-http://e"
    )));
    let answer = captions(vec![("English", "http://en")]);
    act(&mut app, ActionOf::ShowDownloadSubtitlePopup(answer));
    assert!(app.ui.is_download_subtitle_popup);
    act(&mut app, ActionOf::MoveDown);
    let asked = act(&mut app, ActionOf::Submit);
    assert_eq!(app.season_subtitle_preference.as_deref(), Some("English"));
    assert!(matches!(sent(&asked)[0], ActionOf::DownloadStream(Some(u)) if u == "http://en"));
    let asked = act(&mut app, ActionOf::StartDownload(None, Some("http://e".into())));
    match &asked[2] {
        EffectOf::StartDownload { dir, base_name, .. } => {
            assert_eq!(dir, "MovieBox-TUI/Series/Dark/Season 2");
            assert_eq!(base_name, "Dark_S02E01");
        }
        _ => panic!("expected a download"),
    }
    // While it runs the queue waits.
    let asked = act(&mut app, ActionOf::ProcessDownloadQueue);
    assert!(matches!(&asked[0], EffectOf::SendAfter(2000, ActionOf::ProcessDownloadQueue)));
    app.drawn(false);
    let half = Some(Progress { downloaded: 5, total: 10 });
    act(&mut app, ActionOf::UpdateDownload(half, Some("half".into())));
    assert!(app.ui.dirty);
    assert_eq!(app.gauge_title(), " Download: S02E01 (1/3) | half [X] Cancel ");
    app.drawn(false);
    act(&mut app, ActionOf::UpdateDownload(half, Some("half".into())));
    assert!(!app.ui.dirty);
    let asked = act(&mut app, ActionOf::DownloadCompleted("/d".into()));
    assert!(matches!(&asked[1], EffectOf::SendAfter(2000, ActionOf::ClearDownload)));
    let asked = act(&mut app, ActionOf::ClearDownload);
    assert!(matches!(sent(&asked)[0], ActionOf::ProcessDownloadQueue));
    act(&mut app, ActionOf::ProcessDownloadQueue);
    act(&mut app, ActionOf::ProcessDownloadQueue);
    let asked = act(&mut app, ActionOf::ProcessDownloadQueue);
    assert!(matches!(
        &asked[0],
        EffectOf::Notify(NotificationKind::Success, t, b)
            if t == "Season downloaded" && b == "3 files completed."
    ));
    assert_eq!(app.ui.download_queue_total, 0);
    act(&mut app, ActionOf::ConfirmDownloadSeason);
    act(&mut app, ActionOf::DownloadFailed("disk".into()));
    assert!(app.download_queue.is_empty());
}

#[test]
fn taken_names_are_numbered() {
    let taken = |v: Vec<&str>| v.into_iter().map(|s| s.to_string()).collect::<Vec<String>>();
    assert_eq!(first_free("a", "mp4", &taken(vec![])), 1);
    assert_eq!(first_free("a", "mp4", &taken(vec!["a.mp4", "a_3.mp4", "a_2.mkv"])), 2);
    assert_eq!(first_free("a", "mp4", &taken(vec!["a_2.mp4", "a.mp4"])), 3);
    assert_eq!(numbered_file("a", 1, "mp4"), "a.mp4");
    assert_eq!(numbered_file("a", 3, "srt"), "a_3.srt");
}

#[test]
fn going_back_leaves_the_details() {
    let mut app = film();
    let asked = act(&mut app, ActionOf::GoBack);
    assert_eq!(app.ui.active_screen, Screen::Home);
    assert!(app.selected_resources.is_none());
    assert!(matches!(asked[0], EffectOf::CancelFetches));
    // Answers that were asked for on the screen that was left change nothing.
    let context = app.request_context();
    act(&mut app, ActionOf::DetailsSuccess(context, "s9".into(), Json::Null, NO_PICTURES));
    assert_eq!(app.active_subject_id.as_deref(), Some("s1"));
}

#[test]
fn subdl_is_searched_before_opensubtitles() {
    let mut app = film();
    app.observe(Surroundings { subdl_enabled: true, ..around(10_000, true) });
    let asked = act(&mut app, ActionOf::ShowSubtitlePopup("l".into(), Json::Null, false));
    assert!(asked.iter().any(|e| matches!(e, EffectOf::SearchSubdl { is_download: false, .. })));
    assert!(!asked.iter().any(|e| matches!(e, EffectOf::SearchSubtitles { .. })));
    let id = "s1:r-http://f/a.mkv:0".to_string();
    // A match is offered, and OpenSubtitles is never asked.
    let found = vec![("Indonesian [SubDL]".to_string(), "subdl:12-34:ID".to_string())];
    let asked = act(
        &mut app,
        ActionOf::SubdlReady { context_id: id, candidates: found, is_download: false },
    );
    assert!(asked.is_empty());
    assert!(app.ui.subtitle_popup && !app.ui.subtitle_searching);
    act(&mut app, ActionOf::MoveDown);
    let asked = act(&mut app, ActionOf::Submit);
    match &asked[0] {
        EffectOf::ResolveSubdl { subtitle_id, lang, next, .. } => {
            assert_eq!((subtitle_id.as_deref(), lang.as_str()), (Some("12-34"), "ID"));
            assert!(matches!(next, ThenOf::Play { link, open_with: false } if link == "l"));
        }
        _ => panic!("expected a subtitle"),
    }
}

#[test]
fn opensubtitles_follows_where_subdl_has_nothing() {
    let id = || "s1:r-http://f/a.mkv:0".to_string();
    let nothing = || ActionOf::SubdlReady {
        context_id: id(),
        candidates: Vec::new(),
        is_download: true,
    };
    let failure = || ActionOf::SubdlFailed {
        context_id: id(),
        is_download: true,
        error: "down".into(),
    };
    for answer in [nothing(), failure()] {
        let mut app = film();
        app.observe(Surroundings { subdl_enabled: true, ..around(10_000, true) });
        act(&mut app, ActionOf::ShowDownloadSubtitlePopup(Json::Null));
        let asked = act(&mut app, answer);
        assert!(asked.iter().any(
            |e| matches!(e, EffectOf::SearchSubtitles { context_id, is_download: true } if *context_id == id())
        ));
        assert!(app.ui.os_waiting && app.ui.subtitle_searching);
    }
    // Without OpenSubtitles the download goes on, and a failure is told.
    let mut app = film();
    app.observe(Surroundings { subdl_enabled: true, ..around(10_000, false) });
    act(&mut app, ActionOf::ShowDownloadSubtitlePopup(Json::Null));
    let asked = act(&mut app, failure());
    assert!(matches!(sent(&asked)[0], ActionOf::DownloadStream(None)));
    assert!(asked.iter().any(
        |e| matches!(e, EffectOf::Notify(NotificationKind::Warning, _, b) if b == "SubDL: down")
    ));
    act(&mut app, ActionOf::ShowDownloadSubtitlePopup(Json::Null));
    let asked = act(&mut app, nothing());
    assert!(matches!(sent(&asked)[0], ActionOf::DownloadStream(None)));
    // An answer for another title ends the search.
    app.ui.subtitle_searching = true;
    let late = ActionOf::SubdlFailed {
        context_id: "other".into(),
        is_download: false,
        error: "x".into(),
    };
    assert!(act(&mut app, late).is_empty());
    assert!(!app.ui.subtitle_searching);
}

#[test]
fn lookups_spare_the_quota() {
    assert_eq!(
        choose_lookup(true, true, Some(20), true, false),
        Lookup::Subdl { fallback: true }
    );
    assert_eq!(choose_lookup(false, true, Some(4), true, false), Lookup::OpenSubtitles);
    assert_eq!(choose_lookup(false, true, Some(3), true, false), Lookup::Nowhere);
    assert_eq!(choose_lookup(false, true, Some(0), true, false), Lookup::Nowhere);
    assert_eq!(choose_lookup(false, true, None, true, false), Lookup::OpenSubtitles);
    assert_eq!(choose_lookup(true, true, None, true, true), Lookup::Nowhere);
    assert_eq!(choose_lookup(true, true, None, false, false), Lookup::Nowhere);
    assert_eq!(Lookup::Subdl { fallback: true }.after(), Lookup::OpenSubtitles);
    assert_eq!(Lookup::Subdl { fallback: false }.after(), Lookup::Nowhere);
    assert_eq!(Lookup::OpenSubtitles.after(), Lookup::Nowhere);
}

#[test]
fn the_picker_shows_the_quota() {
    let mut app = film();
    assert_eq!(app.subtitle_title(), None);
    let answer = captions(vec![("Indonesian", "http://id")]);
    act(&mut app, ActionOf::ShowSubtitlePopup("l".into(), answer, false));
    assert_eq!(app.subtitle_title().as_deref(), Some("Select subtitle"));
    app.observe(Surroundings { quota: Some(17), ..around(10_000, true) });
    assert_eq!(
        app.subtitle_title().as_deref(),
        Some("Select subtitle (OpenSubtitles: 17 downloads left today)")
    );
}

#[test]
fn streams_without_subtitles_get_a_hint() {
    let mut app = film();
    let link = || "http://f/a.mkv?t=1".to_string();
    let asked = act(&mut app, ActionOf::ShowSubtitlePopup(link(), Json::Null, false));
    match &asked[0] {
        EffectOf::Notify(NotificationKind::Info, title, body) => {
            assert_eq!(title, "Embedded subtitles");
            assert!(body.starts_with("This stream is an MKV/MP4"));
        }
        _ => panic!("expected a hint"),
    }
    assert!(matches!(sent(&asked)[0], ActionOf::LaunchMpv(_, None)));
    let asked = act(
        &mut app,
        ActionOf::ShowSubtitlePopup("http://f/a.m3u8".into(), Json::Null, false),
    );
    assert_eq!(asked.len(), 1);
    // A stream that is probed gets its hint after that.
    app.observe(Surroundings { probe_enabled: true, ..around(10_000, false) });
    let asked = act(&mut app, ActionOf::ShowSubtitlePopup(link(), Json::Null, false));
    assert!(matches!(&asked[0], EffectOf::ProbeStream(s) if s.url == link()));
    let track = ProbeTrack { index: 2, language: Some("id".into()), codec: None };
    let asked = act(
        &mut app,
        ActionOf::StreamProbed(link(), Some(ProbeReport { tracks: vec![track] })),
    );
    assert!(matches!(
        &asked[0],
        EffectOf::Notify(NotificationKind::Info, _, b)
            if b.starts_with("Found 1 embedded subtitle track(s) (e.g. id).")
    ));
}
