use moviebox_tui::json::Json;
use moviebox_tui::providers::iptv_org::m3u::Channel;
use moviebox_tui::providers::models::{ProviderKind, RequestContext};
use moviebox_tui::tui::startup::{
    padding_top, small_message, too_small, update_action, update_pause, PictureSupport,
};
use moviebox_tui::tui::state::{
    Action, ActionOf, App, DetailsPane, Effect, EffectOf, InputMode, Key, KeyCode,
    NotificationKind, Picture, Screen, Surroundings, TvCatalog,
};
use moviebox_tui::tui::titles::clean_moviebox_title;

fn text(s: &str) -> Json {
    Json::Text(s.to_string())
}

fn object(members: Vec<(&str, Json)>) -> Json {
    Json::Object(members.into_iter().map(|(k, v)| (k.to_string(), v)).collect())
}

fn catalog() -> TvCatalog {
    TvCatalog {
        categories: vec!["News".into(), "Sports".into()],
        languages: vec![("Indonesian".into(), "ind".into())],
        countries: vec![("France".into(), "fr".into())],
    }
}

/// An application on its home screen, with no request left.
fn home() -> App {
    let mut app = App::new(None, catalog());
    app.observe(around(10_000, false));
    app.ui.active_screen = Screen::Home;
    app
}

/// What holds around the application at a time.
fn around(now: u64, os_enabled: bool) -> Surroundings {
    Surroundings {
        now,
        os_enabled,
        subdl_enabled: false,
        probe_enabled: false,
        quota: None,
        visible_items: 5,
    }
}

/// Takes an action, and hands out what is asked for.
fn act(app: &mut App, action: Action) -> Vec<Effect> {
    assert!(app.accepts(&action));
    assert!(!app.handle_action(action));
    app.take_effects()
}

fn press(app: &mut App, code: KeyCode) -> Vec<Effect> {
    act(app, ActionOf::Key(Key { code, ctrl: false, shift: false, other: false }))
}

fn ctrl(c: char) -> Action {
    ActionOf::Key(Key { code: KeyCode::Char(c), ctrl: true, shift: false, other: false })
}

fn sent(effects: &[Effect]) -> Vec<&Action> {
    effects
        .iter()
        .filter_map(|e| match e {
            EffectOf::Send(a) => Some(a),
            _ => None,
        })
        .collect()
}

fn subject(id: &str, title: &str, kind: u64, date: &str) -> Json {
    object(vec![
        ("subjectId", text(id)),
        ("title", text(title)),
        ("subjectType", Json::Unsigned(kind)),
        ("releaseDate", text(date)),
    ])
}

fn answer(subjects: Vec<Json>) -> Json {
    object(vec![(
        "results",
        Json::List(vec![object(vec![("subjects", Json::List(subjects))])]),
    )])
}

fn found(app: &mut App, query: &str, subjects: Vec<Json>) -> Vec<Effect> {
    app.search_query = query.to_string();
    let context = app.request_context();
    act(
        app,
        ActionOf::SearchSuccess { context, query: query.to_string(), payload: answer(subjects) },
    )
}

#[test]
fn settings_are_read_back() {
    let config = object(vec![
        ("auto_update", Json::Bool(false)),
        ("last_update_check", Json::Unsigned(77)),
        ("active_provider", text("4khdhub")),
    ]);
    let app = App::new(Some(config), catalog());
    assert!(!app.ui.auto_update);
    assert_eq!(app.ui.last_update_check, 77);
    assert_eq!(app.ui.active_provider, ProviderKind::FourKHdHub);
    let again = App::new(Some(app.config()), catalog());
    assert!(!again.ui.auto_update);
    assert_eq!(again.ui.last_update_check, 77);
    assert_eq!(again.ui.active_provider, ProviderKind::FourKHdHub);
    let plain = App::new(None, catalog());
    assert!(plain.ui.auto_update);
    assert_eq!(plain.ui.active_provider, ProviderKind::MovieBox);
    assert_eq!(plain.ui.active_screen, Screen::Startup);
}

#[test]
fn updates_are_looked_for_once_an_hour() {
    let mut app = App::new(None, catalog());
    app.ui.last_update_check = 1_000;
    app.start(4_601);
    assert_eq!(app.ui.last_update_check, 4_601);
    assert_eq!(app.ui.active_screen, Screen::Startup);
    let asked = app.take_effects();
    assert!(matches!(asked[0], EffectOf::InitClient));
    assert!(matches!(asked[1], EffectOf::PersistConfig));
    assert!(matches!(asked[2], EffectOf::Send(ActionOf::CheckForUpdates)));
    let mut app = App::new(None, catalog());
    app.ui.last_update_check = 1_000;
    app.start(4_600);
    assert_eq!(app.ui.active_screen, Screen::Home);
    assert_eq!(app.take_effects().len(), 1);
}

#[test]
fn update_results_are_told() {
    assert!(matches!(
        update_action(Ok(Some("2.0".into()))),
        ActionOf::UpdateAvailable(v) if v == "2.0"
    ));
    assert!(matches!(update_action(Ok(None)), ActionOf::UpdateAvailable(v) if v == "none"));
    assert!(matches!(
        update_action(Err("offline".into())),
        ActionOf::UpdateAvailable(v) if v == "error:offline"
    ));
    assert_eq!(update_pause(400), 1_100);
    assert_eq!(update_pause(1_500), 0);
    let mut app = App::new(None, catalog());
    let asked = act(&mut app, ActionOf::UpdateAvailable("2.0".into()));
    assert_eq!(app.ui.active_screen, Screen::Home);
    assert_eq!(app.update_available.as_deref(), Some("2.0"));
    match &asked[0] {
        EffectOf::Notify(NotificationKind::Info, title, body) => {
            assert_eq!(title, "Update Available");
            assert_eq!(
                body,
                "Version v2.0 is available! Download at github.com/mesamirh/MovieBox-Tui"
            );
        }
        _ => panic!("expected a notification"),
    }
    // Only a check that was asked for tells that there is nothing, or that it failed.
    assert!(act(&mut app, ActionOf::UpdateAvailable("none".into())).is_empty());
    assert!(act(&mut app, ActionOf::UpdateAvailable("error:x".into())).is_empty());
    app.ui.manual_update_check = true;
    let asked = act(&mut app, ActionOf::UpdateAvailable("error:offline".into()));
    assert!(matches!(
        &asked[0],
        EffectOf::Notify(NotificationKind::Error, t, b) if t == "Update check failed" && b == "offline"
    ));
    assert!(!app.ui.manual_update_check);
}

#[test]
fn pictures_depend_on_the_terminal() {
    let mut app = home();
    app.probe_pictures(PictureSupport::Sixel(20));
    assert!(app.ui.image_picker && app.ui.sixel);
    assert_eq!(app.ui.poster_rows, 5);
    act(&mut app, ActionOf::Resize);
    assert!(app.ui.clear_terminal_before_draw);
    app.drawn(true);
    assert!(app.ui.dirty && !app.ui.clear_terminal_before_draw);
    app.drawn(false);
    assert!(!app.ui.dirty);
    let mut app = home();
    app.probe_pictures(PictureSupport::Other(50));
    assert_eq!(app.ui.poster_rows, 3);
    assert!(!app.ui.sixel);
    let mut app = home();
    app.probe_pictures(PictureSupport::HalfBlocks);
    assert!(!app.ui.image_supported);
}

#[test]
fn small_terminals_are_refused() {
    assert!(too_small(84, 24));
    assert!(too_small(85, 23));
    assert!(!too_small(85, 24));
    assert_eq!(small_message(80, 20)[0], "Terminal too small (80x20).");
    assert_eq!(small_message(80, 20)[1], "Minimum required size: 85x24");
    assert_eq!(padding_top(20), 7);
    assert_eq!(padding_top(3), 0);
}

#[test]
fn providers_are_switched() {
    let mut app = home();
    found(&mut app, "a", vec![subject("1", "a", 1, "2020")]);
    let before = app.request_context();
    let asked = act(&mut app, ctrl('p'));
    assert_eq!(app.ui.active_provider, ProviderKind::FourKHdHub);
    assert!(app.search_results.is_empty());
    assert_eq!(app.status_message, "4KHDHub selected. Search uses only this provider.");
    assert!(asked.iter().any(|e| matches!(e, EffectOf::CancelFetches)));
    assert!(asked.iter().any(|e| matches!(e, EffectOf::Forget(Picture::SearchPosters))));
    assert!(!asked.iter().any(|e| matches!(e, EffectOf::InitClient)));
    assert!(!app.context_is_current(before));
    // A late answer to the former provider changes nothing.
    app.search_query = "a".into();
    act(
        &mut app,
        ActionOf::SearchSuccess {
            context: before,
            query: "a".into(),
            payload: answer(vec![subject("1", "a", 1, "2020")]),
        },
    );
    assert!(app.search_results.is_empty());
    let asked = act(&mut app, ctrl('p'));
    assert_eq!(app.ui.active_provider, ProviderKind::MovieBox);
    assert!(asked.iter().any(|e| matches!(e, EffectOf::InitClient)));
    assert!(!app.context_is_current(before));
    // Nothing happens in television mode.
    app.ui.is_tv_mode = true;
    act(&mut app, ActionOf::SwitchProvider(ProviderKind::FourKHdHub));
    assert_eq!(app.ui.active_provider, ProviderKind::MovieBox);
}

#[test]
fn titles_are_cleaned() {
    assert_eq!(clean_moviebox_title("Dune [Hindi]"), "Dune");
    assert_eq!(clean_moviebox_title("Dune (Hindi Dubbed)"), "Dune");
    assert_eq!(clean_moviebox_title("Dune (2021)"), "Dune (2021)");
    assert_eq!(clean_moviebox_title("Dark S1-S3"), "Dark");
    assert_eq!(clean_moviebox_title("Dark S"), "Dark S");
    assert_eq!(clean_moviebox_title("Dark Sun"), "Dark Sun");
}

#[test]
fn results_are_merged_and_ranked() {
    let mut app = home();
    let mut newer = subject("2", "Dark S2", 2, "2019-06-21");
    if let Json::Object(v) = &mut newer {
        v.push(("season".into(), Json::Unsigned(2)));
    }
    let asked = found(
        &mut app,
        "dark",
        vec![
            subject("1", "The Dark Knight", 1, "2008-07-18"),
            subject("2", "Dark S1", 2, "2017-12-01"),
            newer,
            subject("3", "Dark [Hindi]", 2, "2017"),
            subject("4", "Dark Waters", 1, "2019-11-22"),
            subject("5", "Dark Waters", 1, "2019-11-22"),
            subject("6", "Darkness", 1, "2021"),
            subject("", "Dark City", 1, "1998"),
            subject("7", "Sunshine", 1, "2007"),
        ],
    );
    let ids: Vec<&str> = app.search_results.iter().map(|r| r.id.as_str()).collect();
    assert_eq!(ids, vec!["2", "6", "4", "1"]);
    assert_eq!(app.search_results[0].title, "Dark");
    assert_eq!(app.search_results[0].season, 2);
    assert_eq!(app.search_results[0].release_year, "2019-06-21");
    assert_eq!(app.status_message, "Found 4 results on MovieBox.");
    assert_eq!(app.ui.search_selected, Some(0));
    assert!(matches!(sent(&asked)[0], ActionOf::FetchPreview(id) if id == "2"));
}

#[test]
fn results_without_match_are_told() {
    let mut app = home();
    found(&mut app, "zzz", vec![subject("1", "Dark", 1, "2008")]);
    assert!(app.search_results.is_empty());
    assert_eq!(app.ui.search_selected, None);
    assert_eq!(
        app.status_message,
        "No matches for 'zzz' on MovieBox. Press Ctrl+P to try another provider."
    );
    // Enter looks again, past the caches.
    let asked = press(&mut app, KeyCode::Enter);
    assert!(matches!(
        sent(&asked)[0],
        ActionOf::Search { query, force_refresh: true } if query == "zzz"
    ));
    let context = app.request_context();
    act(&mut app, ActionOf::SearchFailure(context, "timeout".into()));
    assert_eq!(app.status_message, "Search failed: timeout");
}

#[test]
fn posters_of_the_first_fifteen_results_are_asked_for() {
    let mut app = home();
    let subjects = (0..20)
        .map(|i| {
            object(vec![
                ("subjectId", text(&format!("{i}"))),
                ("title", text(&format!("a{i}"))),
                ("cover", object(vec![("url", text("http://c"))])),
            ])
        })
        .collect();
    let asked = found(&mut app, "a", subjects);
    let n = asked.iter().filter(|e| matches!(e, EffectOf::FetchSearchPoster { .. })).count();
    assert_eq!(n, 15);
}

#[test]
fn typing_searches() {
    let mut app = home();
    press(&mut app, KeyCode::Char('d'));
    assert_eq!(app.ui.input_mode, InputMode::Editing);
    press(&mut app, KeyCode::Char('e'));
    press(&mut app, KeyCode::Char('\u{301}'));
    assert_eq!(app.search_query, "de\u{301}");
    press(&mut app, KeyCode::Backspace);
    assert_eq!(app.search_query, "d");
    let asked = press(&mut app, KeyCode::Enter);
    assert!(matches!(
        sent(&asked)[0],
        ActionOf::Search { query, force_refresh: false } if query == "d"
    ));
    let asked = act(&mut app, ActionOf::Search { query: "d".into(), force_refresh: false });
    assert!(app.ui.is_loading);
    assert_eq!(app.status_message, "Searching for 'd'...");
    assert!(matches!(
        &asked[0],
        EffectOf::Search { query, force_refresh: false, .. } if query == "d"
    ));
}

#[test]
fn suggestions_follow_a_pause() {
    let mut app = home();
    press(&mut app, KeyCode::Char('a'));
    app.observe(around(10_349, false));
    assert!(act(&mut app, ActionOf::Tick(false)).is_empty());
    app.observe(around(10_350, false));
    let asked = act(&mut app, ActionOf::Tick(false));
    assert!(matches!(sent(&asked)[0], ActionOf::Suggest(q) if q == "a"));
    // The same text is not asked for twice.
    assert!(act(&mut app, ActionOf::Tick(false)).is_empty());
    let asked = act(&mut app, ActionOf::Suggest("a".into()));
    assert!(matches!(&asked[0], EffectOf::FetchSuggestions(q) if q == "a"));
    act(
        &mut app,
        ActionOf::SuggestSuccess(
            "a".into(),
            answer(vec![
                object(vec![("title", text("Alien [Hindi]"))]),
                object(vec![("title", text("Alien"))]),
                object(vec![("title", text("Up"))]),
                object(vec![("title", text("Aliens"))]),
            ]),
        ),
    );
    assert_eq!(app.search_suggestions, vec!["Alien".to_string(), "Aliens".to_string()]);
    press(&mut app, KeyCode::Up);
    assert_eq!(app.search_query, "Aliens");
    press(&mut app, KeyCode::Down);
    assert_eq!(app.search_query, "Alien");
    let asked = press(&mut app, KeyCode::Enter);
    assert!(matches!(sent(&asked)[0], ActionOf::SelectSuggestion { query } if query == "Alien"));
}

#[test]
fn commands_are_suggested() {
    let mut app = home();
    app.search_query = "/to".into();
    let asked = act(&mut app, ActionOf::Suggest("/to".into()));
    match asked.into_iter().next() {
        Some(EffectOf::Send(a)) => {
            act(&mut app, a);
        }
        _ => panic!("expected suggestions"),
    }
    assert_eq!(app.search_suggestions, vec!["/toggle-update".to_string()]);
    assert!(act(&mut app, ActionOf::Suggest("/list".into())).is_empty());
}

#[test]
fn commands_are_obeyed() {
    let search = |q: &str| ActionOf::Search { query: q.to_string(), force_refresh: false };
    let mut app = home();
    app.search_query = "x".into();
    let asked = act(&mut app, search(" /GitHub "));
    assert!(matches!(
        &asked[0],
        EffectOf::OpenUrl(u) if u == "https://github.com/mesamirh/MovieBox-Tui"
    ));
    assert_eq!(app.search_query, "");
    let asked = act(&mut app, search("/clear-cache"));
    assert!(matches!(sent(&asked)[0], ActionOf::ClearCache));
    let asked = act(&mut app, ActionOf::ClearCache);
    assert!(matches!(asked[0], EffectOf::ClearAllCache));
    let asked = act(&mut app, search("/toggle-update"));
    assert!(!app.ui.auto_update);
    assert!(asked.iter().any(|e| matches!(e, EffectOf::PersistConfig)));
    let asked = act(&mut app, search("/update"));
    assert_eq!(app.ui.active_screen, Screen::Startup);
    assert!(app.ui.manual_update_check);
    assert!(matches!(sent(&asked)[0], ActionOf::CheckForUpdates));
    let mut app = home();
    let asked = act(&mut app, search("/anime"));
    assert!(matches!(
        sent(&asked)[0],
        ActionOf::FetchHomepage { tab_id, page: 1 } if tab_id == "8"
    ));
    app.ui.active_provider = ProviderKind::FourKHdHub;
    act(&mut app, search("/home"));
    assert_eq!(app.status_message, "4KHDHub has no discover feed; enter a title to search.");
}

#[test]
fn home_pages_are_listed() {
    let mut app = home();
    let asked = act(&mut app, ActionOf::FetchHomepage { tab_id: "2".into(), page: 1 });
    assert!(matches!(&asked[0], EffectOf::FetchHomepage { tab_id, page: 1 } if tab_id == "2"));
    let banner = object(vec![(
        "banners",
        Json::List(vec![object(vec![("subject", subject("1", "One", 1, "2020-05-01"))])]),
    )]);
    let payload = object(vec![(
        "items",
        Json::List(vec![
            object(vec![("banner", banner)]),
            object(vec![("subjects", Json::List(vec![subject("2", "Two", 1, "2021-01-01")]))]),
        ]),
    )]);
    let asked = act(
        &mut app,
        ActionOf::HomepageSuccess { tab_id: "2".into(), page: 1, payload },
    );
    assert_eq!(app.search_results.len(), 2);
    assert_eq!(app.search_results[0].release_year, "2020");
    assert_eq!(app.status_message, "Found 2 discover items");
    assert!(matches!(sent(&asked)[0], ActionOf::FetchPreview(id) if id == "1"));
    // Another tab is no longer heard.
    act(
        &mut app,
        ActionOf::HomepageSuccess { tab_id: "5".into(), page: 1, payload: Json::Null },
    );
    assert_eq!(app.search_results.len(), 2);
    // Down from the last result asks for the next page.
    app.ui.search_selected = Some(1);
    let asked = act(&mut app, ActionOf::MoveDown);
    assert!(matches!(
        sent(&asked)[0],
        ActionOf::FetchHomepage { tab_id, page: 2 } if tab_id == "2"
    ));
    act(&mut app, ActionOf::HomepageFailure("x".into()));
    assert_eq!(app.status_message, "Discover failed: x");
}

#[test]
fn pages_of_results_follow() {
    let mut app = home();
    found(&mut app, "a", vec![subject("1", "a", 1, "2020")]);
    let asked = act(&mut app, ActionOf::MoveDown);
    assert_eq!(app.ui.current_page, 2);
    assert_eq!(app.status_message, "Loading page 2...");
    assert!(matches!(&asked[0], EffectOf::SearchPage { query, page: 2, .. } if query == "a"));
    found(&mut app, "a", vec![subject("2", "ab", 1, "2020")]);
    assert_eq!(app.search_results.len(), 2);
}

#[test]
fn results_are_walked() {
    let mut app = home();
    let subjects = (0..12).map(|i| subject(&format!("{i}"), "a", i, "2020")).collect();
    found(&mut app, "a", subjects);
    let first = app.search_results[0].id.clone();
    act(&mut app, ActionOf::MoveDown);
    assert_eq!(app.ui.search_selected, Some(1));
    let asked = act(&mut app, ActionOf::MoveUp);
    assert_eq!(app.ui.search_selected, Some(0));
    assert!(matches!(sent(&asked)[0], ActionOf::FetchPreview(id) if *id == first));
    act(&mut app, ActionOf::MoveRight);
    assert_eq!(app.ui.search_selected, Some(5));
    act(&mut app, ActionOf::MoveRight);
    act(&mut app, ActionOf::MoveRight);
    assert_eq!(app.ui.search_selected, Some(11));
    act(&mut app, ActionOf::MoveLeft);
    assert_eq!(app.ui.search_selected, Some(6));
    act(&mut app, ActionOf::MoveLeft);
    act(&mut app, ActionOf::MoveLeft);
    assert_eq!(app.ui.search_selected, Some(0));
}

#[test]
fn escape_clears_the_search() {
    let mut app = home();
    found(&mut app, "a", vec![subject("1", "a", 1, "2020")]);
    act(&mut app, ActionOf::GoBack);
    assert!(app.search_results.is_empty());
    assert_eq!(app.search_query, "");
    assert_eq!(app.status_message, "Search cleared.");
}

#[test]
fn keys_quit() {
    let mut app = home();
    assert!(app.handle_action(ctrl('c')));
    assert!(app.handle_action(ActionOf::Quit));
    app.take_effects();
    let asked = press(&mut app, KeyCode::Char('q'));
    assert!(matches!(sent(&asked)[0], ActionOf::Quit));
}

#[test]
fn help_closes_other_popups() {
    let mut app = home();
    app.ui.subtitle_popup = true;
    let asked = press(&mut app, KeyCode::F(1));
    assert!(matches!(sent(&asked)[0], ActionOf::ToggleHelp));
    act(&mut app, ActionOf::ToggleHelp);
    assert!(app.ui.show_help && !app.ui.subtitle_popup);
    act(&mut app, ActionOf::GoBack);
    assert!(!app.ui.show_help);
    app.ui.active_screen = Screen::Startup;
    act(&mut app, ActionOf::ToggleHelp);
    assert!(!app.ui.show_help);
}

fn channel(name: &str, group: &str, url: &str) -> Channel {
    Channel {
        id: name.to_string(),
        name: name.to_string(),
        logo: "http://logo".to_string(),
        group: group.to_string(),
        stream_url: url.to_string(),
    }
}

#[test]
fn television_lists_channels() {
    let mut app = home();
    let asked = act(&mut app, ActionOf::ToggleTvMode);
    assert!(app.ui.is_tv_mode);
    assert!(matches!(asked[0], EffectOf::LoadTvConfig));
    act(
        &mut app,
        ActionOf::TvChannelsLoaded(vec![
            channel("CNN", "News", "http://1"),
            channel("ESPN", "Sports", "http://2"),
        ]),
    );
    assert_eq!(app.status_message, "Loaded 2 TV channels.");
    let asked = act(
        &mut app,
        ActionOf::Search { query: "NEWS".into(), force_refresh: false },
    );
    assert_eq!(app.search_results.len(), 1);
    assert_eq!(app.search_results[0].id, "http://1");
    assert_eq!(app.search_results[0].stype, 3);
    assert_eq!(app.status_message, "Found 1 channels.");
    assert!(matches!(
        &asked[0],
        EffectOf::FetchSearchPoster { id, url } if id == "http://1" && url == "http://logo"
    ));
    act(&mut app, ActionOf::Search { query: "/list".into(), force_refresh: false });
    assert_eq!(app.search_results.len(), 2);
    let asked = act(&mut app, ActionOf::Submit);
    assert!(matches!(sent(&asked)[0], ActionOf::LaunchMpv(l, None) if l == "http://1"));
    let asked = press(&mut app, KeyCode::Char('o'));
    assert!(matches!(sent(&asked)[0], ActionOf::ShowPlayerPicker(l, None) if l == "http://1"));
    act(&mut app, ActionOf::Search { query: "bbc".into(), force_refresh: false });
    assert_eq!(app.status_message, "No matches for 'bbc'.");
    act(&mut app, ActionOf::ToggleTvMode);
    assert!(!app.ui.is_tv_mode);
}

#[test]
fn the_wizard_chooses_playlists() {
    let mut app = home();
    act(&mut app, ActionOf::ShowTvWizard);
    assert!(!app.ui.tv_config_popup);
    app.ui.is_tv_mode = true;
    act(&mut app, ActionOf::ShowTvWizard);
    assert!(app.ui.tv_config_popup);
    press(&mut app, KeyCode::Up);
    assert_eq!(app.ui.tv_wizard_selected_idx, 2);
    press(&mut app, KeyCode::Down);
    press(&mut app, KeyCode::Enter);
    assert_eq!(app.tv_wizard_options, vec!["News".to_string(), "Sports".to_string()]);
    press(&mut app, KeyCode::Char(' '));
    press(&mut app, KeyCode::Char(' '));
    assert!(app.tv_wizard_selections.is_empty());
    press(&mut app, KeyCode::Char(' '));
    press(&mut app, KeyCode::Esc);
    press(&mut app, KeyCode::Down);
    press(&mut app, KeyCode::Enter);
    press(&mut app, KeyCode::Char(' '));
    let asked = press(&mut app, KeyCode::Enter);
    assert!(!app.ui.tv_config_popup && app.ui.is_loading);
    match &asked[0] {
        EffectOf::FetchTvChannels(urls) => assert_eq!(
            *urls,
            vec![
                "https://iptv-org.github.io/iptv/categories/news.m3u".to_string(),
                "https://iptv-org.github.io/iptv/languages/ind.m3u".to_string(),
            ]
        ),
        _ => panic!("expected playlists"),
    }
}

#[test]
fn ticks_age_the_status() {
    let mut app = home();
    act(&mut app, ActionOf::SetStatus("hello".into()));
    assert_eq!((app.status_message.as_str(), app.ui.status_timer), ("hello", 150));
    app.ui.status_timer = 1;
    act(&mut app, ActionOf::Tick(false));
    assert_eq!(app.status_message, "");
    app.ui.tick_count = 20;
    app.drawn(false);
    act(&mut app, ActionOf::Tick(false));
    assert!(!app.ui.dirty);
    let asked = act(&mut app, ActionOf::Tick(true));
    assert!(app.ui.dirty);
    assert!(matches!(asked[0], EffectOf::ExpireNotifications));
    let asked = act(&mut app, ActionOf::SetStatus("Error: Error: no".into()));
    assert!(matches!(
        &asked[0],
        EffectOf::Notify(NotificationKind::Error, t, b) if t == "Operation failed" && b == "Error: no"
    ));
}

#[test]
fn panes_are_cycled() {
    let mut app = home();
    app.cycle_details_pane(true);
    assert_eq!(app.ui.details_pane, DetailsPane::Streams);
    app.ui.active_screen = Screen::Details;
    app.available_seasons = vec![Json::Null];
    app.selected_details =
        Some(object(vec![("dubs", Json::List(vec![Json::Null, Json::Null]))]));
    act(&mut app, ActionOf::TabPane);
    assert_eq!(app.ui.details_pane, DetailsPane::Languages);
    act(&mut app, ActionOf::TabPane);
    assert_eq!(app.ui.details_pane, DetailsPane::Seasons);
    act(&mut app, ActionOf::BackTabPane);
    act(&mut app, ActionOf::BackTabPane);
    assert_eq!(app.ui.details_pane, DetailsPane::Streams);
}

#[test]
fn previews_are_shown_for_the_marked_result() {
    let mut app = home();
    found(&mut app, "a", vec![subject("1", "a", 1, "2020")]);
    let asked = act(&mut app, ActionOf::FetchPreview("1".into()));
    assert!(matches!(&asked[0], EffectOf::LookUpPreview(id) if id == "1"));
    let asked = act(&mut app, ActionOf::PreviewLookedUp("1".into(), None, false));
    assert!(app.ui.preview_loading);
    assert!(matches!(&asked[0], EffectOf::FetchPreview(id) if id == "1"));
    let preview = object(vec![("cover", object(vec![("url", text("http://c"))]))]);
    let asked = act(&mut app, ActionOf::PreviewSuccess("1".into(), preview, false));
    assert!(!app.ui.preview_loading && app.search_preview.is_some());
    assert!(asked.iter().any(
        |e| matches!(e, EffectOf::FetchPoster { id, url } if id == "1" && url == "http://c")
    ));
    // A preview of a title that is no longer marked changes nothing.
    assert!(act(&mut app, ActionOf::PreviewSuccess("9".into(), Json::Null, false)).is_empty());
    act(&mut app, ActionOf::PreviewFailure("x".into()));
    assert_eq!(app.status_message, "Preview failed: x");
    let asked = act(&mut app, ActionOf::PosterSuccess("1".into()));
    assert!(matches!(&asked[0], EffectOf::UsePoster(id) if id == "1"));
}

#[test]
fn stale_contexts_are_not_heard() {
    let mut app = home();
    let stale = RequestContext { provider: ProviderKind::MovieBox, generation: 9 };
    app.ui.is_loading = true;
    act(&mut app, ActionOf::SearchFailure(stale, "x".into()));
    act(&mut app, ActionOf::DetailsFailure(stale, "x".into()));
    assert!(app.ui.is_loading);
}

#[test]
fn letters_and_digits_start_a_search() {
    for c in ['r', 'R', 'a', 'Q', '7', 'o', 'd', 'x'] {
        let mut app = home();
        let asked = press(&mut app, KeyCode::Char(c));
        assert!(asked.is_empty());
        assert_eq!(app.ui.input_mode, InputMode::Editing);
        assert_eq!(app.search_query, c.to_string());
    }
    let mut app = home();
    let asked = act(&mut app, ctrl('r'));
    assert!(matches!(sent(&asked)[0], ActionOf::Refresh));
}

#[test]
fn cleaned_titles_begin_the_title() {
    let title = "Dark [CAM] (Hindi) S2 ";
    let clean = clean_moviebox_title(title);
    assert!(title.starts_with(&clean));
    assert_eq!(clean, "Dark");
}
