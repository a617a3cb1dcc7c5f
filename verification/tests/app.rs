use lutrisartfetcher::api::models::{AssetType, DownloadProgress, DownloadStatus};
use lutrisartfetcher::app::{
    progress_line, validation_key, validation_progress, App, AppEvent, AppScreen, Command, Ending,
    KeyCode, KeyPress, LogLevel,
};
use lutrisartfetcher::config::Config;
use lutrisartfetcher::db::Game;
use lutrisartfetcher::selection::AssetSelection;

fn game(slug: &str, name: &str) -> Game {
    Game::from_row(1, name.to_string(), slug.to_string(), None, None, None, None, 0, 0)
}

fn games(count: usize) -> Vec<Game> {
    (0..count).map(|i| game(&format!("game-{i}"), &format!("Game {i}"))).collect()
}

fn with_key() -> Config {
    let mut config = Config::default();
    config.api_key = Some("secret".to_string());
    config
}

fn press(code: KeyCode) -> KeyPress {
    KeyPress { code, ctrl: false }
}

fn typed(app: &mut App, text: &str) {
    for c in text.chars() {
        assert!(app.handle_key(press(KeyCode::Char(c))).is_none());
    }
}

fn input_of(app: &App) -> (String, usize, Option<String>, bool) {
    match &app.screen {
        AppScreen::ApiKeyEntry { input, cursor_pos, error_msg, validating } => {
            (input.clone(), *cursor_pos, error_msg.clone(), *validating)
        }
        other => panic!("unexpected screen {:?}", other),
    }
}

fn event(slug: &str, asset_type: AssetType, status: DownloadStatus) -> DownloadProgress {
    DownloadProgress { game_slug: slug.to_string(), asset_type, status }
}

/// An app on the list of games with the given selection.
fn on_game_list(count: usize, selection: AssetSelection) -> App {
    let mut app = App::new(with_key(), games(count), selection, false);
    assert!(app.handle_key(press(KeyCode::Enter)).is_none());
    assert!(matches!(app.screen, AppScreen::GameList));
    app
}

#[test]
fn starts_by_asking_for_the_credential_when_there_is_none() {
    let app = App::new(Config::default(), games(2), AssetSelection::full(), true);
    assert_eq!(input_of(&app), (String::new(), 0, None, false));
    assert_eq!(app.games.len(), 2);
    assert_eq!(app.games[1].game.slug, "game-1");
    assert!(matches!(app.games[0].grid_status, DownloadStatus::Pending));
    assert_eq!(app.selected, Some(0));
    assert!(app.log.is_empty());
    assert!(!app.should_quit);
    assert!(!app.show_help);
    assert!(app.force_download);
    assert_eq!(app.tick_count, 0);
}

#[test]
fn starts_with_the_categories_when_there_is_a_credential() {
    let app = App::new(with_key(), Vec::new(), AssetSelection::empty(), false);
    assert!(matches!(app.screen, AppScreen::AssetTypeSelection { cursor: 0 }));
    assert_eq!(app.selected, None);
    assert!(!app.force_download);
}

#[test]
fn control_c_quits_on_every_screen() {
    let mut app = App::new(Config::default(), games(1), AssetSelection::full(), false);
    assert!(app.handle_key(KeyPress { code: KeyCode::Char('c'), ctrl: true }).is_none());
    assert!(app.should_quit);
    let mut app = on_game_list(1, AssetSelection::full());
    app.handle_key(KeyPress { code: KeyCode::Char('c'), ctrl: true });
    assert!(app.should_quit);
}

#[test]
fn question_mark_shows_the_help_and_any_key_hides_it() {
    let mut app = on_game_list(3, AssetSelection::full());
    app.handle_key(press(KeyCode::Char('?')));
    assert!(app.show_help);
    // The key that hides the help does nothing else.
    app.handle_key(press(KeyCode::Char('q')));
    assert!(!app.show_help);
    assert!(!app.should_quit);
    app.handle_key(press(KeyCode::Char('?')));
    app.handle_key(press(KeyCode::Char('?')));
    assert!(!app.show_help);
}

#[test]
fn typing_the_credential() {
    let mut app = App::new(Config::default(), Vec::new(), AssetSelection::full(), false);
    typed(&mut app, "abd");
    assert_eq!(input_of(&app), ("abd".to_string(), 3, None, false));
    app.handle_key(press(KeyCode::Left));
    app.handle_key(press(KeyCode::Char('c')));
    assert_eq!(input_of(&app), ("abcd".to_string(), 3, None, false));
    app.handle_key(press(KeyCode::Backspace));
    assert_eq!(input_of(&app), ("abd".to_string(), 2, None, false));
    for _ in 0..5 {
        app.handle_key(press(KeyCode::Left));
    }
    assert_eq!(input_of(&app).1, 0);
    app.handle_key(press(KeyCode::Backspace));
    assert_eq!(input_of(&app), ("abd".to_string(), 0, None, false));
    for _ in 0..5 {
        app.handle_key(press(KeyCode::Right));
    }
    assert_eq!(input_of(&app).1, 3);
    // Letters that are commands elsewhere are just letters here.
    typed(&mut app, "qkja ");
    assert_eq!(input_of(&app).0, "abdqkja ");
    assert!(!app.should_quit);
    app.handle_key(press(KeyCode::Home));
    assert_eq!(input_of(&app).0, "abdqkja ");
}

#[test]
fn typing_characters_beyond_ascii() {
    let mut app = App::new(Config::default(), Vec::new(), AssetSelection::full(), false);
    typed(&mut app, "\u{e9}\u{fc}");
    assert_eq!(input_of(&app), ("\u{e9}\u{fc}".to_string(), 2, None, false));
    app.handle_key(press(KeyCode::Left));
    app.handle_key(press(KeyCode::Backspace));
    assert_eq!(input_of(&app), ("\u{fc}".to_string(), 0, None, false));
}

#[test]
fn empty_credential_is_not_submitted() {
    let mut app = App::new(Config::default(), Vec::new(), AssetSelection::full(), false);
    typed(&mut app, "  \t ");
    assert!(app.handle_key(press(KeyCode::Enter)).is_none());
    let (input, _, error, validating) = input_of(&app);
    assert_eq!(input, "  \t ");
    assert_eq!(error.as_deref(), Some("API key cannot be empty"));
    assert!(!validating);
    // Typing clears the message.
    typed(&mut app, "x");
    assert_eq!(input_of(&app).2, None);
}

#[test]
fn credential_is_submitted_without_the_white_space_at_its_ends() {
    let mut app = App::new(Config::default(), Vec::new(), AssetSelection::full(), false);
    typed(&mut app, "  my key \t");
    match app.handle_key(press(KeyCode::Enter)) {
        Some(Command::ValidateKey { api_key }) => assert_eq!(api_key, "my key"),
        other => panic!("unexpected command {:?}", other),
    }
    let (input, _, error, validating) = input_of(&app);
    assert_eq!(input, "  my key \t");
    assert_eq!(error, None);
    assert!(validating);
    // Nothing is typed while the credential is probed.
    assert!(app.handle_key(press(KeyCode::Char('x'))).is_none());
    assert!(app.handle_key(press(KeyCode::Esc)).is_none());
    assert_eq!(input_of(&app).0, "  my key \t");
    assert!(!app.should_quit);
}

#[test]
fn escape_quits_while_the_credential_is_typed() {
    let mut app = App::new(Config::default(), Vec::new(), AssetSelection::full(), false);
    app.handle_key(press(KeyCode::Esc));
    assert!(app.should_quit);
}

#[test]
fn good_credential_is_kept_and_the_settings_are_written() {
    let mut app = App::new(Config::default(), games(1), AssetSelection::full(), false);
    typed(&mut app, " k1 ");
    app.handle_key(press(KeyCode::Enter));
    let command = app.handle_download_progress(&validation_progress(Ok(true)), 0);
    assert!(matches!(command, Some(Command::SaveConfig)));
    assert_eq!(app.config.api_key.as_deref(), Some("k1"));
    assert!(app.log.is_empty());
    app.config_saved(None);
    assert!(matches!(app.screen, AppScreen::AssetTypeSelection { cursor: 0 }));
    assert_eq!(app.log, vec![(LogLevel::Success, "API key validated and saved".to_string())]);
}

#[test]
fn settings_that_cannot_be_written_are_a_warning() {
    let mut app = App::new(Config::default(), games(1), AssetSelection::full(), false);
    typed(&mut app, "k1");
    app.handle_key(press(KeyCode::Enter));
    app.handle_download_progress(&validation_progress(Ok(true)), 0);
    app.config_saved(Some("disk full".to_string()));
    assert!(matches!(app.screen, AppScreen::AssetTypeSelection { cursor: 0 }));
    assert_eq!(
        app.log,
        vec![
            (LogLevel::Warn, "Could not save config: disk full".to_string()),
            (LogLevel::Success, "API key validated and saved".to_string()),
        ]
    );
}

#[test]
fn refused_credential_is_asked_for_again() {
    let mut app = App::new(Config::default(), games(1), AssetSelection::full(), false);
    typed(&mut app, "bad");
    app.handle_key(press(KeyCode::Enter));
    let command = app.handle_download_progress(&validation_progress(Ok(false)), 0);
    assert!(command.is_none());
    assert_eq!(
        input_of(&app),
        (String::new(), 0, Some("Invalid key: API key rejected by SteamGridDB".to_string()), false)
    );
    assert!(app.config.api_key.is_none());
    let command =
        app.handle_download_progress(&validation_progress(Err("no route".to_string())), 0);
    assert!(command.is_none());
    assert_eq!(input_of(&app).2.as_deref(), Some("Invalid key: no route"));
}

#[test]
fn validation_events_are_told_apart_by_their_key() {
    assert_eq!(validation_key(), "__api_key_validation__");
    let good = validation_progress(Ok(true));
    assert_eq!(good.game_slug, "__api_key_validation__");
    assert_eq!(good.asset_type, AssetType::Grid);
    assert!(matches!(good.status, DownloadStatus::Done(p) if p.is_empty()));
    let mut app = on_game_list(1, AssetSelection::full());
    // Outside the credential screen a good probe just moves on.
    let command = app.handle_download_progress(&validation_progress(Ok(true)), 0);
    assert!(command.is_none());
    assert!(matches!(app.screen, AppScreen::AssetTypeSelection { cursor: 0 }));
    assert_eq!(app.log.len(), 1);
    // Other statuses under that key change nothing.
    let before = app.log.len();
    app.handle_download_progress(
        &event("__api_key_validation__", AssetType::Grid, DownloadStatus::Searching),
        0,
    );
    assert_eq!(app.log.len(), before);
}

#[test]
fn choosing_categories() {
    let mut app = App::new(with_key(), games(1), AssetSelection::empty(), false);
    // Nothing selected: enter does not go on.
    app.handle_key(press(KeyCode::Enter));
    assert!(matches!(app.screen, AppScreen::AssetTypeSelection { cursor: 0 }));
    app.handle_key(press(KeyCode::Up));
    assert!(matches!(app.screen, AppScreen::AssetTypeSelection { cursor: 0 }));
    app.handle_key(press(KeyCode::Char(' ')));
    assert_eq!(app.selected_assets.to_vec(), vec![AssetType::Grid]);
    app.handle_key(press(KeyCode::Down));
    app.handle_key(press(KeyCode::Char('j')));
    assert!(matches!(app.screen, AppScreen::AssetTypeSelection { cursor: 2 }));
    app.handle_key(press(KeyCode::Char(' ')));
    assert_eq!(app.selected_assets.to_vec(), vec![AssetType::Grid, AssetType::Logo]);
    app.handle_key(press(KeyCode::Char(' ')));
    assert_eq!(app.selected_assets.to_vec(), vec![AssetType::Grid]);
    for _ in 0..5 {
        app.handle_key(press(KeyCode::Down));
    }
    assert!(matches!(app.screen, AppScreen::AssetTypeSelection { cursor: 3 }));
    app.handle_key(press(KeyCode::Char('k')));
    assert!(matches!(app.screen, AppScreen::AssetTypeSelection { cursor: 2 }));
    // `a` selects all, and none when all are selected.
    app.handle_key(press(KeyCode::Char('a')));
    assert_eq!(app.selected_assets, AssetSelection::full());
    app.handle_key(press(KeyCode::Char('a')));
    assert_eq!(app.selected_assets, AssetSelection::empty());
    app.handle_key(press(KeyCode::Char('a')));
    app.handle_key(press(KeyCode::Enter));
    assert!(matches!(app.screen, AppScreen::GameList));
    assert!(!app.should_quit);
}

#[test]
fn quitting_from_the_categories() {
    for code in [KeyCode::Esc, KeyCode::Char('q')] {
        let mut app = App::new(with_key(), games(1), AssetSelection::full(), false);
        app.handle_key(press(code));
        assert!(app.should_quit);
    }
    let mut app = App::new(with_key(), games(1), AssetSelection::full(), false);
    app.handle_key(press(KeyCode::Other));
    app.handle_key(press(KeyCode::Char('x')));
    assert!(!app.should_quit);
    assert_eq!(app.selected_assets, AssetSelection::full());
}

#[test]
fn moving_through_the_list_of_games() {
    let mut app = on_game_list(25, AssetSelection::full());
    assert_eq!(app.selected, Some(0));
    app.handle_key(press(KeyCode::Up));
    assert_eq!(app.selected, Some(0));
    app.handle_key(press(KeyCode::Down));
    app.handle_key(press(KeyCode::Char('j')));
    assert_eq!(app.selected, Some(2));
    app.handle_key(press(KeyCode::Char('k')));
    assert_eq!(app.selected, Some(1));
    app.handle_key(press(KeyCode::PageDown));
    assert_eq!(app.selected, Some(11));
    app.handle_key(press(KeyCode::PageDown));
    assert_eq!(app.selected, Some(21));
    app.handle_key(press(KeyCode::PageDown));
    assert_eq!(app.selected, Some(24));
    app.handle_key(press(KeyCode::Down));
    assert_eq!(app.selected, Some(24));
    app.handle_key(press(KeyCode::PageUp));
    assert_eq!(app.selected, Some(14));
    app.handle_key(press(KeyCode::Home));
    assert_eq!(app.selected, Some(0));
    app.handle_key(press(KeyCode::PageUp));
    assert_eq!(app.selected, Some(0));
    app.handle_key(press(KeyCode::End));
    assert_eq!(app.selected, Some(24));
    app.selected = None;
    app.handle_key(press(KeyCode::Down));
    assert_eq!(app.selected, Some(1));
}

#[test]
fn empty_list_of_games_only_lets_one_quit() {
    let mut app = on_game_list(0, AssetSelection::full());
    assert!(app.handle_key(press(KeyCode::Enter)).is_none());
    assert!(matches!(app.screen, AppScreen::GameList));
    app.handle_key(press(KeyCode::Down));
    assert_eq!(app.selected, None);
    app.handle_key(press(KeyCode::Char('q')));
    assert!(app.should_quit);
}

#[test]
fn enter_starts_the_pipeline_over_all_pairs() {
    let mut app = on_game_list(5, AssetSelection::from_slice(&[AssetType::Grid, AssetType::Icon]));
    let command = app.handle_key(press(KeyCode::Enter));
    assert!(matches!(command, Some(Command::StartDownloads)));
    assert!(matches!(app.screen, AppScreen::Downloading { current: 0, total: 10 }));
    assert_eq!(app.progress_counts(), Some((0, 10)));
    let job = app.download_job();
    assert_eq!(job.games.len(), 5);
    assert_eq!(job.games[4].slug, "game-4");
    assert_eq!(job.assets.to_vec(), vec![AssetType::Grid, AssetType::Icon]);
    assert_eq!(job.opts.grid_dim, "600x900");
    assert!(job.opts.nsfw_filter);
    assert!(job.opts.humor_filter);
    assert!(!job.opts.force);
    assert_eq!(job.max_concurrent, 3);
    assert_eq!(job.api_key, "secret");
    assert_eq!(job.request_delay_ms, 100);
    // While the pipeline runs only quitting is possible.
    app.handle_key(press(KeyCode::Enter));
    app.handle_key(press(KeyCode::Down));
    assert!(!app.should_quit);
    app.handle_key(press(KeyCode::Esc));
    assert!(app.should_quit);
}

#[test]
fn job_without_a_credential_has_the_empty_credential() {
    let app = App::new(Config::default(), games(1), AssetSelection::full(), true);
    let job = app.download_job();
    assert_eq!(job.api_key, "");
    assert!(job.opts.force);
    assert_eq!(app.progress_counts(), None);
}

#[test]
fn progress_is_logged_recorded_and_counted() {
    let mut app = on_game_list(2, AssetSelection::from_slice(&[AssetType::Grid]));
    app.handle_key(press(KeyCode::Enter));
    assert!(matches!(app.screen, AppScreen::Downloading { current: 0, total: 2 }));

    app.handle_download_progress(&event("game-0", AssetType::Grid, DownloadStatus::Searching), 1);
    assert!(matches!(app.games[0].grid_status, DownloadStatus::Searching));
    assert!(matches!(app.screen, AppScreen::Downloading { current: 0, total: 2 }));
    app.handle_download_progress(&event("game-0", AssetType::Grid, DownloadStatus::Downloading), 1);
    app.handle_download_progress(
        &event("game-0", AssetType::Grid, DownloadStatus::Done("/d/game-0.jpg".to_string())),
        2,
    );
    assert!(matches!(app.screen, AppScreen::Downloading { current: 1, total: 2 }));
    assert!(matches!(&app.games[0].grid_status, DownloadStatus::Done(p) if p == "/d/game-0.jpg"));
    assert!(matches!(app.games[1].grid_status, DownloadStatus::Pending));
    assert_eq!(app.count_results(), (1, 0, 0));

    app.handle_download_progress(
        &event("game-1", AssetType::Grid, DownloadStatus::Failed("no art found".to_string())),
        7,
    );
    assert!(matches!(
        app.screen,
        AppScreen::Done { downloaded: 1, skipped: 0, failed: 1, elapsed_secs: 7 }
    ));
    assert_eq!(
        app.log,
        vec![
            (LogLevel::Info, "Searching for Game 0 (Grid)...".to_string()),
            (LogLevel::Info, "Downloading Grid for Game 0...".to_string()),
            (LogLevel::Success, "Game 0 — Grid saved to /d/game-0.jpg".to_string()),
            (LogLevel::Error, "Game 1 — Grid failed: no art found".to_string()),
        ]
    );
    // On the summary, enter quits.
    app.handle_key(press(KeyCode::Enter));
    assert!(app.should_quit);
}

#[test]
fn counts_look_at_selected_categories_only() {
    let mut app =
        on_game_list(2, AssetSelection::from_slice(&[AssetType::Grid, AssetType::Hero]));
    app.games[0].grid_status = DownloadStatus::Done(String::new());
    app.games[0].hero_status = DownloadStatus::Skipped(String::new());
    app.games[0].logo_status = DownloadStatus::Done(String::new());
    app.games[0].icon_status = DownloadStatus::Failed(String::new());
    app.games[1].grid_status = DownloadStatus::Failed(String::new());
    app.games[1].hero_status = DownloadStatus::Downloading;
    assert_eq!(app.count_results(), (1, 1, 1));
    assert_eq!(app.count_ending(Ending::Done), 1);
    assert_eq!(app.count_ending(Ending::Skipped), 1);
    assert_eq!(app.count_ending(Ending::Failed), 1);
    app.selected_assets = AssetSelection::full();
    assert_eq!(app.count_results(), (2, 1, 2));
}

#[test]
fn progress_of_an_unknown_game_is_logged_under_its_key() {
    let mut app = on_game_list(1, AssetSelection::full());
    app.handle_key(press(KeyCode::Enter));
    app.handle_download_progress(
        &event("stranger", AssetType::Icon, DownloadStatus::Skipped("already exists".to_string())),
        0,
    );
    assert_eq!(
        app.log,
        vec![(LogLevel::Info, "stranger — Icon skipped: already exists".to_string())]
    );
    assert!(matches!(app.games[0].icon_status, DownloadStatus::Pending));
    // It is counted all the same.
    assert!(matches!(app.screen, AppScreen::Downloading { current: 1, total: 4 }));
    assert_eq!(app.find_entry("stranger"), None);
    assert_eq!(app.find_entry("game-0"), Some(0));
    assert_eq!(app.display_name("game-0"), "Game 0");
    assert_eq!(app.display_name("stranger"), "stranger");
}

#[test]
fn first_game_with_a_key_takes_the_progress() {
    let twins = vec![game("twin", "First"), game("twin", "Second")];
    let mut app = App::new(with_key(), twins, AssetSelection::full(), false);
    app.handle_download_progress(&event("twin", AssetType::Hero, DownloadStatus::Downloading), 0);
    assert!(matches!(app.games[0].hero_status, DownloadStatus::Downloading));
    assert!(matches!(app.games[1].hero_status, DownloadStatus::Pending));
    assert_eq!(app.log[0].1, "Downloading Hero for First...");
    // Not on the progress screen: nothing is counted.
    assert!(matches!(app.screen, AppScreen::AssetTypeSelection { cursor: 0 }));
}

#[test]
fn lines_of_the_log() {
    assert_eq!(progress_line("Doom", AssetType::Logo, &DownloadStatus::Pending), None);
    assert_eq!(
        progress_line("Doom", AssetType::Logo, &DownloadStatus::Searching),
        Some((LogLevel::Info, "Searching for Doom (Logo)...".to_string()))
    );
    assert_eq!(
        progress_line("Doom", AssetType::Logo, &DownloadStatus::Skipped("why".to_string())),
        Some((LogLevel::Info, "Doom — Logo skipped: why".to_string()))
    );
}

#[test]
fn ticks_are_counted() {
    let mut app = App::new(with_key(), Vec::new(), AssetSelection::full(), false);
    app.tick();
    app.tick();
    assert_eq!(app.tick_count, 2);
    app.tick_count = u64::MAX;
    app.tick();
    assert_eq!(app.tick_count, 0);
}

#[test]
fn events_go_where_they_belong() {
    let mut app = on_game_list(1, AssetSelection::from_slice(&[AssetType::Grid]));
    assert!(app.handle_event(&AppEvent::Tick, 0).is_none());
    assert_eq!(app.tick_count, 1);
    assert!(app.handle_event(&AppEvent::Resize(80, 24), 0).is_none());
    let command = app.handle_event(&AppEvent::Key(press(KeyCode::Enter)), 0);
    assert!(matches!(command, Some(Command::StartDownloads)));
    let done = event("game-0", AssetType::Grid, DownloadStatus::Skipped("already exists".to_string()));
    assert!(app.handle_event(&AppEvent::Download(done), 3).is_none());
    assert!(matches!(
        app.screen,
        AppScreen::Done { downloaded: 0, skipped: 1, failed: 0, elapsed_secs: 3 }
    ));
}

#[test]
fn log_keeps_the_lines_in_order() {
    let mut app = App::new(with_key(), Vec::new(), AssetSelection::full(), false);
    app.log(LogLevel::Info, "one".to_string());
    app.log(LogLevel::Error, "two".to_string());
    assert_eq!(
        app.log,
        vec![(LogLevel::Info, "one".to_string()), (LogLevel::Error, "two".to_string())]
    );
}

#[test]
fn enter_with_nothing_selected_changes_nothing() {
    let mut app = App::new(with_key(), games(2), AssetSelection::empty(), false);
    app.handle_key(press(KeyCode::Down));
    app.handle_key(press(KeyCode::Down));
    assert!(matches!(app.screen, AppScreen::AssetTypeSelection { cursor: 2 }));
    app.handle_asset_selection(KeyCode::Enter);
    assert!(matches!(app.screen, AppScreen::AssetTypeSelection { cursor: 2 }));
    assert!(app.selected_assets.is_empty());
    assert!(!app.should_quit);
    assert!(app.log.is_empty());
    assert_eq!(app.games.len(), 2);
    for entry in &app.games {
        for kind in AssetType::all() {
            assert!(matches!(entry.status(*kind), DownloadStatus::Pending));
        }
    }
    // Through the dispatcher too, and nothing is to be done outside.
    assert!(app.handle_key(press(KeyCode::Enter)).is_none());
    assert!(matches!(app.screen, AppScreen::AssetTypeSelection { cursor: 2 }));
    assert_eq!(app.progress_counts(), None);
}

#[test]
fn screen_handlers_can_be_called_directly() {
    let mut app = App::new(Config::default(), games(3), AssetSelection::full(), false);
    assert!(app.handle_api_key_input(KeyCode::Char('x')).is_none());
    assert_eq!(input_of(&app).0, "x");
    let mut app = on_game_list(3, AssetSelection::full());
    assert!(app.handle_game_list(KeyCode::End).is_none());
    assert_eq!(app.selected, Some(2));
    assert!(matches!(app.handle_game_list(KeyCode::Enter), Some(Command::StartDownloads)));
    assert!(matches!(app.screen, AppScreen::Downloading { current: 0, total: 12 }));
}
