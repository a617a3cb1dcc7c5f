//! The state of the interactive program: which screen is shown, what the
//! keys do on each screen, and how progress events are recorded.
//!
//! Nothing here draws or waits. A key press or a progress event changes the
//! state, and where something has to be done outside (a credential probed,
//! the settings written, the pipeline started) it is handed back as a
//! `Command`.

use crate::api::models::{AssetType, DownloadProgress, DownloadStatus, ProgressView, StatusView};
use crate::config::{Config, ConfigView};
use crate::download::{EntryView, GameEntry};
use crate::db::Game;
use crate::selection::AssetSelection;
use crate::text::{concat2, concat3, insert_char, remove_char, str_eq, trim, trimmed};
use vstd::prelude::*;

verus! {

// ---------------------------------------------------------------------------
// Screens
// ---------------------------------------------------------------------------

/// The screen that is shown.
#[derive(Debug)]
pub enum AppScreen {
    /// The credential is being typed. `cursor_pos` counts characters.
    ApiKeyEntry { input: String, cursor_pos: usize, error_msg: Option<String>, validating: bool },
    /// The categories are being chosen; `cursor` is a position in the list
    /// of all four.
    AssetTypeSelection { cursor: usize },
    /// The games are listed.
    GameList,
    /// The pipeline runs: `current` of `total` pairs have ended.
    Downloading { current: usize, total: usize },
    /// The pipeline has ended.
    Done { downloaded: usize, skipped: usize, failed: usize, elapsed_secs: u64 },
}

/// Mathematical value of an `AppScreen`.
pub enum ScreenView {
    ApiKeyEntry {
        input: Seq<char>,
        cursor_pos: usize,
        error_msg: Option<Seq<char>>,
        validating: bool,
    },
    AssetTypeSelection { cursor: usize },
    GameList,
    Downloading { current: usize, total: usize },
    Done { downloaded: usize, skipped: usize, failed: usize, elapsed_secs: u64 },
}

impl View for AppScreen {
    type V = ScreenView;

    open spec fn view(&self) -> ScreenView {
        match *self {
            AppScreen::ApiKeyEntry {
                input,
                cursor_pos,
                error_msg,
                validating,
            } => ScreenView::ApiKeyEntry {
                input: input@,
                cursor_pos,
                error_msg: match error_msg {
                    Some(text) => Some(text@),
                    None => None,
                },
                validating,
            },
            AppScreen::AssetTypeSelection { cursor } => ScreenView::AssetTypeSelection { cursor },
            AppScreen::GameList => ScreenView::GameList,
            AppScreen::Downloading { current, total } => ScreenView::Downloading {
                current,
                total,
            },
            AppScreen::Done { downloaded, skipped, failed, elapsed_secs } => ScreenView::Done {
                downloaded,
                skipped,
                failed,
                elapsed_secs,
            },
        }
    }
}

/// Weight of a line of the log.
#[derive(Debug, Clone, Copy, PartialEq, Eq, Structural)]
pub enum LogLevel {
    Info,
    Success,
    Warn,
    Error,
}

// ---------------------------------------------------------------------------
// Keys and commands
// ---------------------------------------------------------------------------

/// A key of the keyboard, as far as the program tells keys apart.
#[derive(Debug, Clone, Copy, PartialEq, Eq, Structural)]
pub enum KeyCode {
    Char(char),
    Backspace,
    Left,
    Right,
    Up,
    Down,
    Home,
    End,
    PageUp,
    PageDown,
    Enter,
    Esc,
    Other,
}

/// A key press: the key, and whether the control key was held.
#[derive(Debug, Clone, Copy, PartialEq, Eq, Structural)]
pub struct KeyPress {
    pub code: KeyCode,
    pub ctrl: bool,
}

/// What has to be done outside after a change of the state.
#[derive(Debug)]
pub enum Command {
    /// Probe this credential and report the result as a progress event
    /// under the key of `validation_key`.
    ValidateKey { api_key: String },
    /// Write the settings, then call `App::config_saved`.
    SaveConfig,
    /// Start the pipeline with `App::download_job`.
    StartDownloads,
}

/// Mathematical value of a `Command`.
pub enum CommandView {
    ValidateKey { api_key: Seq<char> },
    SaveConfig,
    StartDownloads,
}

impl View for Command {
    type V = CommandView;

    open spec fn view(&self) -> CommandView {
        match *self {
            Command::ValidateKey { api_key } => CommandView::ValidateKey { api_key: api_key@ },
            Command::SaveConfig => CommandView::SaveConfig,
            Command::StartDownloads => CommandView::StartDownloads,
        }
    }
}

/// The view of an optional command.
pub open spec fn command_view(command: Option<Command>) -> Option<CommandView> {
    match command {
        Some(c) => Some(c@),
        None => None,
    }
}

// ---------------------------------------------------------------------------
// State
// ---------------------------------------------------------------------------

/// The whole state of the interactive program.
#[derive(Debug)]
pub struct App {
    pub screen: AppScreen,
    pub games: Vec<GameEntry>,
    /// Position of the highlighted game in the list.
    pub selected: Option<usize>,
    pub log: Vec<(LogLevel, String)>,
    pub selected_assets: AssetSelection,
    pub config: Config,
    pub should_quit: bool,
    pub show_help: bool,
    pub force_download: bool,
    /// Counter of animation frames.
    pub tick_count: u64,
}

/// Mathematical value of an `App`.
pub struct AppView {
    pub screen: ScreenView,
    pub games: Seq<EntryView>,
    pub selected: Option<usize>,
    pub log: Seq<(LogLevel, Seq<char>)>,
    pub selected_assets: AssetSelection,
    pub config: ConfigView,
    pub should_quit: bool,
    pub show_help: bool,
    pub force_download: bool,
    pub tick_count: u64,
}

/// The values of a list of game records.
pub open spec fn entry_views(games: Seq<GameEntry>) -> Seq<EntryView> {
    games.map_values(|entry: GameEntry| entry@)
}

/// The values of the lines of a log.
pub open spec fn log_view(log: Seq<(LogLevel, String)>) -> Seq<(LogLevel, Seq<char>)> {
    log.map_values(|line: (LogLevel, String)| (line.0, line.1@))
}

impl View for App {
    type V = AppView;

    open spec fn view(&self) -> AppView {
        AppView {
            screen: self.screen@,
            games: entry_views(self.games@),
            selected: self.selected,
            log: log_view(self.log@),
            selected_assets: self.selected_assets,
            config: self.config@,
            should_quit: self.should_quit,
            show_help: self.show_help,
            force_download: self.force_download,
            tick_count: self.tick_count,
        }
    }
}

/// What a key does to the screen on which the credential is typed.
pub struct EntryAfter {
    /// The screen afterwards.
    pub screen: ScreenView,
    /// Whether the program is to end.
    pub quits: bool,
    /// What is to be done outside.
    pub command: Option<CommandView>,
}

/// The screen on which the credential is typed, with its four parts.
pub open spec fn entry_screen(
    input: Seq<char>,
    cursor_pos: usize,
    error_msg: Option<Seq<char>>,
    validating: bool,
) -> ScreenView {
    ScreenView::ApiKeyEntry { input, cursor_pos, error_msg, validating }
}

/// What a key does while the credential is typed: characters go in at the
/// cursor (as long as the machine can count them), backspace takes out the
/// character before it, the arrows move it, enter submits the credential
/// without the white space at its ends, unless nothing is left of it, and
/// escape ends the program.
pub open spec fn entry_after(screen: ScreenView, code: KeyCode) -> EntryAfter
    recommends
        screen is ApiKeyEntry,
{
    let input = screen->ApiKeyEntry_input;
    let cursor_pos = screen->ApiKeyEntry_cursor_pos;
    let error_msg = screen->ApiKeyEntry_error_msg;
    let validating = screen->ApiKeyEntry_validating;
    let same = EntryAfter { screen, quits: false, command: None };
    match code {
        KeyCode::Char(c) => if cursor_pos < usize::MAX {
            EntryAfter {
                screen: entry_screen(
                    input.insert(cursor_pos as int, c),
                    (cursor_pos + 1) as usize,
                    None,
                    validating,
                ),
                ..same
            }
        } else {
            same
        },
        KeyCode::Backspace => if cursor_pos > 0 {
            EntryAfter {
                screen: entry_screen(
                    input.remove(cursor_pos - 1),
                    (cursor_pos - 1) as usize,
                    error_msg,
                    validating,
                ),
                ..same
            }
        } else {
            same
        },
        KeyCode::Left => EntryAfter {
            screen: entry_screen(input, minus_or_zero(cursor_pos, 1), error_msg, validating),
            ..same
        },
        KeyCode::Right => if cursor_pos < input.len() {
            EntryAfter {
                screen: entry_screen(input, (cursor_pos + 1) as usize, error_msg, validating),
                ..same
            }
        } else {
            same
        },
        KeyCode::Enter => if trimmed(input).len() == 0 {
            EntryAfter {
                screen: entry_screen(
                    input,
                    cursor_pos,
                    Some(spec_empty_key_message()),
                    validating,
                ),
                ..same
            }
        } else {
            EntryAfter {
                screen: entry_screen(input, cursor_pos, None, true),
                quits: false,
                command: Some(CommandView::ValidateKey { api_key: trimmed(input) }),
            }
        },
        KeyCode::Esc => EntryAfter { quits: true, ..same },
        _ => same,
    }
}

/// A key leaves the cursor within the credential.
pub proof fn lemma_entry_after_wf(screen: ScreenView, code: KeyCode)
    requires
        screen matches ScreenView::ApiKeyEntry { input, cursor_pos, .. } && cursor_pos
            <= input.len(),
    ensures
        entry_after(screen, code).screen matches ScreenView::ApiKeyEntry {
            input,
            cursor_pos,
            ..
        } && cursor_pos <= input.len(),
{
}

/// Message shown where the credential was entered empty.
pub open spec fn spec_empty_key_message() -> Seq<char> {
    "API key cannot be empty"@
}

/// `x - y`, or zero where `y` is the larger.
pub open spec fn minus_or_zero(x: usize, y: usize) -> usize {
    if x >= y {
        (x - y) as usize
    } else {
        0
    }
}

/// The smaller of two positions.
pub open spec fn smaller(x: int, y: int) -> int {
    if x <= y {
        x
    } else {
        y
    }
}

impl AppView {
    /// The positions in the state point into what they speak of, and the
    /// number of pairs fits the machine.
    pub open spec fn wf(self) -> bool {
        &&& self.games.len() * 4 <= usize::MAX
        &&& self.selected matches Some(i) ==> i < self.games.len()
        &&& match self.screen {
            ScreenView::ApiKeyEntry { input, cursor_pos, .. } => cursor_pos <= input.len(),
            ScreenView::AssetTypeSelection { cursor } => cursor < 4,
            ScreenView::GameList => self.selected_assets.spec_len() > 0,
            ScreenView::Downloading { current, total } => current < total,
            _ => true,
        }
    }

    /// The state that wants to end the program.
    pub open spec fn quitting(self) -> AppView {
        AppView { should_quit: true, ..self }
    }

    /// The state with another screen.
    pub open spec fn showing(self, screen: ScreenView) -> AppView {
        AppView { screen, ..self }
    }

    /// The state with another game highlighted.
    pub open spec fn selecting(self, position: int) -> AppView {
        AppView { selected: Some(position as usize), ..self }
    }

    /// What a key does while the credential is typed: what `entry_after`
    /// says of the screen, and the program ends where it says so.
    pub open spec fn key_on_api_key_entry(self, code: KeyCode) -> (AppView, Option<CommandView>)
        recommends
            self.screen is ApiKeyEntry,
    {
        let after = entry_after(self.screen, code);
        (
            AppView { screen: after.screen, should_quit: self.should_quit || after.quits, ..self },
            after.command,
        )
    }

    /// What a key does while the categories are chosen: the arrows, `k`
    /// and `j` move the cursor, space switches the category under it, `a`
    /// selects all categories or, where all are selected, none, enter goes
    /// on to the list of games unless nothing is selected, and escape and
    /// `q` end the program.
    pub open spec fn key_on_asset_selection(self, code: KeyCode) -> AppView
        recommends
            self.screen matches ScreenView::AssetTypeSelection { cursor } && cursor < 4,
    {
        let cursor = self.screen->AssetTypeSelection_cursor;
        let under_cursor = AssetType::spec_all()[cursor as int];
        if code == KeyCode::Up || code == KeyCode::Char('k') {
            self.showing(ScreenView::AssetTypeSelection { cursor: minus_or_zero(cursor, 1) })
        } else if code == KeyCode::Down || code == KeyCode::Char('j') {
            if cursor + 1 < 4 {
                self.showing(ScreenView::AssetTypeSelection { cursor: (cursor + 1) as usize })
            } else {
                self
            }
        } else if code == KeyCode::Char(' ') {
            AppView { selected_assets: spec_toggled(self.selected_assets, under_cursor), ..self }
        } else if code == KeyCode::Char('a') {
            AppView {
                selected_assets: if self.selected_assets.spec_len() == 4 {
                    AssetSelection { grid: false, hero: false, logo: false, icon: false }
                } else {
                    AssetSelection { grid: true, hero: true, logo: true, icon: true }
                },
                ..self
            }
        } else if code == KeyCode::Enter {
            if self.selected_assets.spec_len() == 0 {
                self
            } else {
                self.showing(ScreenView::GameList)
            }
        } else if code == KeyCode::Esc || code == KeyCode::Char('q') {
            self.quitting()
        } else {
            self
        }
    }

    /// What a key does on the list of games. Without games only escape
    /// and `q` do anything: they end the program. Otherwise the arrows, `k`
    /// and `j` move the highlight by one game, page up and page down by
    /// ten, home and end to the first and the last game, never past either;
    /// enter starts the pipeline over all pairs of a game and a selected
    /// category; escape and `q` end the program.
    pub open spec fn key_on_game_list(self, code: KeyCode) -> (AppView, Option<CommandView>) {
        let len = self.games.len() as int;
        let i: int = match self.selected {
            Some(position) => position as int,
            None => 0,
        };
        let quits = code == KeyCode::Esc || code == KeyCode::Char('q');
        if len == 0 {
            (
                if quits {
                    self.quitting()
                } else {
                    self
                },
                None,
            )
        } else if code == KeyCode::Up || code == KeyCode::Char('k') {
            (self.selecting(if i >= 1 {
                i - 1
            } else {
                0
            }), None)
        } else if code == KeyCode::Down || code == KeyCode::Char('j') {
            (self.selecting(smaller(i + 1, len - 1)), None)
        } else if code == KeyCode::Home {
            (self.selecting(0), None)
        } else if code == KeyCode::End {
            (self.selecting(len - 1), None)
        } else if code == KeyCode::PageUp {
            (self.selecting(if i >= 10 {
                i - 10
            } else {
                0
            }), None)
        } else if code == KeyCode::PageDown {
            (self.selecting(smaller(i + 10, len - 1)), None)
        } else if code == KeyCode::Enter {
            (
                self.showing(
                    ScreenView::Downloading {
                        current: 0,
                        total: (len * self.selected_assets.spec_len()) as usize,
                    },
                ),
                Some(CommandView::StartDownloads),
            )
        } else if quits {
            (self.quitting(), None)
        } else {
            (self, None)
        }
    }

    /// What a key press does. Control-c ends the program and `?` shows or
    /// hides the help, on every screen; while the help is shown, any other
    /// key hides it and does nothing else. Otherwise the key goes to the
    /// screen, except that nothing is typed while a credential is probed.
    pub open spec fn handle_key(self, key: KeyPress) -> (AppView, Option<CommandView>) {
        if key.code == KeyCode::Char('c') && key.ctrl {
            (self.quitting(), None)
        } else if key.code == KeyCode::Char('?') {
            (AppView { show_help: !self.show_help, ..self }, None)
        } else if self.show_help {
            (AppView { show_help: false, ..self }, None)
        } else {
            match self.screen {
                ScreenView::ApiKeyEntry { validating, .. } => if validating {
                    (self, None)
                } else {
                    self.key_on_api_key_entry(key.code)
                },
                ScreenView::AssetTypeSelection { .. } => (
                    self.key_on_asset_selection(key.code),
                    None,
                ),
                ScreenView::GameList => self.key_on_game_list(key.code),
                ScreenView::Downloading { .. } => (
                    if key.code == KeyCode::Char('q') || key.code == KeyCode::Esc {
                        self.quitting()
                    } else {
                        self
                    },
                    None,
                ),
                ScreenView::Done { .. } => (
                    if key.code == KeyCode::Char('q') || key.code == KeyCode::Esc || key.code
                        == KeyCode::Enter {
                        self.quitting()
                    } else {
                        self
                    },
                    None,
                ),
            }
        }
    }
}

/// The selection with the membership of one category switched.
pub open spec fn spec_toggled(selection: AssetSelection, asset: AssetType) -> AssetSelection {
    match asset {
        AssetType::Grid => AssetSelection { grid: !selection.grid, ..selection },
        AssetType::Hero => AssetSelection { hero: !selection.hero, ..selection },
        AssetType::Logo => AssetSelection { logo: !selection.logo, ..selection },
        AssetType::Icon => AssetSelection { icon: !selection.icon, ..selection },
    }
}

/// The record of a game on which no work was done yet.
pub open spec fn fresh_entry(game: Game) -> EntryView {
    EntryView {
        game,
        grid_status: StatusView::Pending,
        hero_status: StatusView::Pending,
        logo_status: StatusView::Pending,
        icon_status: StatusView::Pending,
        steamgriddb_id: None,
    }
}

/// The state in which the program starts: the credential is asked for
/// where the settings hold none, the categories otherwise; the first game,
/// if there is one, is highlighted.
pub open spec fn spec_new_app(
    config: ConfigView,
    games: Seq<Game>,
    assets: AssetSelection,
    force: bool,
) -> AppView {
    AppView {
        screen: if config.api_key is None {
            ScreenView::ApiKeyEntry {
                input: Seq::empty(),
                cursor_pos: 0,
                error_msg: None,
                validating: false,
            }
        } else {
            ScreenView::AssetTypeSelection { cursor: 0 }
        },
        games: games.map_values(|game: Game| fresh_entry(game)),
        selected: if games.len() > 0 {
            Some(0usize)
        } else {
            None
        },
        log: Seq::empty(),
        selected_assets: assets,
        config,
        should_quit: false,
        show_help: false,
        force_download: force,
        tick_count: 0,
    }
}

/// A key on the screen of the credential leaves a well-formed state.
proof fn lemma_key_on_api_key_entry_wf(app: AppView, code: KeyCode)
    requires
        app.wf(),
        app.screen is ApiKeyEntry,
    ensures
        app.key_on_api_key_entry(code).0.wf(),
{
    lemma_entry_after_wf(app.screen, code);
}

/// A key on the screen of the categories leaves a well-formed state.
proof fn lemma_key_on_asset_selection_wf(app: AppView, code: KeyCode)
    requires
        app.wf(),
        app.screen is AssetTypeSelection,
    ensures
        app.key_on_asset_selection(code).wf(),
{
}

/// A key on the list of games leaves a well-formed state.
proof fn lemma_key_on_game_list_wf(app: AppView, code: KeyCode)
    requires
        app.wf(),
        app.screen is GameList,
    ensures
        app.key_on_game_list(code).0.wf(),
{
    let after = app.key_on_game_list(code).0;
    if app.games.len() > 0 && code == KeyCode::Enter {
        let len = app.games.len() as int;
        let chosen = app.selected_assets.spec_len() as int;
        assert(1 <= chosen <= 4);
        assert(len <= len * chosen <= len * 4) by (nonlinear_arith)
            requires
                1 <= chosen <= 4,
                0 < len,
        ;
        assert(after.screen == (ScreenView::Downloading {
            current: 0,
            total: (len * chosen) as usize,
        }));
    } else {
        assert(after.screen == app.screen);
        assert(after.games == app.games);
        assert(after.selected_assets == app.selected_assets);
        assert(after.selected matches Some(i) ==> i < app.games.len());
    }
}

/// A key press on a well-formed state leaves a well-formed state.
pub proof fn lemma_handle_key_wf(app: AppView, key: KeyPress)
    requires
        app.wf(),
    ensures
        app.handle_key(key).0.wf(),
{
    match app.screen {
        ScreenView::ApiKeyEntry { .. } => {
            lemma_key_on_api_key_entry_wf(app, key.code);
        },
        ScreenView::AssetTypeSelection { .. } => {
            lemma_key_on_asset_selection_wf(app, key.code);
        },
        ScreenView::GameList => {
            lemma_key_on_game_list_wf(app, key.code);
        },
        _ => {},
    }
}

/// No category, no run. While the categories are chosen and none is
/// selected, enter leaves the whole state as it is: the screen stays, the
/// selection stays empty, no game changes, nothing is logged, the program
/// does not end, and nothing is to be done outside.
pub proof fn lemma_empty_selection_goes_nowhere(app: AppView, key: KeyPress)
    requires
        app.screen is AssetTypeSelection,
        app.selected_assets.spec_len() == 0,
        key.code == KeyCode::Enter,
    ensures
        app.key_on_asset_selection(key.code) == app,
        !app.show_help ==> app.handle_key(key) == (app, None::<CommandView>),
{
}

/// The pipeline is started only with a selection. A key press asks for the
/// pipeline to be started only on the list of games, with at least one
/// game and at least one selected category, and the number of pairs that
/// it announces is the number of games times the number of selected
/// categories.
pub proof fn lemma_pipeline_starts_with_a_selection(app: AppView, key: KeyPress)
    requires
        app.wf(),
        app.handle_key(key).1 == Some(CommandView::StartDownloads),
    ensures
        app.screen is GameList,
        app.selected_assets.spec_len() > 0,
        app.games.len() > 0,
        app.handle_key(key).0.screen == (ScreenView::Downloading {
            current: 0,
            total: (app.games.len() * app.selected_assets.spec_len()) as usize,
        }),
        app.games.len() * app.selected_assets.spec_len() <= usize::MAX,
{
    lemma_key_on_game_list_wf(app, key.code);
    let len = app.games.len() as int;
    let chosen = app.selected_assets.spec_len() as int;
    assert(len * chosen <= len * 4) by (nonlinear_arith)
        requires
            0 <= chosen <= 4,
            0 <= len,
    ;
}

impl App {
    /// The state in which the program starts.
    pub fn new(config: Config, games: Vec<Game>, assets: AssetSelection, force: bool) -> (app: App)
        requires
            games.len() * 4 <= usize::MAX,
        ensures
            app@ == spec_new_app(config@, games@, assets, force),
            app@.wf(),
    {
        let mut entries: Vec<GameEntry> = Vec::new();
        let mut i: usize = 0;
        while i < games.len()
            invariant
                i <= games.len(),
                entries.len() == i,
                forall|j: int| 0 <= j < i ==> (#[trigger] entries@[j])@ == fresh_entry(games@[j]),
            decreases games.len() - i,
        {
            let entry = GameEntry::new(games[i].clone());
            assert(entry@ == fresh_entry(games@[i as int])) by {
                assert(entry.spec_status(AssetType::Grid)@ == StatusView::Pending);
                assert(entry.spec_status(AssetType::Hero)@ == StatusView::Pending);
                assert(entry.spec_status(AssetType::Logo)@ == StatusView::Pending);
                assert(entry.spec_status(AssetType::Icon)@ == StatusView::Pending);
            }
            entries.push(entry);
            i = i + 1;
        }
        let screen = if config.api_key.is_none() {
            AppScreen::ApiKeyEntry {
                input: String::new(),
                cursor_pos: 0,
                error_msg: None,
                validating: false,
            }
        } else {
            AppScreen::AssetTypeSelection { cursor: 0 }
        };
        let selected = if entries.len() > 0 {
            Some(0)
        } else {
            None
        };
        let log: Vec<(LogLevel, String)> = Vec::new();
        assert(entry_views(entries@) =~= games@.map_values(|game: Game| fresh_entry(game)));
        assert(log_view(log@) =~= Seq::<(LogLevel, Seq<char>)>::empty());
        App {
            screen,
            games: entries,
            selected,
            log,
            selected_assets: assets,
            config,
            should_quit: false,
            show_help: false,
            force_download: force,
            tick_count: 0,
        }
    }

    /// Handles a key press while the credential is typed.
    pub fn handle_api_key_input(&mut self, code: KeyCode) -> (command: Option<Command>)
        requires
            old(self)@.wf(),
            old(self)@.screen is ApiKeyEntry,
        ensures
            (final(self)@, command_view(command)) == old(self)@.key_on_api_key_entry(code),
            final(self)@.wf(),
    {
        proof {
            lemma_key_on_api_key_entry_wf(self@, code);
        }
        let mut screen = AppScreen::GameList;
        std::mem::swap(&mut self.screen, &mut screen);
        let after = entry_screen_after(screen, code);
        self.screen = after.0;
        if after.1 {
            self.should_quit = true;
        }
        after.2
    }

    /// Switches the membership of one category in the selection.
    fn toggle(&mut self, asset: AssetType)
        ensures
            *final(self) == (App {
                selected_assets: spec_toggled(old(self).selected_assets, asset),
                ..*old(self)
            }),
    {
        if self.selected_assets.contains(asset) {
            self.selected_assets.remove(asset);
        } else {
            self.selected_assets.insert(asset);
        }
        proof {
            let before = old(self).selected_assets;
            let after = self.selected_assets;
            let wanted = spec_toggled(before, asset);
            assert(after.spec_contains(AssetType::Grid) == wanted.spec_contains(AssetType::Grid));
            assert(after.spec_contains(AssetType::Hero) == wanted.spec_contains(AssetType::Hero));
            assert(after.spec_contains(AssetType::Logo) == wanted.spec_contains(AssetType::Logo));
            assert(after.spec_contains(AssetType::Icon) == wanted.spec_contains(AssetType::Icon));
        }
    }

    /// Handles a key press while the categories are chosen. With nothing
    /// selected, enter changes nothing: the list of games, from which alone
    /// the pipeline is started, is not reached.
    pub fn handle_asset_selection(&mut self, code: KeyCode)
        requires
            old(self)@.wf(),
            old(self)@.screen is AssetTypeSelection,
        ensures
            final(self)@ == old(self)@.key_on_asset_selection(code),
            final(self)@.wf(),
    {
        proof {
            lemma_key_on_asset_selection_wf(self@, code);
        }
        self.on_asset_selection(code);
    }

    /// Does what a key does while the categories are chosen.
    fn on_asset_selection(&mut self, code: KeyCode)
        requires
            old(self)@.wf(),
            old(self)@.screen is AssetTypeSelection,
        ensures
            final(self)@ == old(self)@.key_on_asset_selection(code),
    {
        let cursor = match self.screen {
            AppScreen::AssetTypeSelection { cursor } => cursor,
            _ => 0,
        };
        let all = AssetType::all();
        if code == KeyCode::Up || code == KeyCode::Char('k') {
            self.screen = AppScreen::AssetTypeSelection {
                cursor: if cursor >= 1 {
                    cursor - 1
                } else {
                    0
                },
            };
        } else if code == KeyCode::Down || code == KeyCode::Char('j') {
            if cursor + 1 < all.len() {
                self.screen = AppScreen::AssetTypeSelection { cursor: cursor + 1 };
            }
        } else if code == KeyCode::Char(' ') {
            self.toggle(all[cursor]);
        } else if code == KeyCode::Char('a') {
            if self.selected_assets.len() == all.len() {
                self.selected_assets = AssetSelection {
                    grid: false,
                    hero: false,
                    logo: false,
                    icon: false,
                };
            } else {
                self.selected_assets = AssetSelection {
                    grid: true,
                    hero: true,
                    logo: true,
                    icon: true,
                };
            }
        } else if code == KeyCode::Enter {
            if !self.selected_assets.is_empty() {
                self.screen = AppScreen::GameList;
            }
        } else if code == KeyCode::Esc || code == KeyCode::Char('q') {
            self.should_quit = true;
        }
    }

    /// Handles a key press on the list of games.
    pub fn handle_game_list(&mut self, code: KeyCode) -> (command: Option<Command>)
        requires
            old(self)@.wf(),
            old(self)@.screen is GameList,
        ensures
            (final(self)@, command_view(command)) == old(self)@.key_on_game_list(code),
            final(self)@.wf(),
    {
        proof {
            lemma_key_on_game_list_wf(self@, code);
        }
        self.on_game_list(code)
    }

    /// Does what a key does on the list of games.
    fn on_game_list(&mut self, code: KeyCode) -> (command: Option<Command>)
        requires
            old(self)@.wf(),
            old(self)@.screen is GameList,
        ensures
            (final(self)@, command_view(command)) == old(self)@.key_on_game_list(code),
    {
        let len = self.games.len();
        let quits = code == KeyCode::Esc || code == KeyCode::Char('q');
        if len == 0 {
            if quits {
                self.should_quit = true;
            }
            return None;
        }
        let i = match self.selected {
            Some(position) => position,
            None => 0,
        };
        if code == KeyCode::Up || code == KeyCode::Char('k') {
            self.selected = Some(if i >= 1 {
                i - 1
            } else {
                0
            });
        } else if code == KeyCode::Down || code == KeyCode::Char('j') {
            self.selected = Some(if i + 1 <= len - 1 {
                i + 1
            } else {
                len - 1
            });
        } else if code == KeyCode::Home {
            self.selected = Some(0);
        } else if code == KeyCode::End {
            self.selected = Some(len - 1);
        } else if code == KeyCode::PageUp {
            self.selected = Some(if i >= 10 {
                i - 10
            } else {
                0
            });
        } else if code == KeyCode::PageDown {
            self.selected = Some(if i + 10 <= len - 1 {
                i + 10
            } else {
                len - 1
            });
        } else if code == KeyCode::Enter {
            let chosen = self.selected_assets.len();
            assert(len * chosen <= len * 4) by (nonlinear_arith)
                requires
                    chosen <= 4,
            ;
            self.screen = AppScreen::Downloading { current: 0, total: len * chosen };
            return Some(Command::StartDownloads);
        } else if quits {
            self.should_quit = true;
        }
        None
    }

    /// Handles a key press: see `AppView::handle_key`.
    pub fn handle_key(&mut self, key: KeyPress) -> (command: Option<Command>)
        requires
            old(self)@.wf(),
        ensures
            (final(self)@, command_view(command)) == old(self)@.handle_key(key),
            final(self)@.wf(),
    {
        proof {
            lemma_handle_key_wf(self@, key);
        }
        if key.code == KeyCode::Char('c') && key.ctrl {
            self.should_quit = true;
            return None;
        }
        if key.code == KeyCode::Char('?') {
            self.show_help = !self.show_help;
            return None;
        }
        if self.show_help {
            self.show_help = false;
            return None;
        }
        let quits = key.code == KeyCode::Char('q') || key.code == KeyCode::Esc;
        match self.screen {
            AppScreen::ApiKeyEntry { validating, .. } => {
                if validating {
                    None
                } else {
                    self.handle_api_key_input(key.code)
                }
            },
            AppScreen::AssetTypeSelection { .. } => {
                self.handle_asset_selection(key.code);
                None
            },
            AppScreen::GameList => self.handle_game_list(key.code),
            AppScreen::Downloading { .. } => {
                if quits {
                    self.should_quit = true;
                }
                None
            },
            AppScreen::Done { .. } => {
                if quits || key.code == KeyCode::Enter {
                    self.should_quit = true;
                }
                None
            },
        }
    }

    /// Counts one animation frame. The counter starts again at zero after
    /// its largest value.
    pub fn tick(&mut self)
        ensures
            *final(self) == (App {
                tick_count: if old(self).tick_count == u64::MAX {
                    0
                } else {
                    (old(self).tick_count + 1) as u64
                },
                ..*old(self)
            }),
    {
        self.tick_count = if self.tick_count == u64::MAX {
            0
        } else {
            self.tick_count + 1
        };
    }

    /// Appends a line to the log.
    pub fn log(&mut self, level: LogLevel, message: String)
        ensures
            final(self)@ == (AppView {
                log: old(self)@.log.push((level, message@)),
                ..old(self)@
            }),
    {
        self.log.push((level, message));
        assert(log_view(self.log@) =~= log_view(old(self).log@).push((level, message@)));
    }
}

/// The screen on which the credential is typed, with its four parts.
fn entry(input: String, cursor_pos: usize, error_msg: Option<String>, validating: bool) -> (screen:
    AppScreen)
    ensures
        screen@ == entry_screen(
            input@,
            cursor_pos,
            match error_msg {
                Some(text) => Some(text@),
                None => None,
            },
            validating,
        ),
{
    AppScreen::ApiKeyEntry { input, cursor_pos, error_msg, validating }
}

/// What submitting the credential does to the screen on which it is typed.
fn entry_submitted(input: String, cursor_pos: usize, validating: bool) -> (after: (
    AppScreen,
    bool,
    Option<Command>,
))
    ensures
        after.0@ == entry_screen(
            input@,
            cursor_pos,
            if trimmed(input@).len() == 0 {
                Some(spec_empty_key_message())
            } else {
                None
            },
            if trimmed(input@).len() == 0 {
                validating
            } else {
                true
            },
        ),
        !after.1,
        command_view(after.2) == if trimmed(input@).len() == 0 {
            None
        } else {
            Some(CommandView::ValidateKey { api_key: trimmed(input@) })
        },
{
    let api_key = trim(input.as_str());
    if api_key.as_str().unicode_len() == 0 {
        (entry(input, cursor_pos, Some("API key cannot be empty".to_owned()), validating), false, None)
    } else {
        (entry(input, cursor_pos, None, true), false, Some(Command::ValidateKey { api_key }))
    }
}

/// What a key does to the screen on which the credential is typed: the
/// screen afterwards, whether the program is to end, and what is to be
/// done outside.
fn entry_screen_after(screen: AppScreen, code: KeyCode) -> (after: (AppScreen, bool, Option<Command>))
    requires
        screen@ matches ScreenView::ApiKeyEntry { input, cursor_pos, .. } && cursor_pos
            <= input.len(),
    ensures
        after.0@ == entry_after(screen@, code).screen,
        after.1 == entry_after(screen@, code).quits,
        command_view(after.2) == entry_after(screen@, code).command,
{
    match screen {
        AppScreen::ApiKeyEntry { input, cursor_pos, error_msg, validating } => {
            match code {
                KeyCode::Char(c) => {
                    if cursor_pos < usize::MAX {
                        let longer = insert_char(input.as_str(), cursor_pos, c);
                        (entry(longer, cursor_pos + 1, None, validating), false, None)
                    } else {
                        (entry(input, cursor_pos, error_msg, validating), false, None)
                    }
                },
                KeyCode::Backspace => {
                    if cursor_pos > 0 {
                        let shorter = remove_char(input.as_str(), cursor_pos - 1);
                        (entry(shorter, cursor_pos - 1, error_msg, validating), false, None)
                    } else {
                        (entry(input, cursor_pos, error_msg, validating), false, None)
                    }
                },
                KeyCode::Left => {
                    let moved = if cursor_pos >= 1 {
                        cursor_pos - 1
                    } else {
                        0
                    };
                    (entry(input, moved, error_msg, validating), false, None)
                },
                KeyCode::Right => {
                    let count = input.as_str().unicode_len();
                    let moved = if cursor_pos < count {
                        cursor_pos + 1
                    } else {
                        cursor_pos
                    };
                    (entry(input, moved, error_msg, validating), false, None)
                },
                KeyCode::Enter => entry_submitted(input, cursor_pos, validating),
                KeyCode::Esc => (entry(input, cursor_pos, error_msg, validating), true, None),
                _ => (entry(input, cursor_pos, error_msg, validating), false, None),
            }
        },
        other => (other, false, None),
    }
}

// ---------------------------------------------------------------------------
// Progress events
// ---------------------------------------------------------------------------

/// Key of the progress event that reports the result of a credential
/// probe. No game has this key.
pub open spec fn spec_validation_key() -> Seq<char> {
    "__api_key_validation__"@
}

/// Key of the progress event that reports the result of a credential probe.
pub fn validation_key() -> (key: &'static str)
    ensures
        key@ == spec_validation_key(),
{
    "__api_key_validation__"
}

/// Message of a credential that the catalogue refused.
pub open spec fn spec_key_rejected() -> Seq<char> {
    "API key rejected by SteamGridDB"@
}

/// The progress event that reports the result of a credential probe: the
/// credential is good if the probe succeeded and found it valid; a probe
/// that found it invalid fails with the message of the refused credential,
/// a probe that failed with its own message.
pub open spec fn spec_validation_progress(probe: Result<bool, Seq<char>>) -> ProgressView {
    ProgressView {
        game_slug: spec_validation_key(),
        asset_type: AssetType::Grid,
        status: match probe {
            Ok(valid) => if valid {
                StatusView::Done(Seq::empty())
            } else {
                StatusView::Failed(spec_key_rejected())
            },
            Err(message) => StatusView::Failed(message),
        },
    }
}

/// The view of the result of a probe.
pub open spec fn probe_view(probe: Result<bool, String>) -> Result<bool, Seq<char>> {
    match probe {
        Ok(valid) => Ok(valid),
        Err(message) => Err(message@),
    }
}

/// The progress event that reports the result of a credential probe.
pub fn validation_progress(probe: Result<bool, String>) -> (progress: DownloadProgress)
    ensures
        progress@ == spec_validation_progress(probe_view(probe)),
{
    let status = match probe {
        Ok(valid) => {
            if valid {
                DownloadStatus::Done(String::new())
            } else {
                DownloadStatus::Failed("API key rejected by SteamGridDB".to_owned())
            }
        },
        Err(message) => DownloadStatus::Failed(message),
    };
    DownloadProgress {
        game_slug: validation_key().to_owned(),
        asset_type: AssetType::Grid,
        status,
    }
}

/// Position of the first game record from `start` on whose game has the
/// key `slug`.
pub open spec fn entry_position_from(games: Seq<EntryView>, slug: Seq<char>, start: int) -> Option<
    int,
>
    decreases games.len() - start,
{
    if start < 0 || start >= games.len() {
        None
    } else if games[start].game.slug@ == slug {
        Some(start)
    } else {
        entry_position_from(games, slug, start + 1)
    }
}

/// Position of the first game record whose game has the key `slug`.
pub open spec fn entry_position(games: Seq<EntryView>, slug: Seq<char>) -> Option<int> {
    entry_position_from(games, slug, 0)
}

/// `entry_position_from` finds the first record from `start` on with the
/// key, and none only where no record from `start` on has it.
pub proof fn lemma_entry_position_from(games: Seq<EntryView>, slug: Seq<char>, start: int)
    requires
        0 <= start,
    ensures
        match entry_position_from(games, slug, start) {
            Some(found) => {
                &&& start <= found < games.len()
                &&& games[found].game.slug@ == slug
                &&& forall|j: int| start <= j < found ==> (#[trigger] games[j]).game.slug@ != slug
            },
            None => forall|j: int|
                start <= j < games.len() ==> (#[trigger] games[j]).game.slug@ != slug,
        },
    decreases games.len() - start,
{
    if start < games.len() && games[start].game.slug@ != slug {
        lemma_entry_position_from(games, slug, start + 1);
    }
}

/// Name under which a game is spoken of: the name of the first game with
/// the key, or the key itself where no game has it.
pub open spec fn spec_display_name(games: Seq<EntryView>, slug: Seq<char>) -> Seq<char> {
    match entry_position(games, slug) {
        Some(found) => games[found].game.name@,
        None => slug,
    }
}

/// The line that the log gets for a progress event; a pending pair gets
/// none.
pub open spec fn spec_progress_line(name: Seq<char>, asset: AssetType, status: StatusView)
    -> Option<(LogLevel, Seq<char>)> {
    let kind = asset.spec_display_name();
    match status {
        StatusView::Pending => None,
        StatusView::Searching => Some(
            (LogLevel::Info, "Searching for "@ + name + " ("@ + kind + ")..."@),
        ),
        StatusView::Downloading => Some(
            (LogLevel::Info, "Downloading "@ + kind + " for "@ + name + "..."@),
        ),
        StatusView::Done(path) => Some(
            (LogLevel::Success, name + " — "@ + kind + " saved to "@ + path),
        ),
        StatusView::Skipped(reason) => Some(
            (LogLevel::Info, name + " — "@ + kind + " skipped: "@ + reason),
        ),
        StatusView::Failed(message) => Some(
            (LogLevel::Error, name + " — "@ + kind + " failed: "@ + message),
        ),
    }
}

/// One of the three ways in which a pair ends.
#[derive(Debug, Clone, Copy, PartialEq, Eq, Structural)]
pub enum Ending {
    Done,
    Skipped,
    Failed,
}

/// Whether a status is the given ending.
pub open spec fn ends_as(status: StatusView, ending: Ending) -> bool {
    match ending {
        Ending::Done => status is Done,
        Ending::Skipped => status is Skipped,
        Ending::Failed => status is Failed,
    }
}

/// One if the category is selected and has ended in the given way, zero
/// otherwise.
pub open spec fn pair_tally(
    entry: EntryView,
    selection: AssetSelection,
    asset: AssetType,
    ending: Ending,
) -> nat {
    if selection.spec_contains(asset) && ends_as(entry.status(asset), ending) {
        1
    } else {
        0
    }
}

/// Number of selected categories of a game that have ended in the given
/// way.
pub open spec fn entry_tally(entry: EntryView, selection: AssetSelection, ending: Ending) -> nat {
    pair_tally(entry, selection, AssetType::Grid, ending) + pair_tally(
        entry,
        selection,
        AssetType::Hero,
        ending,
    ) + pair_tally(entry, selection, AssetType::Logo, ending) + pair_tally(
        entry,
        selection,
        AssetType::Icon,
        ending,
    )
}

/// Number of pairs of a game and a selected category that have ended in
/// the given way.
pub open spec fn tally(games: Seq<EntryView>, selection: AssetSelection, ending: Ending) -> nat
    decreases games.len(),
{
    if games.len() == 0 {
        0
    } else {
        tally(games.drop_last(), selection, ending) + entry_tally(games.last(), selection, ending)
    }
}

/// No more pairs have ended than there are pairs: each pair ends at most
/// once and in one way.
pub proof fn lemma_tally_bound(games: Seq<EntryView>, selection: AssetSelection)
    ensures
        tally(games, selection, Ending::Done) + tally(games, selection, Ending::Skipped) + tally(
            games,
            selection,
            Ending::Failed,
        ) <= games.len() * selection.spec_len(),
        games.len() * selection.spec_len() <= games.len() * 4,
    decreases games.len(),
{
    let chosen = selection.spec_len() as int;
    if games.len() > 0 {
        lemma_tally_bound(games.drop_last(), selection);
        let last = games.last();
        assert(entry_tally(last, selection, Ending::Done) + entry_tally(
            last,
            selection,
            Ending::Skipped,
        ) + entry_tally(last, selection, Ending::Failed) <= chosen);
        assert((games.len() - 1) * chosen + chosen == games.len() * chosen) by (nonlinear_arith);
        assert(games.drop_last().len() == games.len() - 1);
    } else {
        assert(0 * chosen == 0) by (nonlinear_arith);
    }
    assert(games.len() * chosen <= games.len() * 4) by (nonlinear_arith)
        requires
            0 <= chosen <= 4,
    ;
}

/// Message shown where the catalogue refused the credential.
pub open spec fn spec_invalid_key_message(reason: Seq<char>) -> Seq<char> {
    "Invalid key: "@ + reason
}

/// Line of the log that tells that the credential is good.
pub open spec fn spec_key_saved_line() -> (LogLevel, Seq<char>) {
    (LogLevel::Success, "API key validated and saved"@)
}

/// Line of the log that tells that the settings could not be written.
pub open spec fn spec_save_failed_line(reason: Seq<char>) -> (LogLevel, Seq<char>) {
    (LogLevel::Warn, "Could not save config: "@ + reason)
}

impl AppView {
    /// The state after the credential was found good: the log says so and
    /// the categories are chosen next.
    pub open spec fn key_validated(self) -> AppView {
        AppView {
            log: self.log.push(spec_key_saved_line()),
            screen: ScreenView::AssetTypeSelection { cursor: 0 },
            ..self
        }
    }

    /// The state after the settings were written, or could not be written
    /// for the given reason: a failure is logged as a warning, and the
    /// credential counts as good either way.
    pub open spec fn config_saved(self, failure: Option<Seq<char>>) -> AppView {
        match failure {
            Some(reason) => (AppView {
                log: self.log.push(spec_save_failed_line(reason)),
                ..self
            }).key_validated(),
            None => self.key_validated(),
        }
    }

    /// What the result of a credential probe does. A good credential is
    /// taken into the settings, as it was typed but without the white space
    /// at its ends, and the settings are to be written; where no credential
    /// is being typed the credential just counts as good. A refused
    /// credential is asked for again, with the reason shown.
    pub open spec fn on_validation(self, status: StatusView) -> (AppView, Option<CommandView>) {
        match status {
            StatusView::Done(_) => match self.screen {
                ScreenView::ApiKeyEntry { input, .. } => (
                    AppView {
                        config: ConfigView { api_key: Some(trimmed(input)), ..self.config },
                        ..self
                    },
                    Some(CommandView::SaveConfig),
                ),
                _ => (self.key_validated(), None),
            },
            StatusView::Failed(reason) => (
                self.showing(
                    ScreenView::ApiKeyEntry {
                        input: Seq::empty(),
                        cursor_pos: 0,
                        error_msg: Some(spec_invalid_key_message(reason)),
                        validating: false,
                    },
                ),
                None,
            ),
            _ => (self, None),
        }
    }

    /// The games after a progress event: the first game with the key of the
    /// event records the status for the category of the event.
    pub open spec fn games_after(self, progress: ProgressView) -> Seq<EntryView> {
        match entry_position(self.games, progress.game_slug) {
            Some(found) => self.games.update(
                found,
                self.games[found].with_status(progress.asset_type, progress.status),
            ),
            None => self.games,
        }
    }

    /// The log after a progress event.
    pub open spec fn log_after(self, progress: ProgressView) -> Seq<(LogLevel, Seq<char>)> {
        match spec_progress_line(
            spec_display_name(self.games, progress.game_slug),
            progress.asset_type,
            progress.status,
        ) {
            Some(line) => self.log.push(line),
            None => self.log,
        }
    }

    /// The screen after a progress event: while the pipeline runs, each
    /// terminal outcome is counted, and with the last one the summary is
    /// shown, with the numbers of pairs that were stored, skipped and
    /// failed and the time that the run took.
    pub open spec fn screen_after(self, progress: ProgressView, elapsed_secs: u64) -> ScreenView {
        match self.screen {
            ScreenView::Downloading { current, total } => {
                let ended: int = if progress.status.is_terminal() {
                    current + 1
                } else {
                    current as int
                };
                if ended >= total {
                    let games = self.games_after(progress);
                    ScreenView::Done {
                        downloaded: tally(games, self.selected_assets, Ending::Done) as usize,
                        skipped: tally(games, self.selected_assets, Ending::Skipped) as usize,
                        failed: tally(games, self.selected_assets, Ending::Failed) as usize,
                        elapsed_secs,
                    }
                } else {
                    ScreenView::Downloading { current: ended as usize, total }
                }
            },
            other => other,
        }
    }

    /// What a progress event does. The event with the key of the credential
    /// probe reports that probe. Every other event is logged, recorded in
    /// the game that it speaks of, and counted.
    pub open spec fn on_download_progress(self, progress: ProgressView, elapsed_secs: u64) -> (
        AppView,
        Option<CommandView>,
    ) {
        if progress.game_slug == spec_validation_key() {
            self.on_validation(progress.status)
        } else {
            (
                AppView {
                    log: self.log_after(progress),
                    games: self.games_after(progress),
                    screen: self.screen_after(progress, elapsed_secs),
                    ..self
                },
                None,
            )
        }
    }
}

/// A progress event on a well-formed state leaves a well-formed state.
pub proof fn lemma_on_download_progress_wf(app: AppView, progress: ProgressView, elapsed_secs: u64)
    requires
        app.wf(),
    ensures
        app.on_download_progress(progress, elapsed_secs).0.wf(),
{
    lemma_entry_position_from(app.games, progress.game_slug, 0);
}

/// The one-letter answer of whether an outcome is the given ending.
fn ends_as_exec(status: &DownloadStatus, ending: Ending) -> (yes: bool)
    ensures
        yes == ends_as(status@, ending),
{
    match (status, ending) {
        (DownloadStatus::Done(_), Ending::Done) => true,
        (DownloadStatus::Skipped(_), Ending::Skipped) => true,
        (DownloadStatus::Failed(_), Ending::Failed) => true,
        _ => false,
    }
}

/// Number of selected categories of a game that have ended in the given way.
fn count_entry(entry: &GameEntry, selection: &AssetSelection, ending: Ending) -> (count: usize)
    ensures
        count == entry_tally(entry@, *selection, ending),
        count <= 4,
{
    let kinds = AssetType::all();
    let mut count: usize = 0;
    let mut i: usize = 0;
    while i < 4
        invariant
            i <= 4,
            count <= i,
            kinds@ == AssetType::spec_all(),
            count == (if i > 0 {
                pair_tally(entry@, *selection, AssetType::Grid, ending)
            } else {
                0
            }) + (if i > 1 {
                pair_tally(entry@, *selection, AssetType::Hero, ending)
            } else {
                0
            }) + (if i > 2 {
                pair_tally(entry@, *selection, AssetType::Logo, ending)
            } else {
                0
            }) + (if i > 3 {
                pair_tally(entry@, *selection, AssetType::Icon, ending)
            } else {
                0
            }),
        decreases 4 - i,
    {
        let asset = kinds[i];
        if selection.contains(asset) && ends_as_exec(entry.status(asset), ending) {
            count = count + 1;
        }
        i = i + 1;
    }
    count
}

impl App {
    /// Number of pairs of a game and a selected category that have ended in
    /// the given way.
    pub fn count_ending(&self, ending: Ending) -> (count: usize)
        requires
            self@.wf(),
        ensures
            count == tally(self@.games, self.selected_assets, ending),
    {
        let mut count: usize = 0;
        let mut i: usize = 0;
        while i < self.games.len()
            invariant
                i <= self.games.len(),
                self.games.len() * 4 <= usize::MAX,
                count <= 4 * i,
                count == tally(entry_views(self.games@).take(i as int), self.selected_assets, ending),
            decreases self.games.len() - i,
        {
            let more = count_entry(&self.games[i], &self.selected_assets, ending);
            assert(entry_views(self.games@).take(i + 1).drop_last() =~= entry_views(
                self.games@,
            ).take(i as int));
            count = count + more;
            i = i + 1;
        }
        assert(entry_views(self.games@).take(i as int) =~= entry_views(self.games@));
        count
    }

    /// Numbers of the pairs that were stored, skipped and failed.
    pub fn count_results(&self) -> (counts: (usize, usize, usize))
        requires
            self@.wf(),
        ensures
            counts.0 == tally(self@.games, self.selected_assets, Ending::Done),
            counts.1 == tally(self@.games, self.selected_assets, Ending::Skipped),
            counts.2 == tally(self@.games, self.selected_assets, Ending::Failed),
    {
        (
            self.count_ending(Ending::Done),
            self.count_ending(Ending::Skipped),
            self.count_ending(Ending::Failed),
        )
    }

    /// Position of the first game with the key `slug`.
    pub fn find_entry(&self, slug: &str) -> (found: Option<usize>)
        ensures
            match entry_position(self@.games, slug@) {
                Some(position) => 0 <= position < self.games.len() && found == Some(
                    position as usize,
                ),
                None => found is None,
            },
    {
        proof {
            lemma_entry_position_from(self@.games, slug@, 0);
        }
        let mut i: usize = 0;
        while i < self.games.len()
            invariant
                i <= self.games.len(),
                entry_position(self@.games, slug@) == entry_position_from(
                    self@.games,
                    slug@,
                    i as int,
                ),
            decreases self.games.len() - i,
        {
            if str_eq(self.games[i].game.slug.as_str(), slug) {
                return Some(i);
            }
            i = i + 1;
        }
        None
    }

    /// Name under which the game with the key `slug` is spoken of.
    pub fn display_name(&self, slug: &str) -> (name: String)
        ensures
            name@ == spec_display_name(self@.games, slug@),
    {
        match self.find_entry(slug) {
            Some(found) => self.games[found].game.name.clone(),
            None => slug.to_owned(),
        }
    }

    /// The state after the settings were written (`failure` is `None`) or
    /// could not be written: see `AppView::config_saved`.
    pub fn config_saved(&mut self, failure: Option<String>)
        ensures
            final(self)@ == old(self)@.config_saved(
                match failure {
                    Some(reason) => Some(reason@),
                    None => None,
                },
            ),
    {
        match failure {
            Some(reason) => {
                let line = concat2("Could not save config: ", reason.as_str());
                self.log(LogLevel::Warn, line);
            },
            None => {},
        }
        self.log(LogLevel::Success, "API key validated and saved".to_owned());
        self.screen = AppScreen::AssetTypeSelection { cursor: 0 };
    }
}

/// The line that the log gets for a progress event.
pub fn progress_line(name: &str, asset: AssetType, status: &DownloadStatus) -> (line: Option<
    (LogLevel, String),
>)
    ensures
        match spec_progress_line(name@, asset, status@) {
            Some(wanted) => line matches Some(made) && made.0 == wanted.0 && made.1@ == wanted.1,
            None => line is None,
        },
{
    let kind = asset.display_name();
    match status {
        DownloadStatus::Pending => None,
        DownloadStatus::Searching => {
            let mut text = concat3("Searching for ", name, " (");
            text.append(kind);
            text.append(")...");
            Some((LogLevel::Info, text))
        },
        DownloadStatus::Downloading => {
            let mut text = concat3("Downloading ", kind, " for ");
            text.append(name);
            text.append("...");
            Some((LogLevel::Info, text))
        },
        DownloadStatus::Done(path) => {
            let mut text = concat3(name, " — ", kind);
            text.append(" saved to ");
            text.append(path.as_str());
            Some((LogLevel::Success, text))
        },
        DownloadStatus::Skipped(reason) => {
            let mut text = concat3(name, " — ", kind);
            text.append(" skipped: ");
            text.append(reason.as_str());
            Some((LogLevel::Info, text))
        },
        DownloadStatus::Failed(message) => {
            let mut text = concat3(name, " — ", kind);
            text.append(" failed: ");
            text.append(message.as_str());
            Some((LogLevel::Error, text))
        },
    }
}

/// What the pipeline is to be started with.
#[derive(Debug)]
pub struct DownloadJob {
    pub games: Vec<Game>,
    pub assets: AssetSelection,
    pub opts: crate::download::DownloadOpts,
    pub max_concurrent: usize,
    pub api_key: String,
    pub request_delay_ms: u64,
}

impl App {
    /// Records a progress event: see `AppView::on_download_progress`.
    /// `elapsed_secs` is the time since the pipeline was started; it is
    /// shown in the summary if this event is the last of the run.
    pub fn handle_download_progress(&mut self, progress: &DownloadProgress, elapsed_secs: u64) -> (command:
        Option<Command>)
        requires
            old(self)@.wf(),
        ensures
            (final(self)@, command_view(command)) == old(self)@.on_download_progress(
                progress@,
                elapsed_secs,
            ),
            final(self)@.wf(),
    {
        proof {
            lemma_on_download_progress_wf(self@, progress@, elapsed_secs);
        }
        if str_eq(progress.game_slug.as_str(), validation_key()) {
            return self.handle_validation(&progress.status);
        }
        self.log_progress(progress);
        self.record_progress(progress);
        self.count_progress(progress.status.is_terminal(), elapsed_secs);
        None
    }

    /// Appends the line of a progress event to the log.
    fn log_progress(&mut self, progress: &DownloadProgress)
        ensures
            final(self)@ == (AppView { log: old(self)@.log_after(progress@), ..old(self)@ }),
    {
        let name = self.display_name(progress.game_slug.as_str());
        match progress_line(name.as_str(), progress.asset_type, &progress.status) {
            Some(line) => {
                self.log(line.0, line.1);
            },
            None => {},
        }
    }

    /// Records the status of a progress event in the game that it speaks
    /// of.
    fn record_progress(&mut self, progress: &DownloadProgress)
        ensures
            final(self)@ == (AppView { games: old(self)@.games_after(progress@), ..old(self)@ }),
    {
        match self.find_entry(progress.game_slug.as_str()) {
            Some(found) => {
                let status = progress.status.clone();
                let ghost before = self.games@;
                *self.games[found].status_mut(progress.asset_type) = status;
                assert(self.games@[found as int]@ == before[found as int]@.with_status(
                    progress.asset_type,
                    status@,
                ));
                assert(entry_views(self.games@) =~= entry_views(before).update(
                    found as int,
                    before[found as int]@.with_status(progress.asset_type, status@),
                ));
            },
            None => {},
        }
    }

    /// Counts an event while the pipeline runs, and shows the summary with
    /// the last terminal outcome.
    fn count_progress(&mut self, terminal: bool, elapsed_secs: u64)
        requires
            old(self)@.wf(),
        ensures
            final(self)@ == (AppView {
                screen: match old(self)@.screen {
                    ScreenView::Downloading { current, total } => {
                        let ended: int = if terminal {
                            current + 1
                        } else {
                            current as int
                        };
                        if ended >= total {
                            ScreenView::Done {
                                downloaded: tally(
                                    old(self)@.games,
                                    old(self).selected_assets,
                                    Ending::Done,
                                ) as usize,
                                skipped: tally(
                                    old(self)@.games,
                                    old(self).selected_assets,
                                    Ending::Skipped,
                                ) as usize,
                                failed: tally(
                                    old(self)@.games,
                                    old(self).selected_assets,
                                    Ending::Failed,
                                ) as usize,
                                elapsed_secs,
                            }
                        } else {
                            ScreenView::Downloading { current: ended as usize, total }
                        }
                    },
                    other => other,
                },
                ..old(self)@
            }),
    {
        match self.screen {
            AppScreen::Downloading { current, total } => {
                let ended = if terminal {
                    current + 1
                } else {
                    current
                };
                if ended >= total {
                    let counts = self.count_results();
                    self.screen = AppScreen::Done {
                        downloaded: counts.0,
                        skipped: counts.1,
                        failed: counts.2,
                        elapsed_secs,
                    };
                } else {
                    self.screen = AppScreen::Downloading { current: ended, total };
                }
            },
            _ => {},
        }
    }

    /// Records the result of a credential probe.
    fn handle_validation(&mut self, status: &DownloadStatus) -> (command: Option<Command>)
        ensures
            (final(self)@, command_view(command)) == old(self)@.on_validation(status@),
    {
        match status {
            DownloadStatus::Done(_) => {
                let api_key = match &self.screen {
                    AppScreen::ApiKeyEntry { input, .. } => Some(trim(input.as_str())),
                    _ => None,
                };
                match api_key {
                    Some(key) => {
                        self.config.api_key = Some(key);
                        Some(Command::SaveConfig)
                    },
                    None => {
                        self.log(LogLevel::Success, "API key validated and saved".to_owned());
                        self.screen = AppScreen::AssetTypeSelection { cursor: 0 };
                        None
                    },
                }
            },
            DownloadStatus::Failed(reason) => {
                self.screen = AppScreen::ApiKeyEntry {
                    input: String::new(),
                    cursor_pos: 0,
                    error_msg: Some(concat2("Invalid key: ", reason.as_str())),
                    validating: false,
                };
                None
            },
            _ => None,
        }
    }

    /// The numbers of ended and of all pairs while the pipeline runs.
    pub fn progress_counts(&self) -> (counts: Option<(usize, usize)>)
        ensures
            counts == match self@.screen {
                ScreenView::Downloading { current, total } => Some((current, total)),
                _ => None,
            },
    {
        match self.screen {
            AppScreen::Downloading { current, total } => Some((current, total)),
            _ => None,
        }
    }

    /// What the pipeline is to be started with: the games of the list in
    /// their order, the selected categories, and the settings; a missing
    /// credential counts as the empty credential.
    pub fn download_job(&self) -> (job: DownloadJob)
        ensures
            job.games@.len() == self.games@.len(),
            forall|i: int| 0 <= i < self.games@.len() ==> job.games@[i] == self.games@[i].game,
            job.assets == self.selected_assets,
            job.opts.grid_dim@ == self.config.preferred_grid_dimension@,
            job.opts.nsfw_filter == self.config.nsfw_filter,
            job.opts.humor_filter == self.config.humor_filter,
            job.opts.force == self.force_download,
            job.max_concurrent == self.config.max_concurrent_downloads,
            job.api_key@ == match self.config.api_key {
                Some(key) => key@,
                None => Seq::<char>::empty(),
            },
            job.request_delay_ms == self.config.request_delay_ms,
    {
        let mut games: Vec<Game> = Vec::new();
        let mut i: usize = 0;
        while i < self.games.len()
            invariant
                i <= self.games.len(),
                games@.len() == i,
                forall|j: int| 0 <= j < i ==> games@[j] == self.games@[j].game,
            decreases self.games.len() - i,
        {
            games.push(self.games[i].game.clone());
            i = i + 1;
        }
        DownloadJob {
            games,
            assets: self.selected_assets,
            opts: crate::download::DownloadOpts {
                grid_dim: self.config.preferred_grid_dimension.clone(),
                nsfw_filter: self.config.nsfw_filter,
                humor_filter: self.config.humor_filter,
                force: self.force_download,
            },
            max_concurrent: self.config.max_concurrent_downloads as usize,
            api_key: match &self.config.api_key {
                Some(key) => key.clone(),
                None => String::new(),
            },
            request_delay_ms: self.config.request_delay_ms,
        }
    }
}

// ---------------------------------------------------------------------------
// Events
// ---------------------------------------------------------------------------

/// One thing that happens to the interactive program.
#[derive(Debug)]
pub enum AppEvent {
    /// A key was pressed.
    Key(KeyPress),
    /// Time for the next animation frame.
    Tick,
    /// The pipeline, or a credential probe, reports progress.
    Download(DownloadProgress),
    /// The terminal has a new size.
    Resize(u16, u16),
}

impl AppView {
    /// What an event does: a key press and a progress event do what
    /// `handle_key` and `on_download_progress` say, a tick counts a frame,
    /// and a new size changes nothing, as the next drawing fits itself in.
    pub open spec fn handle_event(self, event: AppEvent, elapsed_secs: u64) -> (
        AppView,
        Option<CommandView>,
    ) {
        match event {
            AppEvent::Key(key) => self.handle_key(key),
            AppEvent::Tick => (
                AppView {
                    tick_count: if self.tick_count == u64::MAX {
                        0
                    } else {
                        (self.tick_count + 1) as u64
                    },
                    ..self
                },
                None,
            ),
            AppEvent::Download(progress) => self.on_download_progress(progress@, elapsed_secs),
            AppEvent::Resize(_, _) => (self, None),
        }
    }
}

impl App {
    /// Handles one event: see `AppView::handle_event`.
    pub fn handle_event(&mut self, event: &AppEvent, elapsed_secs: u64) -> (command: Option<Command>)
        requires
            old(self)@.wf(),
        ensures
            (final(self)@, command_view(command)) == old(self)@.handle_event(*event, elapsed_secs),
            final(self)@.wf(),
    {
        match event {
            AppEvent::Key(key) => self.handle_key(*key),
            AppEvent::Tick => {
                self.tick();
                None
            },
            AppEvent::Download(progress) => self.handle_download_progress(progress, elapsed_secs),
            AppEvent::Resize(_, _) => None,
        }
    }
}

} // verus!
