use lutrisartfetcher::api::models::{AssetType, DownloadProgress, DownloadStatus};
use lutrisartfetcher::config::PathError;
use lutrisartfetcher::db::Game;
use lutrisartfetcher::report::{
    display_name, downloading_line, dry_run_heading, found_games_line, headless_output,
    selection_names, DryRunTally, Summary,
};
use lutrisartfetcher::selection::AssetSelection;

fn game(slug: &str, name: &str) -> Game {
    Game::from_row(1, name.to_string(), slug.to_string(), None, None, None, None, 0, 0)
}

fn event(status: DownloadStatus) -> DownloadProgress {
    DownloadProgress { game_slug: "doom".to_string(), asset_type: AssetType::Hero, status }
}

fn printed(status: DownloadStatus) -> Option<(String, bool)> {
    headless_output("Doom", &event(status)).map(|p| (p.text, p.ends_line))
}

#[test]
fn games_are_spoken_of_by_name_or_else_by_key() {
    let games = vec![game("doom", "Doom"), game("twin", "First"), game("twin", "Second")];
    assert_eq!(display_name(&games, "doom"), "Doom");
    assert_eq!(display_name(&games, "twin"), "First");
    assert_eq!(display_name(&games, "quake"), "quake");
    assert_eq!(display_name(&[], "quake"), "quake");
}

#[test]
fn selected_categories_are_named_in_visiting_order() {
    assert_eq!(selection_names(&AssetSelection::full()), "Grid, Hero, Logo, Icon");
    assert_eq!(selection_names(&AssetSelection::from_slice(&[AssetType::Icon])), "Icon");
    assert_eq!(
        selection_names(&AssetSelection::from_slice(&[AssetType::Logo, AssetType::Grid])),
        "Grid, Logo"
    );
    assert_eq!(selection_names(&AssetSelection::empty()), "");
    assert_eq!(downloading_line(&AssetSelection::full()), "Downloading: Grid, Hero, Logo, Icon");
}

#[test]
fn first_line_counts_the_games() {
    assert_eq!(found_games_line(0), "Found 0 installed games");
    assert_eq!(found_games_line(17), "Found 17 installed games");
}

#[test]
fn lines_of_progress() {
    assert_eq!(printed(DownloadStatus::Pending), None);
    assert_eq!(
        printed(DownloadStatus::Searching),
        Some(("  ⟳ Searching for Doom...".to_string(), false))
    );
    assert_eq!(printed(DownloadStatus::Downloading), Some((" downloading Hero".to_string(), true)));
    assert_eq!(
        printed(DownloadStatus::Done("/d/lutris/heroes/doom.jpg".to_string())),
        Some(("  ✓ Doom — /d/lutris/heroes/doom.jpg saved".to_string(), true))
    );
    assert_eq!(
        printed(DownloadStatus::Skipped("already exists".to_string())),
        Some(("  ─ Doom — Hero skipped: already exists".to_string(), true))
    );
    assert_eq!(
        printed(DownloadStatus::Failed("no art found".to_string())),
        Some(("  ✗ Doom — Hero failed: no art found".to_string(), true))
    );
}

#[test]
fn summary_counts_terminal_statuses_by_kind() {
    let mut summary = Summary::new();
    assert_eq!(summary, Summary { downloaded: 0, skipped: 0, failed: 0 });
    for status in [
        DownloadStatus::Searching,
        DownloadStatus::Downloading,
        DownloadStatus::Done(String::new()),
        DownloadStatus::Pending,
        DownloadStatus::Failed(String::new()),
        DownloadStatus::Done(String::new()),
        DownloadStatus::Skipped(String::new()),
        DownloadStatus::Done(String::new()),
    ] {
        summary.record(&status);
    }
    assert_eq!(summary, Summary { downloaded: 3, skipped: 1, failed: 1 });
    assert_eq!(summary.line(), "Done! Downloaded: 3, Skipped: 1, Failed: 1");
    assert_eq!(Summary::new().line(), "Done! Downloaded: 0, Skipped: 0, Failed: 0");
}

#[test]
fn dry_run_says_what_would_happen_and_counts_it() {
    let mut tally = DryRunTally::new();
    let path = Ok("/d/lutris/coverart/doom.jpg".to_string());
    assert_eq!(tally.look_at(AssetType::Grid, &path, true), Ok("Grid: exists".to_string()));
    assert_eq!(
        tally.look_at(AssetType::Grid, &path, false),
        Ok("Grid: would download → /d/lutris/coverart/doom.jpg".to_string())
    );
    assert_eq!(
        tally.look_at(AssetType::Icon, &Ok("/i.png".to_string()), false),
        Ok("Icon: would download → /i.png".to_string())
    );
    assert_eq!(tally, DryRunTally { would_download: 2, already_exist: 1 });
    assert_eq!(tally.line(), "\nSummary: 2 assets to download, 1 already exist");
}

#[test]
fn dry_run_ends_on_an_unknown_path() {
    let mut tally = DryRunTally::new();
    let unknown = Err(PathError::NoDataDir);
    assert_eq!(tally.look_at(AssetType::Grid, &unknown, false), Err(PathError::NoDataDir));
    assert_eq!(tally.look_at(AssetType::Grid, &unknown, true), Err(PathError::NoDataDir));
    assert_eq!(tally, DryRunTally::new());
}

#[test]
fn dry_run_heading_names_the_game_and_its_key() {
    assert_eq!(dry_run_heading(&game("half-life", "Half-Life")), "  Half-Life (half-life)");
}
