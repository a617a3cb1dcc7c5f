use lutrisartfetcher::api::models::AssetType;
use lutrisartfetcher::config::Config;
use lutrisartfetcher::selection::AssetSelection;
use lutrisartfetcher::startup::{parse_asset_types, pick_mode, require_api_key, Mode, StartupError};

fn names(list: &[&str]) -> Vec<String> {
    list.iter().map(|s| s.to_string()).collect()
}

#[test]
fn dry_run_wins_over_everything() {
    assert_eq!(pick_mode(true, true), Mode::DryRun);
    assert_eq!(pick_mode(true, false), Mode::DryRun);
    assert_eq!(pick_mode(false, true), Mode::Headless);
    assert_eq!(pick_mode(false, false), Mode::Tui);
}

#[test]
fn default_command_line_selects_every_category() {
    let parsed = parse_asset_types(&names(&["grids", "heroes", "logos", "icons"])).unwrap();
    assert_eq!(parsed, AssetSelection::full());
}

#[test]
fn named_categories_are_selected_whatever_their_order_and_case() {
    let parsed = parse_asset_types(&names(&["ICON", "grid", "Icons"])).unwrap();
    assert_eq!(parsed.to_vec(), vec![AssetType::Grid, AssetType::Icon]);
}

#[test]
fn first_unknown_name_is_refused() {
    match parse_asset_types(&names(&["grid", "banner", "poster"])) {
        Err(StartupError::InvalidAssetType(unknown)) => assert_eq!(unknown.input, "banner"),
        other => panic!("unexpected {:?}", other),
    }
    match parse_asset_types(&names(&[""])) {
        Err(error @ StartupError::InvalidAssetType(_)) => {
            assert_eq!(error.message(), "Invalid asset type")
        }
        other => panic!("unexpected {:?}", other),
    }
}

#[test]
fn no_name_at_all_is_a_startup_error() {
    match parse_asset_types(&Vec::new()) {
        Err(error @ StartupError::NoAssetTypes) => {
            assert_eq!(error.message(), "No asset types selected")
        }
        other => panic!("unexpected {:?}", other),
    }
}

#[test]
fn missing_credential_is_a_startup_error() {
    let mut config = Config::default();
    match require_api_key(&config) {
        Err(error @ StartupError::MissingApiKey) => assert_eq!(
            error.message(),
            "No API key configured. Run without --no-tui to set one interactively."
        ),
        other => panic!("unexpected {:?}", other),
    }
    config.api_key = Some("k".to_string());
    assert_eq!(require_api_key(&config).unwrap(), "k");
}
