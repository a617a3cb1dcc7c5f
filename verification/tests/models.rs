use lutrisartfetcher::api::models::{
    ApiResponse, AssetType, DownloadProgress, DownloadStatus, UnknownAssetType,
};

#[test]
fn api_path_of_each_category() {
    assert_eq!(AssetType::Grid.api_path(), "grids");
    assert_eq!(AssetType::Hero.api_path(), "heroes");
    assert_eq!(AssetType::Logo.api_path(), "logos");
    assert_eq!(AssetType::Icon.api_path(), "icons");
}

#[test]
fn display_name_of_each_category() {
    assert_eq!(AssetType::Grid.display_name(), "Grid");
    assert_eq!(AssetType::Hero.display_name(), "Hero");
    assert_eq!(AssetType::Logo.display_name(), "Logo");
    assert_eq!(AssetType::Icon.display_name(), "Icon");
}

#[test]
fn lutris_subdir_of_each_category() {
    assert_eq!(AssetType::Grid.lutris_subdir(), "coverart");
    assert_eq!(AssetType::Hero.lutris_subdir(), "heroes");
    assert_eq!(AssetType::Logo.lutris_subdir(), "logos");
    assert_eq!(AssetType::Icon.lutris_subdir(), "icons");
}

#[test]
fn all_lists_the_four_categories_in_order() {
    assert_eq!(
        AssetType::all(),
        &[AssetType::Grid, AssetType::Hero, AssetType::Logo, AssetType::Icon]
    );
}

#[test]
fn from_str_accepts_singular_and_plural() {
    for (name, kind) in [
        ("grid", AssetType::Grid),
        ("grids", AssetType::Grid),
        ("hero", AssetType::Hero),
        ("heroes", AssetType::Hero),
        ("logo", AssetType::Logo),
        ("logos", AssetType::Logo),
        ("icon", AssetType::Icon),
        ("icons", AssetType::Icon),
    ] {
        assert_eq!(AssetType::from_str(name).unwrap(), kind);
    }
}

#[test]
fn from_str_ignores_case() {
    assert_eq!(AssetType::from_str("GRID").unwrap(), AssetType::Grid);
    assert_eq!(AssetType::from_str("Heroes").unwrap(), AssetType::Hero);
    assert_eq!(AssetType::from_str("lOgO").unwrap(), AssetType::Logo);
    assert_eq!(AssetType::from_str("ICONS").unwrap(), AssetType::Icon);
}

#[test]
fn from_str_refuses_other_names_with_the_name_as_given() {
    for name in ["", "banner", "grid ", " grid", "gridz", "heros", "Ico"] {
        let error: UnknownAssetType = AssetType::from_str(name).unwrap_err();
        assert_eq!(error.input, name);
    }
    let error = AssetType::from_str("Banner").unwrap_err();
    assert_eq!(error.message(), "Unknown asset type: Banner");
}

#[test]
fn from_lowercase_does_not_fold_case() {
    assert_eq!(AssetType::from_lowercase("grid"), Some(AssetType::Grid));
    assert_eq!(AssetType::from_lowercase("heroes"), Some(AssetType::Hero));
    assert_eq!(AssetType::from_lowercase("GRID"), None);
    assert_eq!(AssetType::from_lowercase("Icons"), None);
}

#[test]
fn terminal_statuses_are_done_skipped_and_failed() {
    assert!(!DownloadStatus::Pending.is_terminal());
    assert!(!DownloadStatus::Searching.is_terminal());
    assert!(!DownloadStatus::Downloading.is_terminal());
    assert!(DownloadStatus::Done("/p".to_string()).is_terminal());
    assert!(DownloadStatus::Skipped("already exists".to_string()).is_terminal());
    assert!(DownloadStatus::Failed("no art found".to_string()).is_terminal());
}

#[test]
fn icon_of_each_status() {
    assert_eq!(DownloadStatus::Pending.icon(), "·");
    assert_eq!(DownloadStatus::Searching.icon(), "⟳");
    assert_eq!(DownloadStatus::Downloading.icon(), "↓");
    assert_eq!(DownloadStatus::Done(String::new()).icon(), "✓");
    assert_eq!(DownloadStatus::Skipped(String::new()).icon(), "─");
    assert_eq!(DownloadStatus::Failed(String::new()).icon(), "✗");
}

#[test]
fn clone_of_a_status_keeps_its_text() {
    let status = DownloadStatus::Failed("fetch error: x".to_string());
    assert!(matches!(status.clone(), DownloadStatus::Failed(m) if m == "fetch error: x"));
    let status = DownloadStatus::Done("/a/b.jpg".to_string());
    assert!(matches!(status.clone(), DownloadStatus::Done(p) if p == "/a/b.jpg"));
    assert!(matches!(DownloadStatus::Searching.clone(), DownloadStatus::Searching));
}

#[test]
fn clone_of_a_progress_event_keeps_every_field() {
    let event = DownloadProgress {
        game_slug: "alpha".to_string(),
        asset_type: AssetType::Logo,
        status: DownloadStatus::Skipped("already exists".to_string()),
    };
    let copy = event.clone();
    assert_eq!(copy.game_slug, "alpha");
    assert_eq!(copy.asset_type, AssetType::Logo);
    assert!(matches!(copy.status, DownloadStatus::Skipped(r) if r == "already exists"));
}

#[test]
fn envelope_holds_its_data() {
    let envelope = ApiResponse { success: true, data: vec![1u8, 2, 3] };
    assert!(envelope.success);
    assert_eq!(envelope.data, vec![1, 2, 3]);
}
