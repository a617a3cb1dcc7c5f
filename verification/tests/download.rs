use lutrisartfetcher::api::models::{AssetType, DownloadStatus, ImageAsset};
use lutrisartfetcher::config::PathError;
use lutrisartfetcher::db::Game;
use lutrisartfetcher::config::data_dir;
use lutrisartfetcher::download::{
    asset_file_name, asset_path, asset_path_from, asset_path_in, filter_assets, persist_plan,
    storage_outcome, GameEntry, StorageError, StorageStep,
};
use lutrisartfetcher::selection::AssetSelection;

fn game(slug: &str) -> Game {
    Game {
        id: 3,
        name: "Name".to_string(),
        slug: slug.to_string(),
        runner: Some("wine".to_string()),
        platform: None,
        service: None,
        service_id: None,
        has_custom_banner: false,
        has_custom_coverart: true,
    }
}

fn candidate(id: u64, score: i32, nsfw: bool, humor: bool) -> ImageAsset {
    ImageAsset {
        id,
        score,
        style: String::new(),
        width: 1,
        height: 1,
        nsfw,
        humor,
        mime: String::new(),
        url: format!("https://cdn.example/{id}.jpg"),
        thumb: String::new(),
    }
}

fn chosen_id(assets: &[ImageAsset], nsfw_filter: bool, humor_filter: bool) -> Option<u64> {
    filter_assets(assets, nsfw_filter, humor_filter).map(|a| a.id)
}

#[test]
fn selection_takes_the_second_candidate_when_only_nsfw_is_excluded() {
    let candidates = vec![candidate(1, 5, true, false), candidate(2, 3, false, true)];
    let chosen = filter_assets(&candidates, true, false).unwrap();
    assert_eq!(chosen.id, 2);
    assert_eq!(chosen.score, 3);
    assert!(chosen.humor);
}

#[test]
fn filters_are_independent() {
    let candidates = vec![
        candidate(1, 9, true, true),
        candidate(2, 8, true, false),
        candidate(3, 7, false, true),
        candidate(4, 6, false, false),
    ];
    assert_eq!(chosen_id(&candidates, false, false), Some(1));
    assert_eq!(chosen_id(&candidates, false, true), Some(2));
    assert_eq!(chosen_id(&candidates, true, false), Some(3));
    assert_eq!(chosen_id(&candidates, true, true), Some(4));
}

#[test]
fn selection_keeps_the_given_order_and_does_not_sort_by_score() {
    let candidates = vec![candidate(1, -5, false, false), candidate(2, 100, false, false)];
    assert_eq!(chosen_id(&candidates, true, true), Some(1));
}

#[test]
fn selection_of_nothing() {
    assert_eq!(chosen_id(&[], true, true), None);
    assert_eq!(chosen_id(&[], false, false), None);
    let candidates = vec![candidate(1, 5, true, false), candidate(2, 3, false, true)];
    assert_eq!(chosen_id(&candidates, true, true), None);
}

#[test]
fn selection_hands_out_the_candidate_itself() {
    let candidates = vec![candidate(1, 5, true, false), candidate(2, 3, false, false)];
    let chosen = filter_assets(&candidates, true, true).unwrap();
    assert!(std::ptr::eq(chosen, &candidates[1]));
}

#[test]
fn file_names_follow_the_category() {
    assert_eq!(asset_file_name(AssetType::Grid, "doom"), "doom.jpg");
    assert_eq!(asset_file_name(AssetType::Hero, "doom"), "doom.jpg");
    assert_eq!(asset_file_name(AssetType::Logo, "doom"), "doom.jpg");
    assert_eq!(asset_file_name(AssetType::Icon, "doom"), "lutris_doom.png");
    assert_eq!(asset_file_name(AssetType::Icon, ""), "lutris_.png");
}

#[test]
fn paths_follow_the_category() {
    let data = "/home/u/.local/share";
    assert_eq!(
        asset_path_in(data, AssetType::Grid, "doom"),
        "/home/u/.local/share/lutris/coverart/doom.jpg"
    );
    assert_eq!(
        asset_path_in(data, AssetType::Hero, "doom"),
        "/home/u/.local/share/lutris/heroes/doom.jpg"
    );
    assert_eq!(
        asset_path_in(data, AssetType::Logo, "doom"),
        "/home/u/.local/share/lutris/logos/doom.jpg"
    );
    assert_eq!(
        asset_path_in(data, AssetType::Icon, "doom"),
        "/home/u/.local/share/icons/hicolor/128x128/apps/lutris_doom.png"
    );
}

#[test]
fn paths_are_joined_as_the_platform_joins_them() {
    assert_eq!(asset_path_in("/data/", AssetType::Grid, "doom"), "/data/lutris/coverart/doom.jpg");
    assert_eq!(asset_path_in("rel", AssetType::Logo, "a.b"), "rel/lutris/logos/a.b.jpg");
}

#[test]
fn path_in_the_present_environment() {
    match asset_path(AssetType::Icon, "doom") {
        Ok(path) => assert!(path.ends_with("icons/hicolor/128x128/apps/lutris_doom.png")),
        Err(error) => {
            assert_eq!(error, PathError::NoDataDir);
            assert_eq!(error.message(), "Cannot determine XDG data directory");
        }
    }
    match asset_path(AssetType::Grid, "doom") {
        Ok(path) => assert!(path.ends_with("lutris/coverart/doom.jpg")),
        Err(error) => assert_eq!(error, PathError::NoDataDir),
    }
}

#[test]
fn plan_writes_beside_the_target() {
    let plan = persist_plan("/data/lutris/coverart/doom.jpg".to_string());
    assert_eq!(plan.target, "/data/lutris/coverart/doom.jpg");
    assert_eq!(plan.tmp_path, "/data/lutris/coverart/doom.tmp");
    assert_eq!(plan.parent, Some("/data/lutris/coverart".to_string()));
    let plan = persist_plan("/data/icons/lutris_a.b.png".to_string());
    assert_eq!(plan.tmp_path, "/data/icons/lutris_a.b.tmp");
    assert_eq!(plan.parent, Some("/data/icons".to_string()));
}

#[test]
fn plan_of_a_bare_file_name() {
    let plan = persist_plan("doom.jpg".to_string());
    assert_eq!(plan.tmp_path, "doom.tmp");
    assert_eq!(plan.parent, Some(String::new()));
    let plan = persist_plan("/".to_string());
    assert_eq!(plan.parent, None);
}

#[test]
fn storage_error_messages() {
    assert_eq!(StorageError::Mkdir.message(), "mkdir failed");
    assert_eq!(StorageError::Write.message(), "write failed");
    assert_eq!(StorageError::Rename.message(), "rename failed");
}

#[test]
fn new_entry_is_pending_everywhere() {
    let entry = GameEntry::new(game("doom"));
    assert_eq!(entry.game.slug, "doom");
    assert_eq!(entry.game.runner, Some("wine".to_string()));
    assert!(entry.steamgriddb_id.is_none());
    for kind in AssetType::all() {
        assert!(matches!(entry.status(*kind), DownloadStatus::Pending));
    }
}

#[test]
fn status_mut_writes_the_category_it_is_asked_for() {
    let mut entry = GameEntry::new(game("doom"));
    *entry.status_mut(AssetType::Logo) = DownloadStatus::Downloading;
    *entry.status_mut(AssetType::Icon) = DownloadStatus::Failed("no art found".to_string());
    assert!(matches!(entry.status(AssetType::Grid), DownloadStatus::Pending));
    assert!(matches!(entry.status(AssetType::Hero), DownloadStatus::Pending));
    assert!(matches!(entry.status(AssetType::Logo), DownloadStatus::Downloading));
    assert!(matches!(entry.status(AssetType::Icon), DownloadStatus::Failed(m) if m == "no art found"));
    assert!(matches!(entry.logo_status, DownloadStatus::Downloading));
    assert!(matches!(entry.grid_status, DownloadStatus::Pending));
}

#[test]
fn overall_icon_prefers_activity_then_failure_then_completion() {
    let all = AssetSelection::full();
    let mut entry = GameEntry::new(game("doom"));
    assert_eq!(entry.overall_icon(&all), "·");
    entry.grid_status = DownloadStatus::Done("/p".to_string());
    assert_eq!(entry.overall_icon(&all), "·");
    entry.hero_status = DownloadStatus::Failed("x".to_string());
    assert_eq!(entry.overall_icon(&all), "✗");
    entry.logo_status = DownloadStatus::Searching;
    assert_eq!(entry.overall_icon(&all), "↓");
    entry.logo_status = DownloadStatus::Downloading;
    assert_eq!(entry.overall_icon(&all), "↓");
    entry.logo_status = DownloadStatus::Skipped("already exists".to_string());
    entry.hero_status = DownloadStatus::Done("/q".to_string());
    entry.icon_status = DownloadStatus::Done("/r".to_string());
    assert_eq!(entry.overall_icon(&all), "✓");
}

#[test]
fn overall_icon_looks_at_the_active_categories_only() {
    let mut entry = GameEntry::new(game("doom"));
    entry.grid_status = DownloadStatus::Done("/p".to_string());
    entry.hero_status = DownloadStatus::Failed("x".to_string());
    entry.logo_status = DownloadStatus::Downloading;
    assert_eq!(entry.overall_icon(&AssetSelection::from_slice(&[AssetType::Grid])), "✓");
    assert_eq!(entry.overall_icon(&AssetSelection::from_slice(&[AssetType::Hero])), "✗");
    assert_eq!(entry.overall_icon(&AssetSelection::from_slice(&[AssetType::Logo])), "↓");
    assert_eq!(entry.overall_icon(&AssetSelection::from_slice(&[AssetType::Icon])), "·");
    assert_eq!(
        entry.overall_icon(&AssetSelection::from_slice(&[AssetType::Grid, AssetType::Hero])),
        "✗"
    );
    assert_eq!(
        entry.overall_icon(&AssetSelection::from_slice(&[AssetType::Grid, AssetType::Icon])),
        "·"
    );
    // Without an active category everything counts as done.
    assert_eq!(entry.overall_icon(&AssetSelection::empty()), "✓");
}

#[test]
fn path_from_a_data_directory_that_may_be_missing() {
    assert_eq!(
        asset_path_from(Ok("/d".to_string()), AssetType::Hero, "doom"),
        Ok("/d/lutris/heroes/doom.jpg".to_string())
    );
    assert_eq!(
        asset_path_from(Ok("/d".to_string()), AssetType::Icon, "doom"),
        Ok("/d/icons/hicolor/128x128/apps/lutris_doom.png".to_string())
    );
    assert_eq!(
        asset_path_from(Err(PathError::NoDataDir), AssetType::Hero, "doom"),
        Err(PathError::NoDataDir)
    );
    assert_eq!(
        asset_path(AssetType::Logo, "doom"),
        asset_path_from(data_dir(), AssetType::Logo, "doom")
    );
}

#[test]
fn steps_of_a_plan_come_in_order() {
    let steps = persist_plan("/data/lutris/coverart/doom.jpg".to_string()).steps();
    assert_eq!(steps.len(), 3);
    assert!(matches!(&steps[0], StorageStep::MakeDir { dir } if dir == "/data/lutris/coverart"));
    assert!(
        matches!(&steps[1], StorageStep::WriteFile { path } if path == "/data/lutris/coverart/doom.tmp")
    );
    assert!(matches!(
        &steps[2],
        StorageStep::Rename { from, to }
            if from == "/data/lutris/coverart/doom.tmp" && to == "/data/lutris/coverart/doom.jpg"
    ));
    // Without a parent nothing is made.
    let steps = persist_plan("/".to_string()).steps();
    assert_eq!(steps.len(), 2);
    assert!(matches!(&steps[0], StorageStep::WriteFile { .. }));
    assert!(matches!(&steps[1], StorageStep::Rename { .. }));
}

#[test]
fn writing_fails_with_the_error_of_the_step_that_failed() {
    let steps = persist_plan("/data/lutris/coverart/doom.jpg".to_string()).steps();
    assert_eq!(storage_outcome(&steps, 0), Err(StorageError::Mkdir));
    assert_eq!(storage_outcome(&steps, 1), Err(StorageError::Write));
    assert_eq!(storage_outcome(&steps, 2), Err(StorageError::Rename));
    assert_eq!(storage_outcome(&steps, 3), Ok(()));
    assert_eq!(steps[0].failure(), StorageError::Mkdir);
    assert_eq!(steps[1].failure(), StorageError::Write);
    assert_eq!(steps[2].failure(), StorageError::Rename);
    let steps = persist_plan("/".to_string()).steps();
    assert_eq!(storage_outcome(&steps, 0), Err(StorageError::Write));
    assert_eq!(storage_outcome(&steps, 1), Err(StorageError::Rename));
    assert_eq!(storage_outcome(&steps, 2), Ok(()));
}
