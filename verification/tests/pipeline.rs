use lutrisartfetcher::api::client::ClientError;
use lutrisartfetcher::api::models::{
    AssetType, DownloadProgress, DownloadStatus, ImageAsset, SearchResult,
};
use lutrisartfetcher::db::Game;
use lutrisartfetcher::download::{DownloadOpts, StorageError};
use lutrisartfetcher::pipeline::{download_all, Request, Response, Run, StartError, Step};
use lutrisartfetcher::selection::AssetSelection;

fn game(slug: &str, name: &str, service: Option<&str>, service_id: Option<&str>) -> Game {
    Game {
        id: 1,
        name: name.to_string(),
        slug: slug.to_string(),
        runner: None,
        platform: None,
        service: service.map(|s| s.to_string()),
        service_id: service_id.map(|s| s.to_string()),
        has_custom_banner: false,
        has_custom_coverart: false,
    }
}

fn opts(force: bool) -> DownloadOpts {
    DownloadOpts {
        grid_dim: "600x900".to_string(),
        nsfw_filter: true,
        humor_filter: true,
        force,
    }
}

fn hit(id: u64) -> SearchResult {
    SearchResult { id, name: "hit".to_string(), types: Vec::new(), verified: false }
}

fn candidate(url: &str, nsfw: bool, humor: bool) -> ImageAsset {
    ImageAsset {
        id: 9,
        score: 0,
        style: String::new(),
        width: 600,
        height: 900,
        nsfw,
        humor,
        mime: "image/jpeg".to_string(),
        url: url.to_string(),
        thumb: String::new(),
    }
}

fn only(kind: AssetType) -> AssetSelection {
    AssetSelection::from_slice(&[kind])
}

fn is_terminal(event: &DownloadProgress) -> bool {
    matches!(
        event.status,
        DownloadStatus::Done(_) | DownloadStatus::Skipped(_) | DownloadStatus::Failed(_)
    )
}

/// Runs to the end, answering each request with `answer`; returns the
/// events and the requests in order.
fn drive(
    run: Run,
    first: Step,
    mut answer: impl FnMut(&Request) -> Response,
) -> (Run, Vec<DownloadProgress>, Vec<Request>) {
    let mut run = run;
    let mut events = first.events;
    let mut requests = Vec::new();
    let mut pending = first.request;
    while let Some(request) = pending {
        let response = answer(&request);
        requests.push(request);
        let (next, step) = run.step(response);
        run = next;
        let step = step.expect("the answer fits the request");
        events.extend(step.events);
        pending = step.request;
    }
    (run, events, requests)
}

/// A world in which every game is known, every listing has one good
/// candidate, every image has three bytes and every write succeeds.
fn all_goes_well(request: &Request) -> Response {
    match request {
        Request::Search { .. } => Response::SearchHits(Ok(vec![hit(42), hit(43)])),
        Request::CheckExists { .. } => Response::Exists(false),
        Request::ListById { .. } | Request::ListByPlatform { .. } => {
            Response::Assets(Ok(vec![candidate("https://cdn.example/a.jpg", false, false)]))
        }
        Request::Download { .. } => Response::Image(Ok(vec![1, 2, 3])),
        Request::Persist { .. } => Response::Persisted(Ok(())),
    }
}

fn failed_with(event: &DownloadProgress, message: &str) -> bool {
    matches!(&event.status, DownloadStatus::Failed(m) if m == message)
}

#[test]
fn empty_selection_is_a_startup_error() {
    let started = Run::start(
        vec![game("a", "A", None, None)],
        &AssetSelection::empty(),
        opts(false),
        Some("/data".to_string()),
        3,
    );
    assert!(matches!(started, Err(StartError::NoAssetTypes)));
    assert_eq!(StartError::NoAssetTypes.message(), "No asset types selected");
}

#[test]
fn empty_game_list_is_a_no_op_run() {
    let (run, step) =
        Run::start(Vec::new(), &AssetSelection::full(), opts(false), Some("/d".to_string()), 3)
            .unwrap();
    assert!(run.is_complete());
    assert!(step.events.is_empty());
    assert!(step.request.is_none());
    assert_eq!(run.total_pairs(), Some(0));
}

#[test]
fn empty_game_list_with_zero_width_is_complete_too() {
    let (run, step) =
        Run::start(Vec::new(), &AssetSelection::full(), opts(false), None, 0).unwrap();
    assert!(run.is_complete());
    assert!(!run.is_stalled());
    assert!(step.events.is_empty());
}

#[test]
fn zero_width_stalls_before_the_first_game() {
    let (run, step) = Run::start(
        vec![game("a", "A", None, None)],
        &AssetSelection::full(),
        opts(false),
        Some("/d".to_string()),
        0,
    )
    .unwrap();
    assert!(run.is_stalled());
    assert!(!run.is_complete());
    assert!(step.events.is_empty());
    assert!(step.request.is_none());
    let (run, step) = run.step(Response::Exists(true));
    assert!(step.is_none());
    assert!(run.is_stalled());
}

#[test]
fn first_step_announces_every_category_and_searches_by_slug() {
    let (run, step) = Run::start(
        vec![game("half-life-2", "Half-Life 2", None, None)],
        &AssetSelection::full(),
        opts(false),
        Some("/data".to_string()),
        3,
    )
    .unwrap();
    assert!(!run.is_complete());
    assert_eq!(run.game_count(), 1);
    assert_eq!(run.asset_count(), 4);
    assert_eq!(run.total_pairs(), Some(4));
    let kinds: Vec<AssetType> = step.events.iter().map(|e| e.asset_type).collect();
    assert_eq!(kinds, vec![AssetType::Grid, AssetType::Hero, AssetType::Logo, AssetType::Icon]);
    for event in &step.events {
        assert_eq!(event.game_slug, "half-life-2");
        assert!(matches!(event.status, DownloadStatus::Searching));
    }
    match step.request {
        Some(Request::Search { term }) => assert_eq!(term, "half life 2"),
        other => panic!("unexpected request {:?}", other),
    }
}

#[test]
fn steam_game_with_id_is_searched_by_name_first() {
    let (run, step) = Run::start(
        vec![game("half-life-2", "Half-Life 2", Some("steam"), Some("220"))],
        &only(AssetType::Hero),
        opts(true),
        Some("/data".to_string()),
        3,
    )
    .unwrap();
    match step.request {
        Some(Request::Search { term }) => assert_eq!(term, "Half-Life 2"),
        other => panic!("unexpected request {:?}", other),
    }
    // No hit by name: the slug is tried, and nothing is told yet.
    let (run, step) = run.step(Response::SearchHits(Ok(Vec::new())));
    let step = step.unwrap();
    assert!(step.events.is_empty());
    match step.request {
        Some(Request::Search { term }) => assert_eq!(term, "half life 2"),
        other => panic!("unexpected request {:?}", other),
    }
    // A hit by slug: the platform listing is used, without a size for heroes.
    let (_run, step) = run.step(Response::SearchHits(Ok(vec![hit(7)])));
    let step = step.unwrap();
    assert_eq!(step.events.len(), 1);
    assert!(matches!(step.events[0].status, DownloadStatus::Downloading));
    match step.request {
        Some(Request::ListByPlatform { asset_type, platform, platform_id, dimensions }) => {
            assert_eq!(asset_type, AssetType::Hero);
            assert_eq!(platform, "steam");
            assert_eq!(platform_id, "220");
            assert_eq!(dimensions, None);
        }
        other => panic!("unexpected request {:?}", other),
    }
}

#[test]
fn steam_game_without_id_is_searched_by_slug_and_listed_by_catalogue_id() {
    let (run, step) = Run::start(
        vec![game("portal", "Portal", Some("steam"), None)],
        &only(AssetType::Grid),
        opts(true),
        Some("/data".to_string()),
        3,
    )
    .unwrap();
    match step.request {
        Some(Request::Search { term }) => assert_eq!(term, "portal"),
        other => panic!("unexpected request {:?}", other),
    }
    let (_run, step) = run.step(Response::SearchHits(Ok(vec![hit(400), hit(401)])));
    match step.unwrap().request {
        Some(Request::ListById { asset_type, game_id, dimensions }) => {
            assert_eq!(asset_type, AssetType::Grid);
            assert_eq!(game_id, 400);
            assert_eq!(dimensions, Some("600x900".to_string()));
        }
        other => panic!("unexpected request {:?}", other),
    }
}

#[test]
fn every_pair_ends_exactly_once() {
    let games = vec![
        game("alpha", "Alpha", None, None),
        game("beta", "Beta", Some("steam"), Some("10")),
        game("gamma", "Gamma", Some("gog"), Some("77")),
    ];
    let selection = AssetSelection::from_slice(&[AssetType::Icon, AssetType::Grid, AssetType::Logo]);
    let (run, first) =
        Run::start(games, &selection, opts(false), Some("/data".to_string()), 3).unwrap();
    assert_eq!(run.total_pairs(), Some(9));
    let (run, events, _requests) = drive(run, first, all_goes_well);
    assert!(run.is_complete());
    let ended: Vec<(String, AssetType)> = events
        .iter()
        .filter(|e| is_terminal(e))
        .map(|e| (e.game_slug.clone(), e.asset_type))
        .collect();
    let mut expected = Vec::new();
    for slug in ["alpha", "beta", "gamma"] {
        for kind in [AssetType::Grid, AssetType::Logo, AssetType::Icon] {
            expected.push((slug.to_string(), kind));
        }
    }
    assert_eq!(ended, expected);
    assert_eq!(ended.len(), 3 * 3);
}

#[test]
fn events_of_one_pair_come_in_order() {
    let (run, first) = Run::start(
        vec![game("alpha", "Alpha", None, None)],
        &only(AssetType::Logo),
        opts(false),
        Some("/data".to_string()),
        1,
    )
    .unwrap();
    let (_run, events, requests) = drive(run, first, all_goes_well);
    assert_eq!(events.len(), 3);
    assert!(matches!(events[0].status, DownloadStatus::Searching));
    assert!(matches!(events[1].status, DownloadStatus::Downloading));
    match &events[2].status {
        DownloadStatus::Done(path) => assert_eq!(path, "/data/lutris/logos/alpha.jpg"),
        other => panic!("unexpected status {:?}", other),
    }
    assert_eq!(requests.len(), 5);
    assert!(matches!(&requests[0], Request::Search { term } if term == "alpha"));
    assert!(
        matches!(&requests[1], Request::CheckExists { path } if path == "/data/lutris/logos/alpha.jpg")
    );
    assert!(matches!(&requests[2], Request::ListById { game_id: 42, dimensions: None, .. }));
    assert!(
        matches!(&requests[3], Request::Download { url } if url == "https://cdn.example/a.jpg")
    );
    match &requests[4] {
        Request::Persist { plan, bytes } => {
            assert_eq!(plan.target, "/data/lutris/logos/alpha.jpg");
            assert_eq!(plan.tmp_path, "/data/lutris/logos/alpha.tmp");
            assert_eq!(plan.parent, Some("/data/lutris/logos".to_string()));
            assert_eq!(bytes, &vec![1u8, 2, 3]);
        }
        other => panic!("unexpected request {:?}", other),
    }
}

#[test]
fn second_run_skips_everything() {
    let games = vec![game("alpha", "Alpha", None, None), game("beta", "Beta", None, None)];
    let (run, first) =
        Run::start(games, &AssetSelection::full(), opts(false), Some("/data".to_string()), 3)
            .unwrap();
    let (run, events, requests) = drive(run, first, |request| match request {
        Request::Search { .. } => Response::SearchHits(Ok(vec![hit(1)])),
        Request::CheckExists { .. } => Response::Exists(true),
        other => panic!("nothing is to be fetched, but {:?} was asked for", other),
    });
    assert!(run.is_complete());
    let ended: Vec<&DownloadProgress> = events.iter().filter(|e| is_terminal(e)).collect();
    assert_eq!(ended.len(), 8);
    for event in ended {
        assert!(matches!(&event.status, DownloadStatus::Skipped(reason) if reason == "already exists"));
    }
    assert!(events.iter().all(|e| !matches!(e.status, DownloadStatus::Downloading)));
    let searches = requests.iter().filter(|r| matches!(r, Request::Search { .. })).count();
    let probes = requests.iter().filter(|r| matches!(r, Request::CheckExists { .. })).count();
    assert_eq!(searches, 2);
    assert_eq!(probes, 8);
    assert_eq!(requests.len(), 10);
}

#[test]
fn force_fetches_without_asking_whether_the_asset_exists() {
    let (run, first) = Run::start(
        vec![game("alpha", "Alpha", None, None)],
        &only(AssetType::Grid),
        opts(true),
        Some("/data".to_string()),
        3,
    )
    .unwrap();
    let (_run, events, requests) = drive(run, first, all_goes_well);
    assert!(requests.iter().all(|r| !matches!(r, Request::CheckExists { .. })));
    assert!(matches!(&events[2].status, DownloadStatus::Done(p) if p == "/data/lutris/coverart/alpha.jpg"));
}

#[test]
fn zero_byte_payload_fails_and_writes_nothing() {
    let (run, first) = Run::start(
        vec![game("alpha", "Alpha", None, None)],
        &only(AssetType::Grid),
        opts(false),
        Some("/data".to_string()),
        3,
    )
    .unwrap();
    let (run, events, requests) = drive(run, first, |request| match request {
        Request::Download { .. } => Response::Image(Ok(Vec::new())),
        other => all_goes_well(other),
    });
    assert!(run.is_complete());
    let last = events.last().unwrap();
    assert!(failed_with(last, "downloaded 0 bytes"));
    assert!(requests.iter().all(|r| !matches!(r, Request::Persist { .. })));
    assert_eq!(events.iter().filter(|e| is_terminal(e)).count(), 1);
}

#[test]
fn unknown_game_fails_every_category_and_the_run_goes_on() {
    let games = vec![game("lost", "Lost", None, None), game("found", "Found", None, None)];
    let selection = AssetSelection::from_slice(&[AssetType::Grid, AssetType::Icon]);
    let (run, first) =
        Run::start(games, &selection, opts(false), Some("/data".to_string()), 3).unwrap();
    let (run, events, requests) = drive(run, first, |request| match request {
        Request::Search { term } if term == "lost" => Response::SearchHits(Ok(Vec::new())),
        other => all_goes_well(other),
    });
    assert!(run.is_complete());
    let lost: Vec<&DownloadProgress> =
        events.iter().filter(|e| e.game_slug == "lost" && is_terminal(e)).collect();
    assert_eq!(lost.len(), 2);
    assert_eq!(lost[0].asset_type, AssetType::Grid);
    assert_eq!(lost[1].asset_type, AssetType::Icon);
    for event in lost {
        assert!(failed_with(event, "game not found on `SteamGridDB`"));
    }
    let found: Vec<&DownloadProgress> =
        events.iter().filter(|e| e.game_slug == "found" && is_terminal(e)).collect();
    assert_eq!(found.len(), 2);
    assert!(matches!(&found[0].status, DownloadStatus::Done(p) if p == "/data/lutris/coverart/found.jpg"));
    assert!(
        matches!(&found[1].status, DownloadStatus::Done(p) if p == "/data/icons/hicolor/128x128/apps/lutris_found.png")
    );
    // Nothing was listed or fetched for the lost game: one search, then on.
    assert!(matches!(&requests[0], Request::Search { term } if term == "lost"));
    assert!(matches!(&requests[1], Request::Search { term } if term == "found"));
}

#[test]
fn failed_search_fails_every_category_with_the_error() {
    let (run, first) = Run::start(
        vec![game("alpha", "Alpha", Some("steam"), Some("1"))],
        &AssetSelection::from_slice(&[AssetType::Hero, AssetType::Logo]),
        opts(false),
        Some("/data".to_string()),
        3,
    )
    .unwrap();
    let error = ClientError::Transport { message: "Search request failed for 'Alpha'".to_string() };
    let (run, step) = run.step(Response::SearchHits(Err(error)));
    let step = step.unwrap();
    assert!(run.is_complete());
    assert!(step.request.is_none());
    assert_eq!(step.events.len(), 2);
    for event in &step.events {
        assert!(failed_with(event, "search error: Search request failed for 'Alpha'"));
    }
}

#[test]
fn listing_error_and_filtered_candidates_fail_the_pair() {
    let (run, first) = Run::start(
        vec![game("alpha", "Alpha", None, None)],
        &AssetSelection::from_slice(&[AssetType::Grid, AssetType::Hero]),
        opts(true),
        Some("/data".to_string()),
        3,
    )
    .unwrap();
    let (run, events, requests) = drive(run, first, |request| match request {
        Request::ListById { asset_type: AssetType::Grid, .. } => Response::Assets(Err(
            ClientError::Decode { message: "Failed to parse asset response".to_string() },
        )),
        Request::ListById { asset_type: AssetType::Hero, .. } => Response::Assets(Ok(vec![
            candidate("https://cdn.example/nsfw.jpg", true, false),
            candidate("https://cdn.example/joke.jpg", false, true),
        ])),
        other => all_goes_well(other),
    });
    assert!(run.is_complete());
    let ended: Vec<&DownloadProgress> = events.iter().filter(|e| is_terminal(e)).collect();
    assert_eq!(ended.len(), 2);
    assert!(failed_with(ended[0], "fetch error: Failed to parse asset response"));
    assert!(failed_with(ended[1], "no art found"));
    assert!(requests.iter().all(|r| !matches!(r, Request::Download { .. })));
}

#[test]
fn selection_in_the_run_takes_the_first_passing_candidate() {
    let (run, first) = Run::start(
        vec![game("alpha", "Alpha", None, None)],
        &only(AssetType::Grid),
        opts(true),
        Some("/data".to_string()),
        3,
    )
    .unwrap();
    let (_run, _events, requests) = drive(run, first, |request| match request {
        Request::ListById { .. } => Response::Assets(Ok(vec![
            candidate("https://cdn.example/first.jpg", true, false),
            candidate("https://cdn.example/second.jpg", false, false),
            candidate("https://cdn.example/third.jpg", false, false),
        ])),
        other => all_goes_well(other),
    });
    assert!(requests
        .iter()
        .any(|r| matches!(r, Request::Download { url } if url == "https://cdn.example/second.jpg")));
}

#[test]
fn download_error_and_storage_errors_fail_the_pair() {
    let selection = AssetSelection::full();
    let (run, first) = Run::start(
        vec![game("alpha", "Alpha", None, None)],
        &selection,
        opts(true),
        Some("/data".to_string()),
        3,
    )
    .unwrap();
    let mut writes = 0;
    let (run, events, _requests) = drive(run, first, |request| match request {
        Request::Download { .. } if writes == 0 => {
            writes += 1;
            Response::Image(Err(ClientError::RequestFailed {
                status: 500,
                message: "Image download returned status 500 Internal Server Error".to_string(),
            }))
        }
        Request::Persist { .. } => {
            writes += 1;
            Response::Persisted(Err(match writes {
                2 => StorageError::Mkdir,
                3 => StorageError::Write,
                _ => StorageError::Rename,
            }))
        }
        other => all_goes_well(other),
    });
    assert!(run.is_complete());
    let ended: Vec<&DownloadProgress> = events.iter().filter(|e| is_terminal(e)).collect();
    assert_eq!(ended.len(), 4);
    assert!(failed_with(
        ended[0],
        "download error: Image download returned status 500 Internal Server Error"
    ));
    assert!(failed_with(ended[1], "mkdir failed"));
    assert!(failed_with(ended[2], "write failed"));
    assert!(failed_with(ended[3], "rename failed"));
}

#[test]
fn unknown_data_directory_fails_when_the_image_is_to_be_written() {
    let (run, first) = Run::start(
        vec![game("alpha", "Alpha", None, None)],
        &only(AssetType::Grid),
        opts(false),
        None,
        3,
    )
    .unwrap();
    let (run, events, requests) = drive(run, first, all_goes_well);
    assert!(run.is_complete());
    // The path is unknown, so nobody is asked whether the file exists.
    assert!(requests.iter().all(|r| !matches!(r, Request::CheckExists { .. })));
    assert!(requests.iter().all(|r| !matches!(r, Request::Persist { .. })));
    assert!(failed_with(events.last().unwrap(), "Cannot determine XDG data directory"));
}

#[test]
fn an_answer_to_another_request_is_refused() {
    let (run, _first) = Run::start(
        vec![game("alpha", "Alpha", None, None)],
        &only(AssetType::Grid),
        opts(false),
        Some("/data".to_string()),
        3,
    )
    .unwrap();
    assert!(run.expects(&Response::SearchHits(Ok(Vec::new()))));
    assert!(!run.expects(&Response::Exists(true)));
    let (run, step) = run.step(Response::Exists(true));
    assert!(step.is_none());
    assert!(run.expects(&Response::SearchHits(Ok(Vec::new()))));
    let (run, step) = run.step(Response::SearchHits(Ok(vec![hit(3)])));
    assert!(step.is_some());
    assert!(run.expects(&Response::Exists(false)));
    assert!(!run.expects(&Response::Persisted(Ok(()))));
}

#[test]
fn a_complete_run_takes_no_answer() {
    let (run, first) = Run::start(
        vec![game("alpha", "Alpha", None, None)],
        &only(AssetType::Grid),
        opts(false),
        Some("/data".to_string()),
        3,
    )
    .unwrap();
    let (run, _events, _requests) = drive(run, first, all_goes_well);
    assert!(run.is_complete());
    let (run, step) = run.step(Response::Persisted(Ok(())));
    assert!(step.is_none());
    assert!(run.is_complete());
}

#[test]
fn games_with_the_same_slug_are_each_dealt_with() {
    let games = vec![game("twin", "Twin A", None, None), game("twin", "Twin B", None, None)];
    let (run, first) =
        Run::start(games, &only(AssetType::Grid), opts(true), Some("/data".to_string()), 3)
            .unwrap();
    let (_run, events, _requests) = drive(run, first, all_goes_well);
    assert_eq!(events.iter().filter(|e| is_terminal(e)).count(), 2);
}

#[test]
fn download_all_starts_a_run_in_the_present_environment() {
    let started = download_all(
        vec![game("alpha", "Alpha", None, None)],
        &only(AssetType::Grid),
        opts(true),
        3,
    );
    let (run, step) = started.unwrap();
    assert!(!run.is_complete());
    assert_eq!(step.events.len(), 1);
    assert!(matches!(&step.request, Some(Request::Search { term }) if term == "alpha"));
    assert!(matches!(
        download_all(Vec::new(), &AssetSelection::empty(), opts(true), 3),
        Err(StartError::NoAssetTypes)
    ));
}

#[test]
fn no_run_tells_more_than_three_events_per_pair() {
    let games = vec![
        game("alpha", "Alpha", None, None),
        game("beta", "Beta", Some("steam"), Some("10")),
    ];
    let (run, first) =
        Run::start(games, &AssetSelection::full(), opts(true), Some("/data".to_string()), 2)
            .unwrap();
    let (run, events, requests) = drive(run, first, all_goes_well);
    assert!(run.is_complete());
    // Searching, downloading and the ending, for each of the eight pairs.
    assert_eq!(events.len(), 3 * 8);
    // One search for each game, and a listing, a fetch and a write for each pair.
    assert_eq!(requests.len(), 2 + 3 * 8);
}

#[test]
fn skipped_pairs_are_never_told_to_be_downloading() {
    let (run, first) = Run::start(
        vec![game("alpha", "Alpha", None, None)],
        &AssetSelection::from_slice(&[AssetType::Grid, AssetType::Hero]),
        opts(false),
        Some("/data".to_string()),
        1,
    )
    .unwrap();
    let (_run, events, _requests) = drive(run, first, |request| match request {
        Request::CheckExists { path } => Response::Exists(path.ends_with("coverart/alpha.jpg")),
        other => all_goes_well(other),
    });
    let of = |kind: AssetType| -> Vec<&DownloadStatus> {
        events.iter().filter(|e| e.asset_type == kind).map(|e| &e.status).collect()
    };
    let grid = of(AssetType::Grid);
    assert_eq!(grid.len(), 2);
    assert!(matches!(grid[0], DownloadStatus::Searching));
    assert!(matches!(grid[1], DownloadStatus::Skipped(_)));
    let hero = of(AssetType::Hero);
    assert_eq!(hero.len(), 3);
    assert!(matches!(hero[0], DownloadStatus::Searching));
    assert!(matches!(hero[1], DownloadStatus::Downloading));
    assert!(matches!(hero[2], DownloadStatus::Done(_)));
}

fn steam_run(selection: &AssetSelection) -> (Run, Step) {
    Run::start(
        vec![game("half-life-2", "Half-Life 2", Some("steam"), Some("220"))],
        selection,
        opts(true),
        Some("/data".to_string()),
        3,
    )
    .unwrap()
}

#[test]
fn platform_miss_falls_back_to_the_catalogue_listing() {
    let (run, first) = steam_run(&only(AssetType::Grid));
    let (run, events, requests) = drive(run, first, |request| match request {
        Request::ListByPlatform { .. } => Response::Assets(Ok(Vec::new())),
        other => all_goes_well(other),
    });
    assert!(run.is_complete());
    assert_eq!(requests.len(), 5);
    assert!(matches!(&requests[0], Request::Search { term } if term == "Half-Life 2"));
    match &requests[1] {
        Request::ListByPlatform { asset_type, platform, platform_id, dimensions } => {
            assert_eq!(*asset_type, AssetType::Grid);
            assert_eq!(platform, "steam");
            assert_eq!(platform_id, "220");
            assert_eq!(dimensions.as_deref(), Some("600x900"));
        }
        other => panic!("unexpected request {:?}", other),
    }
    match &requests[2] {
        Request::ListById { asset_type, game_id, dimensions } => {
            assert_eq!(*asset_type, AssetType::Grid);
            assert_eq!(*game_id, 42);
            assert_eq!(dimensions.as_deref(), Some("600x900"));
        }
        other => panic!("unexpected request {:?}", other),
    }
    assert!(matches!(&requests[3], Request::Download { url } if url == "https://cdn.example/a.jpg"));
    assert!(matches!(&requests[4], Request::Persist { .. }));
    // The fallback tells nothing: the pair is announced, downloaded, stored.
    assert_eq!(events.len(), 3);
    assert!(matches!(events[0].status, DownloadStatus::Searching));
    assert!(matches!(events[1].status, DownloadStatus::Downloading));
    assert!(
        matches!(&events[2].status, DownloadStatus::Done(p) if p == "/data/lutris/coverart/half-life-2.jpg")
    );
}

#[test]
fn catalogue_listing_without_candidates_ends_the_pair() {
    let (run, first) = steam_run(&only(AssetType::Hero));
    let (run, events, requests) = drive(run, first, |request| match request {
        Request::ListByPlatform { .. } | Request::ListById { .. } => {
            Response::Assets(Ok(Vec::new()))
        }
        other => all_goes_well(other),
    });
    assert!(run.is_complete());
    // One listing by the platform, one by the catalogue, and no third.
    assert_eq!(requests.len(), 3);
    assert!(matches!(&requests[1], Request::ListByPlatform { .. }));
    assert!(matches!(&requests[2], Request::ListById { game_id: 42, dimensions: None, .. }));
    assert!(failed_with(events.last().unwrap(), "no art found"));
    assert_eq!(events.iter().filter(|e| is_terminal(e)).count(), 1);
}

#[test]
fn platform_listing_with_candidates_that_all_fail_the_filters_does_not_fall_back() {
    let (run, first) = steam_run(&only(AssetType::Logo));
    let (run, events, requests) = drive(run, first, |request| match request {
        Request::ListByPlatform { .. } => Response::Assets(Ok(vec![
            candidate("https://cdn.example/nsfw.jpg", true, false),
            candidate("https://cdn.example/joke.jpg", false, true),
        ])),
        other => all_goes_well(other),
    });
    assert!(run.is_complete());
    assert!(requests.iter().all(|r| !matches!(r, Request::ListById { .. })));
    assert!(requests.iter().all(|r| !matches!(r, Request::Download { .. })));
    assert!(failed_with(events.last().unwrap(), "no art found"));
}

#[test]
fn failed_platform_listing_does_not_fall_back() {
    let (run, first) = steam_run(&only(AssetType::Logo));
    let (run, events, requests) = drive(run, first, |request| match request {
        Request::ListByPlatform { .. } => Response::Assets(Err(ClientError::Transport {
            message: "Platform asset request failed for steam/220".to_string(),
        })),
        other => all_goes_well(other),
    });
    assert!(run.is_complete());
    assert!(requests.iter().all(|r| !matches!(r, Request::ListById { .. })));
    assert!(failed_with(
        events.last().unwrap(),
        "fetch error: Platform asset request failed for steam/220"
    ));
}

#[test]
fn platform_listing_with_a_passing_candidate_needs_no_fallback() {
    let (run, first) = steam_run(&only(AssetType::Icon));
    let (run, events, requests) = drive(run, first, all_goes_well);
    assert!(run.is_complete());
    assert!(matches!(&requests[1], Request::ListByPlatform { dimensions: None, .. }));
    assert!(requests.iter().all(|r| !matches!(r, Request::ListById { .. })));
    assert!(matches!(&events.last().unwrap().status, DownloadStatus::Done(_)));
}

#[test]
fn game_without_platform_id_is_listed_by_the_catalogue_once() {
    let (run, first) = Run::start(
        vec![game("alpha", "Alpha", Some("gog"), Some("77"))],
        &only(AssetType::Grid),
        opts(true),
        Some("/data".to_string()),
        3,
    )
    .unwrap();
    let (run, events, requests) = drive(run, first, |request| match request {
        Request::ListById { .. } => Response::Assets(Ok(Vec::new())),
        other => all_goes_well(other),
    });
    assert!(run.is_complete());
    assert_eq!(requests.len(), 2);
    assert!(matches!(&requests[1], Request::ListById { game_id: 42, .. }));
    assert!(failed_with(events.last().unwrap(), "no art found"));
}
