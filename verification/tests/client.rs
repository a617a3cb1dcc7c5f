use lutrisartfetcher::api::client::{
    assets_url, base_url, platform_assets_url, search_url, validation_url, ClientError, Reply,
    SteamGridDbClient,
};
use lutrisartfetcher::api::models::{ApiResponse, AssetType, ImageAsset, SearchResult};

fn client(delay_ms: u64) -> SteamGridDbClient {
    SteamGridDbClient::new("secret", delay_ms).unwrap()
}

fn hit(id: u64, name: &str) -> SearchResult {
    SearchResult { id, name: name.to_string(), types: vec!["steam".to_string()], verified: true }
}

fn image(id: u64, url: &str) -> ImageAsset {
    ImageAsset {
        id,
        score: 3,
        style: "alternate".to_string(),
        width: 600,
        height: 900,
        nsfw: false,
        humor: false,
        mime: "image/png".to_string(),
        url: url.to_string(),
        thumb: String::new(),
    }
}

fn message_of<T: std::fmt::Debug>(result: Result<T, ClientError>) -> String {
    result.unwrap_err().message()
}

#[test]
fn addresses() {
    assert_eq!(base_url(), "https://www.steamgriddb.com/api/v2");
    assert_eq!(
        validation_url(),
        "https://www.steamgriddb.com/api/v2/grids/game/1?dimensions=600x900"
    );
    assert_eq!(
        search_url("half life 2"),
        "https://www.steamgriddb.com/api/v2/search/autocomplete/half life 2"
    );
    assert_eq!(
        assets_url(AssetType::Grid, 1234, Some("600x900")),
        "https://www.steamgriddb.com/api/v2/grids/game/1234?dimensions=600x900"
    );
    assert_eq!(
        assets_url(AssetType::Hero, 0, None),
        "https://www.steamgriddb.com/api/v2/heroes/game/0"
    );
    assert_eq!(
        assets_url(AssetType::Icon, u64::MAX, None),
        "https://www.steamgriddb.com/api/v2/icons/game/18446744073709551615"
    );
    assert_eq!(
        platform_assets_url(AssetType::Logo, "steam", "220", None),
        "https://www.steamgriddb.com/api/v2/logos/steam/220"
    );
    assert_eq!(
        platform_assets_url(AssetType::Grid, "steam", "220", Some("920x430")),
        "https://www.steamgriddb.com/api/v2/grids/steam/220?dimensions=920x430"
    );
}

#[test]
fn new_client_carries_the_bearer_credential() {
    let made = SteamGridDbClient::new("abc123", 250).unwrap();
    assert_eq!(made.authorization, "Bearer abc123");
    assert_eq!(made.request_delay_ms, 250);
    assert_eq!(SteamGridDbClient::timeout_secs(), 30);
}

#[test]
fn new_client_refuses_a_credential_that_no_header_can_carry() {
    for key in ["line\nbreak", "carriage\rreturn", "nul\0", "delete\u{7f}", "\u{1b}escape"] {
        let error = SteamGridDbClient::new(key, 0).unwrap_err();
        assert!(matches!(error, ClientError::InvalidApiKey));
        assert_eq!(error.message(), "Invalid API key format");
    }
}

#[test]
fn new_client_accepts_tabs_spaces_and_bytes_beyond_ascii() {
    for key in ["", "with space", "with\ttab", "caf\u{e9}", "~!@#$%^&*()"] {
        let made = SteamGridDbClient::new(key, 0).unwrap();
        assert_eq!(made.authorization, format!("Bearer {key}"));
    }
}

#[test]
fn rate_limited_requests_wait_and_the_image_fetch_does_not() {
    let client = client(100);
    let probe = client.validate_key_request();
    assert_eq!(probe.url, "https://www.steamgriddb.com/api/v2/grids/game/1?dimensions=600x900");
    assert_eq!(probe.delay_ms, 100);
    let search = client.search_request("doom");
    assert_eq!(search.url, "https://www.steamgriddb.com/api/v2/search/autocomplete/doom");
    assert_eq!(search.delay_ms, 100);
    let listing = client.get_assets_request(AssetType::Grid, 5, Some("600x900"));
    assert_eq!(listing.url, "https://www.steamgriddb.com/api/v2/grids/game/5?dimensions=600x900");
    assert_eq!(listing.delay_ms, 100);
    let by_platform = client.get_assets_by_platform_request(AssetType::Icon, "steam", "70", None);
    assert_eq!(by_platform.url, "https://www.steamgriddb.com/api/v2/icons/steam/70");
    assert_eq!(by_platform.delay_ms, 100);
    let image = client.download_image_request("https://cdn.example/x.png");
    assert_eq!(image.url, "https://cdn.example/x.png");
    assert_eq!(image.delay_ms, 0);
}

#[test]
fn replies_are_well_formed_with_three_digit_codes() {
    assert!(Reply::<()>::Unreachable.is_well_formed());
    assert!(Reply::<()>::Answered { status: 100, body: None }.is_well_formed());
    assert!(Reply::<()>::Answered { status: 999, body: None }.is_well_formed());
    assert!(!Reply::<()>::Answered { status: 99, body: None }.is_well_formed());
    assert!(!Reply::<()>::Answered { status: 1000, body: None }.is_well_formed());
}

#[test]
fn credential_is_valid_on_success_codes_only() {
    let client = client(0);
    for (status, valid) in
        [(200, true), (204, true), (299, true), (199, false), (300, false), (401, false), (500, false)]
    {
        let reply = Reply::Answered { status, body: None };
        assert_eq!(client.validate_key(reply).unwrap(), valid);
    }
    let error = client.validate_key(Reply::Unreachable).unwrap_err();
    assert!(matches!(error, ClientError::Transport { .. }));
    assert_eq!(error.message(), "Key validation request failed");
}

#[test]
fn search_gives_the_hits_in_order() {
    let client = client(0);
    let envelope = ApiResponse { success: true, data: vec![hit(5, "Doom"), hit(6, "Doom II")] };
    let hits = client.search("doom", Reply::Answered { status: 200, body: Some(envelope) }).unwrap();
    assert_eq!(hits.len(), 2);
    assert_eq!(hits[0].id, 5);
    assert_eq!(hits[0].name, "Doom");
    assert_eq!(hits[1].id, 6);
}

#[test]
fn search_failures_carry_their_reason() {
    let client = client(0);
    assert_eq!(
        message_of(client.search("doom", Reply::Unreachable)),
        "Search request failed for 'doom'"
    );
    let refused = client.search("doom", Reply::Answered { status: 404, body: None }).unwrap_err();
    assert!(matches!(refused, ClientError::RequestFailed { status: 404, .. }));
    assert_eq!(refused.message(), "Search failed with status 404 Not Found");
    assert_eq!(
        message_of(client.search("doom", Reply::Answered { status: 401, body: None })),
        "Search failed with status 401 Unauthorized"
    );
    assert_eq!(
        message_of(client.search("doom", Reply::Answered { status: 299, body: None })),
        "Failed to parse search response"
    );
    // A body that came with a failure code is not looked at.
    let envelope = ApiResponse { success: true, data: vec![hit(5, "Doom")] };
    assert_eq!(
        message_of(client.search("doom", Reply::Answered { status: 500, body: Some(envelope) })),
        "Search failed with status 500 Internal Server Error"
    );
    assert_eq!(
        message_of(client.search("doom", Reply::Answered { status: 799, body: None })),
        "Search failed with status 799 <unknown status code>"
    );
}

#[test]
fn listing_by_catalogue_id() {
    let client = client(0);
    let envelope = ApiResponse { success: true, data: vec![image(1, "https://cdn.example/1.png")] };
    let assets = client.get_assets(77, Reply::Answered { status: 200, body: Some(envelope) }).unwrap();
    assert_eq!(assets.len(), 1);
    assert_eq!(assets[0].url, "https://cdn.example/1.png");
    assert_eq!(
        message_of(client.get_assets(77, Reply::Unreachable)),
        "Asset request failed for game 77"
    );
    assert_eq!(
        message_of(client.get_assets(77, Reply::Answered { status: 404, body: None })),
        "Asset fetch failed with status 404 Not Found for game 77"
    );
    assert_eq!(
        message_of(client.get_assets(77, Reply::Answered { status: 200, body: None })),
        "Failed to parse asset response"
    );
}

#[test]
fn listing_by_platform_takes_a_failure_code_for_an_empty_list() {
    let client = client(0);
    for status in [404, 400, 500, 301, 101] {
        let envelope =
            ApiResponse { success: false, data: vec![image(1, "https://cdn.example/1.png")] };
        let assets = client
            .get_assets_by_platform("steam", "220", Reply::Answered { status, body: Some(envelope) })
            .unwrap();
        assert!(assets.is_empty());
    }
    let envelope = ApiResponse {
        success: true,
        data: vec![image(1, "https://cdn.example/1.png"), image(2, "https://cdn.example/2.png")],
    };
    let assets = client
        .get_assets_by_platform("steam", "220", Reply::Answered { status: 200, body: Some(envelope) })
        .unwrap();
    assert_eq!(assets.len(), 2);
    assert_eq!(assets[1].id, 2);
    assert_eq!(
        message_of(client.get_assets_by_platform("steam", "220", Reply::Unreachable)),
        "Platform asset request failed for steam/220"
    );
    assert_eq!(
        message_of(client.get_assets_by_platform(
            "steam",
            "220",
            Reply::Answered { status: 200, body: None }
        )),
        "Failed to parse platform asset response"
    );
}

#[test]
fn image_fetch() {
    let client = client(0);
    let url = "https://cdn.example/x.png";
    let bytes =
        client.download_image(url, Reply::Answered { status: 200, body: Some(vec![7, 8]) }).unwrap();
    assert_eq!(bytes, vec![7, 8]);
    let empty =
        client.download_image(url, Reply::Answered { status: 200, body: Some(Vec::new()) }).unwrap();
    assert!(empty.is_empty());
    assert_eq!(
        message_of(client.download_image(url, Reply::Unreachable)),
        "Image download failed for https://cdn.example/x.png"
    );
    assert_eq!(
        message_of(client.download_image(url, Reply::Answered { status: 403, body: Some(vec![1]) })),
        "Image download returned status 403 Forbidden"
    );
    assert_eq!(
        message_of(client.download_image(url, Reply::Answered { status: 200, body: None })),
        "Failed to read image bytes"
    );
}
