//! Client-side rules of the catalogue's HTTP interface: which request each
//! call sends, and what each reply means.
//!
//! Nothing here touches the network. A call is described by an
//! `HttpRequest`; whoever sends it reports what came back as a `Reply`, and
//! the method named after the call turns that reply into the call's result.

use crate::api::models::{ApiResponse, AssetType, ImageAsset, SearchResult};
use crate::text::{concat2, concat3, decimal, u64_to_decimal};
use vstd::prelude::*;
use vstd::string::StringSliceAdditionalSpecFns;
use vstd::utf8::encode_utf8;

verus! {

// ---------------------------------------------------------------------------
// Trusted: header values and status lines of the HTTP library
// ---------------------------------------------------------------------------

/// Whether a byte may stand in the value of an HTTP header.
pub open spec fn header_byte_ok(b: u8) -> bool {
    (b >= 32 && b != 127) || b == 9
}

/// Whether a byte string may stand as the value of an HTTP header.
pub open spec fn header_bytes_ok(bytes: Seq<u8>) -> bool {
    forall|i: int| 0 <= i < bytes.len() ==> header_byte_ok(#[trigger] bytes[i])
}

/// `reqwest::header::HeaderValue::from_str` accepts a text if and only if
/// each byte of its UTF-8 encoding is a tab, or is at least 32 and not 127.
#[verifier::external_body]
fn header_value_accepts(value: &str) -> (accepted: bool)
    ensures
        accepted == header_bytes_ok(value.spec_bytes()),
{
    reqwest::header::HeaderValue::from_str(value).is_ok()
}

/// The text that `reqwest::StatusCode` displays for a status code: the code
/// in decimal, a space, and the canonical reason phrase of the code or a
/// placeholder where it has none.
pub uninterp spec fn status_line(code: u16) -> Seq<char>;

/// `reqwest::StatusCode::from_u16` followed by the `Display` of the status
/// code. `from_u16` accepts exactly the codes from 100 to 999.
#[verifier::external_body]
fn render_status(code: u16) -> (line: String)
    requires
        100 <= code <= 999,
    ensures
        line@ == status_line(code),
{
    match reqwest::StatusCode::from_u16(code) {
        Ok(status) => status.to_string(),
        Err(_) => String::new(),
    }
}

/// `reqwest::StatusCode::is_success` holds of the codes from 200 to 299.
#[verifier::external_body]
fn status_is_success(code: u16) -> (success: bool)
    requires
        100 <= code <= 999,
    ensures
        success == (200 <= code < 300),
{
    match reqwest::StatusCode::from_u16(code) {
        Ok(status) => status.is_success(),
        Err(_) => false,
    }
}

// ---------------------------------------------------------------------------
// Requests and replies
// ---------------------------------------------------------------------------

/// One GET request, as the sender has to perform it.
#[derive(Debug)]
pub struct HttpRequest {
    /// Address to fetch.
    pub url: String,
    /// Milliseconds to wait before sending, whatever the request's fate.
    pub delay_ms: u64,
}

/// What came back for one request.
#[derive(Debug)]
pub enum Reply<T> {
    /// The request could not be sent, or no reply arrived.
    Unreachable,
    /// A reply arrived. `body` holds its decoded payload; it is `None` where
    /// the payload could not be read or decoded, and is not looked at unless
    /// `status` is a success code.
    Answered { status: u16, body: Option<T> },
}

impl<T> Reply<T> {
    /// A status code has three digits.
    pub open spec fn well_formed(&self) -> bool {
        *self matches Reply::Answered { status, .. } ==> 100 <= status <= 999
    }

    /// Whether the status code, if there is one, has three digits.
    pub fn is_well_formed(&self) -> (ok: bool)
        ensures
            ok == self.well_formed(),
    {
        match self {
            Reply::Unreachable => true,
            Reply::Answered { status, .. } => 100 <= *status && *status <= 999,
        }
    }
}

/// Why a call to the catalogue gave no result.
#[derive(Debug)]
pub enum ClientError {
    /// The credential cannot be written into a request header.
    InvalidApiKey,
    /// The request could not be sent, or no reply arrived.
    Transport { message: String },
    /// The catalogue answered with a status code that is no success.
    RequestFailed { status: u16, message: String },
    /// The reply's payload could not be read or decoded.
    Decode { message: String },
}

/// Mathematical value of a `ClientError`.
pub enum ClientErrorView {
    InvalidApiKey,
    Transport { message: Seq<char> },
    RequestFailed { status: u16, message: Seq<char> },
    Decode { message: Seq<char> },
}

impl ClientErrorView {
    /// The text shown for this error.
    pub open spec fn message(self) -> Seq<char> {
        match self {
            ClientErrorView::InvalidApiKey => "Invalid API key format"@,
            ClientErrorView::Transport { message } => message,
            ClientErrorView::RequestFailed { message, .. } => message,
            ClientErrorView::Decode { message } => message,
        }
    }
}

impl View for ClientError {
    type V = ClientErrorView;

    open spec fn view(&self) -> ClientErrorView {
        match *self {
            ClientError::InvalidApiKey => ClientErrorView::InvalidApiKey,
            ClientError::Transport { message } => ClientErrorView::Transport { message: message@ },
            ClientError::RequestFailed { status, message } => ClientErrorView::RequestFailed {
                status,
                message: message@,
            },
            ClientError::Decode { message } => ClientErrorView::Decode { message: message@ },
        }
    }
}

impl ClientError {
    /// The text shown for this error.
    pub fn message(&self) -> (text: String)
        ensures
            text@ == self@.message(),
    {
        match self {
            ClientError::InvalidApiKey => "Invalid API key format".to_owned(),
            ClientError::Transport { message } => message.clone(),
            ClientError::RequestFailed { message, .. } => message.clone(),
            ClientError::Decode { message } => message.clone(),
        }
    }
}

// ---------------------------------------------------------------------------
// Addresses
// ---------------------------------------------------------------------------

/// Root of the catalogue's interface.
pub open spec fn spec_base_url() -> Seq<char> {
    "https://www.steamgriddb.com/api/v2"@
}

/// Root of the catalogue's interface.
pub fn base_url() -> (url: &'static str)
    ensures
        url@ == spec_base_url(),
{
    "https://www.steamgriddb.com/api/v2"
}

/// The query that restricts a listing to one image size, or nothing.
pub open spec fn spec_dimension_query(dimensions: Option<Seq<char>>) -> Seq<char> {
    match dimensions {
        Some(wanted) => "?dimensions="@ + wanted,
        None => Seq::empty(),
    }
}

/// Address of the probe that tells whether the credential is accepted.
pub open spec fn spec_validation_url() -> Seq<char> {
    spec_base_url() + "/grids/game/1?dimensions=600x900"@
}

/// Address of the autocomplete search for `term`.
pub open spec fn spec_search_url(term: Seq<char>) -> Seq<char> {
    spec_base_url() + "/search/autocomplete/"@ + term
}

/// Address of the listing of one category for a catalogue identifier.
pub open spec fn spec_assets_url(
    asset_type: AssetType,
    game_id: u64,
    dimensions: Option<Seq<char>>,
) -> Seq<char> {
    spec_base_url() + "/"@ + asset_type.spec_api_path() + "/game/"@ + decimal(game_id as nat)
        + spec_dimension_query(dimensions)
}

/// Address of the listing of one category for a platform's own identifier.
pub open spec fn spec_platform_assets_url(
    asset_type: AssetType,
    platform: Seq<char>,
    platform_id: Seq<char>,
    dimensions: Option<Seq<char>>,
) -> Seq<char> {
    spec_base_url() + "/"@ + asset_type.spec_api_path() + "/"@ + platform + "/"@ + platform_id
        + spec_dimension_query(dimensions)
}

/// The view of an optional text.
pub open spec fn opt_view(text: Option<&str>) -> Option<Seq<char>> {
    match text {
        Some(t) => Some(t@),
        None => None,
    }
}

/// Appends the size restriction, if any, to a listing address.
fn append_dimension_query(url: &mut String, dimensions: Option<&str>)
    ensures
        final(url)@ == old(url)@ + spec_dimension_query(opt_view(dimensions)),
{
    match dimensions {
        Some(wanted) => {
            url.append("?dimensions=");
            url.append(wanted);
        },
        None => {},
    }
}

/// Address of the probe that tells whether the credential is accepted.
pub fn validation_url() -> (url: String)
    ensures
        url@ == spec_validation_url(),
{
    concat2(base_url(), "/grids/game/1?dimensions=600x900")
}

/// Address of the autocomplete search for `term`. The term is put in as it
/// is.
pub fn search_url(term: &str) -> (url: String)
    ensures
        url@ == spec_search_url(term@),
{
    concat3(base_url(), "/search/autocomplete/", term)
}

/// Address of the listing of one category for a catalogue identifier.
pub fn assets_url(asset_type: AssetType, game_id: u64, dimensions: Option<&str>) -> (url: String)
    ensures
        url@ == spec_assets_url(asset_type, game_id, opt_view(dimensions)),
{
    let mut url = concat3(base_url(), "/", asset_type.api_path());
    url.append("/game/");
    let id = u64_to_decimal(game_id);
    url.append(id.as_str());
    append_dimension_query(&mut url, dimensions);
    url
}

/// Address of the listing of one category for a platform's own identifier.
pub fn platform_assets_url(
    asset_type: AssetType,
    platform: &str,
    platform_id: &str,
    dimensions: Option<&str>,
) -> (url: String)
    ensures
        url@ == spec_platform_assets_url(
            asset_type,
            platform@,
            platform_id@,
            opt_view(dimensions),
        ),
{
    let mut url = concat3(base_url(), "/", asset_type.api_path());
    url.append("/");
    url.append(platform);
    url.append("/");
    url.append(platform_id);
    append_dimension_query(&mut url, dimensions);
    url
}

// ---------------------------------------------------------------------------
// The client
// ---------------------------------------------------------------------------

/// The value of the authorization header for a credential.
pub open spec fn spec_authorization(api_key: Seq<char>) -> Seq<char> {
    "Bearer "@ + api_key
}

/// Whether a credential can be sent: its authorization header value must be
/// acceptable as a header value.
pub open spec fn credential_sendable(api_key: Seq<char>) -> bool {
    header_bytes_ok(encode_utf8(spec_authorization(api_key)))
}

/// Seconds after which a request is given up.
pub open spec fn spec_timeout_secs() -> u64 {
    30
}

/// Settings of the catalogue client: the authorization header that every
/// request carries and the pause before each rate-limited call.
#[derive(Debug)]
pub struct SteamGridDbClient {
    pub authorization: String,
    pub request_delay_ms: u64,
}

impl SteamGridDbClient {
    /// Settings for a credential and a pause in milliseconds. The credential
    /// is refused, with `InvalidApiKey`, if and only if its authorization
    /// header value is no acceptable header value.
    pub fn new(api_key: &str, delay_ms: u64) -> (made: Result<SteamGridDbClient, ClientError>)
        ensures
            credential_sendable(api_key@) ==> made is Ok && made->Ok_0.authorization@
                == spec_authorization(api_key@) && made->Ok_0.request_delay_ms == delay_ms,
            !credential_sendable(api_key@) ==> made is Err && made->Err_0@
                == ClientErrorView::InvalidApiKey,
    {
        let authorization = concat2("Bearer ", api_key);
        if header_value_accepts(authorization.as_str()) {
            Ok(SteamGridDbClient { authorization, request_delay_ms: delay_ms })
        } else {
            Err(ClientError::InvalidApiKey)
        }
    }

    /// Seconds after which a request is given up.
    pub fn timeout_secs() -> (secs: u64)
        ensures
            secs == spec_timeout_secs(),
    {
        30
    }

    /// The probe of the credential, sent after the pause.
    pub fn validate_key_request(&self) -> (request: HttpRequest)
        ensures
            request.url@ == spec_validation_url(),
            request.delay_ms == self.request_delay_ms,
    {
        HttpRequest { url: validation_url(), delay_ms: self.request_delay_ms }
    }

    /// The search for `term`, sent after the pause.
    pub fn search_request(&self, term: &str) -> (request: HttpRequest)
        ensures
            request.url@ == spec_search_url(term@),
            request.delay_ms == self.request_delay_ms,
    {
        HttpRequest { url: search_url(term), delay_ms: self.request_delay_ms }
    }

    /// The listing by catalogue identifier, sent after the pause.
    pub fn get_assets_request(
        &self,
        asset_type: AssetType,
        game_id: u64,
        dimensions: Option<&str>,
    ) -> (request: HttpRequest)
        ensures
            request.url@ == spec_assets_url(asset_type, game_id, opt_view(dimensions)),
            request.delay_ms == self.request_delay_ms,
    {
        HttpRequest {
            url: assets_url(asset_type, game_id, dimensions),
            delay_ms: self.request_delay_ms,
        }
    }

    /// The listing by platform identifier, sent after the pause.
    pub fn get_assets_by_platform_request(
        &self,
        asset_type: AssetType,
        platform: &str,
        platform_id: &str,
        dimensions: Option<&str>,
    ) -> (request: HttpRequest)
        ensures
            request.url@ == spec_platform_assets_url(
                asset_type,
                platform@,
                platform_id@,
                opt_view(dimensions),
            ),
            request.delay_ms == self.request_delay_ms,
    {
        HttpRequest {
            url: platform_assets_url(asset_type, platform, platform_id, dimensions),
            delay_ms: self.request_delay_ms,
        }
    }

    /// The raw fetch of an image, sent at once: it is not rate-limited.
    pub fn download_image_request(&self, url: &str) -> (request: HttpRequest)
        ensures
            request.url@ == url@,
            request.delay_ms == 0,
    {
        HttpRequest { url: url.to_owned(), delay_ms: 0 }
    }

    /// Result of the credential probe: the credential is valid if and only
    /// if the catalogue answered with a success code.
    pub fn validate_key(&self, reply: Reply<()>) -> (valid: Result<bool, ClientError>)
        requires
            reply.well_formed(),
        ensures
            match reply {
                Reply::Unreachable => valid is Err && valid->Err_0@ == spec_validate_unreachable(),
                Reply::Answered { status, .. } => valid == Ok::<bool, ClientError>(
                    200 <= status < 300,
                ),
            },
    {
        match reply {
            Reply::Unreachable => Err(
                ClientError::Transport { message: "Key validation request failed".to_owned() },
            ),
            Reply::Answered { status, .. } => Ok(status_is_success(status)),
        }
    }

    /// Result of a search: the hits in the catalogue's order, or why there
    /// are none to read.
    pub fn search(&self, term: &str, reply: Reply<ApiResponse<SearchResult>>) -> (hits: Result<
        Vec<SearchResult>,
        ClientError,
    >)
        requires
            reply.well_formed(),
        ensures
            match spec_search(term@, reply) {
                Ok(data) => hits == Ok::<Vec<SearchResult>, ClientError>(data),
                Err(error) => hits is Err && hits->Err_0@ == error,
            },
    {
        match reply {
            Reply::Unreachable => Err(
                ClientError::Transport {
                    message: concat3("Search request failed for '", term, "'"),
                },
            ),
            Reply::Answered { status, body } => {
                if !status_is_success(status) {
                    let line = render_status(status);
                    Err(
                        ClientError::RequestFailed {
                            status,
                            message: concat2("Search failed with status ", line.as_str()),
                        },
                    )
                } else {
                    match body {
                        Some(envelope) => Ok(envelope.data),
                        None => Err(
                            ClientError::Decode {
                                message: "Failed to parse search response".to_owned(),
                            },
                        ),
                    }
                }
            },
        }
    }

    /// Result of a listing by catalogue identifier: the candidates in the
    /// catalogue's order, or why there are none to read.
    pub fn get_assets(&self, game_id: u64, reply: Reply<ApiResponse<ImageAsset>>) -> (assets:
        Result<Vec<ImageAsset>, ClientError>)
        requires
            reply.well_formed(),
        ensures
            match spec_get_assets(game_id, reply) {
                Ok(data) => assets == Ok::<Vec<ImageAsset>, ClientError>(data),
                Err(error) => assets is Err && assets->Err_0@ == error,
            },
    {
        match reply {
            Reply::Unreachable => {
                let id = u64_to_decimal(game_id);
                Err(
                    ClientError::Transport {
                        message: concat2("Asset request failed for game ", id.as_str()),
                    },
                )
            },
            Reply::Answered { status, body } => {
                if !status_is_success(status) {
                    let line = render_status(status);
                    let id = u64_to_decimal(game_id);
                    let mut message = concat3(
                        "Asset fetch failed with status ",
                        line.as_str(),
                        " for game ",
                    );
                    message.append(id.as_str());
                    Err(ClientError::RequestFailed { status, message })
                } else {
                    match body {
                        Some(envelope) => Ok(envelope.data),
                        None => Err(
                            ClientError::Decode {
                                message: "Failed to parse asset response".to_owned(),
                            },
                        ),
                    }
                }
            },
        }
    }

    /// Result of a listing by platform identifier. A status that is no
    /// success means that the catalogue has nothing under this identifier:
    /// the result is then the empty list, not an error.
    pub fn get_assets_by_platform(
        &self,
        platform: &str,
        platform_id: &str,
        reply: Reply<ApiResponse<ImageAsset>>,
    ) -> (assets: Result<Vec<ImageAsset>, ClientError>)
        requires
            reply.well_formed(),
        ensures
            match spec_get_assets_by_platform(platform@, platform_id@, reply) {
                Ok(data) => assets is Ok && assets->Ok_0@ == data,
                Err(error) => assets is Err && assets->Err_0@ == error,
            },
    {
        match reply {
            Reply::Unreachable => {
                let mut message = concat3("Platform asset request failed for ", platform, "/");
                message.append(platform_id);
                Err(ClientError::Transport { message })
            },
            Reply::Answered { status, body } => {
                if !status_is_success(status) {
                    Ok(Vec::new())
                } else {
                    match body {
                        Some(envelope) => Ok(envelope.data),
                        None => Err(
                            ClientError::Decode {
                                message: "Failed to parse platform asset response".to_owned(),
                            },
                        ),
                    }
                }
            },
        }
    }

    /// Result of the raw fetch of an image: its bytes, or why there are
    /// none.
    pub fn download_image(&self, url: &str, reply: Reply<Vec<u8>>) -> (bytes: Result<
        Vec<u8>,
        ClientError,
    >)
        requires
            reply.well_formed(),
        ensures
            match spec_download_image(url@, reply) {
                Ok(data) => bytes == Ok::<Vec<u8>, ClientError>(data),
                Err(error) => bytes is Err && bytes->Err_0@ == error,
            },
    {
        match reply {
            Reply::Unreachable => Err(
                ClientError::Transport { message: concat2("Image download failed for ", url) },
            ),
            Reply::Answered { status, body } => {
                if !status_is_success(status) {
                    let line = render_status(status);
                    Err(
                        ClientError::RequestFailed {
                            status,
                            message: concat2("Image download returned status ", line.as_str()),
                        },
                    )
                } else {
                    match body {
                        Some(data) => Ok(data),
                        None => Err(
                            ClientError::Decode {
                                message: "Failed to read image bytes".to_owned(),
                            },
                        ),
                    }
                }
            },
        }
    }
}

// ---------------------------------------------------------------------------
// What each reply means
// ---------------------------------------------------------------------------

/// The error of a credential probe that got no reply.
pub open spec fn spec_validate_unreachable() -> ClientErrorView {
    ClientErrorView::Transport { message: "Key validation request failed"@ }
}

/// Meaning of the reply to a search for `term`.
pub open spec fn spec_search(term: Seq<char>, reply: Reply<ApiResponse<SearchResult>>) -> Result<
    Vec<SearchResult>,
    ClientErrorView,
> {
    match reply {
        Reply::Unreachable => Err(
            ClientErrorView::Transport {
                message: "Search request failed for '"@ + term + "'"@,
            },
        ),
        Reply::Answered { status, body } => if !(200 <= status < 300) {
            Err(
                ClientErrorView::RequestFailed {
                    status,
                    message: "Search failed with status "@ + status_line(status),
                },
            )
        } else {
            match body {
                Some(envelope) => Ok(envelope.data),
                None => Err(
                    ClientErrorView::Decode { message: "Failed to parse search response"@ },
                ),
            }
        },
    }
}

/// Meaning of the reply to a listing by catalogue identifier.
pub open spec fn spec_get_assets(game_id: u64, reply: Reply<ApiResponse<ImageAsset>>) -> Result<
    Vec<ImageAsset>,
    ClientErrorView,
> {
    match reply {
        Reply::Unreachable => Err(
            ClientErrorView::Transport {
                message: "Asset request failed for game "@ + decimal(game_id as nat),
            },
        ),
        Reply::Answered { status, body } => if !(200 <= status < 300) {
            Err(
                ClientErrorView::RequestFailed {
                    status,
                    message: "Asset fetch failed with status "@ + status_line(status)
                        + " for game "@ + decimal(game_id as nat),
                },
            )
        } else {
            match body {
                Some(envelope) => Ok(envelope.data),
                None => Err(
                    ClientErrorView::Decode { message: "Failed to parse asset response"@ },
                ),
            }
        },
    }
}

/// Meaning of the reply to a listing by platform identifier.
pub open spec fn spec_get_assets_by_platform(
    platform: Seq<char>,
    platform_id: Seq<char>,
    reply: Reply<ApiResponse<ImageAsset>>,
) -> Result<Seq<ImageAsset>, ClientErrorView> {
    match reply {
        Reply::Unreachable => Err(
            ClientErrorView::Transport {
                message: "Platform asset request failed for "@ + platform + "/"@ + platform_id,
            },
        ),
        Reply::Answered { status, body } => if !(200 <= status < 300) {
            Ok(Seq::empty())
        } else {
            match body {
                Some(envelope) => Ok(envelope.data@),
                None => Err(
                    ClientErrorView::Decode {
                        message: "Failed to parse platform asset response"@,
                    },
                ),
            }
        },
    }
}

/// Meaning of the reply to the raw fetch of an image.
pub open spec fn spec_download_image(url: Seq<char>, reply: Reply<Vec<u8>>) -> Result<
    Vec<u8>,
    ClientErrorView,
> {
    match reply {
        Reply::Unreachable => Err(
            ClientErrorView::Transport { message: "Image download failed for "@ + url },
        ),
        Reply::Answered { status, body } => if !(200 <= status < 300) {
            Err(
                ClientErrorView::RequestFailed {
                    status,
                    message: "Image download returned status "@ + status_line(status),
                },
            )
        } else {
            match body {
                Some(data) => Ok(data),
                None => Err(ClientErrorView::Decode { message: "Failed to read image bytes"@ }),
            }
        },
    }
}

} // verus!
