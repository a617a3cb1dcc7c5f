//! The acquisition pipeline as a state machine.
//!
//! A `Run` goes through the games one at a time and, within a game, through
//! the selected categories in order. It never performs a request itself:
//! each step hands out the progress events that became due and the one
//! request to perform next, and takes the answer to that request as the
//! input of the following step. `spec_step` is the whole of its behaviour:
//! the run makes a `Decision` of the answer (`RunView::decide`) and carries
//! it out (`RunView::carry_out`).
//!
//! The width of a run bounds the number of games in flight. Games are taken
//! strictly one after the other, so any width of at least one admits every
//! game in its turn, and a width of zero admits none: such a run stalls
//! before its first game.

use crate::api::client::{ClientError, ClientErrorView};
use crate::api::models::{
    AssetType, DownloadProgress, DownloadStatus, ImageAsset, ProgressView, SearchResult,
    StatusView,
};
use crate::config::{data_dir, PathError};
use crate::db::{primary_service, spec_primary_service, Game};
use crate::download::{
    asset_path_in, filter_assets, first_passing, persist_plan, spec_asset_path,
    spec_persist_plan, DownloadOpts, PersistPlan, PersistPlanView, StorageError,
};
use crate::selection::AssetSelection;
use crate::text::{concat2, dashes_to_spaces, spec_dashes_to_spaces};
use vstd::prelude::*;

verus! {

// ---------------------------------------------------------------------------
// Requests and responses
// ---------------------------------------------------------------------------

/// The one thing a run asks to have done before its next step.
#[derive(Debug)]
pub enum Request {
    /// Search the catalogue for `term`.
    Search { term: String },
    /// Tell whether a file exists at `path`.
    CheckExists { path: String },
    /// List the candidates of a category by catalogue identifier.
    ListById { asset_type: AssetType, game_id: u64, dimensions: Option<String> },
    /// List the candidates of a category by a platform's own identifier.
    ListByPlatform {
        asset_type: AssetType,
        platform: String,
        platform_id: String,
        dimensions: Option<String>,
    },
    /// Fetch the image at `url`.
    Download { url: String },
    /// Write `bytes` as `plan` says.
    Persist { plan: PersistPlan, bytes: Vec<u8> },
}

/// Mathematical value of a `Request`.
pub enum RequestView {
    Search { term: Seq<char> },
    CheckExists { path: Seq<char> },
    ListById { asset_type: AssetType, game_id: u64, dimensions: Option<Seq<char>> },
    ListByPlatform {
        asset_type: AssetType,
        platform: Seq<char>,
        platform_id: Seq<char>,
        dimensions: Option<Seq<char>>,
    },
    Download { url: Seq<char> },
    Persist { plan: PersistPlanView, bytes: Seq<u8> },
}

/// The view of an optional text.
pub open spec fn text_view(text: Option<String>) -> Option<Seq<char>> {
    match text {
        Some(t) => Some(t@),
        None => None,
    }
}

impl View for Request {
    type V = RequestView;

    open spec fn view(&self) -> RequestView {
        match *self {
            Request::Search { term } => RequestView::Search { term: term@ },
            Request::CheckExists { path } => RequestView::CheckExists { path: path@ },
            Request::ListById { asset_type, game_id, dimensions } => RequestView::ListById {
                asset_type,
                game_id,
                dimensions: text_view(dimensions),
            },
            Request::ListByPlatform {
                asset_type,
                platform,
                platform_id,
                dimensions,
            } => RequestView::ListByPlatform {
                asset_type,
                platform: platform@,
                platform_id: platform_id@,
                dimensions: text_view(dimensions),
            },
            Request::Download { url } => RequestView::Download { url: url@ },
            Request::Persist { plan, bytes } => RequestView::Persist { plan: plan@, bytes: bytes@ },
        }
    }
}

/// The answer to a request.
#[derive(Debug)]
pub enum Response {
    /// Answer to `Search`.
    SearchHits(Result<Vec<SearchResult>, ClientError>),
    /// Answer to `CheckExists`.
    Exists(bool),
    /// Answer to `ListById` and to `ListByPlatform`.
    Assets(Result<Vec<ImageAsset>, ClientError>),
    /// Answer to `Download`.
    Image(Result<Vec<u8>, ClientError>),
    /// Answer to `Persist`.
    Persisted(Result<(), StorageError>),
}

/// What a step hands out: the progress events that became due, in order,
/// and the request to perform next. There is no request if and only if the
/// run is complete or stalled.
#[derive(Debug)]
pub struct Step {
    pub events: Vec<DownloadProgress>,
    pub request: Option<Request>,
}

/// The values of a sequence of progress events.
pub open spec fn progress_views(events: Seq<DownloadProgress>) -> Seq<ProgressView> {
    events.map_values(|event: DownloadProgress| event@)
}

/// The view of an optional request.
pub open spec fn request_view(request: Option<Request>) -> Option<RequestView> {
    match request {
        Some(r) => Some(r@),
        None => None,
    }
}

// ---------------------------------------------------------------------------
// State
// ---------------------------------------------------------------------------

/// What a run is waiting for.
#[derive(Debug)]
pub enum Phase {
    /// The answer to a search for the current game: by its name if
    /// `by_name`, by its slug otherwise.
    Resolving { by_name: bool },
    /// The answer to whether the current asset is already stored.
    CheckingExisting { remote_id: u64 },
    /// The candidates of the current asset: those that the platform has
    /// under its own identifier of the game if `by_platform`, those that
    /// the catalogue has under its identifier otherwise.
    Listing { remote_id: u64, by_platform: bool },
    /// The bytes of the chosen candidate.
    Fetching { remote_id: u64 },
    /// The outcome of writing the bytes to `target`.
    Persisting { remote_id: u64, target: String },
    /// Nothing: the width of the run admits no game.
    Stalled,
    /// Nothing: every game has been dealt with.
    Complete,
}

/// Mathematical value of a `Phase`.
pub enum PhaseView {
    Resolving { by_name: bool },
    CheckingExisting { remote_id: u64 },
    Listing { remote_id: u64, by_platform: bool },
    Fetching { remote_id: u64 },
    Persisting { remote_id: u64, target: Seq<char> },
    Stalled,
    Complete,
}

impl View for Phase {
    type V = PhaseView;

    open spec fn view(&self) -> PhaseView {
        match *self {
            Phase::Resolving { by_name } => PhaseView::Resolving { by_name },
            Phase::CheckingExisting { remote_id } => PhaseView::CheckingExisting { remote_id },
            Phase::Listing { remote_id, by_platform } => PhaseView::Listing {
                remote_id,
                by_platform,
            },
            Phase::Fetching { remote_id } => PhaseView::Fetching { remote_id },
            Phase::Persisting { remote_id, target } => PhaseView::Persisting {
                remote_id,
                target: target@,
            },
            Phase::Stalled => PhaseView::Stalled,
            Phase::Complete => PhaseView::Complete,
        }
    }
}

/// What a run works on. It is fixed when the run starts.
pub struct PlanView {
    /// The games, in the order in which they are dealt with.
    pub games: Seq<Game>,
    /// The selected categories, in the order in which they are dealt with.
    pub assets: Seq<AssetType>,
    /// Wanted size of grid images.
    pub grid_dim: Seq<char>,
    /// Whether images marked as not safe for work are passed over.
    pub nsfw_filter: bool,
    /// Whether images marked as humorous are passed over.
    pub humor_filter: bool,
    /// Whether assets that are already stored are fetched again.
    pub force: bool,
    /// The user's data directory, if it is known.
    pub data_dir: Option<Seq<char>>,
    /// Number of games that may be in flight at once.
    pub width: usize,
}

/// Where a run stands: the current game, the current category of that game,
/// and what the run is waiting for.
pub struct CursorView {
    pub game_index: int,
    pub asset_index: int,
    pub phase: PhaseView,
}

/// Mathematical value of a `Run`.
pub struct RunView {
    pub plan: PlanView,
    pub cursor: CursorView,
}

/// What a step does: where the run stands afterwards, the events that it
/// hands out, and the request that it makes.
pub struct Outcome {
    pub cursor: CursorView,
    pub events: Seq<ProgressView>,
    pub request: Option<RequestView>,
}

impl PlanView {
    /// At least one category is selected, and none twice.
    pub open spec fn wf(self) -> bool {
        self.assets.len() > 0 && self.assets.no_duplicates()
    }

    /// Key under which the observer knows game `g`.
    pub open spec fn slug(self, g: int) -> Seq<char> {
        self.games[g].slug@
    }

    /// The event that tells `status` of category `a` of game `g`.
    pub open spec fn event(self, g: int, a: int, status: StatusView) -> ProgressView {
        ProgressView { game_slug: self.slug(g), asset_type: self.assets[a], status }
    }

    /// One event for each selected category of game `g`, in order, all
    /// telling `status`.
    pub open spec fn events_for_all(self, g: int, status: StatusView) -> Seq<ProgressView> {
        Seq::new(self.assets.len(), |a: int| self.event(g, a, status))
    }

    /// Path at which category `a` of game `g` is stored.
    pub open spec fn asset_path(self, g: int, a: int) -> Result<Seq<char>, PathError> {
        spec_asset_path(self.data_dir, self.assets[a], self.slug(g))
    }

    /// The term of the search by slug for game `g`.
    pub open spec fn slug_term(self, g: int) -> Seq<char> {
        spec_dashes_to_spaces(self.slug(g))
    }

    /// The size restriction of a listing: grids are asked for in the wanted
    /// size, every other category without restriction.
    pub open spec fn dimensions(self, a: int) -> Option<Seq<char>> {
        if self.assets[a] == AssetType::Grid {
            Some(self.grid_dim)
        } else {
            None
        }
    }

    /// The request for the candidates of category `a` that the catalogue
    /// has under its identifier `remote_id` of the game.
    pub open spec fn by_id_request(self, a: int, remote_id: u64) -> RequestView {
        RequestView::ListById {
            asset_type: self.assets[a],
            game_id: remote_id,
            dimensions: self.dimensions(a),
        }
    }

    /// The first listing request for category `a` of game `g`: by the
    /// platform's identifier where the game has one, by the catalogue's
    /// otherwise.
    pub open spec fn listing_request(self, g: int, a: int, remote_id: u64) -> RequestView {
        if self.games[g].spec_has_platform_id() {
            RequestView::ListByPlatform {
                asset_type: self.assets[a],
                platform: spec_primary_service(),
                platform_id: self.games[g].service_id->0@,
                dimensions: self.dimensions(a),
            }
        } else {
            self.by_id_request(a, remote_id)
        }
    }

    /// Turning to game `g`: past the last game the run is complete. For a
    /// game, every selected category is announced as being searched, and
    /// the game is searched for: by its name if it has a platform
    /// identifier, by its slug otherwise.
    pub open spec fn enter_game(self, g: int) -> Outcome {
        if g >= self.games.len() {
            Outcome {
                cursor: CursorView {
                    game_index: self.games.len() as int,
                    asset_index: 0,
                    phase: PhaseView::Complete,
                },
                events: Seq::empty(),
                request: None,
            }
        } else {
            let by_name = self.games[g].spec_has_platform_id();
            Outcome {
                cursor: CursorView {
                    game_index: g,
                    asset_index: 0,
                    phase: PhaseView::Resolving { by_name },
                },
                events: self.events_for_all(g, StatusView::Searching),
                request: Some(
                    RequestView::Search {
                        term: if by_name {
                            self.games[g].name@
                        } else {
                            self.slug_term(g)
                        },
                    },
                ),
            }
        }
    }

    /// Starting to fetch category `a` of game `g`: the category is
    /// announced as being downloaded and its candidates are asked for,
    /// from the platform first where the game has a platform identifier.
    pub open spec fn start_listing(self, g: int, a: int, remote_id: u64) -> Outcome {
        Outcome {
            cursor: CursorView {
                game_index: g,
                asset_index: a,
                phase: PhaseView::Listing {
                    remote_id,
                    by_platform: self.games[g].spec_has_platform_id(),
                },
            },
            events: seq![self.event(g, a, StatusView::Downloading)],
            request: Some(self.listing_request(g, a, remote_id)),
        }
    }

    /// Turning to category `a` of game `g`: past the last category the run
    /// turns to the next game. Unless assets are fetched again regardless,
    /// and where the asset's path is known, the run first asks whether the
    /// asset is already stored; otherwise it starts to fetch at once.
    pub open spec fn enter_asset(self, g: int, a: int, remote_id: u64) -> Outcome {
        if a >= self.assets.len() {
            self.enter_game(g + 1)
        } else if !self.force && self.asset_path(g, a) is Ok {
            Outcome {
                cursor: CursorView {
                    game_index: g,
                    asset_index: a,
                    phase: PhaseView::CheckingExisting { remote_id },
                },
                events: Seq::empty(),
                request: Some(RequestView::CheckExists { path: self.asset_path(g, a)->Ok_0 }),
            }
        } else {
            self.start_listing(g, a, remote_id)
        }
    }

    /// Ending category `a` of game `g` with the terminal outcome `status`:
    /// the outcome is told, and the run turns to the next category.
    pub open spec fn finish_asset(self, g: int, a: int, remote_id: u64, status: StatusView)
        -> Outcome {
        let next = self.enter_asset(g, a + 1, remote_id);
        Outcome {
            cursor: next.cursor,
            events: seq![self.event(g, a, status)] + next.events,
            request: next.request,
        }
    }

    /// Giving up game `g`: every selected category fails with the same
    /// message, and the run turns to the next game.
    pub open spec fn fail_game(self, g: int, message: Seq<char>) -> Outcome {
        let next = self.enter_game(g + 1);
        Outcome {
            cursor: next.cursor,
            events: self.events_for_all(g, StatusView::Failed(message)) + next.events,
            request: next.request,
        }
    }

    /// The start of a run: without games it is complete at once; with games
    /// and a width of zero it stalls; otherwise it turns to the first game.
    pub open spec fn start(self) -> Outcome {
        if self.games.len() == 0 {
            self.enter_game(0)
        } else if self.width == 0 {
            Outcome {
                cursor: CursorView { game_index: 0, asset_index: 0, phase: PhaseView::Stalled },
                events: Seq::empty(),
                request: None,
            }
        } else {
            self.enter_game(0)
        }
    }
}

/// Reason of a skipped asset that is already stored.
pub open spec fn spec_already_exists() -> Seq<char> {
    "already exists"@
}

/// Message of a game that the catalogue does not know.
pub open spec fn spec_not_found() -> Seq<char> {
    "game not found on `SteamGridDB`"@
}

/// Message of a game whose search failed.
pub open spec fn spec_search_error(error: ClientErrorView) -> Seq<char> {
    "search error: "@ + error.message()
}

/// Message of an asset whose listing failed.
pub open spec fn spec_fetch_error(error: ClientErrorView) -> Seq<char> {
    "fetch error: "@ + error.message()
}

/// Message of an asset none of whose candidates passes the filters.
pub open spec fn spec_no_art() -> Seq<char> {
    "no art found"@
}

/// Message of an asset whose image could not be fetched.
pub open spec fn spec_download_error(error: ClientErrorView) -> Seq<char> {
    "download error: "@ + error.message()
}

/// Message of an asset whose image arrived without a single byte.
pub open spec fn spec_empty_payload() -> Seq<char> {
    "downloaded 0 bytes"@
}

impl RunView {
    /// The cursor points at what the phase speaks of.
    pub open spec fn wf(self) -> bool {
        let games = self.plan.games.len() as int;
        let assets = self.plan.assets.len() as int;
        let g = self.cursor.game_index;
        let a = self.cursor.asset_index;
        &&& self.plan.wf()
        &&& match self.cursor.phase {
            PhaseView::Complete => g == games && a == 0,
            PhaseView::Stalled => g == 0 && a == 0 && games > 0 && self.plan.width == 0,
            PhaseView::Resolving { by_name } => {
                &&& 0 <= g < games
                &&& a == 0
                &&& self.plan.width > 0
                &&& by_name ==> self.plan.games[g].spec_has_platform_id()
            },
            PhaseView::CheckingExisting { .. } => {
                &&& 0 <= g < games
                &&& 0 <= a < assets
                &&& self.plan.width > 0
                &&& !self.plan.force
            },
            PhaseView::Listing { by_platform, .. } => {
                &&& 0 <= g < games
                &&& 0 <= a < assets
                &&& self.plan.width > 0
                &&& by_platform ==> self.plan.games[g].spec_has_platform_id()
            },
            PhaseView::Fetching { .. } => {
                &&& 0 <= g < games
                &&& 0 <= a < assets
                &&& self.plan.width > 0
            },
            PhaseView::Persisting { target, .. } => {
                &&& 0 <= g < games
                &&& 0 <= a < assets
                &&& self.plan.width > 0
                &&& self.plan.asset_path(g, a) == Ok::<Seq<char>, PathError>(target)
            },
        }
    }

    /// Number of games that are being worked on.
    pub open spec fn games_in_flight(self) -> nat {
        match self.cursor.phase {
            PhaseView::Complete | PhaseView::Stalled => 0,
            _ => 1,
        }
    }

    /// Whether `response` answers the request that the run is waiting for.
    pub open spec fn expects(self, response: Response) -> bool {
        match (self.cursor.phase, response) {
            (PhaseView::Resolving { .. }, Response::SearchHits(_)) => true,
            (PhaseView::CheckingExisting { .. }, Response::Exists(_)) => true,
            (PhaseView::Listing { .. }, Response::Assets(_)) => true,
            (PhaseView::Fetching { .. }, Response::Image(_)) => true,
            (PhaseView::Persisting { .. }, Response::Persisted(_)) => true,
            _ => false,
        }
    }

    /// The run as it stands after `outcome`.
    pub open spec fn after(self, outcome: Outcome) -> RunView {
        RunView { plan: self.plan, cursor: outcome.cursor }
    }
}

/// What a run makes of an answer, before it is carried out.
pub enum Decision {
    /// The catalogue knows the game under `remote_id`: the run turns to the
    /// first category of the game.
    Resolved { remote_id: u64 },
    /// The search by name found nothing: the game is searched by its slug.
    SearchBySlug,
    /// The game is given up: every category fails with `message`.
    FailGame { message: Seq<char> },
    /// The current asset ends with the terminal outcome `status`.
    EndAsset { status: StatusView },
    /// The current asset is not stored yet: it is fetched.
    StartListing,
    /// The platform has nothing under its identifier of the game: the
    /// candidates are asked for under the catalogue's identifier.
    ListById,
    /// A candidate was chosen: its image at `url` is fetched.
    Fetch { url: Seq<char> },
    /// The image arrived: `bytes` are written to `target`.
    Write { target: Seq<char>, bytes: Seq<u8> },
}

impl RunView {
    /// The catalogue identifier that the run carries for the current game,
    /// once the game is resolved.
    pub open spec fn remote_id(self) -> u64 {
        match self.cursor.phase {
            PhaseView::CheckingExisting { remote_id } => remote_id,
            PhaseView::Listing { remote_id, .. } => remote_id,
            PhaseView::Fetching { remote_id } => remote_id,
            PhaseView::Persisting { remote_id, .. } => remote_id,
            _ => 0,
        }
    }

    /// What the run makes of `response`. `None` means that `response` does
    /// not answer the request that the run is waiting for.
    ///
    /// A game is resolved to the first hit of its search. A game without a
    /// hit is searched once more by its slug if it was searched by name,
    /// and is given up otherwise, as it is when the search fails. An asset
    /// that exists is skipped. Where the platform's listing comes back
    /// without a single candidate, the platform has nothing under its
    /// identifier of the game, and the catalogue is asked under its own;
    /// this is the only answer after which the run falls back. Of the
    /// candidates of any other listing the first that passes the filters
    /// is fetched; a listing that fails, whichever of the two it is, or
    /// that has no such candidate fails the asset, and so does an image
    /// that cannot be fetched, that has no bytes, whose place is unknown,
    /// or that cannot be written.
    pub open spec fn decide(self, response: Response) -> Option<Decision> {
        let plan = self.plan;
        let g = self.cursor.game_index;
        let a = self.cursor.asset_index;
        match (self.cursor.phase, response) {
            (PhaseView::Resolving { by_name }, Response::SearchHits(Ok(hits))) => Some(
                if hits@.len() > 0 {
                    Decision::Resolved { remote_id: hits@[0].id }
                } else if by_name {
                    Decision::SearchBySlug
                } else {
                    Decision::FailGame { message: spec_not_found() }
                },
            ),
            (PhaseView::Resolving { .. }, Response::SearchHits(Err(error))) => Some(
                Decision::FailGame { message: spec_search_error(error@) },
            ),
            (PhaseView::CheckingExisting { .. }, Response::Exists(present)) => Some(
                if present {
                    Decision::EndAsset { status: StatusView::Skipped(spec_already_exists()) }
                } else {
                    Decision::StartListing
                },
            ),
            (PhaseView::Listing { by_platform, .. }, Response::Assets(Ok(candidates))) => Some(
                if by_platform && candidates@.len() == 0 {
                    Decision::ListById
                } else {
                    match first_passing(candidates@, plan.nsfw_filter, plan.humor_filter) {
                        Some(chosen) => Decision::Fetch { url: candidates@[chosen].url@ },
                        None => Decision::EndAsset { status: StatusView::Failed(spec_no_art()) },
                    }
                },
            ),
            (PhaseView::Listing { .. }, Response::Assets(Err(error))) => Some(
                Decision::EndAsset { status: StatusView::Failed(spec_fetch_error(error@)) },
            ),
            (PhaseView::Fetching { .. }, Response::Image(Ok(bytes))) => Some(
                if bytes@.len() == 0 {
                    Decision::EndAsset { status: StatusView::Failed(spec_empty_payload()) }
                } else {
                    match plan.asset_path(g, a) {
                        Ok(target) => Decision::Write { target, bytes: bytes@ },
                        Err(error) => Decision::EndAsset {
                            status: StatusView::Failed(error.spec_message()),
                        },
                    }
                },
            ),
            (PhaseView::Fetching { .. }, Response::Image(Err(error))) => Some(
                Decision::EndAsset { status: StatusView::Failed(spec_download_error(error@)) },
            ),
            (PhaseView::Persisting { target, .. }, Response::Persisted(Ok(_))) => Some(
                Decision::EndAsset { status: StatusView::Done(target) },
            ),
            (PhaseView::Persisting { .. }, Response::Persisted(Err(error))) => Some(
                Decision::EndAsset { status: StatusView::Failed(error.spec_message()) },
            ),
            _ => None,
        }
    }

    /// Whether `decision` can be made where the run stands: a game is
    /// resolved or given up while it is searched; an asset is skipped only
    /// when asked about, fails only once something was fetched for it, and
    /// is stored only when written, at the place where it was written; the
    /// run falls back to the catalogue's identifier only from the
    /// platform's listing; and what is written goes to the path of the
    /// asset and has bytes.
    pub open spec fn admits(self, decision: Decision) -> bool {
        match decision {
            Decision::Resolved { .. } | Decision::FailGame { .. } => self.cursor.phase
                is Resolving,
            Decision::SearchBySlug => self.cursor.phase == (PhaseView::Resolving {
                by_name: true,
            }),
            Decision::EndAsset { status } => match self.cursor.phase {
                PhaseView::CheckingExisting { .. } => status is Skipped,
                PhaseView::Listing { .. } | PhaseView::Fetching { .. } => status is Failed,
                PhaseView::Persisting { target, .. } => status is Failed || status
                    == StatusView::Done(target),
                _ => false,
            },
            Decision::StartListing => self.cursor.phase is CheckingExisting,
            Decision::ListById => self.cursor.phase matches PhaseView::Listing {
                by_platform: true,
                ..
            },
            Decision::Fetch { .. } => self.cursor.phase is Listing,
            Decision::Write { target, bytes } => {
                &&& self.cursor.phase is Fetching
                &&& bytes.len() > 0
                &&& self.plan.asset_path(self.cursor.game_index, self.cursor.asset_index) == Ok::<
                    Seq<char>,
                    PathError,
                >(target)
            },
        }
    }

    /// What carrying out `decision` does.
    pub open spec fn carry_out(self, decision: Decision) -> Outcome {
        let plan = self.plan;
        let g = self.cursor.game_index;
        let a = self.cursor.asset_index;
        let remote_id = self.remote_id();
        match decision {
            Decision::Resolved { remote_id } => plan.enter_asset(g, 0, remote_id),
            Decision::SearchBySlug => Outcome {
                cursor: CursorView {
                    game_index: g,
                    asset_index: 0,
                    phase: PhaseView::Resolving { by_name: false },
                },
                events: Seq::empty(),
                request: Some(RequestView::Search { term: plan.slug_term(g) }),
            },
            Decision::FailGame { message } => plan.fail_game(g, message),
            Decision::EndAsset { status } => plan.finish_asset(g, a, remote_id, status),
            Decision::StartListing => plan.start_listing(g, a, remote_id),
            Decision::ListById => Outcome {
                cursor: CursorView {
                    game_index: g,
                    asset_index: a,
                    phase: PhaseView::Listing { remote_id, by_platform: false },
                },
                events: Seq::empty(),
                request: Some(plan.by_id_request(a, remote_id)),
            },
            Decision::Fetch { url } => Outcome {
                cursor: CursorView {
                    game_index: g,
                    asset_index: a,
                    phase: PhaseView::Fetching { remote_id },
                },
                events: Seq::empty(),
                request: Some(RequestView::Download { url }),
            },
            Decision::Write { target, bytes } => Outcome {
                cursor: CursorView {
                    game_index: g,
                    asset_index: a,
                    phase: PhaseView::Persisting { remote_id, target },
                },
                events: Seq::empty(),
                request: Some(RequestView::Persist { plan: spec_persist_plan(target), bytes }),
            },
        }
    }
}

/// The whole behaviour of a run: what it does on the answer `response`,
/// which is to carry out what it makes of the answer. `None` means that
/// `response` does not answer the request that the run is waiting for.
pub open spec fn spec_step(run: RunView, response: Response) -> Option<Outcome> {
    match run.decide(response) {
        Some(decision) => Some(run.carry_out(decision)),
        None => None,
    }
}

/// A run makes only decisions that can be made where it stands, and makes
/// one exactly of the answers that it expects.
pub proof fn lemma_decision_is_admitted(run: RunView, response: Response)
    requires
        run.wf(),
    ensures
        run.decide(response) matches Some(decision) ==> run.admits(decision),
        run.decide(response) is Some <==> run.expects(response),
{
}

// ---------------------------------------------------------------------------
// Why a run cannot start
// ---------------------------------------------------------------------------

/// Why a run was not started.
#[derive(Debug, Clone, Copy, PartialEq, Eq, Structural)]
pub enum StartError {
    /// No category is selected.
    NoAssetTypes,
}

impl StartError {
    /// The text shown for this error.
    pub open spec fn spec_message(self) -> Seq<char> {
        "No asset types selected"@
    }

    /// The text shown for this error.
    pub fn message(&self) -> (text: &'static str)
        ensures
            text@ == self.spec_message(),
    {
        "No asset types selected"
    }
}

// ---------------------------------------------------------------------------
// The run
// ---------------------------------------------------------------------------

/// The inputs of a run.
struct Inputs {
    games: Vec<Game>,
    assets: Vec<AssetType>,
    opts: DownloadOpts,
    data_dir: Option<String>,
    width: usize,
}

/// The position of a run.
struct Cursor {
    game_index: usize,
    asset_index: usize,
    phase: Phase,
}

/// One run of the pipeline over a list of games and a selection of
/// categories.
pub struct Run {
    inputs: Inputs,
    cursor: Cursor,
}

/// The plan made of the inputs of a run.
pub open spec fn plan_of(
    games: Seq<Game>,
    assets: Seq<AssetType>,
    opts: DownloadOpts,
    data_dir: Option<Seq<char>>,
    width: usize,
) -> PlanView {
    PlanView {
        games,
        assets,
        grid_dim: opts.grid_dim@,
        nsfw_filter: opts.nsfw_filter,
        humor_filter: opts.humor_filter,
        force: opts.force,
        data_dir,
        width,
    }
}

impl View for Inputs {
    type V = PlanView;

    closed spec fn view(&self) -> PlanView {
        plan_of(self.games@, self.assets@, self.opts, text_view(self.data_dir), self.width)
    }
}

impl View for Cursor {
    type V = CursorView;

    closed spec fn view(&self) -> CursorView {
        CursorView {
            game_index: self.game_index as int,
            asset_index: self.asset_index as int,
            phase: self.phase@,
        }
    }
}

impl View for Run {
    type V = RunView;

    closed spec fn view(&self) -> RunView {
        RunView { plan: self.inputs@, cursor: self.cursor@ }
    }
}

/// Whether a cursor and a step, together with the events handed out before,
/// are what `outcome` says.
spec fn delivers(prior: Seq<ProgressView>, cursor: Cursor, step: Step, outcome: Outcome) -> bool {
    &&& cursor@ == outcome.cursor
    &&& progress_views(step.events@) == prior + outcome.events
    &&& request_view(step.request) == outcome.request
}

impl Inputs {
    /// Appends the event that tells `status` of category `a` of game `g`.
    fn push_event(
        &self,
        events: &mut Vec<DownloadProgress>,
        g: usize,
        a: usize,
        status: DownloadStatus,
    )
        requires
            g < self.games.len(),
            a < self.assets.len(),
        ensures
            progress_views(final(events)@) == progress_views(old(events)@).push(
                self@.event(g as int, a as int, status@),
            ),
    {
        let event = DownloadProgress {
            game_slug: self.games[g].slug.clone(),
            asset_type: self.assets[a],
            status,
        };
        events.push(event);
        assert(progress_views(events@) =~= progress_views(old(events)@).push(event@));
    }

    /// Appends one event for each selected category of game `g`, all
    /// telling `status`.
    fn push_for_all(&self, events: &mut Vec<DownloadProgress>, g: usize, status: &DownloadStatus)
        requires
            g < self.games.len(),
        ensures
            progress_views(final(events)@) == progress_views(old(events)@)
                + self@.events_for_all(g as int, status@),
    {
        let mut a: usize = 0;
        while a < self.assets.len()
            invariant
                a <= self.assets.len(),
                g < self.games.len(),
                progress_views(events@) == progress_views(old(events)@) + self@.events_for_all(
                    g as int,
                    status@,
                ).take(a as int),
            decreases self.assets.len() - a,
        {
            self.push_event(events, g, a, status.clone());
            assert(self@.events_for_all(g as int, status@).take(a + 1) =~= self@.events_for_all(
                g as int,
                status@,
            ).take(a as int).push(self@.event(g as int, a as int, status@)));
            assert(progress_views(events@) =~= progress_views(old(events)@)
                + self@.events_for_all(g as int, status@).take(a + 1));
            a = a + 1;
        }
        assert(self@.events_for_all(g as int, status@).take(a as int) =~= self@.events_for_all(
            g as int,
            status@,
        ));
    }

    /// Path at which category `a` of game `g` is stored.
    fn asset_path(&self, g: usize, a: usize) -> (path: Result<String, PathError>)
        requires
            g < self.games.len(),
            a < self.assets.len(),
        ensures
            match self@.asset_path(g as int, a as int) {
                Ok(found) => path is Ok && path->Ok_0@ == found,
                Err(error) => path == Err::<String, PathError>(error),
            },
    {
        match &self.data_dir {
            Some(dir) => Ok(
                asset_path_in(dir.as_str(), self.assets[a], self.games[g].slug.as_str()),
            ),
            None => Err(PathError::NoDataDir),
        }
    }

    /// The size restriction of a listing of category `a`.
    fn dimensions(&self, a: usize) -> (dimensions: Option<String>)
        requires
            a < self.assets.len(),
        ensures
            text_view(dimensions) == self@.dimensions(a as int),
    {
        if self.assets[a] == AssetType::Grid {
            Some(self.opts.grid_dim.clone())
        } else {
            None
        }
    }

    /// The request for the candidates of category `a` under the
    /// catalogue's identifier of the game.
    fn by_id_request(&self, a: usize, remote_id: u64) -> (request: Request)
        requires
            a < self.assets.len(),
        ensures
            request@ == self@.by_id_request(a as int, remote_id),
    {
        Request::ListById {
            asset_type: self.assets[a],
            game_id: remote_id,
            dimensions: self.dimensions(a),
        }
    }

    /// The first listing request for category `a` of game `g`.
    fn listing_request(&self, g: usize, a: usize, remote_id: u64) -> (request: Request)
        requires
            g < self.games.len(),
            a < self.assets.len(),
        ensures
            request@ == self@.listing_request(g as int, a as int, remote_id),
    {
        match self.games[g].platform_id() {
            Some(platform_id) => Request::ListByPlatform {
                asset_type: self.assets[a],
                platform: primary_service().to_owned(),
                platform_id: platform_id.clone(),
                dimensions: self.dimensions(a),
            },
            None => self.by_id_request(a, remote_id),
        }
    }

    /// Turns to game `g`.
    fn enter_game(&self, g: usize, events: Vec<DownloadProgress>) -> (out: (Cursor, Step))
        requires
            g <= self.games.len(),
        ensures
            delivers(progress_views(events@), out.0, out.1, self@.enter_game(g as int)),
    {
        let mut events = events;
        if g >= self.games.len() {
            (
                Cursor { game_index: self.games.len(), asset_index: 0, phase: Phase::Complete },
                Step { events, request: None },
            )
        } else {
            let searching = DownloadStatus::Searching;
            self.push_for_all(&mut events, g, &searching);
            let game = &self.games[g];
            let by_name = game.platform_id().is_some();
            let term = if by_name {
                game.name.clone()
            } else {
                dashes_to_spaces(game.slug.as_str())
            };
            (
                Cursor { game_index: g, asset_index: 0, phase: Phase::Resolving { by_name } },
                Step { events, request: Some(Request::Search { term }) },
            )
        }
    }

    /// Starts to fetch category `a` of game `g`.
    fn start_listing(&self, g: usize, a: usize, remote_id: u64, events: Vec<DownloadProgress>)
        -> (out: (Cursor, Step))
        requires
            g < self.games.len(),
            a < self.assets.len(),
        ensures
            delivers(
                progress_views(events@),
                out.0,
                out.1,
                self@.start_listing(g as int, a as int, remote_id),
            ),
    {
        let mut events = events;
        let ghost prior = progress_views(events@);
        self.push_event(&mut events, g, a, DownloadStatus::Downloading);
        let request = self.listing_request(g, a, remote_id);
        assert(prior.push(self@.event(g as int, a as int, StatusView::Downloading)) =~= prior
            + self@.start_listing(g as int, a as int, remote_id).events);
        let by_platform = self.games[g].platform_id().is_some();
        (
            Cursor {
                game_index: g,
                asset_index: a,
                phase: Phase::Listing { remote_id, by_platform },
            },
            Step { events, request: Some(request) },
        )
    }

    /// Turns to category `a` of game `g`.
    fn enter_asset(&self, g: usize, a: usize, remote_id: u64, events: Vec<DownloadProgress>)
        -> (out: (Cursor, Step))
        requires
            g < self.games.len(),
            a <= self.assets.len(),
        ensures
            delivers(
                progress_views(events@),
                out.0,
                out.1,
                self@.enter_asset(g as int, a as int, remote_id),
            ),
    {
        if a >= self.assets.len() {
            self.enter_game(g + 1, events)
        } else if self.opts.force {
            self.start_listing(g, a, remote_id, events)
        } else {
            match self.asset_path(g, a) {
                Ok(path) => {
                    assert(progress_views(events@) + Seq::<ProgressView>::empty()
                        =~= progress_views(events@));
                    (
                        Cursor {
                            game_index: g,
                            asset_index: a,
                            phase: Phase::CheckingExisting { remote_id },
                        },
                        Step { events, request: Some(Request::CheckExists { path }) },
                    )
                },
                Err(_) => self.start_listing(g, a, remote_id, events),
            }
        }
    }

    /// Ends category `a` of game `g` with the terminal outcome `status`.
    fn finish_asset(
        &self,
        g: usize,
        a: usize,
        remote_id: u64,
        status: DownloadStatus,
        events: Vec<DownloadProgress>,
    ) -> (out: (Cursor, Step))
        requires
            g < self.games.len(),
            a < self.assets.len(),
        ensures
            delivers(
                progress_views(events@),
                out.0,
                out.1,
                self@.finish_asset(g as int, a as int, remote_id, status@),
            ),
    {
        let mut events = events;
        let ghost prior = progress_views(events@);
        self.push_event(&mut events, g, a, status);
        let out = self.enter_asset(g, a + 1, remote_id, events);
        assert(prior.push(self@.event(g as int, a as int, status@)) + self@.enter_asset(
            g as int,
            a + 1,
            remote_id,
        ).events =~= prior + self@.finish_asset(g as int, a as int, remote_id, status@).events);
        out
    }

    /// Gives up game `g` with `message`.
    fn fail_game(&self, g: usize, message: String, events: Vec<DownloadProgress>) -> (out: (
        Cursor,
        Step,
    ))
        requires
            g < self.games.len(),
        ensures
            delivers(
                progress_views(events@),
                out.0,
                out.1,
                self@.fail_game(g as int, message@),
            ),
    {
        let mut events = events;
        let ghost prior = progress_views(events@);
        let failed = DownloadStatus::Failed(message);
        self.push_for_all(&mut events, g, &failed);
        let out = self.enter_game(g + 1, events);
        assert((prior + self@.events_for_all(g as int, failed@)) + self@.enter_game(
            g + 1,
        ).events =~= prior + self@.fail_game(g as int, message@).events);
        out
    }
}

impl Run {
    #[verifier::type_invariant]
    spec fn inv(self) -> bool {
        self@.wf()
    }

    /// Starts a run. There is no run without a selected category:
    /// `NoAssetTypes` is returned if and only if `assets` is empty.
    /// Otherwise the run and its first step are what `PlanView::start` says
    /// of the inputs: without games the run is complete at once and hands
    /// out nothing.
    pub fn start(
        games: Vec<Game>,
        assets: &AssetSelection,
        opts: DownloadOpts,
        data_dir: Option<String>,
        max_concurrent: usize,
    ) -> (started: Result<(Run, Step), StartError>)
        ensures
            assets.spec_len() == 0 ==> started == Err::<(Run, Step), StartError>(
                StartError::NoAssetTypes,
            ),
            assets.spec_len() > 0 ==> started is Ok && ({
                let plan = plan_of(
                    games@,
                    assets.to_seq(),
                    opts,
                    text_view(data_dir),
                    max_concurrent,
                );
                let (run, step) = started->Ok_0;
                &&& run@ == RunView { plan, cursor: plan.start().cursor }
                &&& run@.wf()
                &&& progress_views(step.events@) == plan.start().events
                &&& request_view(step.request) == plan.start().request
            }),
    {
        if assets.is_empty() {
            return Err(StartError::NoAssetTypes);
        }
        proof {
            assets.lemma_to_seq();
        }
        let inputs = Inputs {
            games,
            assets: assets.to_vec(),
            opts,
            data_dir,
            width: max_concurrent,
        };
        let events: Vec<DownloadProgress> = Vec::new();
        assert(progress_views(events@) =~= Seq::<ProgressView>::empty());
        let (cursor, step) = if inputs.games.len() > 0 && max_concurrent == 0 {
            (
                Cursor { game_index: 0, asset_index: 0, phase: Phase::Stalled },
                Step { events, request: None },
            )
        } else {
            inputs.enter_game(0, events)
        };
        assert(progress_views(step.events@) =~= inputs@.start().events);
        Ok((Run { inputs, cursor }, step))
    }

    /// Whether every game has been dealt with.
    pub fn is_complete(&self) -> (complete: bool)
        ensures
            complete == (self@.cursor.phase is Complete),
    {
        match self.cursor.phase {
            Phase::Complete => true,
            _ => false,
        }
    }

    /// Whether the run stalls because its width admits no game.
    pub fn is_stalled(&self) -> (stalled: bool)
        ensures
            stalled == (self@.cursor.phase is Stalled),
    {
        match self.cursor.phase {
            Phase::Stalled => true,
            _ => false,
        }
    }

    /// Number of games of the run.
    pub fn game_count(&self) -> (count: usize)
        ensures
            count == self@.plan.games.len(),
    {
        self.inputs.games.len()
    }

    /// Number of selected categories of the run.
    pub fn asset_count(&self) -> (count: usize)
        ensures
            count == self@.plan.assets.len(),
            count > 0,
    {
        proof {
            use_type_invariant(self);
        }
        self.inputs.assets.len()
    }

    /// Number of terminal events that the whole run hands out: one for each
    /// pair of a game and a selected category. `None` where that number is
    /// beyond `usize`.
    pub fn total_pairs(&self) -> (total: Option<usize>)
        ensures
            match total {
                Some(n) => n == self@.plan.games.len() * self@.plan.assets.len(),
                None => self@.plan.games.len() * self@.plan.assets.len() > usize::MAX,
            },
    {
        self.inputs.games.len().checked_mul(self.inputs.assets.len())
    }

    /// Whether `response` answers the request that the run is waiting for.
    pub fn expects(&self, response: &Response) -> (expected: bool)
        ensures
            expected == self@.expects(*response),
            expected == (spec_step(self@, *response) is Some),
    {
        match (&self.cursor.phase, response) {
            (Phase::Resolving { .. }, Response::SearchHits(_)) => true,
            (Phase::CheckingExisting { .. }, Response::Exists(_)) => true,
            (Phase::Listing { .. }, Response::Assets(_)) => true,
            (Phase::Fetching { .. }, Response::Image(_)) => true,
            (Phase::Persisting { .. }, Response::Persisted(_)) => true,
            _ => false,
        }
    }

    /// Takes the answer to the pending request and does what `spec_step`
    /// says: the run moves on, and the events that became due and the next
    /// request are handed out. An answer to another request than the
    /// pending one is refused: the run stays as it is and hands out
    /// nothing.
    pub fn step(self, response: Response) -> (next: (Run, Option<Step>))
        ensures
            next.0@.wf(),
            match spec_step(self@, response) {
                Some(outcome) => {
                    &&& next.0@ == self@.after(outcome)
                    &&& next.1 is Some
                    &&& progress_views(next.1->0.events@) == outcome.events
                    &&& request_view(next.1->0.request) == outcome.request
                },
                None => next.0@ == self@ && next.1 is None,
            },
    {
        proof {
            use_type_invariant(&self);
        }
        let Run { inputs, cursor } = self;
        let Cursor { game_index: g, asset_index: a, phase } = cursor;
        let events: Vec<DownloadProgress> = Vec::new();
        assert(progress_views(events@) =~= Seq::<ProgressView>::empty());
        let ghost none = Seq::<ProgressView>::empty();
        let (cursor, step): (Cursor, Option<Step>) = match phase {
            Phase::Resolving { by_name } => match response {
                Response::SearchHits(Ok(hits)) => {
                    if hits.len() > 0 {
                        let remote_id = hits[0].id;
                        let (cursor, step) = inputs.enter_asset(g, 0, remote_id, events);
                        (cursor, Some(step))
                    } else if by_name {
                        let term = dashes_to_spaces(inputs.games[g].slug.as_str());
                        (
                            Cursor {
                                game_index: g,
                                asset_index: 0,
                                phase: Phase::Resolving { by_name: false },
                            },
                            Some(Step { events, request: Some(Request::Search { term }) }),
                        )
                    } else {
                        let (cursor, step) = inputs.fail_game(
                            g,
                            "game not found on `SteamGridDB`".to_owned(),
                            events,
                        );
                        (cursor, Some(step))
                    }
                },
                Response::SearchHits(Err(error)) => {
                    let text = error.message();
                    let message = concat2("search error: ", text.as_str());
                    let (cursor, step) = inputs.fail_game(g, message, events);
                    (cursor, Some(step))
                },
                _ => (
                    Cursor { game_index: g, asset_index: a, phase: Phase::Resolving { by_name } },
                    None,
                ),
            },
            Phase::CheckingExisting { remote_id } => match response {
                Response::Exists(present) => {
                    let (cursor, step) = if present {
                        inputs.finish_asset(
                            g,
                            a,
                            remote_id,
                            DownloadStatus::Skipped("already exists".to_owned()),
                            events,
                        )
                    } else {
                        inputs.start_listing(g, a, remote_id, events)
                    };
                    (cursor, Some(step))
                },
                _ => (
                    Cursor {
                        game_index: g,
                        asset_index: a,
                        phase: Phase::CheckingExisting { remote_id },
                    },
                    None,
                ),
            },
            Phase::Listing { remote_id, by_platform } => match response {
                Response::Assets(Ok(candidates)) => if by_platform && candidates.len() == 0 {
                    let request = inputs.by_id_request(a, remote_id);
                    (
                        Cursor {
                            game_index: g,
                            asset_index: a,
                            phase: Phase::Listing { remote_id, by_platform: false },
                        },
                        Some(Step { events, request: Some(request) }),
                    )
                } else {
                    let chosen = filter_assets(
                        candidates.as_slice(),
                        inputs.opts.nsfw_filter,
                        inputs.opts.humor_filter,
                    );
                    match chosen {
                        Some(candidate) => {
                            let url = candidate.url.clone();
                            (
                                Cursor {
                                    game_index: g,
                                    asset_index: a,
                                    phase: Phase::Fetching { remote_id },
                                },
                                Some(Step { events, request: Some(Request::Download { url }) }),
                            )
                        },
                        None => {
                            let (cursor, step) = inputs.finish_asset(
                                g,
                                a,
                                remote_id,
                                DownloadStatus::Failed("no art found".to_owned()),
                                events,
                            );
                            (cursor, Some(step))
                        },
                    }
                },
                Response::Assets(Err(error)) => {
                    let text = error.message();
                    let message = concat2("fetch error: ", text.as_str());
                    let (cursor, step) = inputs.finish_asset(
                        g,
                        a,
                        remote_id,
                        DownloadStatus::Failed(message),
                        events,
                    );
                    (cursor, Some(step))
                },
                _ => (
                    Cursor {
                        game_index: g,
                        asset_index: a,
                        phase: Phase::Listing { remote_id, by_platform },
                    },
                    None,
                ),
            },
            Phase::Fetching { remote_id } => match response {
                Response::Image(Ok(bytes)) => {
                    if bytes.len() == 0 {
                        let (cursor, step) = inputs.finish_asset(
                            g,
                            a,
                            remote_id,
                            DownloadStatus::Failed("downloaded 0 bytes".to_owned()),
                            events,
                        );
                        (cursor, Some(step))
                    } else {
                        match inputs.asset_path(g, a) {
                            Ok(target) => {
                                let plan = persist_plan(target.clone());
                                (
                                    Cursor {
                                        game_index: g,
                                        asset_index: a,
                                        phase: Phase::Persisting { remote_id, target },
                                    },
                                    Some(
                                        Step {
                                            events,
                                            request: Some(Request::Persist { plan, bytes }),
                                        },
                                    ),
                                )
                            },
                            Err(error) => {
                                let (cursor, step) = inputs.finish_asset(
                                    g,
                                    a,
                                    remote_id,
                                    DownloadStatus::Failed(error.message()),
                                    events,
                                );
                                (cursor, Some(step))
                            },
                        }
                    }
                },
                Response::Image(Err(error)) => {
                    let text = error.message();
                    let message = concat2("download error: ", text.as_str());
                    let (cursor, step) = inputs.finish_asset(
                        g,
                        a,
                        remote_id,
                        DownloadStatus::Failed(message),
                        events,
                    );
                    (cursor, Some(step))
                },
                _ => (
                    Cursor { game_index: g, asset_index: a, phase: Phase::Fetching { remote_id } },
                    None,
                ),
            },
            Phase::Persisting { remote_id, target } => match response {
                Response::Persisted(Ok(_)) => {
                    let (cursor, step) = inputs.finish_asset(
                        g,
                        a,
                        remote_id,
                        DownloadStatus::Done(target),
                        events,
                    );
                    (cursor, Some(step))
                },
                Response::Persisted(Err(error)) => {
                    let (cursor, step) = inputs.finish_asset(
                        g,
                        a,
                        remote_id,
                        DownloadStatus::Failed(error.message().to_owned()),
                        events,
                    );
                    (cursor, Some(step))
                },
                _ => (
                    Cursor {
                        game_index: g,
                        asset_index: a,
                        phase: Phase::Persisting { remote_id, target },
                    },
                    None,
                ),
            },
            Phase::Stalled => (Cursor { game_index: g, asset_index: a, phase: Phase::Stalled }, None),
            Phase::Complete => (
                Cursor { game_index: g, asset_index: a, phase: Phase::Complete },
                None,
            ),
        };
        proof {
            lemma_step_keeps_wf(self@, response);
            if let Some(outcome) = spec_step(self@, response) {
                assert(none + outcome.events =~= outcome.events);
            }
        }
        (Run { inputs, cursor }, step)
    }
}

/// Starts a run over the user's data directory as the present environment
/// names it. The run and its first step are those of `Run::start` for that
/// directory, known or not.
pub fn download_all(
    games: Vec<Game>,
    assets: &AssetSelection,
    opts: DownloadOpts,
    max_concurrent: usize,
) -> (started: Result<(Run, Step), StartError>)
    ensures
        assets.spec_len() == 0 ==> started == Err::<(Run, Step), StartError>(
            StartError::NoAssetTypes,
        ),
        assets.spec_len() > 0 ==> started is Ok && exists|data_dir: Option<Seq<char>>|
            {
                let plan = #[trigger] plan_of(
                    games@,
                    assets.to_seq(),
                    opts,
                    data_dir,
                    max_concurrent,
                );
                let (run, step) = started->Ok_0;
                &&& run@ == RunView { plan, cursor: plan.start().cursor }
                &&& run@.wf()
                &&& progress_views(step.events@) == plan.start().events
                &&& request_view(step.request) == plan.start().request
            },
{
    let found = match data_dir() {
        Ok(dir) => Some(dir),
        Err(_) => None,
    };
    let ghost known = text_view(found);
    let started = Run::start(games, assets, opts, found, max_concurrent);
    proof {
        if assets.spec_len() > 0 {
            let plan = plan_of(games@, assets.to_seq(), opts, known, max_concurrent);
            let (run, step) = started->Ok_0;
            assert(run@ == RunView { plan, cursor: plan.start().cursor });
        }
    }
    started
}

// ---------------------------------------------------------------------------
// Well-formedness is kept
// ---------------------------------------------------------------------------

/// Turning to a game leaves a well-formed run.
pub proof fn lemma_enter_game_wf(plan: PlanView, g: int)
    requires
        plan.wf(),
        plan.width > 0 || g == plan.games.len(),
        0 <= g <= plan.games.len(),
    ensures
        (RunView { plan, cursor: plan.enter_game(g).cursor }).wf(),
{
}

/// Turning to a category leaves a well-formed run.
pub proof fn lemma_enter_asset_wf(plan: PlanView, g: int, a: int, remote_id: u64)
    requires
        plan.wf(),
        plan.width > 0,
        0 <= g < plan.games.len(),
        0 <= a <= plan.assets.len(),
    ensures
        (RunView { plan, cursor: plan.enter_asset(g, a, remote_id).cursor }).wf(),
{
    lemma_enter_game_wf(plan, g + 1);
}

/// Carrying out a decision that can be made leaves a well-formed run well
/// formed.
pub proof fn lemma_carry_out_keeps_wf(run: RunView, decision: Decision)
    requires
        run.wf(),
        run.admits(decision),
    ensures
        run.after(run.carry_out(decision)).wf(),
{
    let plan = run.plan;
    let g = run.cursor.game_index;
    let a = run.cursor.asset_index;
    match decision {
        Decision::Resolved { remote_id } => {
            lemma_enter_asset_wf(plan, g, 0, remote_id);
        },
        Decision::FailGame { .. } => {
            lemma_enter_game_wf(plan, g + 1);
        },
        Decision::EndAsset { .. } => {
            lemma_enter_asset_wf(plan, g, a + 1, run.remote_id());
        },
        _ => {},
    }
}

/// A step leaves a well-formed run well formed.
pub proof fn lemma_step_keeps_wf(run: RunView, response: Response)
    requires
        run.wf(),
    ensures
        spec_step(run, response) matches Some(outcome) ==> run.after(outcome).wf(),
{
    lemma_decision_is_admitted(run, response);
    if let Some(decision) = run.decide(response) {
        lemma_carry_out_keeps_wf(run, decision);
    }
}

} // verus!
