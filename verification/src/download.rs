//! The building blocks of the acquisition pipeline: the per-game record of
//! outcomes, where an asset is stored, how a candidate is chosen, and how a
//! fetched image is to be written.

use crate::api::models::{AssetType, DownloadStatus, ImageAsset, StatusView};
use crate::config::{
    data_dir, lutris_asset_dir_in, lutris_icon_dir_in, path_view, spec_lutris_asset_dir_in,
    spec_lutris_icon_dir_in, PathError,
};
use crate::db::Game;
use crate::paths::{join_path, joined_path, parent, parent_path, path_with_extension, with_extension};
use crate::selection::AssetSelection;
use crate::text::{concat2, concat3};
use vstd::prelude::*;

verus! {

// ---------------------------------------------------------------------------
// Per-game record
// ---------------------------------------------------------------------------

/// A game together with the outcome of each of its four categories.
#[derive(Debug)]
pub struct GameEntry {
    pub game: Game,
    pub grid_status: DownloadStatus,
    pub hero_status: DownloadStatus,
    pub logo_status: DownloadStatus,
    pub icon_status: DownloadStatus,
    /// The catalogue's identifier of the game, once it has been resolved.
    pub steamgriddb_id: Option<u64>,
}

/// Mathematical value of a `GameEntry`.
pub struct EntryView {
    pub game: Game,
    pub grid_status: StatusView,
    pub hero_status: StatusView,
    pub logo_status: StatusView,
    pub icon_status: StatusView,
    pub steamgriddb_id: Option<u64>,
}

impl EntryView {
    /// The outcome recorded for a category.
    pub open spec fn status(self, asset: AssetType) -> StatusView {
        match asset {
            AssetType::Grid => self.grid_status,
            AssetType::Hero => self.hero_status,
            AssetType::Logo => self.logo_status,
            AssetType::Icon => self.icon_status,
        }
    }

    /// This record with the outcome of one category replaced.
    pub open spec fn with_status(self, asset: AssetType, status: StatusView) -> EntryView {
        match asset {
            AssetType::Grid => EntryView { grid_status: status, ..self },
            AssetType::Hero => EntryView { hero_status: status, ..self },
            AssetType::Logo => EntryView { logo_status: status, ..self },
            AssetType::Icon => EntryView { icon_status: status, ..self },
        }
    }
}

impl View for GameEntry {
    type V = EntryView;

    open spec fn view(&self) -> EntryView {
        EntryView {
            game: self.game,
            grid_status: self.grid_status@,
            hero_status: self.hero_status@,
            logo_status: self.logo_status@,
            icon_status: self.icon_status@,
            steamgriddb_id: self.steamgriddb_id,
        }
    }
}

/// Mark of a game of which a category is still in progress.
pub open spec fn spec_mark_active() -> Seq<char> {
    "↓"@
}

/// Mark of a game of which a category failed.
pub open spec fn spec_mark_failed() -> Seq<char> {
    "✗"@
}

/// Mark of a game all of whose categories are stored or skipped.
pub open spec fn spec_mark_done() -> Seq<char> {
    "✓"@
}

/// Mark of a game that is waiting.
pub open spec fn spec_mark_pending() -> Seq<char> {
    "·"@
}

impl GameEntry {
    /// The outcome recorded for a category.
    pub open spec fn spec_status(&self, asset: AssetType) -> DownloadStatus {
        match asset {
            AssetType::Grid => self.grid_status,
            AssetType::Hero => self.hero_status,
            AssetType::Logo => self.logo_status,
            AssetType::Icon => self.icon_status,
        }
    }

    /// This record with the outcome of one category replaced.
    pub open spec fn with_status(self, asset: AssetType, status: DownloadStatus) -> GameEntry {
        match asset {
            AssetType::Grid => GameEntry { grid_status: status, ..self },
            AssetType::Hero => GameEntry { hero_status: status, ..self },
            AssetType::Logo => GameEntry { logo_status: status, ..self },
            AssetType::Icon => GameEntry { icon_status: status, ..self },
        }
    }

    /// The record of a game on which no work was done yet: every category is
    /// pending and the catalogue's identifier unknown.
    pub fn new(game: Game) -> (entry: GameEntry)
        ensures
            entry.game == game,
            forall|asset: AssetType| entry.spec_status(asset)@ == StatusView::Pending,
            entry.steamgriddb_id is None,
    {
        GameEntry {
            game,
            grid_status: DownloadStatus::Pending,
            hero_status: DownloadStatus::Pending,
            logo_status: DownloadStatus::Pending,
            icon_status: DownloadStatus::Pending,
            steamgriddb_id: None,
        }
    }

    /// The place of a category's outcome, for writing.
    pub fn status_mut(&mut self, asset: AssetType) -> (status: &mut DownloadStatus)
        ensures
            *status == old(self).spec_status(asset),
            *final(self) == old(self).with_status(asset, *final(status)),
    {
        match asset {
            AssetType::Grid => &mut self.grid_status,
            AssetType::Hero => &mut self.hero_status,
            AssetType::Logo => &mut self.logo_status,
            AssetType::Icon => &mut self.icon_status,
        }
    }

    /// The outcome recorded for a category.
    pub fn status(&self, asset: AssetType) -> (status: &DownloadStatus)
        ensures
            *status == self.spec_status(asset),
    {
        match asset {
            AssetType::Grid => &self.grid_status,
            AssetType::Hero => &self.hero_status,
            AssetType::Logo => &self.logo_status,
            AssetType::Icon => &self.icon_status,
        }
    }

    /// Whether the outcome of `asset` counts as work in progress.
    pub open spec fn in_progress(&self, asset: AssetType) -> bool {
        self.spec_status(asset)@ is Downloading || self.spec_status(asset)@ is Searching
    }

    /// Whether the outcome of `asset` is stored or skipped.
    pub open spec fn settled(&self, asset: AssetType) -> bool {
        self.spec_status(asset)@ is Done || self.spec_status(asset)@ is Skipped
    }

    /// The one mark that stands for the game, judged by the categories in
    /// `active` alone: in progress if any of them is being searched or
    /// fetched; else failed if any of them failed; else done if all of them
    /// are stored or skipped (so also where `active` is empty); else
    /// pending.
    pub open spec fn spec_overall_icon(&self, active: AssetSelection) -> Seq<char> {
        if exists|asset: AssetType| active.spec_contains(asset) && self.in_progress(asset) {
            spec_mark_active()
        } else if exists|asset: AssetType|
            active.spec_contains(asset) && self.spec_status(asset)@ is Failed {
            spec_mark_failed()
        } else if forall|asset: AssetType| active.spec_contains(asset) ==> self.settled(asset) {
            spec_mark_done()
        } else {
            spec_mark_pending()
        }
    }

    /// The one mark that stands for the game, judged by the categories in
    /// `active` alone.
    pub fn overall_icon(&self, active_assets: &AssetSelection) -> (mark: &'static str)
        ensures
            mark@ == self.spec_overall_icon(*active_assets),
    {
        let kinds = AssetType::all();
        let mut any_active = false;
        let mut any_failed = false;
        let mut all_settled = true;
        let mut i: usize = 0;
        while i < 4
            invariant
                i <= 4,
                kinds@ == AssetType::spec_all(),
                any_active == exists|asset: AssetType|
                    asset.spec_index() < i && active_assets.spec_contains(asset)
                        && self.in_progress(asset),
                any_failed == exists|asset: AssetType|
                    asset.spec_index() < i && active_assets.spec_contains(asset)
                        && self.spec_status(asset)@ is Failed,
                all_settled == forall|asset: AssetType|
                    asset.spec_index() < i && active_assets.spec_contains(asset)
                        ==> self.settled(asset),
            decreases 4 - i,
        {
            let asset = kinds[i];
            assert(asset.spec_index() == i);
            if active_assets.contains(asset) {
                match self.status(asset) {
                    DownloadStatus::Downloading | DownloadStatus::Searching => {
                        any_active = true;
                        all_settled = false;
                    },
                    DownloadStatus::Failed(_) => {
                        any_failed = true;
                        all_settled = false;
                    },
                    DownloadStatus::Done(_) | DownloadStatus::Skipped(_) => {},
                    DownloadStatus::Pending => {
                        all_settled = false;
                    },
                }
            }
            i = i + 1;
        }
        if any_active {
            "↓"
        } else if any_failed {
            "✗"
        } else if all_settled {
            "✓"
        } else {
            "·"
        }
    }
}

// ---------------------------------------------------------------------------
// Where an asset is stored
// ---------------------------------------------------------------------------

/// Name of the file that holds an asset of a game: icons follow the naming
/// of the icon theme, all other categories are named by the slug alone.
pub open spec fn spec_asset_file_name(asset: AssetType, slug: Seq<char>) -> Seq<char> {
    if asset == AssetType::Icon {
        "lutris_"@ + slug + ".png"@
    } else {
        slug + ".jpg"@
    }
}

/// Path of the file that holds an asset of a game, below the user's data
/// directory: icons lie in the icon theme directory, every other category
/// in its own directory of Lutris.
pub open spec fn spec_asset_path_in(data_dir: Seq<char>, asset: AssetType, slug: Seq<char>) -> Seq<
    char,
> {
    if asset == AssetType::Icon {
        joined_path(spec_lutris_icon_dir_in(data_dir), spec_asset_file_name(asset, slug))
    } else {
        joined_path(
            spec_lutris_asset_dir_in(data_dir, asset.spec_lutris_subdir()),
            spec_asset_file_name(asset, slug),
        )
    }
}

/// Name of the file that holds an asset of a game.
pub fn asset_file_name(asset: AssetType, slug: &str) -> (name: String)
    ensures
        name@ == spec_asset_file_name(asset, slug@),
{
    if asset == AssetType::Icon {
        concat3("lutris_", slug, ".png")
    } else {
        concat2(slug, ".jpg")
    }
}

/// Path of the file that holds an asset of a game, below the user's data
/// directory.
pub fn asset_path_in(data_dir: &str, asset: AssetType, slug: &str) -> (path: String)
    ensures
        path@ == spec_asset_path_in(data_dir@, asset, slug@),
{
    let name = asset_file_name(asset, slug);
    if asset == AssetType::Icon {
        let dir = lutris_icon_dir_in(data_dir);
        join_path(dir.as_str(), name.as_str())
    } else {
        let dir = lutris_asset_dir_in(data_dir, asset.lutris_subdir());
        join_path(dir.as_str(), name.as_str())
    }
}

/// Path of the file that holds an asset of a game, where the user's data
/// directory may be unknown.
pub open spec fn spec_asset_path(data_dir: Option<Seq<char>>, asset: AssetType, slug: Seq<char>)
    -> Result<Seq<char>, PathError> {
    match data_dir {
        Some(dir) => Ok(spec_asset_path_in(dir, asset, slug)),
        None => Err(PathError::NoDataDir),
    }
}

/// Path of the file that holds an asset of a game, given the user's data
/// directory as far as it is known: the path below it, or the error of the
/// missing directory.
pub fn asset_path_from(data_dir: Result<String, PathError>, asset: AssetType, slug: &str) -> (path:
    Result<String, PathError>)
    ensures
        path_view(path) == match data_dir {
            Ok(base) => Ok::<Seq<char>, PathError>(spec_asset_path_in(base@, asset, slug@)),
            Err(error) => Err(error),
        },
{
    match data_dir {
        Ok(base) => Ok(asset_path_in(base.as_str(), asset, slug)),
        Err(error) => Err(error),
    }
}

/// Path of the file that holds an asset of a game in the present
/// environment: the path below some user data directory, or `NoDataDir`
/// where the environment names none.
pub fn asset_path(asset: AssetType, slug: &str) -> (path: Result<String, PathError>)
    ensures
        match path {
            Ok(found) => exists|data_dir: Seq<char>|
                found@ == #[trigger] spec_asset_path_in(data_dir, asset, slug@),
            Err(error) => error == PathError::NoDataDir,
        },
{
    let base = data_dir();
    let path = asset_path_from(base, asset, slug);
    proof {
        if path is Ok {
            assert(path->Ok_0@ == spec_asset_path_in(base->Ok_0@, asset, slug@));
        }
    }
    path
}

// ---------------------------------------------------------------------------
// Choosing a candidate
// ---------------------------------------------------------------------------

/// Whether a candidate passes the two content filters. The filters are
/// independent of each other.
pub open spec fn passes_filters(asset: ImageAsset, nsfw_filter: bool, humor_filter: bool) -> bool {
    (!nsfw_filter || !asset.nsfw) && (!humor_filter || !asset.humor)
}

/// Position of the first candidate from `start` on that passes the filters.
pub open spec fn first_passing_from(
    assets: Seq<ImageAsset>,
    nsfw_filter: bool,
    humor_filter: bool,
    start: int,
) -> Option<int>
    decreases assets.len() - start,
{
    if start < 0 || start >= assets.len() {
        None
    } else if passes_filters(assets[start], nsfw_filter, humor_filter) {
        Some(start)
    } else {
        first_passing_from(assets, nsfw_filter, humor_filter, start + 1)
    }
}

/// Position of the first candidate that passes the filters.
pub open spec fn first_passing(assets: Seq<ImageAsset>, nsfw_filter: bool, humor_filter: bool)
    -> Option<int> {
    first_passing_from(assets, nsfw_filter, humor_filter, 0)
}

/// `first_passing_from` finds a position from `start` on at which the
/// candidate passes and before which, from `start` on, none does; it finds
/// none only where no candidate from `start` on passes.
pub proof fn lemma_first_passing_from(
    assets: Seq<ImageAsset>,
    nsfw_filter: bool,
    humor_filter: bool,
    start: int,
)
    requires
        0 <= start,
    ensures
        match first_passing_from(assets, nsfw_filter, humor_filter, start) {
            Some(found) => {
                &&& start <= found < assets.len()
                &&& passes_filters(assets[found], nsfw_filter, humor_filter)
                &&& forall|j: int|
                    start <= j < found ==> !passes_filters(
                        #[trigger] assets[j],
                        nsfw_filter,
                        humor_filter,
                    )
            },
            None => forall|j: int|
                start <= j < assets.len() ==> !passes_filters(
                    #[trigger] assets[j],
                    nsfw_filter,
                    humor_filter,
                ),
        },
    decreases assets.len() - start,
{
    if start < assets.len() && !passes_filters(assets[start], nsfw_filter, humor_filter) {
        lemma_first_passing_from(assets, nsfw_filter, humor_filter, start + 1);
    }
}

/// The choice among candidates: the first one, in the order given, that
/// passes the filters; none if and only if no candidate passes.
pub proof fn lemma_first_passing(assets: Seq<ImageAsset>, nsfw_filter: bool, humor_filter: bool)
    ensures
        match first_passing(assets, nsfw_filter, humor_filter) {
            Some(found) => {
                &&& 0 <= found < assets.len()
                &&& passes_filters(assets[found], nsfw_filter, humor_filter)
                &&& forall|j: int|
                    0 <= j < found ==> !passes_filters(
                        #[trigger] assets[j],
                        nsfw_filter,
                        humor_filter,
                    )
            },
            None => forall|j: int|
                0 <= j < assets.len() ==> !passes_filters(
                    #[trigger] assets[j],
                    nsfw_filter,
                    humor_filter,
                ),
        },
{
    lemma_first_passing_from(assets, nsfw_filter, humor_filter, 0);
}

/// Chooses among the candidates of one listing: the first one, in the order
/// given, that passes the filters. There is no choice if and only if no
/// candidate passes.
pub fn filter_assets<'a>(assets: &'a [ImageAsset], nsfw_filter: bool, humor_filter: bool) -> (chosen:
    Option<&'a ImageAsset>)
    ensures
        match first_passing(assets@, nsfw_filter, humor_filter) {
            Some(found) => chosen == Some(&assets@[found]),
            None => chosen is None,
        },
        match chosen {
            Some(asset) => exists|found: int|
                0 <= found < assets@.len() && *asset == assets@[found] && passes_filters(
                    assets@[found],
                    nsfw_filter,
                    humor_filter,
                ) && forall|j: int|
                    0 <= j < found ==> !passes_filters(
                        #[trigger] assets@[j],
                        nsfw_filter,
                        humor_filter,
                    ),
            None => forall|j: int|
                0 <= j < assets@.len() ==> !passes_filters(
                    #[trigger] assets@[j],
                    nsfw_filter,
                    humor_filter,
                ),
        },
{
    let mut i: usize = 0;
    while i < assets.len()
        invariant
            i <= assets.len(),
            first_passing(assets@, nsfw_filter, humor_filter) == first_passing_from(
                assets@,
                nsfw_filter,
                humor_filter,
                i as int,
            ),
        decreases assets.len() - i,
    {
        let asset = &assets[i];
        if (!nsfw_filter || !asset.nsfw) && (!humor_filter || !asset.humor) {
            proof {
                lemma_first_passing(assets@, nsfw_filter, humor_filter);
            }
            return Some(asset);
        }
        i = i + 1;
    }
    proof {
        lemma_first_passing(assets@, nsfw_filter, humor_filter);
    }
    None
}

// ---------------------------------------------------------------------------
// Writing a fetched image
// ---------------------------------------------------------------------------

/// Options of one run, fixed when it starts.
#[derive(Debug)]
pub struct DownloadOpts {
    /// Wanted size of grid images.
    pub grid_dim: String,
    /// Whether images marked as not safe for work are passed over.
    pub nsfw_filter: bool,
    /// Whether images marked as humorous are passed over.
    pub humor_filter: bool,
    /// Whether assets that are already stored are fetched again.
    pub force: bool,
}

/// How a fetched image reaches its place without ever being seen half
/// written: the parent directory is made, the bytes are written to
/// `tmp_path` beside the target, and that file is renamed to `target`.
#[derive(Debug)]
pub struct PersistPlan {
    /// Directory to create first, with its ancestors, if the target has one.
    pub parent: Option<String>,
    /// File that takes the bytes.
    pub tmp_path: String,
    /// Final place of the file.
    pub target: String,
}

/// Mathematical value of a `PersistPlan`.
pub struct PersistPlanView {
    pub parent: Option<Seq<char>>,
    pub tmp_path: Seq<char>,
    pub target: Seq<char>,
}

impl View for PersistPlan {
    type V = PersistPlanView;

    open spec fn view(&self) -> PersistPlanView {
        PersistPlanView {
            parent: match self.parent {
                Some(dir) => Some(dir@),
                None => None,
            },
            tmp_path: self.tmp_path@,
            target: self.target@,
        }
    }
}

/// The plan for a target: its parent directory, and beside the target a
/// temporary file that differs from it in its extension, `tmp`.
pub open spec fn spec_persist_plan(target: Seq<char>) -> PersistPlanView {
    PersistPlanView {
        parent: parent_path(target),
        tmp_path: path_with_extension(target, "tmp"@),
        target,
    }
}

/// The plan for writing a fetched image to `target`.
pub fn persist_plan(target: String) -> (plan: PersistPlan)
    ensures
        plan@ == spec_persist_plan(target@),
{
    let dir = parent(target.as_str());
    proof {
        reveal_strlit("tmp");
    }
    let tmp_path = with_extension(target.as_str(), "tmp");
    PersistPlan { parent: dir, tmp_path, target }
}

/// The step of a `PersistPlan` that failed.
#[derive(Debug, Clone, Copy, PartialEq, Eq, Structural)]
pub enum StorageError {
    /// The parent directory could not be made.
    Mkdir,
    /// The temporary file could not be written.
    Write,
    /// The temporary file could not be renamed to the target.
    Rename,
}

impl StorageError {
    /// The text shown for this error.
    pub open spec fn spec_message(self) -> Seq<char> {
        match self {
            StorageError::Mkdir => "mkdir failed"@,
            StorageError::Write => "write failed"@,
            StorageError::Rename => "rename failed"@,
        }
    }

    /// The text shown for this error.
    pub fn message(&self) -> (text: &'static str)
        ensures
            text@ == self.spec_message(),
    {
        match self {
            StorageError::Mkdir => "mkdir failed",
            StorageError::Write => "write failed",
            StorageError::Rename => "rename failed",
        }
    }
}

// ---------------------------------------------------------------------------
// The steps of writing
// ---------------------------------------------------------------------------

/// One step of writing a fetched image.
#[derive(Debug)]
pub enum StorageStep {
    /// Make the directory, with its ancestors.
    MakeDir { dir: String },
    /// Write the bytes of the image to the file.
    WriteFile { path: String },
    /// Rename the file.
    Rename { from: String, to: String },
}

/// Mathematical value of a `StorageStep`.
pub enum StorageStepView {
    MakeDir { dir: Seq<char> },
    WriteFile { path: Seq<char> },
    Rename { from: Seq<char>, to: Seq<char> },
}

impl View for StorageStep {
    type V = StorageStepView;

    open spec fn view(&self) -> StorageStepView {
        match *self {
            StorageStep::MakeDir { dir } => StorageStepView::MakeDir { dir: dir@ },
            StorageStep::WriteFile { path } => StorageStepView::WriteFile { path: path@ },
            StorageStep::Rename { from, to } => StorageStepView::Rename { from: from@, to: to@ },
        }
    }
}

impl StorageStepView {
    /// The error of a writing in which this step failed.
    pub open spec fn failure(self) -> StorageError {
        match self {
            StorageStepView::MakeDir { .. } => StorageError::Mkdir,
            StorageStepView::WriteFile { .. } => StorageError::Write,
            StorageStepView::Rename { .. } => StorageError::Rename,
        }
    }
}

/// The values of a sequence of steps.
pub open spec fn step_views(steps: Seq<StorageStep>) -> Seq<StorageStepView> {
    steps.map_values(|step: StorageStep| step@)
}

/// The steps of a plan, in the order in which they are to be done: the
/// parent directory is made, if the target has one; the bytes are written
/// to the temporary file; and the temporary file is renamed to the target.
/// The target itself is never written to, so whoever reads it finds a whole
/// file or none.
pub open spec fn spec_storage_steps(plan: PersistPlanView) -> Seq<StorageStepView> {
    (match plan.parent {
        Some(dir) => seq![StorageStepView::MakeDir { dir }],
        None => Seq::empty(),
    }) + seq![
        StorageStepView::WriteFile { path: plan.tmp_path },
        StorageStepView::Rename { from: plan.tmp_path, to: plan.target },
    ]
}

/// The outcome of a writing of which the first `done` steps were done and
/// the next one, if there is one, failed: the writing succeeded if every
/// step was done, and failed with the error of the step that failed
/// otherwise.
pub open spec fn spec_storage_outcome(steps: Seq<StorageStepView>, done: int) -> Result<
    (),
    StorageError,
> {
    if 0 <= done < steps.len() {
        Err(steps[done].failure())
    } else {
        Ok(())
    }
}

impl StorageStep {
    /// The error of a writing in which this step failed.
    pub fn failure(&self) -> (error: StorageError)
        ensures
            error == self@.failure(),
    {
        match self {
            StorageStep::MakeDir { .. } => StorageError::Mkdir,
            StorageStep::WriteFile { .. } => StorageError::Write,
            StorageStep::Rename { .. } => StorageError::Rename,
        }
    }
}

impl PersistPlan {
    /// The steps of this plan, in the order in which they are to be done.
    pub fn steps(&self) -> (steps: Vec<StorageStep>)
        ensures
            step_views(steps@) == spec_storage_steps(self@),
    {
        let mut steps: Vec<StorageStep> = Vec::new();
        match &self.parent {
            Some(dir) => {
                steps.push(StorageStep::MakeDir { dir: dir.clone() });
            },
            None => {},
        }
        steps.push(StorageStep::WriteFile { path: self.tmp_path.clone() });
        steps.push(StorageStep::Rename { from: self.tmp_path.clone(), to: self.target.clone() });
        assert(step_views(steps@) =~= spec_storage_steps(self@));
        steps
    }
}

/// The outcome of a writing of which the first `done` steps were done and
/// the next one, if there is one, failed.
pub fn storage_outcome(steps: &[StorageStep], done: usize) -> (outcome: Result<(), StorageError>)
    ensures
        outcome == spec_storage_outcome(step_views(steps@), done as int),
{
    if done < steps.len() {
        Err(steps[done].failure())
    } else {
        Ok(())
    }
}

} // verus!
