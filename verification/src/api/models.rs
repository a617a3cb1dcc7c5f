//! Records of the catalogue's replies and the closed enumerations the
//! pipeline is built on.

use crate::text::{concat2, lowercase_of, str_eq, to_lowercase};
use vstd::prelude::*;

verus! {

// ---------------------------------------------------------------------------
// Catalogue replies
// ---------------------------------------------------------------------------

/// Envelope of every listing reply of the catalogue.
#[derive(Debug, Clone)]
pub struct ApiResponse<T> {
    pub success: bool,
    pub data: Vec<T>,
}

/// One hit of the catalogue's autocomplete search. Hits arrive ordered by
/// the catalogue's own relevance, best first.
#[derive(Debug, Clone)]
pub struct SearchResult {
    pub id: u64,
    pub name: String,
    pub types: Vec<String>,
    pub verified: bool,
}

/// One image offered by the catalogue for a game and a category.
#[derive(Debug, Clone)]
pub struct ImageAsset {
    pub id: u64,
    pub score: i32,
    pub style: String,
    pub width: u32,
    pub height: u32,
    pub nsfw: bool,
    pub humor: bool,
    pub mime: String,
    pub url: String,
    pub thumb: String,
}

// ---------------------------------------------------------------------------
// Asset categories
// ---------------------------------------------------------------------------

/// The four categories of visual assets that can be fetched.
#[derive(Debug, Clone, Copy, PartialEq, Eq, Hash, Structural)]
pub enum AssetType {
    Grid,
    Hero,
    Logo,
    Icon,
}

/// A category name that names none of the four categories.
#[derive(Debug)]
pub struct UnknownAssetType {
    /// The name as it was given.
    pub input: String,
}

impl UnknownAssetType {
    /// The text shown for this error.
    pub open spec fn spec_message(self) -> Seq<char> {
        "Unknown asset type: "@ + self.input@
    }

    /// The text shown for this error.
    pub fn message(&self) -> (text: String)
        ensures
            text@ == self.spec_message(),
    {
        concat2("Unknown asset type: ", self.input.as_str())
    }
}

impl AssetType {
    /// Path segment of the catalogue's listing endpoint for this category.
    pub open spec fn spec_api_path(self) -> Seq<char> {
        match self {
            AssetType::Grid => "grids"@,
            AssetType::Hero => "heroes"@,
            AssetType::Logo => "logos"@,
            AssetType::Icon => "icons"@,
        }
    }

    /// Path segment of the catalogue's listing endpoint for this category.
    pub fn api_path(self) -> (segment: &'static str)
        ensures
            segment@ == self.spec_api_path(),
    {
        match self {
            AssetType::Grid => "grids",
            AssetType::Hero => "heroes",
            AssetType::Logo => "logos",
            AssetType::Icon => "icons",
        }
    }

    /// Name of this category as shown to a person.
    pub open spec fn spec_display_name(self) -> Seq<char> {
        match self {
            AssetType::Grid => "Grid"@,
            AssetType::Hero => "Hero"@,
            AssetType::Logo => "Logo"@,
            AssetType::Icon => "Icon"@,
        }
    }

    /// Name of this category as shown to a person.
    pub fn display_name(self) -> (name: &'static str)
        ensures
            name@ == self.spec_display_name(),
    {
        match self {
            AssetType::Grid => "Grid",
            AssetType::Hero => "Hero",
            AssetType::Logo => "Logo",
            AssetType::Icon => "Icon",
        }
    }

    /// Directory of this category below the Lutris data directory. Icons are
    /// not stored there: their place is an icon theme directory.
    pub open spec fn spec_lutris_subdir(self) -> Seq<char> {
        match self {
            AssetType::Grid => "coverart"@,
            AssetType::Hero => "heroes"@,
            AssetType::Logo => "logos"@,
            AssetType::Icon => "icons"@,
        }
    }

    /// Directory of this category below the Lutris data directory.
    pub fn lutris_subdir(self) -> (dir: &'static str)
        ensures
            dir@ == self.spec_lutris_subdir(),
    {
        match self {
            AssetType::Grid => "coverart",
            AssetType::Hero => "heroes",
            AssetType::Logo => "logos",
            AssetType::Icon => "icons",
        }
    }

    /// The four categories in their fixed order.
    pub open spec fn spec_all() -> Seq<AssetType> {
        seq![AssetType::Grid, AssetType::Hero, AssetType::Logo, AssetType::Icon]
    }

    /// The four categories in their fixed order.
    pub fn all() -> (kinds: &'static [AssetType])
        ensures
            kinds@ == Self::spec_all(),
    {
        &[AssetType::Grid, AssetType::Hero, AssetType::Logo, AssetType::Icon]
    }

    /// Position of this category in `spec_all()`.
    pub open spec fn spec_index(self) -> int {
        match self {
            AssetType::Grid => 0,
            AssetType::Hero => 1,
            AssetType::Logo => 2,
            AssetType::Icon => 3,
        }
    }

    /// The category that a lower-case name stands for: each category answers
    /// to its singular and to the plural used by the catalogue.
    pub open spec fn spec_from_lowercase(name: Seq<char>) -> Option<AssetType> {
        if name == "grid"@ || name == "grids"@ {
            Some(AssetType::Grid)
        } else if name == "hero"@ || name == "heroes"@ {
            Some(AssetType::Hero)
        } else if name == "logo"@ || name == "logos"@ {
            Some(AssetType::Logo)
        } else if name == "icon"@ || name == "icons"@ {
            Some(AssetType::Icon)
        } else {
            None
        }
    }

    /// The category that a name already in lower case stands for.
    pub fn from_lowercase(name: &str) -> (kind: Option<AssetType>)
        ensures
            kind == Self::spec_from_lowercase(name@),
    {
        if str_eq(name, "grid") || str_eq(name, "grids") {
            Some(AssetType::Grid)
        } else if str_eq(name, "hero") || str_eq(name, "heroes") {
            Some(AssetType::Hero)
        } else if str_eq(name, "logo") || str_eq(name, "logos") {
            Some(AssetType::Logo)
        } else if str_eq(name, "icon") || str_eq(name, "icons") {
            Some(AssetType::Icon)
        } else {
            None
        }
    }

    /// Parses a category name without regard to case. A name is accepted if
    /// and only if its lower-case form is one of the eight known names; a
    /// rejected name is handed back in the error.
    pub fn from_str(s: &str) -> (parsed: Result<AssetType, UnknownAssetType>)
        ensures
            match Self::spec_from_lowercase(lowercase_of(s@)) {
                Some(kind) => parsed == Ok::<AssetType, UnknownAssetType>(kind),
                None => parsed is Err && parsed->Err_0.input@ == s@,
            },
    {
        let lower = to_lowercase(s);
        match Self::from_lowercase(lower.as_str()) {
            Some(kind) => Ok(kind),
            None => Err(UnknownAssetType { input: s.to_owned() }),
        }
    }
}

// ---------------------------------------------------------------------------
// Outcome of one (game, category) pair
// ---------------------------------------------------------------------------

/// State of one (game, category) pair. `Done`, `Skipped` and `Failed` are
/// terminal: a pair that reached one of them is finished for the run.
#[derive(Debug)]
pub enum DownloadStatus {
    /// Not yet started.
    Pending,
    /// The game is being looked up in the catalogue.
    Searching,
    /// Candidates are being listed and the chosen image fetched.
    Downloading,
    /// Stored at this path.
    Done(String),
    /// Nothing was fetched, for this reason.
    Skipped(String),
    /// The pair failed, with this message.
    Failed(String),
}

/// Mathematical value of a `DownloadStatus`.
pub enum StatusView {
    Pending,
    Searching,
    Downloading,
    Done(Seq<char>),
    Skipped(Seq<char>),
    Failed(Seq<char>),
}

impl StatusView {
    /// Whether this outcome ends the pipeline for its pair.
    pub open spec fn is_terminal(self) -> bool {
        self is Done || self is Skipped || self is Failed
    }
}

impl View for DownloadStatus {
    type V = StatusView;

    open spec fn view(&self) -> StatusView {
        match *self {
            DownloadStatus::Pending => StatusView::Pending,
            DownloadStatus::Searching => StatusView::Searching,
            DownloadStatus::Downloading => StatusView::Downloading,
            DownloadStatus::Done(path) => StatusView::Done(path@),
            DownloadStatus::Skipped(reason) => StatusView::Skipped(reason@),
            DownloadStatus::Failed(message) => StatusView::Failed(message@),
        }
    }
}

impl Clone for DownloadStatus {
    fn clone(&self) -> (copy: Self)
        ensures
            copy@ == self@,
    {
        match self {
            DownloadStatus::Pending => DownloadStatus::Pending,
            DownloadStatus::Searching => DownloadStatus::Searching,
            DownloadStatus::Downloading => DownloadStatus::Downloading,
            DownloadStatus::Done(path) => DownloadStatus::Done(path.clone()),
            DownloadStatus::Skipped(reason) => DownloadStatus::Skipped(reason.clone()),
            DownloadStatus::Failed(message) => DownloadStatus::Failed(message.clone()),
        }
    }
}

impl DownloadStatus {
    /// Whether this status ends the pipeline for its pair.
    pub fn is_terminal(&self) -> (terminal: bool)
        ensures
            terminal == self@.is_terminal(),
    {
        match self {
            DownloadStatus::Done(_) | DownloadStatus::Skipped(_) | DownloadStatus::Failed(_) => true,
            _ => false,
        }
    }

    /// One-character mark of a status.
    pub open spec fn spec_icon(status: StatusView) -> Seq<char> {
        match status {
            StatusView::Pending => "·"@,
            StatusView::Searching => "⟳"@,
            StatusView::Downloading => "↓"@,
            StatusView::Done(_) => "✓"@,
            StatusView::Skipped(_) => "─"@,
            StatusView::Failed(_) => "✗"@,
        }
    }

    /// One-character mark of this status.
    pub fn icon(&self) -> (mark: &'static str)
        ensures
            mark@ == Self::spec_icon(self@),
    {
        match self {
            DownloadStatus::Pending => "·",
            DownloadStatus::Searching => "⟳",
            DownloadStatus::Downloading => "↓",
            DownloadStatus::Done(_) => "✓",
            DownloadStatus::Skipped(_) => "─",
            DownloadStatus::Failed(_) => "✗",
        }
    }
}

// ---------------------------------------------------------------------------
// Progress events
// ---------------------------------------------------------------------------

/// One transition of one (game, category) pair, as told to the observer.
#[derive(Debug)]
pub struct DownloadProgress {
    pub game_slug: String,
    pub asset_type: AssetType,
    pub status: DownloadStatus,
}

/// Mathematical value of a `DownloadProgress`.
pub struct ProgressView {
    pub game_slug: Seq<char>,
    pub asset_type: AssetType,
    pub status: StatusView,
}

impl View for DownloadProgress {
    type V = ProgressView;

    open spec fn view(&self) -> ProgressView {
        ProgressView {
            game_slug: self.game_slug@,
            asset_type: self.asset_type,
            status: self.status@,
        }
    }
}

impl Clone for DownloadProgress {
    fn clone(&self) -> (copy: Self)
        ensures
            copy@ == self@,
    {
        DownloadProgress {
            game_slug: self.game_slug.clone(),
            asset_type: self.asset_type,
            status: self.status.clone(),
        }
    }
}

} // verus!
