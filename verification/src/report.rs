//! What the program prints when it runs without its interactive screens:
//! the lines of a run that reports line by line, and those of a dry run.

use crate::api::models::{AssetType, DownloadProgress, DownloadStatus, ProgressView, StatusView};
use crate::config::PathError;
use crate::db::Game;
use crate::selection::AssetSelection;
use crate::text::{concat2, concat3, decimal, str_eq, u64_to_decimal};
use vstd::prelude::*;

verus! {

// ---------------------------------------------------------------------------
// Names
// ---------------------------------------------------------------------------

/// Position of the first game from `start` on with the key `slug`.
pub open spec fn game_position_from(games: Seq<Game>, slug: Seq<char>, start: int) -> Option<int>
    decreases games.len() - start,
{
    if start < 0 || start >= games.len() {
        None
    } else if games[start].slug@ == slug {
        Some(start)
    } else {
        game_position_from(games, slug, start + 1)
    }
}

/// Name under which a game is spoken of: the name of the first game with
/// the key, or the key itself where no game has it.
pub open spec fn spec_display_name(games: Seq<Game>, slug: Seq<char>) -> Seq<char> {
    match game_position_from(games, slug, 0) {
        Some(found) => games[found].name@,
        None => slug,
    }
}

/// `game_position_from` finds the first game from `start` on with the key,
/// and none only where no game from `start` on has it.
pub proof fn lemma_game_position_from(games: Seq<Game>, slug: Seq<char>, start: int)
    requires
        0 <= start,
    ensures
        match game_position_from(games, slug, start) {
            Some(found) => {
                &&& start <= found < games.len()
                &&& games[found].slug@ == slug
                &&& forall|j: int| start <= j < found ==> (#[trigger] games[j]).slug@ != slug
            },
            None => forall|j: int| start <= j < games.len() ==> (#[trigger] games[j]).slug@ != slug,
        },
    decreases games.len() - start,
{
    if start < games.len() && games[start].slug@ != slug {
        lemma_game_position_from(games, slug, start + 1);
    }
}

/// Name under which the game with the key `slug` is spoken of.
pub fn display_name(games: &[Game], slug: &str) -> (name: String)
    ensures
        name@ == spec_display_name(games@, slug@),
{
    let mut i: usize = 0;
    while i < games.len()
        invariant
            i <= games.len(),
            game_position_from(games@, slug@, 0) == game_position_from(games@, slug@, i as int),
        decreases games.len() - i,
    {
        if str_eq(games[i].slug.as_str(), slug) {
            return games[i].name.clone();
        }
        i = i + 1;
    }
    slug.to_owned()
}

/// The names of the first `count` categories of a list, each but the first
/// after a comma and a space.
pub open spec fn spec_joined_names(kinds: Seq<AssetType>, count: int) -> Seq<char>
    decreases count,
{
    if count <= 0 {
        Seq::empty()
    } else if count == 1 {
        kinds[0].spec_display_name()
    } else {
        spec_joined_names(kinds, count - 1) + ", "@ + kinds[count - 1].spec_display_name()
    }
}

/// The names of the selected categories, in visiting order, with a comma
/// and a space between them.
pub fn selection_names(assets: &AssetSelection) -> (names: String)
    ensures
        names@ == spec_joined_names(assets.to_seq(), assets.to_seq().len() as int),
{
    let kinds = assets.to_vec();
    let mut names = String::new();
    let mut i: usize = 0;
    while i < kinds.len()
        invariant
            i <= kinds.len(),
            names@ == spec_joined_names(kinds@, i as int),
        decreases kinds.len() - i,
    {
        if i > 0 {
            names.append(", ");
        }
        names.append(kinds[i].display_name());
        assert(Seq::<char>::empty() + kinds@[0].spec_display_name()
            =~= kinds@[0].spec_display_name());
        i = i + 1;
    }
    names
}

// ---------------------------------------------------------------------------
// A run that reports line by line
// ---------------------------------------------------------------------------

/// A piece of output: its text, and whether the line ends after it.
#[derive(Debug)]
pub struct Printed {
    pub text: String,
    pub ends_line: bool,
}

/// First line of the report: the number of games.
pub open spec fn spec_found_games_line(count: nat) -> Seq<char> {
    "Found "@ + decimal(count) + " installed games"@
}

/// First line of the report: the number of games.
pub fn found_games_line(count: usize) -> (line: String)
    ensures
        line@ == spec_found_games_line(count as nat),
{
    let number = u64_to_decimal(count as u64);
    concat3("Found ", number.as_str(), " installed games")
}

/// Second line of the report: the selected categories.
pub fn downloading_line(assets: &AssetSelection) -> (line: String)
    ensures
        line@ == "Downloading: "@ + spec_joined_names(
            assets.to_seq(),
            assets.to_seq().len() as int,
        ),
{
    let names = selection_names(assets);
    concat2("Downloading: ", names.as_str())
}

/// What is printed for a progress event, for a game spoken of as `name`: a
/// search starts a line that the download or the ending of the pair goes
/// on with; a pending pair prints nothing.
pub open spec fn spec_headless_output(name: Seq<char>, progress: ProgressView) -> Option<
    (Seq<char>, bool),
> {
    let kind = progress.asset_type.spec_display_name();
    match progress.status {
        StatusView::Pending => None,
        StatusView::Searching => Some(("  ⟳ Searching for "@ + name + "..."@, false)),
        StatusView::Downloading => Some((" downloading "@ + kind, true)),
        StatusView::Done(path) => Some(("  ✓ "@ + name + " — "@ + path + " saved"@, true)),
        StatusView::Skipped(reason) => Some(
            ("  ─ "@ + name + " — "@ + kind + " skipped: "@ + reason, true),
        ),
        StatusView::Failed(message) => Some(
            ("  ✗ "@ + name + " — "@ + kind + " failed: "@ + message, true),
        ),
    }
}

/// What is printed for a progress event, for a game spoken of as `name`.
pub fn headless_output(name: &str, progress: &DownloadProgress) -> (output: Option<Printed>)
    ensures
        match spec_headless_output(name@, progress@) {
            Some(wanted) => output matches Some(printed) && printed.text@ == wanted.0
                && printed.ends_line == wanted.1,
            None => output is None,
        },
{
    let kind = progress.asset_type.display_name();
    match &progress.status {
        DownloadStatus::Pending => None,
        DownloadStatus::Searching => Some(
            Printed { text: concat3("  ⟳ Searching for ", name, "..."), ends_line: false },
        ),
        DownloadStatus::Downloading => Some(
            Printed { text: concat2(" downloading ", kind), ends_line: true },
        ),
        DownloadStatus::Done(path) => {
            let mut text = concat3("  ✓ ", name, " — ");
            text.append(path.as_str());
            text.append(" saved");
            Some(Printed { text, ends_line: true })
        },
        DownloadStatus::Skipped(reason) => {
            let mut text = concat3("  ─ ", name, " — ");
            text.append(kind);
            text.append(" skipped: ");
            text.append(reason.as_str());
            Some(Printed { text, ends_line: true })
        },
        DownloadStatus::Failed(message) => {
            let mut text = concat3("  ✗ ", name, " — ");
            text.append(kind);
            text.append(" failed: ");
            text.append(message.as_str());
            Some(Printed { text, ends_line: true })
        },
    }
}

/// Numbers of the pairs that were stored, skipped and failed.
#[derive(Debug, Clone, Copy, PartialEq, Eq, Structural)]
pub struct Summary {
    pub downloaded: u32,
    pub skipped: u32,
    pub failed: u32,
}

impl Summary {
    /// The summary after one more status: a terminal status is counted
    /// under its kind, any other status is not counted.
    pub open spec fn counting(self, status: StatusView) -> (int, int, int) {
        match status {
            StatusView::Done(_) => (self.downloaded + 1, self.skipped as int, self.failed as int),
            StatusView::Skipped(_) => (self.downloaded as int, self.skipped + 1, self.failed as int),
            StatusView::Failed(_) => (self.downloaded as int, self.skipped as int, self.failed + 1),
            _ => (self.downloaded as int, self.skipped as int, self.failed as int),
        }
    }

    /// The last but one line of the report.
    pub open spec fn spec_line(self) -> Seq<char> {
        "Done! Downloaded: "@ + decimal(self.downloaded as nat) + ", Skipped: "@ + decimal(
            self.skipped as nat,
        ) + ", Failed: "@ + decimal(self.failed as nat)
    }

    /// The summary of a run of which nothing is known yet.
    pub fn new() -> (summary: Summary)
        ensures
            summary == (Summary { downloaded: 0, skipped: 0, failed: 0 }),
    {
        Summary { downloaded: 0, skipped: 0, failed: 0 }
    }

    /// Counts a status.
    pub fn record(&mut self, status: &DownloadStatus)
        requires
            old(self).downloaded < u32::MAX,
            old(self).skipped < u32::MAX,
            old(self).failed < u32::MAX,
        ensures
            (final(self).downloaded as int, final(self).skipped as int, final(self).failed as int)
                == old(self).counting(status@),
    {
        match status {
            DownloadStatus::Done(_) => {
                self.downloaded = self.downloaded + 1;
            },
            DownloadStatus::Skipped(_) => {
                self.skipped = self.skipped + 1;
            },
            DownloadStatus::Failed(_) => {
                self.failed = self.failed + 1;
            },
            _ => {},
        }
    }

    /// The last but one line of the report.
    pub fn line(&self) -> (text: String)
        ensures
            text@ == self.spec_line(),
    {
        let downloaded = u64_to_decimal(self.downloaded as u64);
        let skipped = u64_to_decimal(self.skipped as u64);
        let failed = u64_to_decimal(self.failed as u64);
        let mut text = concat3("Done! Downloaded: ", downloaded.as_str(), ", Skipped: ");
        text.append(skipped.as_str());
        text.append(", Failed: ");
        text.append(failed.as_str());
        text
    }
}

// ---------------------------------------------------------------------------
// A dry run
// ---------------------------------------------------------------------------

/// Numbers of the assets that a run would fetch and of those that exist.
#[derive(Debug, Clone, Copy, PartialEq, Eq, Structural)]
pub struct DryRunTally {
    pub would_download: u32,
    pub already_exist: u32,
}

/// What a dry run says of one pair, given the asset's path, as far as it
/// is known, and whether a file exists there. An asset whose path is not
/// known ends the dry run with the error of the path.
pub open spec fn spec_dry_run_status(
    asset: AssetType,
    path: Result<Seq<char>, PathError>,
    present: bool,
) -> Result<Seq<char>, PathError> {
    match path {
        Ok(found) => if present {
            Ok(asset.spec_display_name() + ": exists"@)
        } else {
            Ok(asset.spec_display_name() + ": would download → "@ + found)
        },
        Err(error) => Err(error),
    }
}

/// The heading of a game in a dry run.
pub open spec fn spec_dry_run_heading(game: Game) -> Seq<char> {
    "  "@ + game.name@ + " ("@ + game.slug@ + ")"@
}

impl DryRunTally {
    /// The tally after one more pair.
    pub open spec fn counting(self, present: bool) -> (int, int) {
        if present {
            (self.would_download as int, self.already_exist + 1)
        } else {
            (self.would_download + 1, self.already_exist as int)
        }
    }

    /// The last line of a dry run.
    pub open spec fn spec_line(self) -> Seq<char> {
        "\nSummary: "@ + decimal(self.would_download as nat) + " assets to download, "@ + decimal(
            self.already_exist as nat,
        ) + " already exist"@
    }

    /// The tally of a dry run that has seen no pair yet.
    pub fn new() -> (tally: DryRunTally)
        ensures
            tally == (DryRunTally { would_download: 0, already_exist: 0 }),
    {
        DryRunTally { would_download: 0, already_exist: 0 }
    }

    /// Looks at one pair: says what a run would do with it and counts it.
    /// Where the asset's path is not known, nothing is counted and the
    /// error of the path comes back.
    pub fn look_at(&mut self, asset: AssetType, path: &Result<String, PathError>, present: bool)
        -> (status: Result<String, PathError>)
        requires
            old(self).would_download < u32::MAX,
            old(self).already_exist < u32::MAX,
        ensures
            match *path {
                Ok(found) => {
                    &&& status is Ok
                    &&& Ok::<Seq<char>, PathError>(status->Ok_0@) == spec_dry_run_status(
                        asset,
                        Ok(found@),
                        present,
                    )
                    &&& (final(self).would_download as int, final(self).already_exist as int)
                        == old(self).counting(present)
                },
                Err(error) => status == Err::<String, PathError>(error) && *final(self) == *old(
                    self,
                ),
            },
    {
        match path {
            Ok(found) => {
                if present {
                    self.already_exist = self.already_exist + 1;
                    Ok(concat2(asset.display_name(), ": exists"))
                } else {
                    self.would_download = self.would_download + 1;
                    Ok(concat3(asset.display_name(), ": would download → ", found.as_str()))
                }
            },
            Err(error) => Err(*error),
        }
    }

    /// The last line of a dry run.
    pub fn line(&self) -> (text: String)
        ensures
            text@ == self.spec_line(),
    {
        let would = u64_to_decimal(self.would_download as u64);
        let exist = u64_to_decimal(self.already_exist as u64);
        let mut text = concat3("\nSummary: ", would.as_str(), " assets to download, ");
        text.append(exist.as_str());
        text.append(" already exist");
        text
    }
}

/// The heading of a game in a dry run.
pub fn dry_run_heading(game: &Game) -> (line: String)
    ensures
        line@ == spec_dry_run_heading(*game),
{
    let mut line = concat3("  ", game.name.as_str(), " (");
    line.append(game.slug.as_str());
    line.append(")");
    line
}

} // verus!
