//! What is settled before any work starts: the categories named on the
//! command line, the way the program runs, and the errors that end it at
//! once.

use crate::api::models::{AssetType, UnknownAssetType};
use crate::config::Config;
use crate::selection::AssetSelection;
use crate::text::lowercase_of;
use vstd::prelude::*;

verus! {

/// The way the program runs.
#[derive(Debug, Clone, Copy, PartialEq, Eq, Structural)]
pub enum Mode {
    /// Nothing is fetched; what would be fetched is listed.
    DryRun,
    /// The pipeline runs and reports line by line.
    Headless,
    /// The interactive program.
    Tui,
}

/// Chooses the way the program runs: a dry run where one is asked for,
/// whatever else is asked for; otherwise line by line where the interactive
/// program is declined; otherwise the interactive program.
pub fn pick_mode(dry_run: bool, no_tui: bool) -> (mode: Mode)
    ensures
        mode == if dry_run {
            Mode::DryRun
        } else if no_tui {
            Mode::Headless
        } else {
            Mode::Tui
        },
{
    if dry_run {
        Mode::DryRun
    } else if no_tui {
        Mode::Headless
    } else {
        Mode::Tui
    }
}

/// An error that ends the program before any work starts.
#[derive(Debug)]
pub enum StartupError {
    /// A category name on the command line names no category.
    InvalidAssetType(UnknownAssetType),
    /// No category is selected.
    NoAssetTypes,
    /// The settings hold no credential, and none can be asked for.
    MissingApiKey,
}

impl StartupError {
    /// The text shown for this error.
    pub open spec fn spec_message(self) -> Seq<char> {
        match self {
            StartupError::InvalidAssetType(_) => "Invalid asset type"@,
            StartupError::NoAssetTypes => "No asset types selected"@,
            StartupError::MissingApiKey =>
                "No API key configured. Run without --no-tui to set one interactively."@,
        }
    }

    /// The text shown for this error.
    pub fn message(&self) -> (text: &'static str)
        ensures
            text@ == self.spec_message(),
    {
        match self {
            StartupError::InvalidAssetType(_) => "Invalid asset type",
            StartupError::NoAssetTypes => "No asset types selected",
            StartupError::MissingApiKey =>
                "No API key configured. Run without --no-tui to set one interactively.",
        }
    }
}

/// The category that a name stands for, whatever its case.
pub open spec fn spec_parse(name: Seq<char>) -> Option<AssetType> {
    AssetType::spec_from_lowercase(lowercase_of(name))
}

/// Position of the first name from `start` on that names no category.
pub open spec fn first_unknown_from(names: Seq<String>, start: int) -> Option<int>
    decreases names.len() - start,
{
    if start < 0 || start >= names.len() {
        None
    } else if spec_parse(names[start]@) is None {
        Some(start)
    } else {
        first_unknown_from(names, start + 1)
    }
}

/// Position of the first name that names no category.
pub open spec fn first_unknown(names: Seq<String>) -> Option<int> {
    first_unknown_from(names, 0)
}

/// Whether one of the first `count` names stands for `kind`.
pub open spec fn names_kind(names: Seq<String>, count: int, kind: AssetType) -> bool {
    exists|i: int| 0 <= i < count && i < names.len() && spec_parse(#[trigger] names[i]@) == Some(kind)
}

/// `first_unknown_from` finds the first name from `start` on that names no
/// category, and none only where every name from `start` on names one.
pub proof fn lemma_first_unknown_from(names: Seq<String>, start: int)
    requires
        0 <= start,
    ensures
        match first_unknown_from(names, start) {
            Some(found) => {
                &&& start <= found < names.len()
                &&& spec_parse(names[found]@) is None
                &&& forall|j: int| start <= j < found ==> spec_parse(#[trigger] names[j]@) is Some
            },
            None => forall|j: int|
                start <= j < names.len() ==> spec_parse(#[trigger] names[j]@) is Some,
        },
    decreases names.len() - start,
{
    if start < names.len() && spec_parse(names[start]@) is Some {
        lemma_first_unknown_from(names, start + 1);
    }
}

/// Reads the categories named on the command line. The first name that
/// names no category is refused, with that name; where every name names a
/// category, the selection holds exactly the categories named, and a
/// selection without a category is refused.
pub fn parse_asset_types(names: &Vec<String>) -> (parsed: Result<AssetSelection, StartupError>)
    ensures
        match first_unknown(names@) {
            Some(bad) => parsed matches Err(StartupError::InvalidAssetType(unknown))
                && unknown.input@ == names@[bad]@,
            None => if names@.len() == 0 {
                parsed matches Err(StartupError::NoAssetTypes)
            } else {
                &&& parsed is Ok
                &&& forall|kind: AssetType|
                    parsed->Ok_0.spec_contains(kind) <==> names_kind(
                        names@,
                        names@.len() as int,
                        kind,
                    )
                &&& parsed->Ok_0.spec_len() > 0
            },
        },
{
    let mut selection = AssetSelection::empty();
    let mut i: usize = 0;
    while i < names.len()
        invariant
            i <= names.len(),
            first_unknown(names@) == first_unknown_from(names@, i as int),
            forall|kind: AssetType|
                selection.spec_contains(kind) <==> names_kind(names@, i as int, kind),
        decreases names.len() - i,
    {
        match AssetType::from_str(names[i].as_str()) {
            Ok(kind) => {
                selection.insert(kind);
                assert forall|other: AssetType|
                    selection.spec_contains(other) <==> names_kind(names@, i + 1, other) by {
                    if names_kind(names@, i as int, other) {
                        let j = choose|j: int|
                            0 <= j < i && j < names@.len() && spec_parse(#[trigger] names@[j]@)
                                == Some(other);
                        assert(spec_parse(names@[j]@) == Some(other));
                    }
                    if other == kind {
                        assert(spec_parse(names@[i as int]@) == Some(other));
                    }
                    if names_kind(names@, i + 1, other) && other != kind {
                        let j = choose|j: int|
                            0 <= j < i + 1 && j < names@.len() && spec_parse(
                                #[trigger] names@[j]@,
                            ) == Some(other);
                        assert(j < i);
                    }
                }
            },
            Err(unknown) => {
                return Err(StartupError::InvalidAssetType(unknown));
            },
        }
        i = i + 1;
    }
    if selection.is_empty() {
        proof {
            if names@.len() > 0 {
                lemma_first_unknown_from(names@, 0);
                let kind = spec_parse(names@[0]@)->0;
                assert(names_kind(names@, names@.len() as int, kind));
                assert(selection.spec_contains(kind));
                assert(selection@.contains(kind));
            }
        }
        Err(StartupError::NoAssetTypes)
    } else {
        proof {
            if names@.len() == 0 {
                let witness = if selection.grid {
                    AssetType::Grid
                } else if selection.hero {
                    AssetType::Hero
                } else if selection.logo {
                    AssetType::Logo
                } else {
                    AssetType::Icon
                };
                assert(selection.spec_contains(witness));
                assert(names_kind(names@, 0, witness));
            }
        }
        Ok(selection)
    }
}

/// The credential that a run without interaction needs: that of the
/// settings, and `MissingApiKey` where they hold none.
pub fn require_api_key(config: &Config) -> (key: Result<&String, StartupError>)
    ensures
        match config.api_key {
            Some(found) => key == Ok::<&String, StartupError>(&found),
            None => key matches Err(StartupError::MissingApiKey),
        },
{
    match &config.api_key {
        Some(found) => Ok(found),
        None => Err(StartupError::MissingApiKey),
    }
}

} // verus!
