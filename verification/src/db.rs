//! The record of one locally installed game, and what is asked of the
//! database of Lutris to get the records.

use crate::text::{concat2, concat3, str_eq};
use vstd::prelude::*;

verus! {

/// One installed game. The pipeline reads it and never changes it.
#[derive(Debug)]
pub struct Game {
    pub id: i64,
    pub name: String,
    pub slug: String,
    pub runner: Option<String>,
    pub platform: Option<String>,
    pub service: Option<String>,
    pub service_id: Option<String>,
    pub has_custom_banner: bool,
    pub has_custom_coverart: bool,
}

/// Name of the one service whose identifiers the catalogue can look up.
pub open spec fn spec_primary_service() -> Seq<char> {
    "steam"@
}

/// Name of the one service whose identifiers the catalogue can look up.
pub fn primary_service() -> (name: &'static str)
    ensures
        name@ == spec_primary_service(),
{
    "steam"
}

/// A copy of an optional text.
fn clone_text(text: &Option<String>) -> (copy: Option<String>)
    ensures
        copy == *text,
{
    match text {
        Some(t) => Some(t.clone()),
        None => None,
    }
}

impl Clone for Game {
    fn clone(&self) -> (copy: Game)
        ensures
            copy == *self,
    {
        Game {
            id: self.id,
            name: self.name.clone(),
            slug: self.slug.clone(),
            runner: clone_text(&self.runner),
            platform: clone_text(&self.platform),
            service: clone_text(&self.service),
            service_id: clone_text(&self.service_id),
            has_custom_banner: self.has_custom_banner,
            has_custom_coverart: self.has_custom_coverart,
        }
    }
}

impl Game {
    /// Whether the game came from the primary service and carries that
    /// service's identifier.
    pub open spec fn spec_has_platform_id(&self) -> bool {
        &&& self.service matches Some(service)
        &&& service@ == spec_primary_service()
        &&& self.service_id is Some
    }

    /// The identifier under which the primary service knows the game, if the
    /// game came from that service and carries one.
    pub fn platform_id(&self) -> (id: Option<&String>)
        ensures
            id is Some <==> self.spec_has_platform_id(),
            id matches Some(found) ==> self.service_id == Some(*found),
    {
        match &self.service {
            Some(service) => {
                if str_eq(service.as_str(), primary_service()) {
                    self.service_id.as_ref()
                } else {
                    None
                }
            },
            None => None,
        }
    }
}

impl Game {
    /// The record made of one row of the table of games. The two flags are
    /// stored as numbers: zero is no, anything else yes.
    pub fn from_row(
        id: i64,
        name: String,
        slug: String,
        runner: Option<String>,
        platform: Option<String>,
        service: Option<String>,
        service_id: Option<String>,
        has_custom_banner: i64,
        has_custom_coverart: i64,
    ) -> (game: Game)
        ensures
            game == (Game {
                id,
                name,
                slug,
                runner,
                platform,
                service,
                service_id,
                has_custom_banner: has_custom_banner != 0,
                has_custom_coverart: has_custom_coverart != 0,
            }),
    {
        Game {
            id,
            name,
            slug,
            runner,
            platform,
            service,
            service_id,
            has_custom_banner: has_custom_banner != 0,
            has_custom_coverart: has_custom_coverart != 0,
        }
    }
}

// ---------------------------------------------------------------------------
// The database
// ---------------------------------------------------------------------------

/// Why the database of Lutris cannot be used.
#[derive(Debug, Clone, Copy, PartialEq, Eq, Structural)]
pub enum DbError {
    /// There is nothing at the path.
    NotFound,
    /// What is at the path is no regular file.
    NotAFile,
    /// The file cannot be examined.
    Unreadable,
}

/// What was found at the path of the database.
#[derive(Debug, Clone, Copy, PartialEq, Eq, Structural)]
pub struct DbProbe {
    /// Whether anything is at the path.
    pub exists: bool,
    /// Whether it is a regular file.
    pub is_file: bool,
    /// Whether it can be examined.
    pub readable: bool,
}

impl DbError {
    /// The text shown for this error about the database at `path`.
    pub open spec fn spec_message(self, path: Seq<char>) -> Seq<char> {
        match self {
            DbError::NotFound => "Lutris database not found at "@ + path
                + "\nIs Lutris installed?"@,
            DbError::NotAFile => path + " exists but is not a regular file"@,
            DbError::Unreadable => "Cannot read metadata for "@ + path,
        }
    }

    /// The text shown for this error about the database at `path`.
    pub fn message(&self, path: &str) -> (text: String)
        ensures
            text@ == self.spec_message(path@),
    {
        match self {
            DbError::NotFound => concat3(
                "Lutris database not found at ",
                path,
                "\nIs Lutris installed?",
            ),
            DbError::NotAFile => concat2(path, " exists but is not a regular file"),
            DbError::Unreadable => concat2("Cannot read metadata for ", path),
        }
    }
}

/// Judges what was found at the path of the database: it has to exist, to
/// be a regular file, and to be readable, and the first of these that fails
/// is the error.
pub fn validate_db(probe: DbProbe) -> (usable: Result<(), DbError>)
    ensures
        usable == if !probe.exists {
            Err::<(), DbError>(DbError::NotFound)
        } else if !probe.is_file {
            Err(DbError::NotAFile)
        } else if !probe.readable {
            Err(DbError::Unreadable)
        } else {
            Ok(())
        },
{
    if !probe.exists {
        Err(DbError::NotFound)
    } else if !probe.is_file {
        Err(DbError::NotAFile)
    } else if !probe.readable {
        Err(DbError::Unreadable)
    } else {
        Ok(())
    }
}

/// Name of the column that tells whether a game has cover art of its own,
/// in the databases that have such a column.
pub open spec fn spec_coverart_column() -> Seq<char> {
    "has_custom_coverart_big"@
}

/// Name of the column that tells whether a game has cover art of its own.
pub fn coverart_column() -> (name: &'static str)
    ensures
        name@ == spec_coverart_column(),
{
    "has_custom_coverart_big"
}

/// The question for the columns of a table.
pub open spec fn spec_table_info_query(table: Seq<char>) -> Seq<char> {
    "PRAGMA table_info("@ + table + ")"@
}

/// The question for the columns of a table.
pub fn table_info_query(table: &str) -> (query: String)
    ensures
        query@ == spec_table_info_query(table@),
{
    concat3("PRAGMA table_info(", table, ")")
}

/// Whether a column of the given name is among the columns.
pub fn has_column(columns: &[String], column: &str) -> (found: bool)
    ensures
        found == exists|i: int| 0 <= i < columns@.len() && (#[trigger] columns@[i])@ == column@,
{
    let mut i: usize = 0;
    while i < columns.len()
        invariant
            i <= columns.len(),
            forall|j: int| 0 <= j < i ==> (#[trigger] columns@[j])@ != column@,
        decreases columns.len() - i,
    {
        if str_eq(columns[i].as_str(), column) {
            return true;
        }
        i = i + 1;
    }
    false
}

/// The question for the installed games, by name without regard to case.
/// A database without the cover art column counts every game as having no
/// cover art of its own.
pub open spec fn spec_games_query(has_coverart_column: bool) -> Seq<char> {
    "SELECT id, name, slug, runner, platform, service, service_id, COALESCE(has_custom_banner, 0), COALESCE("@
        + (if has_coverart_column {
        spec_coverart_column()
    } else {
        "0"@
    }) + ", 0) FROM games WHERE installed = 1 ORDER BY name COLLATE NOCASE"@
}

/// The question for the installed games.
pub fn games_query(has_coverart_column: bool) -> (query: String)
    ensures
        query@ == spec_games_query(has_coverart_column),
{
    let column = if has_coverart_column {
        coverart_column()
    } else {
        "0"
    };
    concat3(
        "SELECT id, name, slug, runner, platform, service, service_id, COALESCE(has_custom_banner, 0), COALESCE(",
        column,
        ", 0) FROM games WHERE installed = 1 ORDER BY name COLLATE NOCASE",
    )
}

} // verus!
