//! Settings of the program and the places where Lutris keeps its files.

use crate::paths::{
    join_path, joined_path, user_config_dir, user_data_dir, user_home_dir,
};
use vstd::prelude::*;

verus! {

// ---------------------------------------------------------------------------
// Settings
// ---------------------------------------------------------------------------

/// The settings that persist between runs.
#[derive(Debug)]
pub struct Config {
    /// Credential for the catalogue.
    pub api_key: Option<String>,
    /// Wanted size of grid images, such as `600x900`.
    pub preferred_grid_dimension: String,
    /// Number of games that may be in flight at once.
    pub max_concurrent_downloads: u8,
    /// Whether images marked as not safe for work are passed over.
    pub nsfw_filter: bool,
    /// Whether images marked as humorous are passed over.
    pub humor_filter: bool,
    /// Milliseconds to wait before each rate-limited request.
    pub request_delay_ms: u64,
}

/// The settings as a settings file states them: a field that the file does
/// not mention is `None`.
#[derive(Debug)]
pub struct ConfigFile {
    pub api_key: Option<String>,
    pub preferred_grid_dimension: Option<String>,
    pub max_concurrent_downloads: Option<u8>,
    pub nsfw_filter: Option<bool>,
    pub humor_filter: Option<bool>,
    pub request_delay_ms: Option<u64>,
}

/// Mathematical value of a `Config`.
pub struct ConfigView {
    pub api_key: Option<Seq<char>>,
    pub preferred_grid_dimension: Seq<char>,
    pub max_concurrent_downloads: u8,
    pub nsfw_filter: bool,
    pub humor_filter: bool,
    pub request_delay_ms: u64,
}

/// The view of an optional text.
pub open spec fn opt_string_view(text: Option<String>) -> Option<Seq<char>> {
    match text {
        Some(t) => Some(t@),
        None => None,
    }
}

impl View for Config {
    type V = ConfigView;

    open spec fn view(&self) -> ConfigView {
        ConfigView {
            api_key: opt_string_view(self.api_key),
            preferred_grid_dimension: self.preferred_grid_dimension@,
            max_concurrent_downloads: self.max_concurrent_downloads,
            nsfw_filter: self.nsfw_filter,
            humor_filter: self.humor_filter,
            request_delay_ms: self.request_delay_ms,
        }
    }
}

/// The grid size asked for unless the settings say otherwise.
pub open spec fn spec_default_grid_dimension() -> Seq<char> {
    "600x900"@
}

/// The settings of a program that was never configured.
pub open spec fn spec_default_config() -> ConfigView {
    ConfigView {
        api_key: None,
        preferred_grid_dimension: spec_default_grid_dimension(),
        max_concurrent_downloads: 3,
        nsfw_filter: true,
        humor_filter: true,
        request_delay_ms: 100,
    }
}

/// The grid size asked for unless the settings say otherwise.
pub fn default_grid_dimension() -> (dimension: String)
    ensures
        dimension@ == spec_default_grid_dimension(),
{
    "600x900".to_owned()
}

/// The number of games in flight unless the settings say otherwise.
pub fn default_concurrency() -> (width: u8)
    ensures
        width == 3,
{
    3
}

/// The value of a filter unless the settings say otherwise.
pub fn default_true() -> (on: bool)
    ensures
        on,
{
    true
}

/// The pause before a request unless the settings say otherwise.
pub fn default_request_delay() -> (millis: u64)
    ensures
        millis == 100,
{
    100
}

impl Default for Config {
    fn default() -> (config: Config)
        ensures
            config@ == spec_default_config(),
    {
        Config {
            api_key: None,
            preferred_grid_dimension: default_grid_dimension(),
            max_concurrent_downloads: default_concurrency(),
            nsfw_filter: true,
            humor_filter: true,
            request_delay_ms: default_request_delay(),
        }
    }
}

impl Clone for Config {
    fn clone(&self) -> (copy: Config)
        ensures
            copy@ == self@,
    {
        Config {
            api_key: match &self.api_key {
                Some(key) => Some(key.clone()),
                None => None,
            },
            preferred_grid_dimension: self.preferred_grid_dimension.clone(),
            max_concurrent_downloads: self.max_concurrent_downloads,
            nsfw_filter: self.nsfw_filter,
            humor_filter: self.humor_filter,
            request_delay_ms: self.request_delay_ms,
        }
    }
}

impl ConfigFile {
    /// The settings that a file with these fields stands for.
    pub open spec fn completed(self) -> ConfigView {
        ConfigView {
            api_key: opt_string_view(self.api_key),
            preferred_grid_dimension: match self.preferred_grid_dimension {
                Some(dimension) => dimension@,
                None => spec_default_grid_dimension(),
            },
            max_concurrent_downloads: match self.max_concurrent_downloads {
                Some(width) => width,
                None => 3,
            },
            nsfw_filter: match self.nsfw_filter {
                Some(on) => on,
                None => true,
            },
            humor_filter: match self.humor_filter {
                Some(on) => on,
                None => true,
            },
            request_delay_ms: match self.request_delay_ms {
                Some(millis) => millis,
                None => 100,
            },
        }
    }
}

impl Config {
    /// The settings that a settings file stands for: each field that the
    /// file states is taken from it, every other field has its default.
    pub fn from_file(file: ConfigFile) -> (config: Config)
        ensures
            config@ == file.completed(),
    {
        Config {
            api_key: file.api_key,
            preferred_grid_dimension: match file.preferred_grid_dimension {
                Some(dimension) => dimension,
                None => default_grid_dimension(),
            },
            max_concurrent_downloads: match file.max_concurrent_downloads {
                Some(width) => width,
                None => default_concurrency(),
            },
            nsfw_filter: match file.nsfw_filter {
                Some(on) => on,
                None => default_true(),
            },
            humor_filter: match file.humor_filter {
                Some(on) => on,
                None => default_true(),
            },
            request_delay_ms: match file.request_delay_ms {
                Some(millis) => millis,
                None => default_request_delay(),
            },
        }
    }

    /// The fields that a settings file has to state to stand for these
    /// settings: all of them but an absent credential.
    pub fn to_file(&self) -> (file: ConfigFile)
        ensures
            file.completed() == self@,
            file.preferred_grid_dimension is Some,
            file.max_concurrent_downloads is Some,
            file.nsfw_filter is Some,
            file.humor_filter is Some,
            file.request_delay_ms is Some,
    {
        ConfigFile {
            api_key: match &self.api_key {
                Some(key) => Some(key.clone()),
                None => None,
            },
            preferred_grid_dimension: Some(self.preferred_grid_dimension.clone()),
            max_concurrent_downloads: Some(self.max_concurrent_downloads),
            nsfw_filter: Some(self.nsfw_filter),
            humor_filter: Some(self.humor_filter),
            request_delay_ms: Some(self.request_delay_ms),
        }
    }
}

// ---------------------------------------------------------------------------
// Directories
// ---------------------------------------------------------------------------

/// A directory that the environment does not name.
#[derive(Debug, Clone, Copy, PartialEq, Eq, Structural)]
pub enum PathError {
    /// The user's data directory cannot be determined.
    NoDataDir,
}

impl PathError {
    /// The text shown for this error.
    pub open spec fn spec_message(self) -> Seq<char> {
        "Cannot determine XDG data directory"@
    }

    /// The text shown for this error.
    pub fn message(&self) -> (text: String)
        ensures
            text@ == self.spec_message(),
    {
        "Cannot determine XDG data directory".to_owned()
    }
}

/// Our configuration directory, given the user's configuration directory
/// and home directory as far as they are known: below the first, or else
/// below `.config` in the second.
pub open spec fn spec_config_dir_from(
    config_home: Option<Seq<char>>,
    home: Option<Seq<char>>,
) -> Option<Seq<char>> {
    match config_home {
        Some(dir) => Some(joined_path(dir, "lutrisartfetcher"@)),
        None => match home {
            Some(dir) => Some(joined_path(joined_path(dir, ".config"@), "lutrisartfetcher"@)),
            None => None,
        },
    }
}

/// Our configuration directory, given the user's configuration directory
/// and home directory as far as they are known.
pub fn config_dir_from(config_home: Option<String>, home: Option<String>) -> (dir: Option<String>)
    ensures
        opt_string_view(dir) == spec_config_dir_from(
            opt_string_view(config_home),
            opt_string_view(home),
        ),
{
    match config_home {
        Some(base) => Some(join_path(base.as_str(), "lutrisartfetcher")),
        None => match home {
            Some(base) => {
                let dot_config = join_path(base.as_str(), ".config");
                Some(join_path(dot_config.as_str(), "lutrisartfetcher"))
            },
            None => None,
        },
    }
}

/// Path of the settings file in our configuration directory.
pub open spec fn spec_config_path_in(config_dir: Seq<char>) -> Seq<char> {
    joined_path(config_dir, "config.toml"@)
}

/// Path of the settings file in our configuration directory.
pub fn config_path_in(config_dir: &str) -> (path: String)
    ensures
        path@ == spec_config_path_in(config_dir@),
{
    join_path(config_dir, "config.toml")
}

/// Path of the settings file, given our configuration directory as far as
/// it is known: the file in that directory, and none without one.
pub fn config_path_from(config_dir: Option<String>) -> (path: Option<String>)
    ensures
        opt_string_view(path) == match config_dir {
            Some(dir) => Some(spec_config_path_in(dir@)),
            None => None,
        },
{
    match config_dir {
        Some(dir) => Some(config_path_in(dir.as_str())),
        None => None,
    }
}

/// Our configuration directory in the present environment: `None` where the
/// environment names neither a configuration nor a home directory, and
/// otherwise what `config_dir_from` makes of the two.
pub fn config_dir() -> (dir: Option<String>)
    ensures
        dir matches Some(found) ==> exists|config_home: Option<Seq<char>>, home: Option<Seq<char>>|
            #[trigger] spec_config_dir_from(config_home, home) == Some(found@),
{
    let config_home = user_config_dir();
    let home = match &config_home {
        Some(_) => None,
        None => user_home_dir(),
    };
    let ghost given = (opt_string_view(config_home), opt_string_view(home));
    let dir = config_dir_from(config_home, home);
    proof {
        if dir is Some {
            assert(spec_config_dir_from(given.0, given.1) == Some(dir->0@));
        }
    }
    dir
}

/// Path of the settings file in the present environment: `None` exactly
/// where `config_dir` is.
pub fn config_path() -> (path: Option<String>)
    ensures
        path matches Some(found) ==> exists|config_home: Option<Seq<char>>, home: Option<Seq<char>>|
            #[trigger] spec_config_dir_from(config_home, home) matches Some(dir) && found@
                == spec_config_path_in(dir),
{
    config_path_from(config_dir())
}

/// The data directory of Lutris below the user's data directory.
pub open spec fn spec_lutris_data_dir_in(data_dir: Seq<char>) -> Seq<char> {
    joined_path(data_dir, "lutris"@)
}

/// The database of Lutris below the user's data directory.
pub open spec fn spec_lutris_db_path_in(data_dir: Seq<char>) -> Seq<char> {
    joined_path(spec_lutris_data_dir_in(data_dir), "pga.db"@)
}

/// The directory `subdir` of Lutris below the user's data directory.
pub open spec fn spec_lutris_asset_dir_in(data_dir: Seq<char>, subdir: Seq<char>) -> Seq<char> {
    joined_path(spec_lutris_data_dir_in(data_dir), subdir)
}

/// The icon theme directory below the user's data directory in which
/// Lutris looks for game icons.
pub open spec fn spec_lutris_icon_dir_in(data_dir: Seq<char>) -> Seq<char> {
    joined_path(data_dir, "icons/hicolor/128x128/apps"@)
}

/// The data directory of Lutris below the user's data directory.
pub fn lutris_data_dir_in(data_dir: &str) -> (dir: String)
    ensures
        dir@ == spec_lutris_data_dir_in(data_dir@),
{
    join_path(data_dir, "lutris")
}

/// The database of Lutris below the user's data directory.
pub fn lutris_db_path_in(data_dir: &str) -> (path: String)
    ensures
        path@ == spec_lutris_db_path_in(data_dir@),
{
    let lutris = lutris_data_dir_in(data_dir);
    join_path(lutris.as_str(), "pga.db")
}

/// The directory `subdir` of Lutris below the user's data directory.
pub fn lutris_asset_dir_in(data_dir: &str, subdir: &str) -> (dir: String)
    ensures
        dir@ == spec_lutris_asset_dir_in(data_dir@, subdir@),
{
    let lutris = lutris_data_dir_in(data_dir);
    join_path(lutris.as_str(), subdir)
}

/// The icon theme directory below the user's data directory.
pub fn lutris_icon_dir_in(data_dir: &str) -> (dir: String)
    ensures
        dir@ == spec_lutris_icon_dir_in(data_dir@),
{
    join_path(data_dir, "icons/hicolor/128x128/apps")
}

/// The view of a path that may be missing.
pub open spec fn path_view(path: Result<String, PathError>) -> Result<Seq<char>, PathError> {
    match path {
        Ok(found) => Ok(found@),
        Err(error) => Err(error),
    }
}

/// The user's data directory, given what the environment names: the
/// directory that it names, and `NoDataDir` where it names none.
pub fn data_dir_from(named: Option<String>) -> (dir: Result<String, PathError>)
    ensures
        dir == match named {
            Some(found) => Ok::<String, PathError>(found),
            None => Err(PathError::NoDataDir),
        },
{
    match named {
        Some(found) => Ok(found),
        None => Err(PathError::NoDataDir),
    }
}

/// The data directory of Lutris, given the user's data directory as far as
/// it is known: the directory below it, or the error of the missing
/// directory.
pub fn lutris_data_dir_from(data_dir: Result<String, PathError>) -> (dir: Result<String, PathError>)
    ensures
        path_view(dir) == match data_dir {
            Ok(base) => Ok::<Seq<char>, PathError>(spec_lutris_data_dir_in(base@)),
            Err(error) => Err(error),
        },
{
    match data_dir {
        Ok(base) => Ok(lutris_data_dir_in(base.as_str())),
        Err(error) => Err(error),
    }
}

/// The database of Lutris, given the user's data directory as far as it is
/// known: the file below it, or the error of the missing directory.
pub fn lutris_db_path_from(data_dir: Result<String, PathError>) -> (path: Result<String, PathError>)
    ensures
        path_view(path) == match data_dir {
            Ok(base) => Ok::<Seq<char>, PathError>(spec_lutris_db_path_in(base@)),
            Err(error) => Err(error),
        },
{
    match data_dir {
        Ok(base) => Ok(lutris_db_path_in(base.as_str())),
        Err(error) => Err(error),
    }
}

/// The directory `subdir` of Lutris, given the user's data directory as far
/// as it is known: the directory below it, or the error of the missing
/// directory.
pub fn lutris_asset_dir_from(data_dir: Result<String, PathError>, subdir: &str) -> (dir: Result<
    String,
    PathError,
>)
    ensures
        path_view(dir) == match data_dir {
            Ok(base) => Ok::<Seq<char>, PathError>(spec_lutris_asset_dir_in(base@, subdir@)),
            Err(error) => Err(error),
        },
{
    match data_dir {
        Ok(base) => Ok(lutris_asset_dir_in(base.as_str(), subdir)),
        Err(error) => Err(error),
    }
}

/// The icon directory, given the user's data directory as far as it is
/// known: the directory below it, or the error of the missing directory.
pub fn lutris_icon_dir_from(data_dir: Result<String, PathError>) -> (dir: Result<String, PathError>)
    ensures
        path_view(dir) == match data_dir {
            Ok(base) => Ok::<Seq<char>, PathError>(spec_lutris_icon_dir_in(base@)),
            Err(error) => Err(error),
        },
{
    match data_dir {
        Ok(base) => Ok(lutris_icon_dir_in(base.as_str())),
        Err(error) => Err(error),
    }
}

/// The user's data directory in the present environment, or `NoDataDir`
/// where the environment names none: what `data_dir_from` makes of what
/// the environment names.
pub fn data_dir() -> (dir: Result<String, PathError>)
    ensures
        dir matches Err(error) ==> error == PathError::NoDataDir,
{
    data_dir_from(user_data_dir())
}

/// The data directory of Lutris in the present environment: that of some
/// user data directory, or `NoDataDir`.
pub fn lutris_data_dir() -> (dir: Result<String, PathError>)
    ensures
        match dir {
            Ok(found) => exists|data_dir: Seq<char>|
                found@ == #[trigger] spec_lutris_data_dir_in(data_dir),
            Err(error) => error == PathError::NoDataDir,
        },
{
    let base = data_dir();
    let dir = lutris_data_dir_from(base);
    proof {
        if dir is Ok {
            assert(dir->Ok_0@ == spec_lutris_data_dir_in(base->Ok_0@));
        }
    }
    dir
}

/// The database of Lutris in the present environment: that of some user
/// data directory, or `NoDataDir`.
pub fn lutris_db_path() -> (path: Result<String, PathError>)
    ensures
        match path {
            Ok(found) => exists|data_dir: Seq<char>|
                found@ == #[trigger] spec_lutris_db_path_in(data_dir),
            Err(error) => error == PathError::NoDataDir,
        },
{
    let base = data_dir();
    let path = lutris_db_path_from(base);
    proof {
        if path is Ok {
            assert(path->Ok_0@ == spec_lutris_db_path_in(base->Ok_0@));
        }
    }
    path
}

/// The directory `subdir` of Lutris in the present environment: that of
/// some user data directory, or `NoDataDir`.
pub fn lutris_asset_dir(subdir: &str) -> (dir: Result<String, PathError>)
    ensures
        match dir {
            Ok(found) => exists|data_dir: Seq<char>|
                found@ == #[trigger] spec_lutris_asset_dir_in(data_dir, subdir@),
            Err(error) => error == PathError::NoDataDir,
        },
{
    let base = data_dir();
    let dir = lutris_asset_dir_from(base, subdir);
    proof {
        if dir is Ok {
            assert(dir->Ok_0@ == spec_lutris_asset_dir_in(base->Ok_0@, subdir@));
        }
    }
    dir
}

/// The icon directory in the present environment: that of some user data
/// directory, or `NoDataDir`.
pub fn lutris_icon_dir() -> (dir: Result<String, PathError>)
    ensures
        match dir {
            Ok(found) => exists|data_dir: Seq<char>|
                found@ == #[trigger] spec_lutris_icon_dir_in(data_dir),
            Err(error) => error == PathError::NoDataDir,
        },
{
    let base = data_dir();
    let dir = lutris_icon_dir_from(base);
    proof {
        if dir is Ok {
            assert(dir->Ok_0@ == spec_lutris_icon_dir_in(base->Ok_0@));
        }
    }
    dir
}

} // verus!
