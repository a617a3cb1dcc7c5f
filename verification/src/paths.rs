//! File-system paths as text, and the user's directories.
//!
//! Paths are held as `String`s. They are put together and taken apart by the
//! standard library's path type, so that they follow the conventions of the
//! platform that the library is built for; what comes out is named here and
//! not spelled out. A path made of valid UTF-8 stays valid UTF-8 under these
//! operations, so nothing is lost when the result is held as text again.

use vstd::prelude::*;

verus! {

/// The path that `std::path::Path::join` makes of a base path and a further
/// part.
pub uninterp spec fn joined_path(base: Seq<char>, part: Seq<char>) -> Seq<char>;

/// `std::path::Path::join`, applied to paths given as text: the result
/// depends on the two paths alone.
#[verifier::external_body]
pub(crate) fn join_path(base: &str, part: &str) -> (path: String)
    ensures
        path@ == joined_path(base@, part@),
{
    std::path::Path::new(base).join(part).to_string_lossy().into_owned()
}

/// The path that `std::path::Path::with_extension` makes of a path and a new
/// extension for its last component.
pub uninterp spec fn path_with_extension(path: Seq<char>, extension: Seq<char>) -> Seq<char>;

/// Whether a text holds no path separator of any platform.
pub open spec fn no_separator(text: Seq<char>) -> bool {
    forall|i: int| 0 <= i < text.len() ==> text[i] != '/' && text[i] != '\\'
}

/// `std::path::Path::with_extension`, applied to a path given as text: the
/// result depends on the path and the extension alone. The call panics on
/// an extension that holds a path separator, so such an extension is not
/// admitted.
#[verifier::external_body]
pub(crate) fn with_extension(path: &str, extension: &str) -> (changed: String)
    requires
        no_separator(extension@),
    ensures
        changed@ == path_with_extension(path@, extension@),
{
    std::path::Path::new(path).with_extension(extension).to_string_lossy().into_owned()
}

/// The path that `std::path::Path::parent` gives for a path: the path
/// without its last component, or nothing where it has no parent.
pub uninterp spec fn parent_path(path: Seq<char>) -> Option<Seq<char>>;

/// `std::path::Path::parent`, applied to a path given as text: the result
/// depends on the path alone.
#[verifier::external_body]
pub(crate) fn parent(path: &str) -> (dir: Option<String>)
    ensures
        match dir {
            Some(found) => parent_path(path@) == Some(found@),
            None => parent_path(path@) is None,
        },
{
    match std::path::Path::new(path).parent() {
        Some(dir) => Some(dir.to_string_lossy().into_owned()),
        None => None,
    }
}

/// `dirs::data_dir`: the user's data directory, where the environment names
/// one. A directory whose name is no valid UTF-8 cannot be held as text and
/// counts as not named.
#[verifier::external_body]
pub(crate) fn user_data_dir() -> (dir: Option<String>) {
    match dirs::data_dir() {
        Some(path) => path.into_os_string().into_string().ok(),
        None => None,
    }
}

/// `dirs::config_dir`: the user's configuration directory, where the
/// environment names one. A directory whose name is no valid UTF-8 cannot
/// be held as text and counts as not named.
#[verifier::external_body]
pub(crate) fn user_config_dir() -> (dir: Option<String>) {
    match dirs::config_dir() {
        Some(path) => path.into_os_string().into_string().ok(),
        None => None,
    }
}

/// `dirs::home_dir`: the user's home directory, where the environment names
/// one. A directory whose name is no valid UTF-8 cannot be held as text and
/// counts as not named.
#[verifier::external_body]
pub(crate) fn user_home_dir() -> (dir: Option<String>) {
    match dirs::home_dir() {
        Some(path) => path.into_os_string().into_string().ok(),
        None => None,
    }
}

} // verus!
