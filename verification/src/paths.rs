//! Where the data lives: the cache directory of an identity and the data
//! file beneath it. Paths are held as text.

use vstd::prelude::*;
use crate::identity::AppIdentity;

verus! {

/// Name of the single data file beneath the cache directory.
pub const DATA_FILE_NAME: &'static str = "data.json";

/// The path that the platform's path rules give when `name` is adjoined to
/// `base`, both as text. It stands for what `std::path::Path::join` returns
/// on the platform the crate is built for.
pub uninterp spec fn joined_path(base: Seq<char>, name: Seq<char>) -> Seq<char>;

/// The path of the data file beneath the cache directory `cache_dir`.
pub open spec fn data_file_path(cache_dir: Seq<char>) -> Seq<char> {
    joined_path(cache_dir, DATA_FILE_NAME@)
}

/// Calls `std::path::Path::join` on `base` with `name`. Trusted: the result
/// is the adjoined path, which depends on the two texts alone. Both inputs
/// are valid text, so the joined path is too and nothing is lost when it is
/// turned back into a `String`.
#[verifier::external_body]
fn join_path(base: &str, name: &str) -> (joined: String)
    ensures
        joined@ == joined_path(base@, name@),
{
    std::path::Path::new(base).join(name).to_string_lossy().into_owned()
}

/// Calls `directories::ProjectDirs::from` and reads the `cache_dir` of what
/// it returns. Trusted: a directory that comes back is not the empty path.
/// On every platform it is a base directory that is not empty, the user's
/// home or the cache home, with the project's path adjoined, or it ends in
/// a leaf named `cache`. Nothing else is claimed of it: it follows the
/// platform, the user account and its settings. `None` where the platform
/// yields no home directory, or a directory whose path is not valid text.
#[verifier::external_body]
fn project_cache_dir(qualifier: &str, organization: &str, application: &str) -> (dir: Option<
    String,
>)
    ensures
        dir matches Some(d) ==> d@.len() > 0,
{
    let dirs = directories::ProjectDirs::from(qualifier, organization, application)?;
    Some(dirs.cache_dir().to_str()?.to_owned())
}

/// Resolves the per-user cache directory of `identity` on this platform.
///
/// The directory is computed anew on every call and need not exist yet. It
/// is never the empty path. Which directory it is follows the platform, the
/// user account and its settings.
///
/// `None` means that there is no place to store anything: the platform
/// offers no home directory, or the directory's path is not valid text and
/// cannot be held here. A host must not fall back to another place.
pub fn cache_dir(identity: &AppIdentity) -> (dir: Option<String>)
    ensures
        dir matches Some(d) ==> d@.len() > 0,
{
    project_cache_dir(
        identity.qualifier.as_str(),
        identity.organization.as_str(),
        identity.application.as_str(),
    )
}

/// Returns the path of the data file beneath `cache_dir`: the directory with
/// the fixed file name adjoined.
pub fn data_file(cache_dir: &str) -> (file: String)
    ensures
        file@ == data_file_path(cache_dir@),
{
    join_path(cache_dir, DATA_FILE_NAME)
}

} // verus!
