//! Where the game client keeps its logs, and the path arithmetic behind it.

use vstd::prelude::*;
use crate::strategy::Source;
use crate::tier::EnvironmentTier;
use crate::views::option_view;

verus! {

/// Folder of the game client below an installation root.
pub const PRODUCT_DIRECTORY: &'static str = "StarCitizen";

/// Folder of the publisher below the per-user application data directory.
pub const PUBLISHER_DIRECTORY: &'static str = "Roberts Space Industries";

/// File name of the game client's log inside a tier directory.
pub const LOG_FILE_NAME: &'static str = "Game.log";

/// The parent directory that `std::path::Path::parent` reports for `path`,
/// under the path syntax of the platform the library is built for.
pub uninterp spec fn path_parent(path: Seq<char>) -> Option<Seq<char>>;

/// The path that `std::path::Path::join` builds from `base` and `child`,
/// under the path syntax of the platform the library is built for.
pub uninterp spec fn path_join(base: Seq<char>, child: Seq<char>) -> Seq<char>;

/// Calls `std::path::Path::parent` on `path` and hands the parent back as
/// text. The body is not verified. The contract claims that the answer is
/// determined by the characters of `path`, and gives it the name
/// [`path_parent`]; it claims nothing about where the platform splits a path.
/// The parent of a path that is valid Unicode is valid Unicode, so the way
/// back to text loses nothing.
#[verifier::external_body]
pub(crate) fn parent_of(path: &str) -> (parent: Option<String>)
    ensures
        option_view(parent) == path_parent(path@),
{
    match std::path::Path::new(path).parent() {
        Some(dir) => Some(dir.to_string_lossy().into_owned()),
        None => None,
    }
}

/// Calls `std::path::Path::join` on `base` with `child` and hands the path
/// back as text. The body is not verified. The contract claims that the
/// answer is determined by the characters of the two, and gives it the name
/// [`path_join`]; it claims nothing about separators, nor about a child that
/// is itself absolute. What is joined from valid Unicode is valid Unicode,
/// so the way back to text loses nothing.
#[verifier::external_body]
pub(crate) fn join(base: &str, child: &str) -> (joined: String)
    ensures
        joined@ == path_join(base@, child@),
{
    std::path::Path::new(base).join(child).to_string_lossy().into_owned()
}

/// The log file of `tier` below the installation root `root`.
pub open spec fn tier_log_path(root: Seq<char>, tier: EnvironmentTier) -> Seq<char> {
    path_join(path_join(root, tier.label()), LOG_FILE_NAME@)
}

/// The installation root that the value read from `source` points to.
///
/// The launcher's registered path names the launcher's own directory, and the
/// game sits beside it: the root is the product folder below the parent of
/// that path, and there is none where the path has no parent. The publisher's
/// install location holds the product folder directly. The application data
/// directory holds it below the publisher's folder.
pub open spec fn installation_root(source: Source, value: Seq<char>) -> Option<Seq<char>> {
    match source {
        Source::LauncherAppPath => match path_parent(value) {
            Some(parent) => Some(path_join(parent, PRODUCT_DIRECTORY@)),
            None => None,
        },
        Source::PublisherInstallLocation => Some(path_join(value, PRODUCT_DIRECTORY@)),
        Source::UserDataDirectory => Some(
            path_join(path_join(value, PUBLISHER_DIRECTORY@), PRODUCT_DIRECTORY@),
        ),
    }
}

/// Builds the path of the log file of `tier` below `root`.
pub fn tier_log(root: &str, tier: EnvironmentTier) -> (path: String)
    ensures
        path@ == tier_log_path(root@, tier),
{
    let tier_directory = join(root, tier.directory_name());
    join(tier_directory.as_str(), LOG_FILE_NAME)
}

/// Derives the installation root from the value read from `source`.
pub fn root_from(source: Source, value: &str) -> (root: Option<String>)
    ensures
        option_view(root) == installation_root(source, value@),
{
    match source {
        Source::LauncherAppPath => match parent_of(value) {
            Some(parent) => Some(join(parent.as_str(), PRODUCT_DIRECTORY)),
            None => None,
        },
        Source::PublisherInstallLocation => Some(join(value, PRODUCT_DIRECTORY)),
        Source::UserDataDirectory => {
            let publisher = join(value, PUBLISHER_DIRECTORY);
            Some(join(publisher.as_str(), PRODUCT_DIRECTORY))
        },
    }
}

} // verus!
