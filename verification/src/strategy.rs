//! The ordered strategies by which log files are looked for.

use vstd::prelude::*;

verus! {

/// Registry key under which the launcher registers its executable.
pub const LAUNCHER_KEY: &'static str =
    "SOFTWARE\\Wow6432Node\\Microsoft\\Windows\\CurrentVersion\\App Paths\\StarCitizen Launcher.exe";

/// Value of [`LAUNCHER_KEY`] that holds the launcher's directory.
pub const LAUNCHER_VALUE: &'static str = "Path";

/// Registry key that the publisher's installer writes.
pub const PUBLISHER_KEY: &'static str =
    "SOFTWARE\\Wow6432Node\\Cloud Imperium Games\\StarCitizen Launcher.exe";

/// Value of [`PUBLISHER_KEY`] that holds the installation directory.
pub const PUBLISHER_VALUE: &'static str = "InstallLocation";

/// Environment variable that names the per-user application data directory.
pub const APP_DATA_VARIABLE: &'static str = "APPDATA";

/// How a reported path was found. The tag serves diagnostics only.
#[derive(Clone, Copy, Debug, PartialEq, Eq, Structural)]
pub enum Strategy {
    /// A log below the directory next to the registered launcher.
    LauncherAppPath,
    /// A log below the publisher's registered install location.
    PublisherInstallLocation,
    /// A log below the default directory in the user's application data.
    UserDataDirectory,
    /// The default directory itself, holding no log yet.
    DirectoryOnly,
}

/// A place that may name an installation root. The sources are consulted in
/// the order in which they are declared.
#[derive(Clone, Copy, Debug, PartialEq, Eq, Structural)]
pub enum Source {
    LauncherAppPath,
    PublisherInstallLocation,
    UserDataDirectory,
}

impl Source {
    /// The tag that paths found through this source carry.
    pub open spec fn tag(self) -> Strategy {
        match self {
            Source::LauncherAppPath => Strategy::LauncherAppPath,
            Source::PublisherInstallLocation => Strategy::PublisherInstallLocation,
            Source::UserDataDirectory => Strategy::UserDataDirectory,
        }
    }

    /// The source consulted when this one has yielded no log, if any is left.
    pub open spec fn successor(self) -> Option<Source> {
        match self {
            Source::LauncherAppPath => Some(Source::PublisherInstallLocation),
            Source::PublisherInstallLocation => Some(Source::UserDataDirectory),
            Source::UserDataDirectory => None,
        }
    }

    /// Whether the source is a registry value, as opposed to an environment variable.
    pub open spec fn in_registry(self) -> bool {
        self != Source::UserDataDirectory
    }

    /// The source consulted first.
    pub fn first() -> (source: Source)
        ensures
            source == Source::LauncherAppPath,
    {
        Source::LauncherAppPath
    }

    /// The tag that paths found through this source carry.
    pub fn strategy(&self) -> (strategy: Strategy)
        ensures
            strategy == self.tag(),
    {
        match self {
            Source::LauncherAppPath => Strategy::LauncherAppPath,
            Source::PublisherInstallLocation => Strategy::PublisherInstallLocation,
            Source::UserDataDirectory => Strategy::UserDataDirectory,
        }
    }

    /// The source consulted when this one has yielded no log, if any is left.
    pub fn next(&self) -> (next: Option<Source>)
        ensures
            next == self.successor(),
    {
        match self {
            Source::LauncherAppPath => Some(Source::PublisherInstallLocation),
            Source::PublisherInstallLocation => Some(Source::UserDataDirectory),
            Source::UserDataDirectory => None,
        }
    }

    /// Whether the source is a registry value.
    pub fn is_registry(&self) -> (registry: bool)
        ensures
            registry == self.in_registry(),
    {
        match self {
            Source::UserDataDirectory => false,
            _ => true,
        }
    }
}

} // verus!
