//! The release channels of the game client.

use vstd::prelude::*;

verus! {

/// A release channel of the game client. Each channel is installed in a
/// directory of its own and writes a log of its own.
#[derive(Clone, Copy, Debug, PartialEq, Eq, Structural)]
pub enum EnvironmentTier {
    Live,
    Ptu,
    Hotfix,
}

impl EnvironmentTier {
    /// The name of the channel's directory below an installation root.
    pub open spec fn label(self) -> Seq<char> {
        match self {
            EnvironmentTier::Live => "LIVE"@,
            EnvironmentTier::Ptu => "PTU"@,
            EnvironmentTier::Hotfix => "HOTFIX"@,
        }
    }

    /// The channel examined after this one, if any: LIVE, then PTU, then HOTFIX.
    pub open spec fn successor(self) -> Option<EnvironmentTier> {
        match self {
            EnvironmentTier::Live => Some(EnvironmentTier::Ptu),
            EnvironmentTier::Ptu => Some(EnvironmentTier::Hotfix),
            EnvironmentTier::Hotfix => None,
        }
    }

    /// Position of the channel in the order of examination.
    pub open spec fn rank(self) -> nat {
        match self {
            EnvironmentTier::Live => 0,
            EnvironmentTier::Ptu => 1,
            EnvironmentTier::Hotfix => 2,
        }
    }

    /// The channel examined first.
    pub fn first() -> (tier: EnvironmentTier)
        ensures
            tier == EnvironmentTier::Live,
    {
        EnvironmentTier::Live
    }

    /// The name of the channel's directory below an installation root.
    pub fn directory_name(&self) -> (name: &'static str)
        ensures
            name@ == self.label(),
    {
        match self {
            EnvironmentTier::Live => "LIVE",
            EnvironmentTier::Ptu => "PTU",
            EnvironmentTier::Hotfix => "HOTFIX",
        }
    }

    /// The channel examined after this one, if any.
    pub fn next(&self) -> (next: Option<EnvironmentTier>)
        ensures
            next == self.successor(),
    {
        match self {
            EnvironmentTier::Live => Some(EnvironmentTier::Ptu),
            EnvironmentTier::Ptu => Some(EnvironmentTier::Hotfix),
            EnvironmentTier::Hotfix => None,
        }
    }
}

} // verus!
