//! A mathematical model of the host, and what discovery finds on it.
//!
//! The engine in [`crate::discovery`] sees the host only through the answers
//! it is handed. This module describes a host as a value, says which paths a
//! search of that host is to report, and proves that the engine, run against
//! the host, reports exactly those.

use vstd::prelude::*;
use crate::discovery::{DiscoveryView, StageView};
use crate::protocol::{
    AnswerView, DiscoveryError, LogPathView, OutcomeView, Platform, RegistryFailure,
    RegistryReadError, RequestView,
};
use crate::location::{installation_root, tier_log_path};
use crate::strategy::{
    Source, Strategy, LAUNCHER_KEY, LAUNCHER_VALUE, PUBLISHER_KEY, PUBLISHER_VALUE,
};
use crate::tier::EnvironmentTier;

verus! {

/// What discovery can observe of a host.
pub struct Host {
    pub platform: Platform,
    /// The outcome of reading a value, by key and value name. A pair that is
    /// absent here stands for a value that does not exist.
    pub registry: Map<(Seq<char>, Seq<char>), Result<Seq<char>, RegistryReadError>>,
    /// The environment variables that are set.
    pub variables: Map<Seq<char>, Seq<char>>,
    /// The paths at which something exists.
    pub existing: Set<Seq<char>>,
}

impl Host {
    /// The outcome of reading the value `value` of the key `key`.
    pub open spec fn read_registry(self, key: Seq<char>, value: Seq<char>) -> Result<
        Seq<char>,
        RegistryReadError,
    > {
        if self.registry.dom().contains((key, value)) {
            self.registry[(key, value)]
        } else {
            Err(RegistryReadError::NotFound)
        }
    }

    /// The value of the environment variable `name`, if it is set.
    pub open spec fn read_variable(self, name: Seq<char>) -> Option<Seq<char>> {
        if self.variables.dom().contains(name) {
            Some(self.variables[name])
        } else {
            None
        }
    }

    /// The host's answer to a request.
    pub open spec fn answer(self, request: RequestView) -> AnswerView {
        match request {
            RequestView::ReadRegistry { key, value } => AnswerView::Registry(
                self.read_registry(key, value),
            ),
            RequestView::ReadVariable { name } => AnswerView::Variable(self.read_variable(name)),
            RequestView::ProbePath { path } => AnswerView::Exists(self.existing.contains(path)),
        }
    }

    /// The value that `source` holds on this host, if it can be read.
    pub open spec fn value(self, source: Source) -> Option<Seq<char>> {
        match self.answer(DiscoveryView::question(source)) {
            AnswerView::Registry(Ok(value)) => Some(value),
            AnswerView::Variable(Some(value)) => Some(value),
            _ => None,
        }
    }

    /// The installation root that `source` names on this host, if any.
    pub open spec fn root(self, source: Source) -> Option<Seq<char>> {
        match self.value(source) {
            Some(value) => installation_root(source, value),
            None => None,
        }
    }

    /// The log of `tier` below `root`, tagged with `strategy`, if it exists.
    pub open spec fn log_of(self, root: Seq<char>, tier: EnvironmentTier, strategy: Strategy) -> Seq<
        LogPathView,
    > {
        if self.existing.contains(tier_log_path(root, tier)) {
            seq![LogPathView { path: tier_log_path(root, tier), strategy }]
        } else {
            Seq::empty()
        }
    }

    /// The logs that exist below `root`, in the order of the tiers.
    pub open spec fn logs_below(self, root: Seq<char>, strategy: Strategy) -> Seq<LogPathView> {
        self.log_of(root, EnvironmentTier::Live, strategy) + self.log_of(
            root,
            EnvironmentTier::Ptu,
            strategy,
        ) + self.log_of(root, EnvironmentTier::Hotfix, strategy)
    }

    /// What the strategy of `source` yields: the logs below its root, and
    /// nothing where it names no root.
    pub open spec fn logs_from(self, source: Source) -> Seq<LogPathView> {
        match self.root(source) {
            Some(root) => self.logs_below(root, source.tag()),
            None => Seq::empty(),
        }
    }

    /// What the last strategy yields: the default directory itself, if it exists.
    pub open spec fn directory_only(self) -> Seq<LogPathView> {
        match self.root(Source::UserDataDirectory) {
            Some(directory) => if self.existing.contains(directory) {
                seq![LogPathView { path: directory, strategy: Strategy::DirectoryOnly }]
            } else {
                Seq::empty()
            },
            None => Seq::empty(),
        }
    }

    /// The outcome that a search of this host is to have: on Windows the
    /// yield of the first strategy that yields anything, in the order launcher
    /// path, publisher install location, user data directory, directory only.
    pub open spec fn expected(self) -> OutcomeView {
        if self.platform != Platform::Windows {
            Err(DiscoveryError::PlatformUnsupported)
        } else if self.logs_from(Source::LauncherAppPath).len() > 0 {
            Ok(self.logs_from(Source::LauncherAppPath))
        } else if self.logs_from(Source::PublisherInstallLocation).len() > 0 {
            Ok(self.logs_from(Source::PublisherInstallLocation))
        } else if self.logs_from(Source::UserDataDirectory).len() > 0 {
            Ok(self.logs_from(Source::UserDataDirectory))
        } else if self.directory_only().len() > 0 {
            Ok(self.directory_only())
        } else {
            Err(DiscoveryError::NotFound)
        }
    }

    /// The failed read of the registry value behind `source`, if it fails.
    pub open spec fn failure_of(self, source: Source) -> Seq<RegistryFailure> {
        match self.answer(DiscoveryView::question(source)) {
            AnswerView::Registry(Err(error)) => seq![RegistryFailure { source, error }],
            _ => Seq::empty(),
        }
    }

    /// The failed registry reads that a search of this host is to record: the
    /// launcher's, and the publisher's where the search comes to it.
    pub open spec fn expected_failures(self) -> Seq<RegistryFailure> {
        if self.platform != Platform::Windows {
            Seq::empty()
        } else if self.logs_from(Source::LauncherAppPath).len() > 0 {
            self.failure_of(Source::LauncherAppPath)
        } else {
            self.failure_of(Source::LauncherAppPath) + self.failure_of(
                Source::PublisherInstallLocation,
            )
        }
    }

    /// The engine at rest after it was run from `state` against this host,
    /// each pending request answered by the host.
    pub open spec fn run(self, state: DiscoveryView) -> DiscoveryView
        decreases state.queries_left(),
    {
        match state.pending() {
            Some(request) => self.run(state.step(self.answer(request))),
            None => state,
        }
    }

    /// Whether none of the tier logs exists below `root`.
    pub open spec fn holds_no_log(self, root: Seq<char>) -> bool {
        &&& !self.existing.contains(tier_log_path(root, EnvironmentTier::Live))
        &&& !self.existing.contains(tier_log_path(root, EnvironmentTier::Ptu))
        &&& !self.existing.contains(tier_log_path(root, EnvironmentTier::Hotfix))
    }

    /// Whether neither registry value can be read.
    pub open spec fn registry_is_silent(self) -> bool {
        &&& self.read_registry(LAUNCHER_KEY@, LAUNCHER_VALUE@) is Err
        &&& self.read_registry(PUBLISHER_KEY@, PUBLISHER_VALUE@) is Err
    }

    /// The outcome of a complete search of this host by the engine.
    pub open spec fn discovered(self) -> Option<OutcomeView> {
        self.run(DiscoveryView::initial(self.platform)).outcome()
    }
}

impl Host {
    /// The engine once it is done with `source`, having consulted it in
    /// `state` with nothing found before.
    spec fn done_with(self, state: DiscoveryView, source: Source) -> DiscoveryView {
        let consulted = DiscoveryView {
            stage: state.stage,
            found: self.logs_from(source),
            failures: state.failures + self.failure_of(source),
        };
        match self.root(source) {
            Some(root) => consulted.conclude(source, root),
            None => consulted.pass(source),
        }
    }

    /// Probing the three tiers below `root` adds the logs that exist there,
    /// in the order of the tiers, and then concludes the strategy.
    proof fn lemma_probe_tiers(self, state: DiscoveryView, source: Source, root: Seq<char>)
        requires
            state.stage == (StageView::Probing { source, root, tier: EnvironmentTier::Live }),
        ensures
            self.run(state) == self.run(
                (DiscoveryView {
                    stage: state.stage,
                    found: state.found + self.logs_below(root, source.tag()),
                    failures: state.failures,
                }).conclude(source, root),
            ),
    {
        let live = state.step(self.answer(state.pending().unwrap()));
        let ptu = live.step(self.answer(live.pending().unwrap()));
        let hotfix = ptu.step(self.answer(ptu.pending().unwrap()));
        assert(self.run(live) == self.run(ptu));
        assert(hotfix.found =~= state.found + self.logs_below(root, source.tag()));
    }

    /// Consulting a source with nothing found so far leaves the engine done
    /// with that source.
    proof fn lemma_consult(self, state: DiscoveryView, source: Source)
        requires
            state.stage == StageView::Locating(source),
            state.found =~= Seq::empty(),
        ensures
            self.run(state) == self.run(self.done_with(state, source)),
    {
        let asked = state.step(self.answer(state.pending().unwrap()));
        assert(asked.failures =~= state.failures + self.failure_of(source));
        if let Some(root) = self.root(source) {
            self.lemma_probe_tiers(asked, source, root);
        }
    }

    /// Run against a host, the engine comes to rest with the outcome that the
    /// host calls for, and has recorded the registry reads that failed on the
    /// way.
    pub proof fn engine_finds_what_the_host_holds(self)
        ensures
            self.discovered() == Some(self.expected()),
            self.run(DiscoveryView::initial(self.platform)).failures == self.expected_failures(),
    {
        if self.platform == Platform::Windows {
            let start = DiscoveryView::initial(self.platform);
            self.lemma_consult(start, Source::LauncherAppPath);
            if self.logs_from(Source::LauncherAppPath).len() == 0 {
                let first = self.done_with(start, Source::LauncherAppPath);
                self.lemma_consult(first, Source::PublisherInstallLocation);
                if self.logs_from(Source::PublisherInstallLocation).len() == 0 {
                    let second = self.done_with(first, Source::PublisherInstallLocation);
                    self.lemma_consult(second, Source::UserDataDirectory);
                    let third = self.done_with(second, Source::UserDataDirectory);
                    if third.pending() is Some {
                        let last = third.step(self.answer(third.pending().unwrap()));
                        assert(self.run(last) == last);
                    }
                }
            }
        }
    }
}

/// The strategies are tried in their order, and the first that yields a log
/// decides the outcome: where every source before `source` yields nothing and
/// `source` yields something, the search reports the yield of `source`,
/// whatever the later sources would have yielded.
pub proof fn first_yield_decides(host: Host, source: Source)
    requires
        host.platform == Platform::Windows,
        host.logs_from(source).len() > 0,
        source != Source::LauncherAppPath ==> host.logs_from(Source::LauncherAppPath).len() == 0,
        source == Source::UserDataDirectory ==> host.logs_from(
            Source::PublisherInstallLocation,
        ).len() == 0,
    ensures
        host.expected() == OutcomeView::Ok(host.logs_from(source)),
        host.discovered() == Some(host.expected()),
{
    host.engine_finds_what_the_host_holds();
}

/// Where the launcher's registered path leads to a root that holds the LIVE
/// log and no other, the search reports that one path, tagged with the
/// launcher strategy, whatever exists in the default directory or elsewhere.
pub proof fn launcher_live_log_is_reported_alone(host: Host, root: Seq<char>)
    requires
        host.platform == Platform::Windows,
        host.root(Source::LauncherAppPath) == Some(root),
        host.existing.contains(tier_log_path(root, EnvironmentTier::Live)),
        !host.existing.contains(tier_log_path(root, EnvironmentTier::Ptu)),
        !host.existing.contains(tier_log_path(root, EnvironmentTier::Hotfix)),
    ensures
        host.expected() == OutcomeView::Ok(
            seq![
                LogPathView {
                    path: tier_log_path(root, EnvironmentTier::Live),
                    strategy: Strategy::LauncherAppPath,
                },
            ],
        ),
        host.discovered() == Some(host.expected()),
{
    host.engine_finds_what_the_host_holds();
}

/// Where neither registry value can be read, and the application data
/// variable is unset or names a default directory that does not exist and
/// holds no log, the search fails for want of anything found.
pub proof fn nothing_anywhere_is_not_found(host: Host)
    requires
        host.platform == Platform::Windows,
        host.registry_is_silent(),
        host.root(Source::UserDataDirectory) matches Some(directory) ==> (
        !host.existing.contains(directory) && host.holds_no_log(directory)),
    ensures
        host.expected() == OutcomeView::Err(DiscoveryError::NotFound),
        host.discovered() == Some(host.expected()),
{
    host.engine_finds_what_the_host_holds();
}

/// Where neither registry value can be read and the default directory exists
/// and holds no log, the search reports the directory itself, and nothing else.
pub proof fn empty_default_directory_is_reported(host: Host, directory: Seq<char>)
    requires
        host.platform == Platform::Windows,
        host.registry_is_silent(),
        host.root(Source::UserDataDirectory) == Some(directory),
        host.existing.contains(directory),
        host.holds_no_log(directory),
    ensures
        host.expected() == OutcomeView::Ok(
            seq![LogPathView { path: directory, strategy: Strategy::DirectoryOnly }],
        ),
        host.discovered() == Some(host.expected()),
{
    host.engine_finds_what_the_host_holds();
}

/// Why a registry value cannot be read makes no difference to the outcome: a
/// read that is denied counts like one of a value that does not exist. Two
/// hosts that differ only in the reasons for which their registry reads fail
/// call for the same outcome.
pub proof fn registry_failures_count_alike(host: Host, other: Host)
    requires
        other.platform == host.platform,
        other.variables == host.variables,
        other.existing == host.existing,
        forall|key: Seq<char>, value: Seq<char>|
            #![trigger host.read_registry(key, value)]
            #![trigger other.read_registry(key, value)]
            (host.read_registry(key, value) is Err <==> other.read_registry(key, value) is Err)
                && (host.read_registry(key, value) is Ok ==> other.read_registry(key, value)
                == host.read_registry(key, value)),
    ensures
        other.expected() == host.expected(),
        other.discovered() == host.discovered(),
{
    host.engine_finds_what_the_host_holds();
    other.engine_finds_what_the_host_holds();
}

/// On a host of another family than Windows the search fails as unsupported
/// before it asks anything, whatever the host holds.
pub proof fn other_platforms_are_unsupported(host: Host)
    requires
        host.platform != Platform::Windows,
    ensures
        DiscoveryView::initial(host.platform).pending() is None,
        host.expected() == OutcomeView::Err(DiscoveryError::PlatformUnsupported),
        host.discovered() == Some(host.expected()),
{
    host.engine_finds_what_the_host_holds();
}

} // verus!
