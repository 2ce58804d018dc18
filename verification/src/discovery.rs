//! The discovery engine: a state machine that asks the host one question at a
//! time and decides from each answer where to look next.
//!
//! The engine performs no input or output itself. Its owner reads the pending
//! [`Request`], carries it out on the host, and hands the [`Answer`] back,
//! until no request is pending and the outcome can be taken.

use vstd::prelude::*;
use crate::location::{installation_root, root_from, tier_log, tier_log_path};
use crate::protocol::{
    log_views, of_one_strategy, outcome_view, Answer, AnswerView, DiscoveryError, LogPath,
    LogPathView, OutcomeView, Platform, RegistryFailure, RequestView, Request,
};
use crate::strategy::{
    Source, Strategy, APP_DATA_VARIABLE, LAUNCHER_KEY, LAUNCHER_VALUE, PUBLISHER_KEY,
    PUBLISHER_VALUE,
};
use crate::tier::EnvironmentTier;
use crate::views::option_view;

verus! {

/// The most questions that one search asks: for each of the three sources
/// its value and the three tier logs, and at last the default directory.
pub const MAX_QUERIES: usize = 13;

/// What the engine is waiting for.
pub enum StageView {
    /// The value of `source`, which may name an installation root.
    Locating(Source),
    /// Whether the log of `tier` exists below `root`, which `source` named.
    Probing { source: Source, root: Seq<char>, tier: EnvironmentTier },
    /// Whether the default directory exists, no log having been found in it.
    CheckingDirectory { directory: Seq<char> },
    /// Nothing: at least one path was found.
    Found,
    /// Nothing: discovery failed.
    Failed(DiscoveryError),
}

/// The engine as a mathematical value.
pub struct DiscoveryView {
    pub stage: StageView,
    /// The paths found so far, in the order of their discovery.
    pub found: Seq<LogPathView>,
    /// The registry reads that failed so far, in the order of the attempts.
    pub failures: Seq<RegistryFailure>,
}

impl DiscoveryView {
    /// The engine before any question was asked. On a host of another family
    /// than Windows it has failed at once, and asks nothing.
    pub open spec fn initial(platform: Platform) -> DiscoveryView {
        DiscoveryView {
            stage: match platform {
                Platform::Windows => StageView::Locating(Source::LauncherAppPath),
                Platform::Other => StageView::Failed(DiscoveryError::PlatformUnsupported),
            },
            found: Seq::empty(),
            failures: Seq::empty(),
        }
    }

    /// The question that asks for the value of `source`.
    pub open spec fn question(source: Source) -> RequestView {
        match source {
            Source::LauncherAppPath => RequestView::ReadRegistry {
                key: LAUNCHER_KEY@,
                value: LAUNCHER_VALUE@,
            },
            Source::PublisherInstallLocation => RequestView::ReadRegistry {
                key: PUBLISHER_KEY@,
                value: PUBLISHER_VALUE@,
            },
            Source::UserDataDirectory => RequestView::ReadVariable { name: APP_DATA_VARIABLE@ },
        }
    }

    /// The question that the engine waits to have answered, if any.
    pub open spec fn pending(self) -> Option<RequestView> {
        match self.stage {
            StageView::Locating(source) => Some(Self::question(source)),
            StageView::Probing { source, root, tier } => Some(
                RequestView::ProbePath { path: tier_log_path(root, tier) },
            ),
            StageView::CheckingDirectory { directory } => Some(
                RequestView::ProbePath { path: directory },
            ),
            StageView::Found => None,
            StageView::Failed(_) => None,
        }
    }

    /// The outcome of discovery, once the engine has come to rest.
    pub open spec fn outcome(self) -> Option<OutcomeView> {
        match self.stage {
            StageView::Found => Some(Ok(self.found)),
            StageView::Failed(error) => Some(Err(error)),
            _ => None,
        }
    }

    /// The number of questions the engine asks from the consultation of
    /// `source` on, when no strategy yields anything.
    pub open spec fn queries_from(source: Source) -> nat {
        match source {
            Source::LauncherAppPath => MAX_QUERIES as nat,
            Source::PublisherInstallLocation => 9,
            Source::UserDataDirectory => 5,
        }
    }

    /// An upper bound on the number of questions that the engine still asks.
    pub open spec fn queries_left(self) -> nat {
        match self.stage {
            StageView::Locating(source) => Self::queries_from(source),
            StageView::Probing { source, root, tier } => (Self::queries_from(source) - 1
                - tier.rank()) as nat,
            StageView::CheckingDirectory { directory } => 1,
            StageView::Found => 0,
            StageView::Failed(_) => 0,
        }
    }

    /// Whether the paths found so far fit the stage: while a root is probed
    /// they all come from its source, at rest after a find there is at least
    /// one and all come from one strategy, and in every other stage there is
    /// none. The engine starts like this and every answer keeps it so.
    pub open spec fn coherent(self) -> bool {
        match self.stage {
            StageView::Probing { source, root, tier } => forall|i: int|
                0 <= i < self.found.len() ==> (#[trigger] self.found[i]).strategy == source.tag(),
            StageView::Found => self.found.len() > 0 && of_one_strategy(self.found),
            _ => self.found.len() == 0,
        }
    }

    /// The engine with `stage` in place of its own.
    pub open spec fn at(self, stage: StageView) -> DiscoveryView {
        DiscoveryView { stage, found: self.found, failures: self.failures }
    }

    /// The engine once `source` has turned out to name no usable root: it
    /// turns to the next source, and fails where none is left.
    pub open spec fn pass(self, source: Source) -> DiscoveryView {
        match source.successor() {
            Some(next) => self.at(StageView::Locating(next)),
            None => self.at(StageView::Failed(DiscoveryError::NotFound)),
        }
    }

    /// The engine once the value of `source` is known to give `root`: it
    /// starts to probe the tiers below the root in their order.
    pub open spec fn enter(self, source: Source, root: Option<Seq<char>>) -> DiscoveryView {
        match root {
            Some(root) => self.at(
                StageView::Probing { source, root, tier: EnvironmentTier::Live },
            ),
            None => self.pass(source),
        }
    }

    /// The engine once every tier below `root` has been probed. A single log
    /// ends the search. With none, the next source is consulted; below the
    /// last root, the root itself is probed instead.
    pub open spec fn conclude(self, source: Source, root: Seq<char>) -> DiscoveryView {
        if self.found.len() > 0 {
            self.at(StageView::Found)
        } else {
            match source.successor() {
                Some(next) => self.at(StageView::Locating(next)),
                None => self.at(StageView::CheckingDirectory { directory: root }),
            }
        }
    }

    /// The engine after the host's `answer`. An answer of another kind than
    /// the pending request calls for leaves the engine as it is, and so does
    /// any answer once it has come to rest.
    pub open spec fn step(self, answer: AnswerView) -> DiscoveryView {
        match self.stage {
            StageView::Locating(source) => match answer {
                AnswerView::Registry(Ok(value)) => if source.in_registry() {
                    self.enter(source, installation_root(source, value))
                } else {
                    self
                },
                AnswerView::Registry(Err(error)) => if source.in_registry() {
                    DiscoveryView {
                        stage: self.stage,
                        found: self.found,
                        failures: self.failures.push(RegistryFailure { source, error }),
                    }.pass(source)
                } else {
                    self
                },
                AnswerView::Variable(Some(value)) => if source.in_registry() {
                    self
                } else {
                    self.enter(source, installation_root(source, value))
                },
                AnswerView::Variable(None) => if source.in_registry() {
                    self
                } else {
                    self.pass(source)
                },
                AnswerView::Exists(_) => self,
            },
            StageView::Probing { source, root, tier } => match answer {
                AnswerView::Exists(present) => {
                    let probed = DiscoveryView {
                        stage: self.stage,
                        found: if present {
                            self.found.push(
                                LogPathView {
                                    path: tier_log_path(root, tier),
                                    strategy: source.tag(),
                                },
                            )
                        } else {
                            self.found
                        },
                        failures: self.failures,
                    };
                    match tier.successor() {
                        Some(next) => probed.at(StageView::Probing { source, root, tier: next }),
                        None => probed.conclude(source, root),
                    }
                },
                _ => self,
            },
            StageView::CheckingDirectory { directory } => match answer {
                AnswerView::Exists(present) => if present {
                    DiscoveryView {
                        stage: StageView::Found,
                        found: self.found.push(
                            LogPathView { path: directory, strategy: Strategy::DirectoryOnly },
                        ),
                        failures: self.failures,
                    }
                } else {
                    self.at(StageView::Failed(DiscoveryError::NotFound))
                },
                _ => self,
            },
            StageView::Found => self,
            StageView::Failed(_) => self,
        }
    }
}

enum Stage {
    Locating(Source),
    Probing { source: Source, root: String, tier: EnvironmentTier },
    CheckingDirectory { directory: String },
    Found,
    Failed(DiscoveryError),
}

impl View for Stage {
    type V = StageView;

    closed spec fn view(&self) -> StageView {
        match *self {
            Stage::Locating(source) => StageView::Locating(source),
            Stage::Probing { source, root, tier } => StageView::Probing { source, root: root@, tier },
            Stage::CheckingDirectory { directory } => StageView::CheckingDirectory {
                directory: directory@,
            },
            Stage::Found => StageView::Found,
            Stage::Failed(error) => StageView::Failed(error),
        }
    }
}

/// The discovery engine.
pub struct Discovery {
    stage: Stage,
    found: Vec<LogPath>,
    failures: Vec<RegistryFailure>,
}

impl Discovery {
    #[verifier::type_invariant]
    spec fn well_formed(&self) -> bool {
        self@.coherent()
    }
}

impl View for Discovery {
    type V = DiscoveryView;

    closed spec fn view(&self) -> DiscoveryView {
        DiscoveryView {
            stage: self.stage@,
            found: log_views(self.found@),
            failures: self.failures@,
        }
    }
}

impl Discovery {
    /// Starts discovery on a host of the given family.
    pub fn new(platform: Platform) -> (engine: Discovery)
        ensures
            engine@ == DiscoveryView::initial(platform),
    {
        let stage = match platform {
            Platform::Windows => Stage::Locating(Source::first()),
            Platform::Other => Stage::Failed(DiscoveryError::PlatformUnsupported),
        };
        let engine = Discovery { stage, found: Vec::new(), failures: Vec::new() };
        assert(log_views(engine.found@) =~= Seq::empty());
        engine
    }

    /// The question that the host is to answer next; none once discovery has
    /// come to rest.
    pub fn request(&self) -> (request: Option<Request>)
        ensures
            option_view(request) == self@.pending(),
    {
        match &self.stage {
            Stage::Locating(source) => match source {
                Source::LauncherAppPath => Some(
                    Request::ReadRegistry {
                        key: LAUNCHER_KEY.to_owned(),
                        value: LAUNCHER_VALUE.to_owned(),
                    },
                ),
                Source::PublisherInstallLocation => Some(
                    Request::ReadRegistry {
                        key: PUBLISHER_KEY.to_owned(),
                        value: PUBLISHER_VALUE.to_owned(),
                    },
                ),
                Source::UserDataDirectory => Some(
                    Request::ReadVariable { name: APP_DATA_VARIABLE.to_owned() },
                ),
            },
            Stage::Probing { source, root, tier } => Some(
                Request::ProbePath { path: tier_log(root.as_str(), *tier) },
            ),
            Stage::CheckingDirectory { directory } => Some(
                Request::ProbePath { path: directory.clone() },
            ),
            Stage::Found => None,
            Stage::Failed(_) => None,
        }
    }

    /// Whether discovery has come to rest, so that its outcome can be taken.
    pub fn is_finished(&self) -> (finished: bool)
        ensures
            finished == self@.outcome() is Some,
    {
        match &self.stage {
            Stage::Found => true,
            Stage::Failed(_) => true,
            _ => false,
        }
    }

    /// The registry reads that have failed so far.
    pub fn registry_failures(&self) -> (failures: &Vec<RegistryFailure>)
        ensures
            failures@ == self@.failures,
    {
        &self.failures
    }

    /// Ends discovery and gives its outcome; none while a request is pending.
    pub fn into_outcome(self) -> (outcome: Option<Result<Vec<LogPath>, DiscoveryError>>)
        ensures
            outcome is Some <==> self@.outcome() is Some,
            outcome matches Some(result) ==> self@.outcome() == Some(outcome_view(result)),
            outcome matches Some(Ok(found)) ==> found@.len() > 0 && of_one_strategy(
                log_views(found@),
            ),
    {
        proof {
            use_type_invariant(&self);
        }
        match self.stage {
            Stage::Found => Some(Ok(self.found)),
            Stage::Failed(error) => Some(Err(error)),
            _ => None,
        }
    }

    fn enter(
        source: Source,
        root: Option<String>,
        found: Vec<LogPath>,
        failures: Vec<RegistryFailure>,
    ) -> (next: Discovery)
        requires
            found@.len() == 0,
        ensures
            next@ == (DiscoveryView {
                stage: StageView::Locating(source),
                found: log_views(found@),
                failures: failures@,
            }).enter(source, option_view(root)),
    {
        match root {
            Some(root) => Discovery {
                stage: Stage::Probing { source, root, tier: EnvironmentTier::first() },
                found,
                failures,
            },
            None => Discovery::pass(source, found, failures),
        }
    }

    fn pass(source: Source, found: Vec<LogPath>, failures: Vec<RegistryFailure>) -> (next:
        Discovery)
        requires
            found@.len() == 0,
        ensures
            next@ == (DiscoveryView {
                stage: StageView::Locating(source),
                found: log_views(found@),
                failures: failures@,
            }).pass(source),
    {
        let stage = match source.next() {
            Some(next) => Stage::Locating(next),
            None => Stage::Failed(DiscoveryError::NotFound),
        };
        Discovery { stage, found, failures }
    }

    /// Takes the host's answer to the pending request and moves on.
    pub fn answer(self, answer: Answer) -> (next: Discovery)
        ensures
            next@ == self@.step(answer@),
    {
        proof {
            use_type_invariant(&self);
        }
        let Discovery { stage, found, failures } = self;
        match stage {
            Stage::Locating(source) => match answer {
                Answer::Registry(Ok(value)) => {
                    if source.is_registry() {
                        let root = root_from(source, value.as_str());
                        Discovery::enter(source, root, found, failures)
                    } else {
                        Discovery { stage: Stage::Locating(source), found, failures }
                    }
                },
                Answer::Registry(Err(error)) => {
                    if source.is_registry() {
                        let mut failures = failures;
                        failures.push(RegistryFailure { source, error });
                        Discovery::pass(source, found, failures)
                    } else {
                        Discovery { stage: Stage::Locating(source), found, failures }
                    }
                },
                Answer::Variable(Some(value)) => {
                    if source.is_registry() {
                        Discovery { stage: Stage::Locating(source), found, failures }
                    } else {
                        let root = root_from(source, value.as_str());
                        Discovery::enter(source, root, found, failures)
                    }
                },
                Answer::Variable(None) => {
                    if source.is_registry() {
                        Discovery { stage: Stage::Locating(source), found, failures }
                    } else {
                        Discovery::pass(source, found, failures)
                    }
                },
                Answer::Exists(_) => Discovery { stage: Stage::Locating(source), found, failures },
            },
            Stage::Probing { source, root, tier } => match answer {
                Answer::Exists(present) => {
                    let mut found = found;
                    if present {
                        let ghost before = found@;
                        let hit = LogPath {
                            path: tier_log(root.as_str(), tier),
                            strategy: source.strategy(),
                        };
                        found.push(hit);
                        assert(log_views(found@) =~= log_views(before).push(hit@));
                    }
                    match tier.next() {
                        Some(next) => Discovery {
                            stage: Stage::Probing { source, root, tier: next },
                            found,
                            failures,
                        },
                        None => {
                            if found.len() > 0 {
                                Discovery { stage: Stage::Found, found, failures }
                            } else {
                                match source.next() {
                                    Some(next) => Discovery {
                                        stage: Stage::Locating(next),
                                        found,
                                        failures,
                                    },
                                    None => Discovery {
                                        stage: Stage::CheckingDirectory { directory: root },
                                        found,
                                        failures,
                                    },
                                }
                            }
                        },
                    }
                },
                _ => Discovery { stage: Stage::Probing { source, root, tier }, found, failures },
            },
            Stage::CheckingDirectory { directory } => match answer {
                Answer::Exists(present) => {
                    if present {
                        let mut found = found;
                        let ghost before = found@;
                        let hit = LogPath { path: directory, strategy: Strategy::DirectoryOnly };
                        found.push(hit);
                        assert(log_views(found@) =~= log_views(before).push(hit@));
                        Discovery { stage: Stage::Found, found, failures }
                    } else {
                        Discovery {
                            stage: Stage::Failed(DiscoveryError::NotFound),
                            found,
                            failures,
                        }
                    }
                },
                _ => Discovery { stage: Stage::CheckingDirectory { directory }, found, failures },
            },
            Stage::Found => Discovery { stage: Stage::Found, found, failures },
            Stage::Failed(error) => Discovery { stage: Stage::Failed(error), found, failures },
        }
    }
}

/// The engine starts coherent and every answer keeps it so, whatever the
/// answer is: at rest after a find it holds at least one path, and all its
/// paths come from one strategy.
pub proof fn coherence_is_kept(platform: Platform, state: DiscoveryView, answer: AnswerView)
    requires
        state.coherent(),
    ensures
        DiscoveryView::initial(platform).coherent(),
        state.step(answer).coherent(),
{
}

} // verus!
