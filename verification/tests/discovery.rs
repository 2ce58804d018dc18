use std::cell::RefCell;
use std::collections::{HashMap, HashSet};

use sc_companion::discovery::{Discovery, MAX_QUERIES};
use sc_companion::protocol::{
    Answer, DiscoveryError, LogPath, Platform, RegistryFailure, RegistryReadError, Request,
};
use sc_companion::search::{command_reply, discover_logs, find_star_citizen_logs};
use sc_companion::strategy::{
    Source, Strategy, APP_DATA_VARIABLE, LAUNCHER_KEY, LAUNCHER_VALUE, PUBLISHER_KEY,
    PUBLISHER_VALUE,
};

/// An absolute path of the given components in the syntax of the platform.
fn path(parts: &[&str]) -> String {
    let mut text = String::new();
    for part in parts {
        text.push(std::path::MAIN_SEPARATOR);
        text.push_str(part);
    }
    text
}

fn log(parts: &[&str], strategy: Strategy) -> LogPath {
    LogPath { path: path(parts), strategy }
}

/// A host held in memory, which records what it is asked.
struct FakeHost {
    registry: HashMap<(String, String), Result<String, RegistryReadError>>,
    variables: HashMap<String, String>,
    existing: HashSet<String>,
    asked: RefCell<Vec<String>>,
}

impl FakeHost {
    fn new() -> FakeHost {
        FakeHost {
            registry: HashMap::new(),
            variables: HashMap::new(),
            existing: HashSet::new(),
            asked: RefCell::new(Vec::new()),
        }
    }

    fn launcher(mut self, value: Result<String, RegistryReadError>) -> FakeHost {
        self.registry.insert((LAUNCHER_KEY.to_string(), LAUNCHER_VALUE.to_string()), value);
        self
    }

    fn publisher(mut self, value: Result<String, RegistryReadError>) -> FakeHost {
        self.registry.insert((PUBLISHER_KEY.to_string(), PUBLISHER_VALUE.to_string()), value);
        self
    }

    fn app_data(mut self, value: String) -> FakeHost {
        self.variables.insert(APP_DATA_VARIABLE.to_string(), value);
        self
    }

    fn holding(mut self, parts: &[&str]) -> FakeHost {
        self.existing.insert(path(parts));
        self
    }

    fn read_registry(&self, key: String, value: String) -> Result<String, RegistryReadError> {
        self.asked.borrow_mut().push(format!("registry {key} {value}"));
        match self.registry.get(&(key, value)) {
            Some(found) => found.clone(),
            None => Err(RegistryReadError::NotFound),
        }
    }

    fn read_variable(&self, name: String) -> Option<String> {
        self.asked.borrow_mut().push(format!("variable {name}"));
        self.variables.get(&name).cloned()
    }

    fn holds(&self, path: String) -> bool {
        self.asked.borrow_mut().push(format!("path {path}"));
        self.existing.contains(&path)
    }

    fn search(&self, platform: Platform) -> Result<Vec<LogPath>, DiscoveryError> {
        discover_logs(
            platform,
            |key, value| self.read_registry(key, value),
            |name| self.read_variable(name),
            |path| self.holds(path),
        )
    }

    fn command(&self, platform: Platform) -> Result<Vec<String>, String> {
        find_star_citizen_logs(
            platform,
            |key, value| self.read_registry(key, value),
            |name| self.read_variable(name),
            |path| self.holds(path),
        )
    }

    fn questions(&self) -> Vec<String> {
        self.asked.borrow().clone()
    }
}

/// A host on which every strategy would find something.
fn rich_host() -> FakeHost {
    FakeHost::new()
        .launcher(Ok(path(&["opt", "rsi", "RSI Launcher"])))
        .publisher(Ok(path(&["games", "cig"])))
        .app_data(path(&["home", "pilot", "AppData", "Roaming"]))
        .holding(&["opt", "rsi", "StarCitizen", "LIVE", "Game.log"])
        .holding(&["games", "cig", "StarCitizen", "PTU", "Game.log"])
        .holding(&["home", "pilot", "AppData", "Roaming", "Roberts Space Industries", "StarCitizen"])
        .holding(&[
            "home",
            "pilot",
            "AppData",
            "Roaming",
            "Roberts Space Industries",
            "StarCitizen",
            "LIVE",
            "Game.log",
        ])
        .holding(&[
            "home",
            "pilot",
            "AppData",
            "Roaming",
            "Roberts Space Industries",
            "StarCitizen",
            "HOTFIX",
            "Game.log",
        ])
}

const DEFAULT_DIRECTORY: [&str; 6] =
    ["home", "pilot", "AppData", "Roaming", "Roberts Space Industries", "StarCitizen"];

#[test]
fn other_platform_is_unsupported_and_nothing_is_asked() {
    let host = rich_host();
    assert_eq!(host.search(Platform::Other), Err(DiscoveryError::PlatformUnsupported));
    assert!(host.questions().is_empty());
}

#[test]
fn launcher_log_is_reported_alone_though_the_default_directory_holds_logs() {
    let host = rich_host();
    assert_eq!(
        host.search(Platform::Windows),
        Ok(vec![log(&["opt", "rsi", "StarCitizen", "LIVE", "Game.log"], Strategy::LauncherAppPath)])
    );
    assert_eq!(
        host.questions(),
        vec![
            format!("registry {LAUNCHER_KEY} {LAUNCHER_VALUE}"),
            format!("path {}", path(&["opt", "rsi", "StarCitizen", "LIVE", "Game.log"])),
            format!("path {}", path(&["opt", "rsi", "StarCitizen", "PTU", "Game.log"])),
            format!("path {}", path(&["opt", "rsi", "StarCitizen", "HOTFIX", "Game.log"])),
        ]
    );
}

#[test]
fn publisher_location_is_consulted_when_the_launcher_yields_nothing() {
    let host = FakeHost::new()
        .launcher(Ok(path(&["opt", "rsi", "RSI Launcher"])))
        .publisher(Ok(path(&["games", "cig"])))
        .app_data(path(&["home", "pilot", "AppData", "Roaming"]))
        .holding(&["games", "cig", "StarCitizen", "PTU", "Game.log"])
        .holding(&["games", "cig", "StarCitizen", "HOTFIX", "Game.log"])
        .holding(&DEFAULT_DIRECTORY);
    assert_eq!(
        host.search(Platform::Windows),
        Ok(vec![
            log(&["games", "cig", "StarCitizen", "PTU", "Game.log"], Strategy::PublisherInstallLocation),
            log(
                &["games", "cig", "StarCitizen", "HOTFIX", "Game.log"],
                Strategy::PublisherInstallLocation
            ),
        ])
    );
    assert_eq!(host.questions().len(), 8);
}

#[test]
fn publisher_location_is_the_root_itself_not_its_parent() {
    let host = FakeHost::new()
        .publisher(Ok(path(&["games", "cig"])))
        .holding(&["games", "StarCitizen", "LIVE", "Game.log"]);
    assert_eq!(host.search(Platform::Windows), Err(DiscoveryError::NotFound));
}

#[test]
fn user_data_logs_come_in_the_order_of_the_tiers() {
    let mut live = DEFAULT_DIRECTORY.to_vec();
    live.extend(["LIVE", "Game.log"]);
    let mut ptu = DEFAULT_DIRECTORY.to_vec();
    ptu.extend(["PTU", "Game.log"]);
    let mut hotfix = DEFAULT_DIRECTORY.to_vec();
    hotfix.extend(["HOTFIX", "Game.log"]);
    let host = FakeHost::new()
        .app_data(path(&["home", "pilot", "AppData", "Roaming"]))
        .holding(&DEFAULT_DIRECTORY)
        .holding(&hotfix)
        .holding(&live)
        .holding(&ptu);
    assert_eq!(
        host.search(Platform::Windows),
        Ok(vec![
            log(&live, Strategy::UserDataDirectory),
            log(&ptu, Strategy::UserDataDirectory),
            log(&hotfix, Strategy::UserDataDirectory),
        ])
    );
}

#[test]
fn nothing_anywhere_is_not_found() {
    let host = FakeHost::new();
    assert_eq!(host.search(Platform::Windows), Err(DiscoveryError::NotFound));
    assert_eq!(
        host.questions(),
        vec![
            format!("registry {LAUNCHER_KEY} {LAUNCHER_VALUE}"),
            format!("registry {PUBLISHER_KEY} {PUBLISHER_VALUE}"),
            format!("variable {APP_DATA_VARIABLE}"),
        ]
    );
}

#[test]
fn missing_default_directory_is_not_found() {
    let host = FakeHost::new().app_data(path(&["home", "pilot", "AppData", "Roaming"]));
    assert_eq!(host.search(Platform::Windows), Err(DiscoveryError::NotFound));
    let questions = host.questions();
    assert_eq!(questions.len(), 7);
    assert_eq!(questions[6], format!("path {}", path(&DEFAULT_DIRECTORY)));
}

#[test]
fn empty_default_directory_is_reported_alone() {
    let host = FakeHost::new()
        .app_data(path(&["home", "pilot", "AppData", "Roaming"]))
        .holding(&DEFAULT_DIRECTORY);
    assert_eq!(
        host.search(Platform::Windows),
        Ok(vec![log(&DEFAULT_DIRECTORY, Strategy::DirectoryOnly)])
    );
}

#[test]
fn a_search_that_finds_nothing_asks_every_question_once() {
    let host = FakeHost::new()
        .launcher(Ok(path(&["opt", "rsi", "RSI Launcher"])))
        .publisher(Ok(path(&["games", "cig"])))
        .app_data(path(&["home", "pilot", "AppData", "Roaming"]));
    assert_eq!(host.search(Platform::Windows), Err(DiscoveryError::NotFound));
    let mut expected = vec![format!("registry {LAUNCHER_KEY} {LAUNCHER_VALUE}")];
    for tier in ["LIVE", "PTU", "HOTFIX"] {
        expected.push(format!("path {}", path(&["opt", "rsi", "StarCitizen", tier, "Game.log"])));
    }
    expected.push(format!("registry {PUBLISHER_KEY} {PUBLISHER_VALUE}"));
    for tier in ["LIVE", "PTU", "HOTFIX"] {
        expected.push(format!("path {}", path(&["games", "cig", "StarCitizen", tier, "Game.log"])));
    }
    expected.push(format!("variable {APP_DATA_VARIABLE}"));
    for tier in ["LIVE", "PTU", "HOTFIX"] {
        let mut parts = DEFAULT_DIRECTORY.to_vec();
        parts.extend([tier, "Game.log"]);
        expected.push(format!("path {}", path(&parts)));
    }
    expected.push(format!("path {}", path(&DEFAULT_DIRECTORY)));
    assert_eq!(expected.len(), MAX_QUERIES);
    assert_eq!(host.questions(), expected);
}

#[test]
fn launcher_path_without_a_parent_names_no_root() {
    let host = FakeHost::new()
        .launcher(Ok(String::new()))
        .holding(&["StarCitizen", "LIVE", "Game.log"]);
    assert_eq!(host.search(Platform::Windows), Err(DiscoveryError::NotFound));
    assert_eq!(
        host.questions()[1],
        format!("registry {PUBLISHER_KEY} {PUBLISHER_VALUE}")
    );
}

#[test]
fn a_denied_registry_read_is_passed_over_and_recorded() {
    let engine = Discovery::new(Platform::Windows);
    let engine = engine.answer(Answer::Registry(Err(RegistryReadError::AccessDenied)));
    assert_eq!(
        engine.request(),
        Some(Request::ReadRegistry {
            key: PUBLISHER_KEY.to_string(),
            value: PUBLISHER_VALUE.to_string(),
        })
    );
    let engine = engine.answer(Answer::Registry(Err(RegistryReadError::Other)));
    assert_eq!(
        engine.request(),
        Some(Request::ReadVariable { name: "APPDATA".to_string() })
    );
    assert_eq!(
        engine.registry_failures(),
        &vec![
            RegistryFailure {
                source: Source::LauncherAppPath,
                error: RegistryReadError::AccessDenied,
            },
            RegistryFailure {
                source: Source::PublisherInstallLocation,
                error: RegistryReadError::Other,
            },
        ]
    );
    let engine = engine.answer(Answer::Variable(None));
    assert!(engine.is_finished());
    assert_eq!(engine.request(), None);
    assert_eq!(engine.into_outcome(), Some(Err(DiscoveryError::NotFound)));
}

#[test]
fn the_reason_of_a_registry_failure_does_not_change_the_outcome() {
    let with = |launcher: RegistryReadError, publisher: RegistryReadError| {
        FakeHost::new()
            .launcher(Err(launcher))
            .publisher(Err(publisher))
            .app_data(path(&["home", "pilot", "AppData", "Roaming"]))
            .holding(&DEFAULT_DIRECTORY)
            .search(Platform::Windows)
    };
    let missing = with(RegistryReadError::NotFound, RegistryReadError::NotFound);
    assert_eq!(missing, Ok(vec![log(&DEFAULT_DIRECTORY, Strategy::DirectoryOnly)]));
    assert_eq!(with(RegistryReadError::AccessDenied, RegistryReadError::Other), missing);
    assert_eq!(with(RegistryReadError::Other, RegistryReadError::AccessDenied), missing);
}

#[test]
fn the_engine_starts_with_the_launcher_key() {
    let engine = Discovery::new(Platform::Windows);
    assert!(!engine.is_finished());
    assert_eq!(
        engine.request(),
        Some(Request::ReadRegistry {
            key: "SOFTWARE\\Wow6432Node\\Microsoft\\Windows\\CurrentVersion\\App Paths\\StarCitizen Launcher.exe"
                .to_string(),
            value: "Path".to_string(),
        })
    );
    assert!(engine.registry_failures().is_empty());
    assert_eq!(engine.into_outcome(), None);
}

#[test]
fn the_publisher_key_is_asked_by_its_name() {
    let engine = Discovery::new(Platform::Windows)
        .answer(Answer::Registry(Err(RegistryReadError::NotFound)));
    assert_eq!(
        engine.request(),
        Some(Request::ReadRegistry {
            key: "SOFTWARE\\Wow6432Node\\Cloud Imperium Games\\StarCitizen Launcher.exe"
                .to_string(),
            value: "InstallLocation".to_string(),
        })
    );
}

#[test]
fn an_answer_of_the_wrong_kind_leaves_the_engine_waiting() {
    let engine = Discovery::new(Platform::Windows);
    let before = engine.request();
    let engine = engine.answer(Answer::Exists(true));
    assert_eq!(engine.request(), before);
    let engine = engine.answer(Answer::Variable(Some(path(&["somewhere"]))));
    assert_eq!(engine.request(), before);
    let engine = engine.answer(Answer::Registry(Ok(path(&["opt", "rsi", "RSI Launcher"]))));
    let probing = engine.request();
    assert_eq!(
        probing,
        Some(Request::ProbePath {
            path: path(&["opt", "rsi", "StarCitizen", "LIVE", "Game.log"]),
        })
    );
    let engine = engine.answer(Answer::Registry(Ok(path(&["elsewhere"]))));
    assert_eq!(engine.request(), probing);
    let engine = engine.answer(Answer::Variable(None));
    assert_eq!(engine.request(), probing);
}

#[test]
fn an_engine_at_rest_takes_no_further_answer() {
    let engine = Discovery::new(Platform::Other).answer(Answer::Exists(true));
    assert!(engine.is_finished());
    assert_eq!(engine.into_outcome(), Some(Err(DiscoveryError::PlatformUnsupported)));

    let engine = Discovery::new(Platform::Windows)
        .answer(Answer::Registry(Ok(path(&["opt", "rsi", "RSI Launcher"]))))
        .answer(Answer::Exists(false))
        .answer(Answer::Exists(true))
        .answer(Answer::Exists(false));
    assert!(engine.is_finished());
    let engine = engine.answer(Answer::Exists(true));
    assert_eq!(
        engine.into_outcome(),
        Some(Ok(vec![log(&["opt", "rsi", "StarCitizen", "PTU", "Game.log"], Strategy::LauncherAppPath)]))
    );
}

#[test]
fn the_directory_is_probed_only_below_the_user_data_root() {
    let engine = Discovery::new(Platform::Windows)
        .answer(Answer::Registry(Ok(path(&["opt", "rsi", "RSI Launcher"]))))
        .answer(Answer::Exists(false))
        .answer(Answer::Exists(false))
        .answer(Answer::Exists(false));
    assert_eq!(
        engine.request(),
        Some(Request::ReadRegistry {
            key: PUBLISHER_KEY.to_string(),
            value: PUBLISHER_VALUE.to_string(),
        })
    );
    let engine = engine
        .answer(Answer::Registry(Err(RegistryReadError::NotFound)))
        .answer(Answer::Variable(Some(path(&["home", "pilot", "AppData", "Roaming"]))))
        .answer(Answer::Exists(false))
        .answer(Answer::Exists(false))
        .answer(Answer::Exists(false));
    assert_eq!(engine.request(), Some(Request::ProbePath { path: path(&DEFAULT_DIRECTORY) }));
    let engine = engine.answer(Answer::Exists(true));
    assert_eq!(
        engine.into_outcome(),
        Some(Ok(vec![log(&DEFAULT_DIRECTORY, Strategy::DirectoryOnly)]))
    );
}

#[test]
fn the_command_reports_paths_as_plain_strings() {
    let host = rich_host();
    assert_eq!(
        host.command(Platform::Windows),
        Ok(vec![path(&["opt", "rsi", "StarCitizen", "LIVE", "Game.log"])])
    );
}

#[test]
fn the_command_reports_failures_as_sentences() {
    assert_eq!(
        FakeHost::new().command(Platform::Windows),
        Err("Could not find Star Citizen installation or logs".to_string())
    );
    assert_eq!(
        rich_host().command(Platform::Other),
        Err("Star Citizen is only available on Windows".to_string())
    );
}

#[test]
fn error_messages_are_fixed() {
    assert_eq!(
        DiscoveryError::NotFound.message(),
        "Could not find Star Citizen installation or logs"
    );
    assert_eq!(
        DiscoveryError::PlatformUnsupported.message(),
        "Star Citizen is only available on Windows"
    );
}

#[test]
fn a_reply_keeps_the_order_and_drops_the_tags() {
    let found = vec![
        log(&["a", "LIVE", "Game.log"], Strategy::PublisherInstallLocation),
        log(&["a", "HOTFIX", "Game.log"], Strategy::PublisherInstallLocation),
    ];
    assert_eq!(
        command_reply(Ok(found)),
        Ok(vec![path(&["a", "LIVE", "Game.log"]), path(&["a", "HOTFIX", "Game.log"])])
    );
    assert_eq!(command_reply(Ok(Vec::new())), Ok(Vec::new()));
    assert_eq!(
        command_reply(Err(DiscoveryError::NotFound)),
        Err("Could not find Star Citizen installation or logs".to_string())
    );
}
