use sc_companion::location::{
    root_from, tier_log, LOG_FILE_NAME, PRODUCT_DIRECTORY, PUBLISHER_DIRECTORY,
};
use sc_companion::strategy::{Source, Strategy};
use sc_companion::tier::EnvironmentTier;

fn rooted(parts: &[&str]) -> String {
    let mut text = String::new();
    for part in parts {
        text.push(std::path::MAIN_SEPARATOR);
        text.push_str(part);
    }
    text
}

#[test]
fn fixed_names() {
    assert_eq!(PRODUCT_DIRECTORY, "StarCitizen");
    assert_eq!(PUBLISHER_DIRECTORY, "Roberts Space Industries");
    assert_eq!(LOG_FILE_NAME, "Game.log");
}

#[test]
fn tier_directories_and_order() {
    assert_eq!(EnvironmentTier::first(), EnvironmentTier::Live);
    assert_eq!(EnvironmentTier::Live.directory_name(), "LIVE");
    assert_eq!(EnvironmentTier::Ptu.directory_name(), "PTU");
    assert_eq!(EnvironmentTier::Hotfix.directory_name(), "HOTFIX");
    assert_eq!(EnvironmentTier::Live.next(), Some(EnvironmentTier::Ptu));
    assert_eq!(EnvironmentTier::Ptu.next(), Some(EnvironmentTier::Hotfix));
    assert_eq!(EnvironmentTier::Hotfix.next(), None);
}

#[test]
fn sources_and_their_tags() {
    assert_eq!(Source::first(), Source::LauncherAppPath);
    assert_eq!(Source::LauncherAppPath.next(), Some(Source::PublisherInstallLocation));
    assert_eq!(Source::PublisherInstallLocation.next(), Some(Source::UserDataDirectory));
    assert_eq!(Source::UserDataDirectory.next(), None);
    assert_eq!(Source::LauncherAppPath.strategy(), Strategy::LauncherAppPath);
    assert_eq!(Source::PublisherInstallLocation.strategy(), Strategy::PublisherInstallLocation);
    assert_eq!(Source::UserDataDirectory.strategy(), Strategy::UserDataDirectory);
    assert!(Source::LauncherAppPath.is_registry());
    assert!(Source::PublisherInstallLocation.is_registry());
    assert!(!Source::UserDataDirectory.is_registry());
}

#[test]
fn tier_log_lies_two_levels_below_the_root() {
    let root = rooted(&["games", "StarCitizen"]);
    assert_eq!(
        tier_log(&root, EnvironmentTier::Live),
        rooted(&["games", "StarCitizen", "LIVE", "Game.log"])
    );
    assert_eq!(
        tier_log(&root, EnvironmentTier::Ptu),
        rooted(&["games", "StarCitizen", "PTU", "Game.log"])
    );
    assert_eq!(
        tier_log(&root, EnvironmentTier::Hotfix),
        rooted(&["games", "StarCitizen", "HOTFIX", "Game.log"])
    );
}

#[test]
fn launcher_root_lies_beside_the_launcher() {
    assert_eq!(
        root_from(Source::LauncherAppPath, &rooted(&["opt", "rsi", "RSI Launcher"])),
        Some(rooted(&["opt", "rsi", "StarCitizen"]))
    );
}

#[test]
fn launcher_path_without_parent_gives_no_root() {
    assert_eq!(root_from(Source::LauncherAppPath, ""), None);
    assert_eq!(root_from(Source::LauncherAppPath, &rooted(&[""])), None);
}

#[test]
fn publisher_root_lies_in_the_install_location() {
    assert_eq!(
        root_from(Source::PublisherInstallLocation, &rooted(&["games", "cig"])),
        Some(rooted(&["games", "cig", "StarCitizen"]))
    );
}

#[test]
fn user_data_root_lies_below_the_publisher_folder() {
    assert_eq!(
        root_from(Source::UserDataDirectory, &rooted(&["home", "pilot", "AppData", "Roaming"])),
        Some(rooted(&[
            "home",
            "pilot",
            "AppData",
            "Roaming",
            "Roberts Space Industries",
            "StarCitizen"
        ]))
    );
}
