use modtool_core::installer::{
    fabric_installer_url, fabric_label, fabric_version_of, forge_installer_url,
    forge_profile_name, lookup_forge_build, parse_forge_index, ForgeVersion, Installer,
    InstallerAction, InstallerPhase,
};
use modtool_core::manifest::{ModLoader, ParseError};

fn listing(names: &[&str]) -> Vec<String> {
    names.iter().map(|s| s.to_string()).collect()
}

#[test]
fn forge_index_parses_and_resolves() {
    let text = r#"[
        {"minecraft": "1.19.2", "forge": "43.2.0"},
        {"minecraft": "1.20.1", "forge": "47.1.0"},
        {"minecraft": "1.20.1", "forge": "47.2.0"}
    ]"#;
    let index = parse_forge_index(text).unwrap();
    assert_eq!(index.len(), 3);
    // The last matching row wins, as in a linear overwrite scan.
    assert_eq!(lookup_forge_build(&index, "1.20.1").unwrap(), "47.2.0");
    assert_eq!(lookup_forge_build(&index, "1.19.2").unwrap(), "43.2.0");
    assert!(lookup_forge_build(&index, "1.7.10").is_none());
}

#[test]
fn forge_index_rejects_bad_documents() {
    assert!(matches!(parse_forge_index("nonsense"), Err(ParseError::Syntax)));
    assert!(matches!(parse_forge_index(r#"{"a": 1}"#), Err(ParseError::Shape)));
    assert!(matches!(
        parse_forge_index(r#"[{"minecraft": "1.20.1"}]"#),
        Err(ParseError::Shape)
    ));
}

#[test]
fn urls_and_names_are_templated_exactly() {
    assert_eq!(
        forge_profile_name("1.20.1", "47.2.0"),
        "1.20.1-forge-47.2.0"
    );
    assert_eq!(
        forge_installer_url("1.20.1", "47.2.0"),
        "https://maven.minecraftforge.net/net/minecraftforge/forge/1.20.1-47.2.0/forge-1.20.1-47.2.0-installer.jar"
    );
    assert_eq!(
        fabric_installer_url(),
        "https://maven.fabricmc.net/net/fabricmc/fabric-installer/0.11.0/fabric-installer-0.11.0.jar"
    );
}

#[test]
fn fabric_version_is_third_dash_field() {
    assert_eq!(fabric_version_of("fabric-loader-0.14.21-1.19.2"), "0.14.21");
    assert_eq!(fabric_version_of("fabric-loader"), "unknown");
    assert_eq!(fabric_label("0.14.21", "1.19.2"), "Fabric 0.14.21 for Minecraft 1.19.2");
}

#[test]
fn present_fabric_installation_is_detected_without_fetching() {
    let (mut inst, first) = Installer::start(ModLoader::Fabric, "1.19.2".to_string());
    assert!(matches!(first, InstallerAction::ScanVersions));
    assert!(matches!(inst.phase, InstallerPhase::Detecting));

    let names = listing(&["1.19.2", "fabric-loader-0.14.21-1.19.2", "1.20.1-forge-47.2.0"]);
    let action = inst.on_listing(&names);

    // Detection succeeded: the invocation is over, nothing was fetched and
    // nothing was spawned; the only remaining action is the mods clear.
    assert!(matches!(action, InstallerAction::ClearMods));
    assert!(matches!(inst.phase, InstallerPhase::Done));
    assert!(inst.success);
    assert_eq!(inst.version_label, "Fabric 0.14.21 for Minecraft 1.19.2");
}

#[test]
fn present_forge_installation_is_detected_by_exact_name() {
    let (mut inst, first) = Installer::start(ModLoader::Forge, "1.20.1".to_string());
    assert!(matches!(first, InstallerAction::FetchIndex));

    let index = vec![ForgeVersion {
        minecraft: "1.20.1".to_string(),
        forge: "47.2.0".to_string(),
    }];
    let action = inst.on_index(&index);
    assert!(matches!(action, InstallerAction::ScanVersions));

    let names = listing(&["fabric-loader-0.14.21-1.20.1", "1.20.1-forge-47.2.0"]);
    let action = inst.on_listing(&names);
    assert!(matches!(action, InstallerAction::ClearMods));
    assert!(matches!(inst.phase, InstallerPhase::Done));
    assert!(inst.success);
    assert_eq!(inst.version_label, "1.20.1-forge-47.2.0");
}

#[test]
fn absent_forge_installation_is_installed_then_redetected() {
    let (mut inst, _) = Installer::start(ModLoader::Forge, "1.20.1".to_string());
    let index = vec![ForgeVersion {
        minecraft: "1.20.1".to_string(),
        forge: "47.2.0".to_string(),
    }];
    inst.on_index(&index);

    // First detection misses: the installer artifact is fetched and run.
    let action = inst.on_listing(&listing(&["1.19.2"]));
    match action {
        InstallerAction::FetchAndRun(url) => assert_eq!(
            url,
            "https://maven.minecraftforge.net/net/minecraftforge/forge/1.20.1-47.2.0/forge-1.20.1-47.2.0-installer.jar"
        ),
        _ => panic!("expected the installer artifact to be fetched"),
    }
    assert!(matches!(inst.phase, InstallerPhase::Installing));

    let action = inst.on_installer_ran();
    assert!(matches!(action, InstallerAction::ScanVersions));

    // The second detection finds the installation.
    let action = inst.on_listing(&listing(&["1.19.2", "1.20.1-forge-47.2.0"]));
    assert!(matches!(action, InstallerAction::ClearMods));
    assert!(inst.success);
}

#[test]
fn second_detection_miss_is_terminal_failure() {
    let (mut inst, _) = Installer::start(ModLoader::Fabric, "1.19.2".to_string());
    let action = inst.on_listing(&listing(&[]));
    assert!(matches!(action, InstallerAction::FetchAndRun(_)));
    inst.on_installer_ran();
    let action = inst.on_listing(&listing(&[]));
    assert!(matches!(action, InstallerAction::Finished));
    assert!(matches!(inst.phase, InstallerPhase::Done));
    assert!(!inst.success);
}

#[test]
fn missing_version_index_entry_is_rejected() {
    let (mut inst, _) = Installer::start(ModLoader::Forge, "1.7.10".to_string());
    let index = vec![ForgeVersion {
        minecraft: "1.20.1".to_string(),
        forge: "47.2.0".to_string(),
    }];
    // No row pins a build to the requested game version: the invocation
    // fails instead of templating a URL with an empty build.
    let action = inst.on_index(&index);
    assert!(matches!(action, InstallerAction::Finished));
    assert!(matches!(inst.phase, InstallerPhase::Done));
    assert!(!inst.success);
}

#[test]
fn index_fetch_failure_is_terminal() {
    let (mut inst, _) = Installer::start(ModLoader::Forge, "1.20.1".to_string());
    let action = inst.on_index_failed();
    assert!(matches!(action, InstallerAction::Finished));
    assert!(!inst.success);
}

#[test]
fn installer_spawn_failure_is_terminal() {
    let (mut inst, _) = Installer::start(ModLoader::Fabric, "1.19.2".to_string());
    inst.on_listing(&listing(&[]));
    let action = inst.on_installer_failed();
    assert!(matches!(action, InstallerAction::Finished));
    assert!(!inst.success);
}
