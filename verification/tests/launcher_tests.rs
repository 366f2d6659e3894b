use modtool_core::launcher::{
    current_timestamp_rfc3339, make_entry, registration_key, LauncherConfig, LauncherEntry,
};
use modtool_core::manifest::ModLoader;

fn entry(key: &str) -> LauncherEntry {
    make_entry(
        key.to_string(),
        "Alpha",
        "1.20.1-forge-47.2.0".to_string(),
        "2024-01-01T00:00:00.000Z".to_string(),
        "data:image/png;base64,AAAA".to_string(),
    )
}

#[test]
fn registration_key_is_deterministic_composite() {
    assert_eq!(
        registration_key(ModLoader::Fabric, "1.20.1", 0),
        "modtool-rs-fabric-1.20.1-0"
    );
    assert_eq!(
        registration_key(ModLoader::Forge, "1.19.2", 42),
        "modtool-rs-forge-1.19.2-42"
    );
    assert_eq!(
        registration_key(ModLoader::Forge, "1.19.2", -3),
        "modtool-rs-forge-1.19.2--3"
    );
}

#[test]
fn writing_same_key_twice_keeps_one_entry() {
    let mut config = LauncherConfig::new();
    let key = registration_key(ModLoader::Fabric, "1.20.1", 0);
    config.insert_if_absent(entry(key.as_str()));
    config.insert_if_absent(entry(key.as_str()));
    assert_eq!(config.len(), 1);
    assert!(config.contains_key(key.as_str()));

    let mut with_key = 0;
    for i in 0..config.len() {
        if config.entry(i).key == key {
            with_key += 1;
        }
    }
    assert_eq!(with_key, 1);
}

#[test]
fn existing_entry_is_not_overwritten() {
    let mut config = LauncherConfig::new();
    let mut first = entry("modtool-rs-fabric-1.20.1-0");
    first.name = "Original".to_string();
    config.insert_if_absent(first);

    let mut second = entry("modtool-rs-fabric-1.20.1-0");
    second.name = "Replacement".to_string();
    config.insert_if_absent(second);

    assert_eq!(config.len(), 1);
    assert_eq!(config.entry(0).name, "Original");
}

#[test]
fn distinct_keys_accumulate() {
    let mut config = LauncherConfig::new();
    config.insert_if_absent(entry("modtool-rs-fabric-1.20.1-0"));
    config.insert_if_absent(entry("modtool-rs-forge-1.20.1-1"));
    config.insert_if_absent(entry("modtool-rs-fabric-1.19.2-0"));
    assert_eq!(config.len(), 3);
    assert!(config.contains_key("modtool-rs-forge-1.20.1-1"));
    assert!(!config.contains_key("modtool-rs-forge-1.18.2-9"));
}

#[test]
fn fresh_entry_carries_fixed_fields() {
    let e = entry("modtool-rs-forge-1.20.1-5");
    assert_eq!(e.key, "modtool-rs-forge-1.20.1-5");
    assert_eq!(e.name, "Alpha (ModTool RS)");
    assert_eq!(e.created, "2024-01-01T00:00:00.000Z");
    assert_eq!(e.last_used, "1970-01-02T00:00:00.000Z");
    assert_eq!(e.version_label, "1.20.1-forge-47.2.0");
    assert_eq!(e.kind, "custom");
    assert!(e.java_args.starts_with("-Dterminal.jline=false"));
    assert!(e.java_args.ends_with("-Daikars.new.flags=true"));
    assert!(e.icon.starts_with("data:image/png;base64,"));
}

#[test]
fn timestamp_looks_like_rfc3339_utc() {
    let t = current_timestamp_rfc3339();
    // e.g. 2024-05-17T12:34:56.789Z
    assert!(t.len() >= 20);
    assert!(t.ends_with('Z'));
    assert_eq!(&t[4..5], "-");
    assert_eq!(&t[10..11], "T");
}
