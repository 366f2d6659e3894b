use modtool_core::manifest::{
    Manifest, ModLoader, ModProvider, ModRef, ParseError, Profile, ProfileMeta,
};

fn mod_ref(name: &str, url: &str) -> ModRef {
    ModRef {
        name: name.to_string(),
        source_url: url.to_string(),
        version: "1.0.0".to_string(),
        provider: ModProvider::Modrinth,
        declared_size: 1000,
    }
}

fn profile(id: i32, name: &str, loader: ModLoader, game_version: &str, mods: Vec<ModRef>) -> Profile {
    Profile {
        meta: ProfileMeta {
            name: name.to_string(),
            loader,
            game_version: game_version.to_string(),
            id,
        },
        mods,
    }
}

#[test]
fn lookup_returns_matching_profile() {
    let m = Manifest {
        profiles: vec![
            profile(0, "Alpha", ModLoader::Fabric, "1.20.1", vec![]),
            profile(7, "Beta", ModLoader::Forge, "1.19.2", vec![]),
            profile(3, "Gamma", ModLoader::Fabric, "1.18.2", vec![]),
        ],
    };
    let p = m.lookup(7);
    assert_eq!(p.meta.id, 7);
    assert_eq!(p.meta.name, "Beta");
}

#[test]
fn lookup_falls_back_to_first_profile() {
    let m = Manifest {
        profiles: vec![
            profile(4, "Alpha", ModLoader::Fabric, "1.20.1", vec![]),
            profile(9, "Beta", ModLoader::Forge, "1.19.2", vec![]),
        ],
    };
    let p = m.lookup(123);
    assert_eq!(p.meta.id, 4);
    assert_eq!(p.meta.name, "Alpha");
}

#[test]
fn lookup_returns_first_of_equal_candidates() {
    let m = Manifest {
        profiles: vec![
            profile(1, "First", ModLoader::Fabric, "1.20.1", vec![]),
            profile(2, "Second", ModLoader::Forge, "1.19.2", vec![]),
        ],
    };
    assert_eq!(m.lookup(1).meta.name, "First");
    assert_eq!(m.lookup(2).meta.name, "Second");
}

#[test]
fn load_accepts_wellformed_manifest() {
    let text = r#"{
        "profiles": [
            {
                "meta": {"name": "Alpha", "loader": "Fabric", "version": "1.20.1", "id": 0},
                "mods": [
                    {"name": "Sodium", "url": "https://example.com/files/sodium.jar",
                     "version": "0.5.8", "provider": "Modrinth", "size": 850000}
                ]
            },
            {
                "meta": {"name": "Beta", "loader": "Forge", "version": "1.19.2", "id": 1},
                "mods": []
            }
        ]
    }"#;
    let m = Manifest::load(text).unwrap();
    assert_eq!(m.profiles.len(), 2);
    assert_eq!(m.profiles[0].meta.name, "Alpha");
    assert!(matches!(m.profiles[0].meta.loader, ModLoader::Fabric));
    assert_eq!(m.profiles[0].meta.game_version, "1.20.1");
    assert_eq!(m.profiles[0].meta.id, 0);
    assert_eq!(m.profiles[0].mods.len(), 1);
    assert_eq!(m.profiles[0].mods[0].name, "Sodium");
    assert_eq!(
        m.profiles[0].mods[0].source_url,
        "https://example.com/files/sodium.jar"
    );
    assert!(matches!(m.profiles[0].mods[0].provider, ModProvider::Modrinth));
    assert_eq!(m.profiles[0].mods[0].declared_size, 850000);
    assert!(matches!(m.profiles[1].meta.loader, ModLoader::Forge));
}

#[test]
fn load_rejects_malformed_json() {
    let r = Manifest::load("{ not json");
    assert!(matches!(r, Err(ParseError::Syntax)));
}

#[test]
fn load_rejects_missing_profiles_field() {
    let r = Manifest::load(r#"{"entries": []}"#);
    assert!(matches!(r, Err(ParseError::Shape)));
}

#[test]
fn load_rejects_unknown_loader() {
    let text = r#"{"profiles": [
        {"meta": {"name": "A", "loader": "Quilt", "version": "1.20.1", "id": 0}, "mods": []}
    ]}"#;
    assert!(matches!(Manifest::load(text), Err(ParseError::Shape)));
}

#[test]
fn load_rejects_unknown_provider() {
    let text = r#"{"profiles": [
        {"meta": {"name": "A", "loader": "Fabric", "version": "1.20.1", "id": 0},
         "mods": [{"name": "m", "url": "u", "version": "v", "provider": "Elsewhere", "size": 1}]}
    ]}"#;
    assert!(matches!(Manifest::load(text), Err(ParseError::Shape)));
}

#[test]
fn load_rejects_duplicate_profile_ids() {
    let text = r#"{"profiles": [
        {"meta": {"name": "A", "loader": "Fabric", "version": "1.20.1", "id": 3}, "mods": []},
        {"meta": {"name": "B", "loader": "Forge", "version": "1.19.2", "id": 3}, "mods": []}
    ]}"#;
    assert!(matches!(Manifest::load(text), Err(ParseError::DuplicateId)));
}

#[test]
fn load_rejects_out_of_range_id() {
    let text = r#"{"profiles": [
        {"meta": {"name": "A", "loader": "Fabric", "version": "1.20.1", "id": 4294967296}, "mods": []}
    ]}"#;
    assert!(matches!(Manifest::load(text), Err(ParseError::Shape)));
}

#[test]
fn load_accepts_every_known_provider() {
    let text = r#"{"profiles": [
        {"meta": {"name": "A", "loader": "Fabric", "version": "1.20.1", "id": 0},
         "mods": [
            {"name": "a", "url": "u", "version": "v", "provider": "CurseForge", "size": 1},
            {"name": "b", "url": "u", "version": "v", "provider": "Modrinth", "size": 2},
            {"name": "c", "url": "u", "version": "v", "provider": "Creator", "size": 3},
            {"name": "d", "url": "u", "version": "v", "provider": "Unknown", "size": 4}
         ]}
    ]}"#;
    let m = Manifest::load(text).unwrap();
    let mods = &m.profiles[0].mods;
    assert!(matches!(mods[0].provider, ModProvider::CurseForge));
    assert!(matches!(mods[1].provider, ModProvider::Modrinth));
    assert!(matches!(mods[2].provider, ModProvider::Creator));
    assert!(matches!(mods[3].provider, ModProvider::Unknown));
}

#[test]
fn mods_summary_reports_counts() {
    let none = profile(0, "A", ModLoader::Fabric, "1.20.1", vec![]);
    assert_eq!(none.mods_summary(), "No mods.");

    let one = profile(1, "B", ModLoader::Fabric, "1.20.1", vec![mod_ref("Sodium", "u")]);
    assert_eq!(one.mods_summary(), "Sodium");

    let three = profile(
        2,
        "C",
        ModLoader::Fabric,
        "1.20.1",
        vec![mod_ref("Sodium", "u"), mod_ref("Lithium", "u"), mod_ref("Phosphor", "u")],
    );
    assert_eq!(three.mods_summary(), "Sodium and 2 other mods");
}
