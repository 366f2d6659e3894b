use modtool_core::manifest::{Manifest, ModLoader};
use modtool_core::pipeline::{PipelineState, Stage};
use modtool_core::runtime::{runtime_status, RuntimeStatus};

fn loaded_pipeline(manifest_text: &str) -> PipelineState {
    let manifest = Manifest::load(manifest_text).unwrap();
    let mut p = PipelineState::new();
    assert!(p.on_manifest_loaded(manifest));
    p
}

#[test]
fn single_empty_profile_reaches_completion_immediately() {
    // One Fabric profile for 1.20.1 with no mods: the download stage starts
    // with zero tasks and is immediately eligible for completion.
    let text = r#"{"profiles": [
        {"meta": {"name": "Test", "loader": "Fabric", "version": "1.20.1", "id": 0}, "mods": []}
    ]}"#;
    let mut p = loaded_pipeline(text);
    assert!(matches!(p.stage, Stage::Home));

    p.proceed_from_home();
    assert!(matches!(p.stage, Stage::RuntimeCheck));

    p.on_runtime_check(&runtime_status(Some("openjdk 17.0.2 2022-01-18\nmore")));
    assert!(matches!(p.stage, Stage::ProfileSelect));

    p.select_profile(0);
    p.proceed_to_install();
    assert!(matches!(p.stage, Stage::LoaderInstall(ModLoader::Fabric)));

    p.on_install_finished(true);
    assert!(matches!(p.stage, Stage::Download));
    assert_eq!(p.downloads.len(), 0);

    assert!(p.finish_downloads());
    assert!(matches!(p.stage, Stage::Complete));
}

#[test]
fn empty_manifest_is_not_accepted() {
    let manifest = Manifest::load(r#"{"profiles": []}"#).unwrap();
    let mut p = PipelineState::new();
    assert!(!p.on_manifest_loaded(manifest));
    assert!(matches!(p.stage, Stage::ManifestFetch));
}

#[test]
fn absent_runtime_halts_the_pipeline() {
    let text = r#"{"profiles": [
        {"meta": {"name": "Test", "loader": "Forge", "version": "1.20.1", "id": 0}, "mods": []}
    ]}"#;
    let mut p = loaded_pipeline(text);
    p.proceed_from_home();

    let status = runtime_status(None);
    assert!(!status.present);
    assert_eq!(status.version, "");
    p.on_runtime_check(&status);
    assert!(matches!(p.stage, Stage::RuntimeCheck));
}

#[test]
fn runtime_version_is_first_output_line() {
    let status = runtime_status(Some("openjdk 17.0.2 2022-01-18\nOpenJDK Runtime Environment"));
    assert!(status.present);
    assert_eq!(status.version, "openjdk 17.0.2 2022-01-18");
}

#[test]
fn install_branches_on_selected_loader() {
    let text = r#"{"profiles": [
        {"meta": {"name": "A", "loader": "Fabric", "version": "1.20.1", "id": 0}, "mods": []},
        {"meta": {"name": "B", "loader": "Forge", "version": "1.19.2", "id": 1}, "mods": []}
    ]}"#;
    let mut p = loaded_pipeline(text);
    p.proceed_from_home();
    p.on_runtime_check(&RuntimeStatus { present: true, version: "17".to_string() });
    p.select_profile(1);
    p.proceed_to_install();
    assert!(matches!(p.stage, Stage::LoaderInstall(ModLoader::Forge)));
}

#[test]
fn unknown_profile_id_falls_back_to_first() {
    let text = r#"{"profiles": [
        {"meta": {"name": "A", "loader": "Fabric", "version": "1.20.1", "id": 0}, "mods": []},
        {"meta": {"name": "B", "loader": "Forge", "version": "1.19.2", "id": 1}, "mods": []}
    ]}"#;
    let mut p = loaded_pipeline(text);
    p.proceed_from_home();
    p.on_runtime_check(&RuntimeStatus { present: true, version: "17".to_string() });
    p.select_profile(99);
    p.proceed_to_install();
    assert!(matches!(p.stage, Stage::LoaderInstall(ModLoader::Fabric)));
}

#[test]
fn failed_install_allows_retry_or_backing_out() {
    let text = r#"{"profiles": [
        {"meta": {"name": "A", "loader": "Fabric", "version": "1.20.1", "id": 0}, "mods": []}
    ]}"#;
    let mut p = loaded_pipeline(text);
    p.proceed_from_home();
    p.on_runtime_check(&RuntimeStatus { present: true, version: "17".to_string() });
    p.proceed_to_install();

    p.on_install_finished(false);
    assert!(matches!(p.stage, Stage::LoaderInstall(_)));

    p.back_to_profiles();
    assert!(matches!(p.stage, Stage::ProfileSelect));
}

#[test]
fn download_stage_materializes_one_task_per_mod() {
    let text = r#"{"profiles": [
        {"meta": {"name": "A", "loader": "Fabric", "version": "1.20.1", "id": 0},
         "mods": [
            {"name": "a", "url": "https://example.com/a.jar", "version": "1", "provider": "Modrinth", "size": 10},
            {"name": "b", "url": "https://example.com/b.jar", "version": "2", "provider": "CurseForge", "size": 20}
         ]}
    ]}"#;
    let mut p = loaded_pipeline(text);
    p.proceed_from_home();
    p.on_runtime_check(&RuntimeStatus { present: true, version: "17".to_string() });
    p.proceed_to_install();
    p.on_install_finished(true);
    assert_eq!(p.downloads.len(), 2);
    assert_eq!(p.downloads.task(0).name, "a");
    assert_eq!(p.downloads.task(1).source_url, "https://example.com/b.jar");

    // Tasks still pending: the run cannot be declared complete.
    assert!(!p.finish_downloads());
    assert!(matches!(p.stage, Stage::Download));

    p.downloads.start(0);
    p.downloads.complete(0);
    p.downloads.start(1);
    p.downloads.complete(1);
    assert!(p.finish_downloads());
    assert!(matches!(p.stage, Stage::Complete));

    p.back_to_profiles();
    assert!(matches!(p.stage, Stage::ProfileSelect));
}
