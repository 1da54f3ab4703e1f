use marvel_rivals_mod_manager::deploy::DeployOp;
use marvel_rivals_mod_manager::errors::{CatalogError, DeployError};
use marvel_rivals_mod_manager::mod_types::{EntryInfo, EntryKind};
use marvel_rivals_mod_manager::{ModManager, ModType};

fn dir_entry(path: &str, has_paks: bool, manifest: Option<&str>) -> EntryInfo {
    EntryInfo {
        path: path.to_string(),
        kind: EntryKind::Dir {
            has_paks,
            manifest: manifest.map(|m| m.to_string()),
        },
    }
}

fn file_entry(path: &str) -> EntryInfo {
    EntryInfo {
        path: path.to_string(),
        kind: EntryKind::File,
    }
}

const COMPLETE_MANIFEST: &str =
    r#"{"name": "Skin", "description": "d", "author": "a", "version": "1"}"#;

fn multipak_manifest() -> String {
    let entries: Vec<String> = ["a", "b", "c", "d"]
        .iter()
        .map(|n| {
            format!(
                r#"{{"name": "{n}", "description": "", "images": [], "pak": "{n}.pak"}}"#
            )
        })
        .collect();
    format!(
        r#"{{"author": "x", "description": "d", "version": "1", "name": "Multi", "paks": [{}]}}"#,
        entries.join(",")
    )
}

fn marker_children() -> Option<Vec<String>> {
    Some(vec!["Engine".to_string(), "MarvelGame".to_string()])
}

/// Carries a plan out over a pretend directory listing, the way the driver
/// does over the real one.
fn simulate(initial: &[&str], ops: &[DeployOp]) -> Vec<String> {
    let mut contents: Vec<String> = initial.iter().map(|s| s.to_string()).collect();
    for op in ops {
        match op {
            DeployOp::ClearModDir => contents.clear(),
            DeployOp::CreateModDir => {}
            DeployOp::Copy { dest_name, .. } => contents.push(dest_name.clone()),
        }
    }
    contents.sort();
    contents
}

#[test]
fn refresh_skips_corrupt_mod_keeps_valid_one() {
    let mut manager = ModManager::new();
    let listing = Some(vec![
        dir_entry("mods/Corrupt", false, Some("{broken")),
        dir_entry("mods/Valid", false, Some(COMPLETE_MANIFEST)),
    ]);
    assert!(manager.init_mods(&listing).is_ok());
    let mods = manager.modifications();
    assert_eq!(mods.len(), 1);
    match &mods[0] {
        ModType::Complete(m) => assert_eq!(m.file_path, "mods/Valid"),
        _ => panic!("expected the valid complete mod"),
    }
}

#[test]
fn refresh_over_unlistable_source_fails_and_empties() {
    let mut manager = ModManager::new();
    let listing = Some(vec![file_entry("mods/x.pak")]);
    manager.init_mods(&listing).unwrap();
    assert_eq!(manager.modifications().len(), 1);
    assert_eq!(
        manager.init_mods(&None),
        Err(CatalogError::DirectoryUnavailable)
    );
    assert!(manager.modifications().is_empty());
}

#[test]
fn refresh_replaces_the_previous_catalog() {
    let mut manager = ModManager::new();
    manager
        .init_mods(&Some(vec![
            file_entry("mods/a.pak"),
            file_entry("mods/b.pak"),
        ]))
        .unwrap();
    assert_eq!(manager.modifications().len(), 2);
    manager
        .init_mods(&Some(vec![file_entry("mods/c.pak")]))
        .unwrap();
    assert_eq!(manager.modifications().len(), 1);
}

#[test]
fn deploy_replaces_destination_with_enabled_paks() {
    let mut manager = ModManager::new();
    manager
        .init_mods(&Some(vec![
            file_entry("mods/x.pak"),
            file_entry("mods/y.pak"),
        ]))
        .unwrap();
    manager.set_enabled(0, true);
    manager.set_enabled(1, true);
    assert!(manager.deploy_ready());
    let listings = vec![Vec::new(), Vec::new()];
    let ops = manager.load_mods(&marker_children(), &listings).unwrap();
    assert_eq!(
        ops,
        vec![
            DeployOp::ClearModDir,
            DeployOp::CreateModDir,
            DeployOp::Copy {
                source: "mods/x.pak".to_string(),
                dest_name: "x.pak".to_string()
            },
            DeployOp::Copy {
                source: "mods/y.pak".to_string(),
                dest_name: "y.pak".to_string()
            },
        ]
    );
    assert_eq!(
        simulate(&["stale.pak"], &ops),
        vec!["x.pak".to_string(), "y.pak".to_string()]
    );
}

#[test]
fn disabled_mods_are_not_copied() {
    let mut manager = ModManager::new();
    manager
        .init_mods(&Some(vec![
            file_entry("mods/x.pak"),
            file_entry("mods/y.pak"),
        ]))
        .unwrap();
    manager.set_enabled(1, true);
    let listings = vec![Vec::new(), Vec::new()];
    let ops = manager.load_mods(&marker_children(), &listings).unwrap();
    assert_eq!(
        ops,
        vec![
            DeployOp::ClearModDir,
            DeployOp::CreateModDir,
            DeployOp::Copy {
                source: "mods/y.pak".to_string(),
                dest_name: "y.pak".to_string()
            },
        ]
    );
}

#[test]
fn multipak_deploys_only_the_selected_entry() {
    let mut manager = ModManager::new();
    let manifest = multipak_manifest();
    manager
        .init_mods(&Some(vec![dir_entry("mods/Multi", true, Some(&manifest))]))
        .unwrap();
    manager.set_enabled(0, true);
    assert!(manager.set_selected_pak(0, 2));
    let listings = vec![Vec::new()];
    let ops = manager.load_mods(&marker_children(), &listings).unwrap();
    assert_eq!(
        ops,
        vec![
            DeployOp::ClearModDir,
            DeployOp::CreateModDir,
            DeployOp::Copy {
                source: "mods/Multi/paks/c.pak".to_string(),
                dest_name: "c.pak".to_string()
            },
        ]
    );
}

#[test]
fn set_selected_pak_rejects_out_of_bounds() {
    let mut manager = ModManager::new();
    let manifest = multipak_manifest();
    manager
        .init_mods(&Some(vec![dir_entry("mods/Multi", true, Some(&manifest))]))
        .unwrap();
    assert!(!manager.set_selected_pak(0, 4));
    match &manager.modifications()[0] {
        ModType::MultiPak(m) => assert_eq!(m.selected_pak, 0),
        _ => panic!("expected a multi-pak mod"),
    }
}

#[test]
fn deploy_ready_rejects_enabled_empty_multipak() {
    let mut manager = ModManager::new();
    let manifest =
        r#"{"author": "a", "description": "d", "version": "1", "name": "n", "paks": []}"#;
    manager
        .init_mods(&Some(vec![dir_entry("mods/Empty", true, Some(manifest))]))
        .unwrap();
    assert!(manager.deploy_ready());
    manager.set_enabled(0, true);
    assert!(!manager.deploy_ready());
}

#[test]
fn complete_mod_asset_is_located_lazily() {
    let mut manager = ModManager::new();
    manager
        .init_mods(&Some(vec![dir_entry(
            "mods/Skin",
            false,
            Some(COMPLETE_MANIFEST),
        )]))
        .unwrap();
    manager.set_enabled(0, true);
    let listings = vec![vec![
        "mods/Skin/readme.md".to_string(),
        "mods/Skin/content/Skin.pak".to_string(),
    ]];
    let ops = manager.load_mods(&marker_children(), &listings).unwrap();
    assert_eq!(
        ops,
        vec![
            DeployOp::ClearModDir,
            DeployOp::CreateModDir,
            DeployOp::Copy {
                source: "mods/Skin/content/Skin.pak".to_string(),
                dest_name: "Skin.pak".to_string()
            },
        ]
    );
}

#[test]
fn complete_mod_without_asset_aborts_deployment() {
    let mut manager = ModManager::new();
    manager
        .init_mods(&Some(vec![dir_entry(
            "mods/Skin",
            false,
            Some(COMPLETE_MANIFEST),
        )]))
        .unwrap();
    manager.set_enabled(0, true);
    let listings = vec![vec!["mods/Skin/readme.md".to_string()]];
    assert_eq!(
        manager.load_mods(&marker_children(), &listings),
        Err(DeployError::NoAssetFound {
            path: "mods/Skin".to_string()
        })
    );
}

#[test]
fn deploy_without_marker_is_invalid_destination() {
    let mut manager = ModManager::new();
    manager
        .init_mods(&Some(vec![file_entry("mods/x.pak")]))
        .unwrap();
    manager.set_enabled(0, true);
    let listings = vec![Vec::new()];
    let children = Some(vec!["SomeOtherGame".to_string()]);
    assert_eq!(
        manager.load_mods(&children, &listings),
        Err(DeployError::InvalidDestination)
    );
    assert_eq!(
        manager.load_mods(&None, &listings),
        Err(DeployError::InvalidDestination)
    );
    // No plan came back, so the driver touches nothing: the destination's
    // contents stay exactly as they were.
    assert_eq!(simulate(&["stale.pak"], &[]), vec!["stale.pak".to_string()]);
}

#[test]
fn validate_game_directory_requires_the_marker() {
    let manager = ModManager::new();
    assert!(manager.validate_game_directory(&marker_children()));
    assert!(!manager.validate_game_directory(&Some(vec!["Other".to_string()])));
    assert!(!manager.validate_game_directory(&Some(Vec::new())));
    assert!(!manager.validate_game_directory(&None));
}

#[test]
fn game_mod_directory_sits_under_the_game_directory() {
    let mut manager = ModManager::new();
    manager.game_directory = "C:/Games/Rivals".to_string();
    assert_eq!(
        manager.game_mod_directory(),
        "C:/Games/Rivals/MarvelGame/Marvel/Content/Paks/~mods"
    );
}

#[test]
fn add_mod_destination_keeps_the_base_name() {
    let mut manager = ModManager::new();
    manager.mod_directory = "store/mods".to_string();
    assert_eq!(
        manager.add_mod_destination(&"downloads/new.zip".to_string()),
        Some("store/mods/new.zip".to_string())
    );
    assert_eq!(manager.add_mod_destination(&"downloads/".to_string()), None);
}
