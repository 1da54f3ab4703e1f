use marvel_rivals_mod_manager::errors::ParseError;
use marvel_rivals_mod_manager::mod_types::{classify_and_build, EntryInfo, EntryKind};
use marvel_rivals_mod_manager::{ModType, Modification, Pak};

fn dir_entry(path: &str, has_paks: bool, manifest: Option<&str>) -> EntryInfo {
    EntryInfo {
        path: path.to_string(),
        kind: EntryKind::Dir {
            has_paks,
            manifest: manifest.map(|m| m.to_string()),
        },
    }
}

fn file_entry(path: &str) -> EntryInfo {
    EntryInfo {
        path: path.to_string(),
        kind: EntryKind::File,
    }
}

const COMPLETE_MANIFEST: &str = r#"{
    "name": "Cool Skin",
    "description": "A very cool skin.",
    "author": "someone",
    "version": "1.2",
    "unknown_field": [1, 2, {"ignored": true}]
}"#;

#[test]
fn complete_mod_round_trips_manifest_fields() {
    let entry = dir_entry("mods/CoolSkin", false, Some(COMPLETE_MANIFEST));
    let built = classify_and_build(&entry).unwrap().unwrap();
    match built {
        ModType::Complete(m) => {
            assert_eq!(m.name, "Cool Skin");
            assert_eq!(m.description, "A very cool skin.");
            assert_eq!(m.author, "someone");
            assert_eq!(m.version, "1.2");
            assert_eq!(m.file_path, "mods/CoolSkin");
            assert!(!m.enabled);
        }
        _ => panic!("expected a complete mod"),
    }
}

#[test]
fn complete_manifest_missing_field_is_parse_error() {
    let manifest = r#"{"name": "n", "description": "d", "author": "a"}"#;
    let entry = dir_entry("mods/NoVersion", false, Some(manifest));
    assert_eq!(
        classify_and_build(&entry).unwrap_err(),
        ParseError::ManifestParseError
    );
}

#[test]
fn complete_manifest_wrong_type_is_parse_error() {
    let manifest = r#"{"name": 3, "description": "d", "author": "a", "version": "1"}"#;
    let entry = dir_entry("mods/BadName", false, Some(manifest));
    assert_eq!(
        classify_and_build(&entry).unwrap_err(),
        ParseError::ManifestParseError
    );
}

#[test]
fn complete_manifest_bad_json_is_parse_error() {
    let entry = dir_entry("mods/Corrupt", false, Some("{not json"));
    assert_eq!(
        classify_and_build(&entry).unwrap_err(),
        ParseError::ManifestParseError
    );
}

#[test]
fn missing_manifest_is_read_error() {
    let entry = dir_entry("mods/NoManifest", false, None);
    assert_eq!(
        classify_and_build(&entry).unwrap_err(),
        ParseError::ManifestReadError
    );
    let entry = dir_entry("mods/NoManifestMulti", true, None);
    assert_eq!(
        classify_and_build(&entry).unwrap_err(),
        ParseError::ManifestReadError
    );
}

const MULTIPAK_MANIFEST: &str = r#"{
    "author": "author-x",
    "description": "variants",
    "version": "0.3",
    "name": "Variant Pack",
    "paks": [
        {"name": "Red", "description": "red one", "images": ["red.png"], "pak": "red.pak"},
        {"name": "Blue", "description": "blue one", "images": [], "pak": "blue.pak"},
        {"name": "Green", "description": "green one", "images": ["g1.png", "g2.png"], "pak": "green.pak"}
    ]
}"#;

#[test]
fn multipak_descriptor_resolves_entries() {
    let entry = dir_entry("mods/Variants", true, Some(MULTIPAK_MANIFEST));
    let built = classify_and_build(&entry).unwrap().unwrap();
    match built {
        ModType::MultiPak(m) => {
            assert_eq!(m.author, "author-x");
            assert_eq!(m.description, "variants");
            assert_eq!(m.version, "0.3");
            assert_eq!(m.name, "Variant Pack");
            assert_eq!(m.path, "mods/Variants");
            assert_eq!(m.selected_pak, 0);
            assert!(!m.enabled);
            assert_eq!(m.paks.len(), 3);
            assert_eq!(m.paks[0].name, "Red");
            assert_eq!(m.paks[0].pak, "red.pak");
            assert_eq!(m.paks[0].path, "mods/Variants/paks/red.pak");
            assert_eq!(m.paks[0].images, vec!["red.png".to_string()]);
            assert_eq!(m.paks[1].path, "mods/Variants/paks/blue.pak");
            assert!(m.paks[1].images.is_empty());
            assert_eq!(m.paks[2].path, "mods/Variants/paks/green.pak");
            assert_eq!(
                m.paks[2].images,
                vec!["g1.png".to_string(), "g2.png".to_string()]
            );
        }
        _ => panic!("expected a multi-pak mod"),
    }
}

#[test]
fn multipak_entry_missing_pak_field_is_parse_error() {
    let manifest = r#"{
        "author": "a", "description": "d", "version": "1", "name": "n",
        "paks": [{"name": "x", "description": "y", "images": []}]
    }"#;
    let entry = dir_entry("mods/BadEntry", true, Some(manifest));
    assert_eq!(
        classify_and_build(&entry).unwrap_err(),
        ParseError::ManifestParseError
    );
}

#[test]
fn multipak_non_string_image_is_parse_error() {
    let manifest = r#"{
        "author": "a", "description": "d", "version": "1", "name": "n",
        "paks": [{"name": "x", "description": "y", "images": [7], "pak": "x.pak"}]
    }"#;
    let entry = dir_entry("mods/BadImages", true, Some(manifest));
    assert_eq!(
        classify_and_build(&entry).unwrap_err(),
        ParseError::ManifestParseError
    );
}

#[test]
fn multipak_empty_entry_list_parses() {
    let manifest = r#"{"author": "a", "description": "d", "version": "1", "name": "n", "paks": []}"#;
    let entry = dir_entry("mods/Empty", true, Some(manifest));
    match classify_and_build(&entry).unwrap().unwrap() {
        ModType::MultiPak(m) => {
            assert!(m.paks.is_empty());
            assert_eq!(m.selected_pak, 0);
        }
        _ => panic!("expected a multi-pak mod"),
    }
}

#[test]
fn loose_pak_from_asset_file() {
    let built = classify_and_build(&file_entry("mods/skin.pak")).unwrap().unwrap();
    match built {
        ModType::LoosePak(p) => assert_eq!(p.path().as_str(), "mods/skin.pak"),
        _ => panic!("expected a loose pak"),
    }
}

#[test]
fn non_mod_file_is_skipped_not_failed() {
    assert!(classify_and_build(&file_entry("mods/readme.txt"))
        .unwrap()
        .is_none());
    assert!(classify_and_build(&file_entry("mods/archive.zip"))
        .unwrap()
        .is_none());
}

#[test]
fn from_json_round_trips_fields() {
    let m = Modification::from_json(COMPLETE_MANIFEST.to_string()).unwrap();
    assert_eq!(m.name, "Cool Skin");
    assert_eq!(m.version, "1.2");
    assert_eq!(m.file_path, "");
    assert!(!m.enabled);
    assert!(Modification::from_json("[1, 2]".to_string()).is_err());
}

#[test]
fn pak_path_finds_first_asset_file() {
    let m = Modification::new();
    let files = vec![
        "m/readme.md".to_string(),
        "m/inner/one.pak".to_string(),
        "m/two.pak".to_string(),
    ];
    assert_eq!(m.pak_path(&files), Some("m/inner/one.pak".to_string()));
    assert_eq!(m.pak_path(&vec!["m/readme.md".to_string()]), None);
    assert_eq!(m.pak_path(&Vec::new()), None);
}

#[test]
fn pak_new_holds_only_the_file_name() {
    let p = Pak::new("thing.pak".to_string());
    assert_eq!(p.pak, "thing.pak");
    assert_eq!(p.name, "");
    assert_eq!(p.path, "");
    assert!(p.images.is_empty());
}

#[test]
fn selected_pak_returns_the_selected_entry() {
    let entry = dir_entry("mods/Variants", true, Some(MULTIPAK_MANIFEST));
    let mut m = match classify_and_build(&entry).unwrap().unwrap() {
        ModType::MultiPak(m) => m,
        _ => panic!("expected a multi-pak mod"),
    };
    assert_eq!(m.selected_pak().pak, "red.pak");
    m.selected_pak = 2;
    assert_eq!(m.selected_pak().pak, "green.pak");
}
