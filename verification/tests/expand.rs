use std::io::{Cursor, Write};

use marvel_rivals_mod_manager::archive::ExpandAction;
use marvel_rivals_mod_manager::errors::ArchiveError;
use marvel_rivals_mod_manager::ModManager;
use zip::write::SimpleFileOptions;
use zip::ZipWriter;

fn build_zip(entries: &[(&str, Option<&[u8]>)]) -> Vec<u8> {
    let mut writer = ZipWriter::new(Cursor::new(Vec::new()));
    let options = SimpleFileOptions::default();
    for (name, data) in entries {
        match data {
            Some(bytes) => {
                writer.start_file(*name, options).unwrap();
                writer.write_all(bytes).unwrap();
            }
            None => {
                writer.add_directory(*name, options).unwrap();
            }
        }
    }
    writer.finish().unwrap().into_inner()
}

#[test]
fn zip_expands_files_byte_for_byte() {
    let a_json: &[u8] = b"{\"k\": 1}";
    let b_bin: &[u8] = &[0u8, 17, 255, 3, 42];
    let bytes = build_zip(&[("a.json", Some(a_json)), ("sub/b.bin", Some(b_bin))]);
    let path = "mods/pack.zip".to_string();
    let ops = ModManager::extract_archive(&path, true, Some(bytes)).unwrap();
    assert_eq!(
        ops,
        vec![
            ExpandAction::MakeDir {
                path: "mods".to_string()
            },
            ExpandAction::WriteFile {
                path: "mods/a.json".to_string(),
                data: a_json.to_vec()
            },
            ExpandAction::MakeDir {
                path: "mods/sub".to_string()
            },
            ExpandAction::WriteFile {
                path: "mods/sub/b.bin".to_string(),
                data: b_bin.to_vec()
            },
        ]
    );
}

#[test]
fn zip_directory_entry_becomes_directory_create() {
    let bytes = build_zip(&[("d", None), ("d/x.pak", Some(b"pak-bytes"))]);
    let path = "m/arch.zip".to_string();
    let ops = ModManager::extract_archive(&path, true, Some(bytes)).unwrap();
    assert_eq!(
        ops,
        vec![
            ExpandAction::MakeDir {
                path: "m/d/".to_string()
            },
            ExpandAction::MakeDir {
                path: "m/d".to_string()
            },
            ExpandAction::WriteFile {
                path: "m/d/x.pak".to_string(),
                data: b"pak-bytes".to_vec()
            },
        ]
    );
}

#[test]
fn non_file_is_invalid_input() {
    let path = "mods/somedir.zip".to_string();
    assert_eq!(
        ModManager::extract_archive(&path, false, None).unwrap_err(),
        ArchiveError::InvalidInput
    );
}

#[test]
fn unknown_extension_is_unsupported_format() {
    let path = "mods/thing.rar".to_string();
    assert_eq!(
        ModManager::extract_archive(&path, true, None).unwrap_err(),
        ArchiveError::UnsupportedFormat
    );
}

#[test]
fn bare_extension_name_is_unsupported_format() {
    let path = ".zip".to_string();
    assert_eq!(
        ModManager::extract_archive(&path, true, Some(Vec::new())).unwrap_err(),
        ArchiveError::UnsupportedFormat
    );
}

#[test]
fn unreadable_zip_bytes_are_an_extraction_error() {
    let path = "mods/broken.zip".to_string();
    assert_eq!(
        ModManager::extract_archive(&path, true, Some(b"not a zip archive".to_vec()))
            .unwrap_err(),
        ArchiveError::Extraction {
            path: "mods/broken.zip".to_string()
        }
    );
}

#[test]
fn undecodable_entry_names_the_offending_path() {
    let mut bytes = build_zip(&[("bad.pak", Some(b"payload"))]);
    // Rewrite the entry's compression method, in the local header (offset 8
    // after PK\x03\x04) and the central directory (offset 10 after
    // PK\x01\x02), to bzip2, which this build of the zip reader does not
    // support: the archive still opens, but the entry cannot be decoded.
    let mut i = 0;
    while i + 12 <= bytes.len() {
        if bytes[i..i + 4] == [0x50, 0x4b, 0x03, 0x04] {
            bytes[i + 8] = 12;
            bytes[i + 9] = 0;
        }
        if bytes[i..i + 4] == [0x50, 0x4b, 0x01, 0x02] {
            bytes[i + 10] = 12;
            bytes[i + 11] = 0;
        }
        i += 1;
    }
    let path = "mods/arch.zip".to_string();
    assert_eq!(
        ModManager::extract_archive(&path, true, Some(bytes)).unwrap_err(),
        ArchiveError::Extraction {
            path: "mods/bad.pak".to_string()
        }
    );
}

#[test]
fn sevenz_archive_is_delegated_whole() {
    let path = "mods/pack.7z".to_string();
    let ops = ModManager::extract_archive(&path, true, None).unwrap();
    assert_eq!(
        ops,
        vec![ExpandAction::Decompress7z {
            archive: "mods/pack.7z".to_string(),
            dest: "mods".to_string()
        }]
    );
}

#[test]
fn archives_to_expand_picks_archive_files() {
    let files = vec![
        "mods/a.zip".to_string(),
        "mods/b.7z".to_string(),
        "mods/c.pak".to_string(),
        "mods/notes.txt".to_string(),
        "mods/.zip".to_string(),
    ];
    assert_eq!(
        ModManager::archives_to_expand(&files),
        vec!["mods/a.zip".to_string(), "mods/b.7z".to_string()]
    );
}
