use std::io::{Cursor, Write};

use lcmods::archive::prepare_payload;
use lcmods::deploy::{plan_deploy, IoStep};

fn sample_archive() -> Vec<u8> {
    let mut zip = zip::write::ZipWriter::new(Cursor::new(Vec::new()));
    let opts = zip::write::SimpleFileOptions::default();
    zip.add_directory("BepInEx", opts).unwrap();
    zip.start_file("BepInEx/core.dll", opts).unwrap();
    zip.write_all(b"core bytes").unwrap();
    zip.start_file("doorstop_config.ini", opts).unwrap();
    zip.write_all(b"enabled=true").unwrap();
    zip.finish().unwrap().into_inner()
}

#[test]
fn payload_reflects_archive_contents() {
    let entries = prepare_payload(sample_archive()).ok().unwrap();
    assert_eq!(entries.len(), 3);
    assert_eq!(entries[0].name, "BepInEx/");
    assert!(entries[0].is_dir);
    assert_eq!(entries[1].name, "BepInEx/core.dll");
    assert!(!entries[1].is_dir);
    assert_eq!(entries[1].data, b"core bytes");
    assert_eq!(entries[2].name, "doorstop_config.ini");
    assert_eq!(entries[2].data, b"enabled=true");
}

#[test]
fn garbage_bytes_are_rejected() {
    assert!(prepare_payload(vec![1, 2, 3, 4]).is_err());
}

#[test]
fn archive_to_plan_pipeline() {
    let entries = prepare_payload(sample_archive()).ok().unwrap();
    let steps = plan_deploy(&entries, "C:/SteamLibrary/steamapps/common/Lethal Company")
        .ok()
        .unwrap();
    assert_eq!(steps.len(), 3);
    match &steps[1] {
        IoStep::WriteFile(p, d) => {
            assert_eq!(p, "C:/SteamLibrary/steamapps/common/Lethal Company/BepInEx/core.dll");
            assert_eq!(d, b"core bytes");
        }
        _ => panic!("expected WriteFile"),
    }
}
