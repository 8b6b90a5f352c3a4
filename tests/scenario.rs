use std::collections::{BTreeMap, BTreeSet};
use std::io::{Cursor, Read, Write};

use spatialshot_installer::orchestrator::{Installer, Stage};
use spatialshot_installer::platform::Platform;
use spatialshot_installer::setup::{plan_entry, ArchiveEntry, EntryAction};
use zip::write::SimpleFileOptions;

#[derive(Default)]
struct MemoryDisk {
    dirs: BTreeSet<String>,
    files: BTreeMap<String, Vec<u8>>,
    modes: BTreeMap<String, u32>,
}

fn fixture(component: &str) -> Vec<u8> {
    let mut w = zip::ZipWriter::new(Cursor::new(Vec::new()));
    let opts = SimpleFileOptions::default();
    w.add_directory(format!("{}/", component), opts).unwrap();
    w.start_file(format!("{}/run", component), opts.unix_permissions(0o755)).unwrap();
    w.write_all(format!("#!/bin/sh\necho {}\n", component).as_bytes()).unwrap();
    w.start_file(format!("{}/data.bin", component), opts.unix_permissions(0o640)).unwrap();
    w.write_all(&[0u8, 1, 2, 255, 254, 10, 13]).unwrap();
    w.start_file("../escape.txt", opts).unwrap();
    w.write_all(b"outside").unwrap();
    w.start_file(format!("{}/../../escape2.txt", component), opts).unwrap();
    w.write_all(b"outside").unwrap();
    w.finish().unwrap().into_inner()
}

fn extract(bytes: &[u8], install: &str, disk: &mut MemoryDisk) {
    let mut archive = zip::ZipArchive::new(Cursor::new(bytes.to_vec())).unwrap();
    for i in 0..archive.len() {
        let mut f = archive.by_index(i).unwrap();
        let e = ArchiveEntry {
            name: f.name().to_string(),
            enclosed: f.enclosed_name().map(|p| p.to_string_lossy().into_owned()),
            unix_mode: f.unix_mode(),
        };
        match plan_entry(Platform::LinuxX64, install, &e) {
            EntryAction::Skip => {}
            EntryAction::CreateDir { path, mode } => {
                disk.dirs.insert(path.clone());
                if let Some(m) = mode {
                    disk.modes.insert(path, m);
                }
            }
            EntryAction::WriteFile { path, mode } => {
                let mut buf = Vec::new();
                f.read_to_end(&mut buf).unwrap();
                disk.files.insert(path.clone(), buf);
                if let Some(m) = mode {
                    disk.modes.insert(path, m);
                }
            }
        }
    }
}

#[test]
fn three_components_install_and_finalize_once() {
    let install = "/home/u/.local/share/spatialshot";
    let names = ["kernel", "engine", "app"];
    let mut inst = Installer::new(names.iter().map(|s| s.to_string()).collect());
    let mut disk = MemoryDisk::default();
    let mut finalized = 0;
    let mut downloaded: Option<Vec<u8>> = None;
    while inst.stage != Stage::Complete && inst.stage != Stage::Failed {
        match inst.stage {
            Stage::Download(i) => downloaded = Some(fixture(&inst.components[i])),
            Stage::Extract(_) => extract(downloaded.as_ref().unwrap(), install, &mut disk),
            Stage::Finalize => {
                finalized += 1;
                assert_eq!(disk.files.len(), 6);
            }
            _ => {}
        }
        inst.advance(true);
    }
    assert_eq!(inst.stage, Stage::Complete);
    assert_eq!(finalized, 1);
    for c in names {
        assert!(disk.dirs.contains(&format!("{}/{}/", install, c)));
        let run = format!("{}/{}/run", install, c);
        assert_eq!(disk.files[&run], format!("#!/bin/sh\necho {}\n", c).into_bytes());
        assert_eq!(disk.modes[&run] & 0o777, 0o755);
        let data = format!("{}/{}/data.bin", install, c);
        assert_eq!(disk.files[&data], vec![0u8, 1, 2, 255, 254, 10, 13]);
        assert_eq!(disk.modes[&data] & 0o777, 0o640);
    }
    for path in disk.files.keys().chain(disk.dirs.iter()) {
        assert!(path.starts_with(&format!("{}/", install)));
        assert!(!path.contains("escape"));
    }
    let steps = Platform::LinuxX64.finalize_steps(install, "/home/u");
    assert_eq!(steps.len(), 7);
}

#[test]
fn permission_bits_follow_archive_metadata() {
    let mut disk = MemoryDisk::default();
    extract(&fixture("kernel"), "/opt/s", &mut disk);
    let mut archive = zip::ZipArchive::new(Cursor::new(fixture("kernel"))).unwrap();
    let run_mode = archive.by_name("kernel/run").unwrap().unix_mode();
    assert_eq!(disk.modes.get("/opt/s/kernel/run").copied(), run_mode);
}
