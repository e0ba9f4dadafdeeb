use arm_toolchain::ArchiveEntry;
use arm_toolchain::ArchiveKind;
use arm_toolchain::EntryKind;
use arm_toolchain::ExtractError;
use arm_toolchain::ToolchainError;
use arm_toolchain::archive_kind;
use arm_toolchain::extract_tar_xz;
use arm_toolchain::extract_zip;

use std::io::Write;

fn zip_bytes(entries: &[(&str, Option<&[u8]>)]) -> Vec<u8> {
    let mut cursor = std::io::Cursor::new(Vec::new());
    let mut writer = zip::ZipWriter::new(&mut cursor);
    let options = zip::write::SimpleFileOptions::default();
    for (name, data) in entries {
        match data {
            Some(bytes) => {
                writer.start_file(*name, options).unwrap();
                writer.write_all(bytes).unwrap();
            }
            None => {
                writer.add_directory(*name, options).unwrap();
            }
        }
    }
    writer.finish().unwrap();
    cursor.into_inner()
}

fn tar_xz_bytes(entries: &[(&str, Option<&[u8]>)]) -> Vec<u8> {
    let mut builder = tar::Builder::new(Vec::new());
    for (name, data) in entries {
        let mut header = tar::Header::new_gnu();
        match data {
            Some(bytes) => {
                header.set_entry_type(tar::EntryType::Regular);
                header.set_path(name).unwrap();
                header.set_size(bytes.len() as u64);
                header.set_cksum();
                builder.append(&header, *bytes).unwrap();
            }
            None => {
                header.set_entry_type(tar::EntryType::Directory);
                header.set_path(name).unwrap();
                header.set_size(0);
                header.set_cksum();
                builder.append(&header, std::io::empty()).unwrap();
            }
        }
    }
    let tar = builder.into_inner().unwrap();
    let mut encoder = liblzma::write::XzEncoder::new(Vec::new(), 6);
    encoder.write_all(&tar).unwrap();
    encoder.finish().unwrap()
}

fn names(plan: &[ArchiveEntry]) -> Vec<&str> {
    plan.iter().map(|e| e.name.as_str()).collect()
}

#[test]
fn archive_kind_dispatches_by_suffix() {
    assert_eq!(archive_kind("toolchain-Linux-x86_64.tar.xz"), Some(ArchiveKind::TarXz));
    assert_eq!(archive_kind("toolchain-Windows-x86_64.zip"), Some(ArchiveKind::Zip));
    assert_eq!(archive_kind("toolchain-Darwin-universal.dmg"), Some(ArchiveKind::Dmg));
    assert_eq!(archive_kind("toolchain.tar.gz"), None);
    assert_eq!(archive_kind("plain"), None);
}

/// A zip whose entries all sit under one top-level directory extracts that
/// directory's contents, not the wrapper itself.
#[test]
fn zip_with_wrapping_root_promotes_contents() {
    let bytes = zip_bytes(&[
        ("root/", None),
        ("root/a.txt", Some(b"alpha")),
        ("root/sub/", None),
        ("root/sub/b.txt", Some(b"beta")),
    ]);
    let plan = extract_zip(&bytes).unwrap();
    assert_eq!(names(&plan), vec!["a.txt", "sub", "sub/b.txt"]);
    assert!(matches!(plan[0].kind, EntryKind::File));
    assert_eq!(plan[0].data, b"alpha");
    assert!(matches!(plan[1].kind, EntryKind::Dir));
    assert_eq!(plan[2].data, b"beta");
}

/// A zip without a common wrapper extracts its entries as they are.
#[test]
fn zip_without_wrapping_root_copies_as_is() {
    let bytes = zip_bytes(&[
        ("a.txt", Some(b"alpha")),
        ("sub/", None),
        ("sub/b.txt", Some(b"beta")),
    ]);
    let plan = extract_zip(&bytes).unwrap();
    assert_eq!(names(&plan), vec!["a.txt", "sub", "sub/b.txt"]);
}

/// Two different top-level directories are no wrapper.
#[test]
fn zip_with_two_roots_is_not_unwrapped() {
    let bytes = zip_bytes(&[
        ("one/", None),
        ("one/a.txt", Some(b"a")),
        ("two/", None),
        ("two/b.txt", Some(b"b")),
    ]);
    let plan = extract_zip(&bytes).unwrap();
    assert_eq!(names(&plan), vec!["one", "one/a.txt", "two", "two/b.txt"]);
}

#[test]
fn malformed_zip_is_a_zip_error() {
    let r = extract_zip(&vec![1u8, 2, 3, 4]);
    assert!(matches!(r, Err(ToolchainError::Extract(ExtractError::Zip(_)))));
}

/// The tar.xz root directory is discovered and stripped.
#[test]
fn tar_xz_strips_discovered_root() {
    let bytes = tar_xz_bytes(&[
        ("toolchain-21.0.0/", None),
        ("toolchain-21.0.0/bin/", None),
        ("toolchain-21.0.0/bin/clang", Some(b"#!elf")),
        ("toolchain-21.0.0/lib/libx.a", Some(b"archive")),
    ]);
    let plan = extract_tar_xz(&bytes).unwrap();
    assert_eq!(names(&plan), vec!["bin", "bin/clang", "lib/libx.a"]);
    assert_eq!(plan[1].data, b"#!elf");
}

/// A tar.xz without any top-level directory has no recognizable contents.
#[test]
fn tar_xz_without_top_dir_reports_contents_not_found() {
    let bytes = tar_xz_bytes(&[("loose.txt", Some(b"stray"))]);
    let r = extract_tar_xz(&bytes);
    assert!(matches!(r, Err(ToolchainError::Extract(ExtractError::ContentsNotFound))));
}

#[test]
fn malformed_xz_is_an_io_error() {
    let r = extract_tar_xz(&vec![0u8; 16]);
    assert!(matches!(r, Err(ToolchainError::Io(_))));
}

/// A symlink inside the archive is planned as a link to the same target,
/// not a copy of what it points at.
#[test]
fn tar_xz_preserves_symlinks() {
    let mut builder = tar::Builder::new(Vec::new());
    let mut dir = tar::Header::new_gnu();
    dir.set_entry_type(tar::EntryType::Directory);
    dir.set_path("root/").unwrap();
    dir.set_size(0);
    dir.set_cksum();
    builder.append(&dir, std::io::empty()).unwrap();
    let mut file = tar::Header::new_gnu();
    file.set_entry_type(tar::EntryType::Regular);
    file.set_path("root/clang").unwrap();
    file.set_size(3);
    file.set_cksum();
    builder.append(&file, &b"bin"[..]).unwrap();
    let mut link = tar::Header::new_gnu();
    link.set_entry_type(tar::EntryType::Symlink);
    link.set_path("root/clang++").unwrap();
    link.set_link_name("clang").unwrap();
    link.set_size(0);
    link.set_cksum();
    builder.append(&link, std::io::empty()).unwrap();
    let tar = builder.into_inner().unwrap();
    let mut encoder = liblzma::write::XzEncoder::new(Vec::new(), 6);
    encoder.write_all(&tar).unwrap();
    let bytes = encoder.finish().unwrap();

    let plan = extract_tar_xz(&bytes).unwrap();
    assert_eq!(names(&plan), vec!["clang", "clang++"]);
    assert!(matches!(plan[1].kind, EntryKind::Symlink));
    assert_eq!(plan[1].link_target, "clang");
    assert!(plan[1].data.is_empty());
}

/// An empty zip archive plans nothing.
#[test]
fn empty_zip_plans_nothing() {
    let bytes = zip_bytes(&[]);
    let plan = extract_zip(&bytes).unwrap();
    assert!(plan.is_empty());
}

/// Entries outside the discovered root are not part of the plan.
#[test]
fn tar_xz_ignores_entries_outside_the_root() {
    let bytes = tar_xz_bytes(&[
        ("pax-notes.txt", Some(b"meta")),
        ("real-root/", None),
        ("real-root/file", Some(b"payload")),
    ]);
    let plan = extract_tar_xz(&bytes).unwrap();
    assert_eq!(names(&plan), vec!["file"]);
}
