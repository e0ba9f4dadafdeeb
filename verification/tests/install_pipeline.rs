use std::collections::HashMap;
use std::io::Write;

use arm_toolchain::ArchiveKind;
use arm_toolchain::Asset;
use arm_toolchain::ActiveFileAction;
use arm_toolchain::ChecksumOutcome;
use arm_toolchain::DownloadAction;
use arm_toolchain::EntryKind;
use arm_toolchain::HostArch;
use arm_toolchain::HostOS;
use arm_toolchain::InstallJob;
use arm_toolchain::InstallState;
use arm_toolchain::ToolchainClient;
use arm_toolchain::ToolchainError;
use arm_toolchain::ToolchainRelease;
use arm_toolchain::calculate_checksum;
use arm_toolchain::extract_zip;
use arm_toolchain::pick_latest_release;
use arm_toolchain::plan_download;

fn client() -> ToolchainClient {
    ToolchainClient::new("/data/toolchains".to_string(), "/cache/dl".to_string(), None)
}

fn zip_with_root(root: &str, files: &[(&str, &[u8])]) -> Vec<u8> {
    let mut cursor = std::io::Cursor::new(Vec::new());
    let mut writer = zip::ZipWriter::new(&mut cursor);
    let options = zip::write::SimpleFileOptions::default();
    writer.add_directory(format!("{root}/"), options).unwrap();
    for (name, data) in files {
        writer.start_file(format!("{root}/{name}"), options).unwrap();
        writer.write_all(data).unwrap();
    }
    writer.finish().unwrap();
    cursor.into_inner()
}

#[test]
fn install_job_derives_paths() {
    let c = client();
    let version = arm_toolchain::ToolchainVersion::named("20.1.0".to_string());
    let asset = Asset {
        name: "ATfE-20.1.0-Linux-x86_64.tar.xz".to_string(),
        size: 4096,
        url: "https://example.invalid/dl/ATfE-20.1.0-Linux-x86_64.tar.xz".to_string(),
    };
    let job = InstallJob::new(&c, &version, &asset).unwrap();
    assert_eq!(job.file_name, "ATfE-20.1.0-Linux-x86_64.tar.xz");
    assert_eq!(job.archive_destination, "/cache/dl/ATfE-20.1.0-Linux-x86_64.tar.xz");
    assert_eq!(job.extract_location, "/data/toolchains/20.1.0");
    assert_eq!(
        job.checksum_url,
        "https://example.invalid/dl/ATfE-20.1.0-Linux-x86_64.tar.xz.sha256"
    );
    assert_eq!(job.asset_size, 4096);
}

#[test]
fn install_job_keeps_only_the_file_name_component() {
    let c = client();
    let version = arm_toolchain::ToolchainVersion::named("1.0".to_string());
    let asset = Asset {
        name: "nested/dir/tool.zip".to_string(),
        size: 1,
        url: "https://example.invalid/tool.zip".to_string(),
    };
    let job = InstallJob::new(&c, &version, &asset).unwrap();
    assert_eq!(job.file_name, "tool.zip");
    assert_eq!(job.archive_destination, "/cache/dl/tool.zip");
}

#[test]
fn install_job_rejects_a_name_with_no_file_part() {
    let c = client();
    let version = arm_toolchain::ToolchainVersion::named("1.0".to_string());
    let asset = Asset {
        name: "..".to_string(),
        size: 1,
        url: "https://example.invalid/x".to_string(),
    };
    let err = InstallJob::new(&c, &version, &asset).unwrap_err();
    assert!(matches!(err, ToolchainError::InvalidAssetName { name } if name == ".."));
}

/// A corrupted download must fail the checksum gate and condemn the cached
/// file; extraction stays unreachable.
#[test]
fn checksum_mismatch_condemns_the_cached_file() {
    let c = client();
    let version = arm_toolchain::ToolchainVersion::named("2.0.0".to_string());
    let body = zip_with_root("r", &[("f", b"payload")]);
    let mut corrupted = body.clone();
    let last = corrupted.len() - 1;
    corrupted[last] ^= 0x01;

    let asset = Asset {
        name: "ATfE-2.0.0-Linux-x86_64.zip".to_string(),
        size: body.len() as u64,
        url: "https://example.invalid/dl/a.zip".to_string(),
    };
    let mut job = InstallJob::new(&c, &version, &asset).unwrap();

    let mut events = Vec::new();
    let expected_hex = data_encoding::HEXLOWER.encode(&calculate_checksum(&body, &mut events));
    let actual_hex = data_encoding::HEXLOWER.encode(&calculate_checksum(&corrupted, &mut events));
    let sidecar = format!("{expected_hex}  ATfE-2.0.0-Linux-x86_64.zip\n");

    match job.verify_checksum(actual_hex.as_str(), sidecar.as_str()) {
        ChecksumOutcome::RejectedDelete { delete_path, error } => {
            assert_eq!(delete_path, "/cache/dl/ATfE-2.0.0-Linux-x86_64.zip");
            match error {
                ToolchainError::ChecksumMismatch { expected, actual } => {
                    assert_eq!(expected, expected_hex);
                    assert_eq!(actual, actual_hex);
                }
                other => panic!("unexpected error: {other:?}"),
            }
        }
        ChecksumOutcome::Accepted => panic!("corrupted file must not be accepted"),
    }
}

/// Digest comparison ignores ASCII case: an uppercase sidecar digest still
/// matches.
#[test]
fn checksum_gate_ignores_digest_case() {
    let c = client();
    let version = arm_toolchain::ToolchainVersion::named("3.0.0".to_string());
    let body = zip_with_root("r", &[("f", b"payload")]);
    let asset = Asset {
        name: "ATfE-3.0.0-Linux-x86_64.zip".to_string(),
        size: body.len() as u64,
        url: "https://example.invalid/dl/b.zip".to_string(),
    };
    let mut job = InstallJob::new(&c, &version, &asset).unwrap();
    let mut events = Vec::new();
    let digest_hex = data_encoding::HEXLOWER.encode(&calculate_checksum(&body, &mut events));
    let sidecar = format!("{}  b.zip\n", digest_hex.to_uppercase());
    assert!(matches!(
        job.verify_checksum(digest_hex.as_str(), sidecar.as_str()),
        ChecksumOutcome::Accepted
    ));
}

/// Requesting "latest" with no prior installs resolves a release, runs
/// download, verification, and extraction, becomes the active version, and
/// locating the install directory afterwards yields its path.
#[test]
fn end_to_end_latest_install_activates_and_locates() {
    let mut registry = client();
    assert_eq!(registry.active_toolchain(), None);

    // Resolve "latest" from the release listing.
    let archive = zip_with_root("ATfE-2.0.0", &[("bin/clang", b"elf"), ("README", b"docs")]);
    let releases = vec![
        ToolchainRelease::new("release-experimental".to_string(), Vec::new()),
        ToolchainRelease::new(
            "release-2.0.0-ATfE".to_string(),
            vec![
                Asset {
                    name: "ATfE-2.0.0-Windows-x86_64.zip".to_string(),
                    size: 1,
                    url: "https://example.invalid/dl/win.zip".to_string(),
                },
                Asset {
                    name: "ATfE-2.0.0-Linux-x86_64.zip".to_string(),
                    size: archive.len() as u64,
                    url: "https://example.invalid/dl/linux.zip".to_string(),
                },
            ],
        ),
    ];
    let release = pick_latest_release(releases).unwrap();
    let version = release.version().clone();
    assert_eq!(version.name, "2.0.0");

    // Select the asset for this host.
    let asset = release.asset_for(HostOS::current(), &HostArch::current()).unwrap();
    assert_eq!(asset.name, "ATfE-2.0.0-Linux-x86_64.zip");

    // Plan and "perform" the download into the cache.
    let mut job = InstallJob::new(&registry, &version, &asset).unwrap();
    let plan = plan_download(0, asset.size);
    assert!(!plan.truncate_first);
    let mut cached: Vec<u8> = Vec::new();
    match plan.action {
        DownloadAction::Fetch { first_byte, last_byte } => {
            assert_eq!(first_byte, 0);
            cached.extend_from_slice(&archive[first_byte as usize..=last_byte as usize]);
        }
        DownloadAction::AlreadyComplete => panic!("nothing is downloaded yet"),
    }
    assert_eq!(cached, archive);

    // Verify the checksum against the sidecar body.
    let mut events = Vec::new();
    let digest_hex = data_encoding::HEXLOWER.encode(&calculate_checksum(&cached, &mut events));
    let sidecar = format!("{digest_hex}  {}\n", asset.name);
    assert!(matches!(
        job.verify_checksum(digest_hex.as_str(), sidecar.as_str()),
        ChecksumOutcome::Accepted
    ));

    // Extract into a model of the destination directory.
    let (begin, trash) = job.begin_extract(false);
    assert_eq!(begin, InstallState::ExtractBegin);
    assert_eq!(trash, None);
    assert!(matches!(job.extraction_kind(), ArchiveKind::Zip));
    let plan = extract_zip(&cached).unwrap();
    let mut disk: HashMap<String, Vec<u8>> = HashMap::new();
    for entry in &plan {
        if matches!(entry.kind, EntryKind::File) {
            disk.insert(
                format!("{}/{}", job.extract_location, entry.name),
                entry.data.clone(),
            );
        }
    }
    assert_eq!(
        disk.get("/data/toolchains/2.0.0/bin/clang").map(|v| v.as_slice()),
        Some(b"elf".as_slice())
    );
    assert_eq!(
        disk.get("/data/toolchains/2.0.0/README").map(|v| v.as_slice()),
        Some(b"docs".as_slice())
    );

    // Clean up the cached archive and close the pipeline.
    let mut events = Vec::new();
    let delete = job.finish_extract(&mut events);
    assert_eq!(delete, "/cache/dl/ATfE-2.0.0-Linux-x86_64.zip");
    assert_eq!(events, vec![InstallState::ExtractCleanUp, InstallState::ExtractDone]);

    // No version was active, so this one becomes active.
    let act = registry.activate_if_none(&version);
    assert_eq!(
        act,
        Some(ActiveFileAction::Write {
            path: "/data/toolchains/current.txt".to_string(),
            contents: "2.0.0".to_string(),
        })
    );

    // Locating the install directory with no explicit version uses the
    // active one.
    let active = registry.active_toolchain().unwrap();
    let located = registry.toolchain(&active, true).unwrap();
    assert_eq!(located.path, "/data/toolchains/2.0.0");
}
