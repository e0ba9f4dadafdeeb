use arm_toolchain::DownloadAction;
use arm_toolchain::DownloadSession;
use arm_toolchain::InstallState;
use arm_toolchain::Sha256Stream;
use arm_toolchain::calculate_checksum;
use arm_toolchain::checksums_match;
use arm_toolchain::plan_download;
use sha2::Digest;

fn sample_bytes(len: usize) -> Vec<u8> {
    let mut v = Vec::with_capacity(len);
    let mut i: usize = 0;
    while i < len {
        v.push((i % 251) as u8);
        i += 1;
    }
    v
}

/// Completing from any existing prefix yields content identical to a
/// from-scratch download.
#[test]
fn resume_from_any_prefix_restores_full_content() {
    let full = sample_bytes(200);
    for n in [0usize, 1, 100, 199, 200] {
        let mut local: Vec<u8> = full[..n].to_vec();
        let plan = plan_download(local.len() as u64, full.len() as u64);
        if plan.truncate_first {
            local.clear();
        }
        match plan.action {
            DownloadAction::AlreadyComplete => {}
            DownloadAction::Fetch { first_byte, last_byte } => {
                assert_eq!(first_byte as usize, local.len());
                local.extend_from_slice(&full[first_byte as usize..=last_byte as usize]);
            }
        }
        assert_eq!(local, full);
    }
}

/// An oversized local file is truncated and restarted, not an error.
#[test]
fn oversized_local_file_truncates_and_restarts() {
    let full = sample_bytes(100);
    let mut local = sample_bytes(150);
    let plan = plan_download(local.len() as u64, full.len() as u64);
    assert!(plan.truncate_first);
    assert_eq!(plan.action, DownloadAction::Fetch { first_byte: 0, last_byte: 99 });
    local.clear();
    match plan.action {
        DownloadAction::Fetch { first_byte, last_byte } => {
            local.extend_from_slice(&full[first_byte as usize..=last_byte as usize]);
        }
        DownloadAction::AlreadyComplete => unreachable!(),
    }
    assert_eq!(local, full);
}

#[test]
fn oversized_with_empty_asset_is_complete_after_truncation() {
    let plan = plan_download(25, 0);
    assert!(plan.truncate_first);
    assert_eq!(plan.action, DownloadAction::AlreadyComplete);
}

#[test]
fn complete_file_skips_the_network() {
    let plan = plan_download(1000, 1000);
    assert!(!plan.truncate_first);
    assert_eq!(plan.action, DownloadAction::AlreadyComplete);
}

#[test]
fn partial_file_resumes_with_a_range() {
    let plan = plan_download(400, 1000);
    assert!(!plan.truncate_first);
    assert_eq!(plan.action, DownloadAction::Fetch { first_byte: 400, last_byte: 999 });
}

#[test]
fn download_session_reports_cumulative_bytes() {
    let (mut session, begin) = DownloadSession::begin(100, 40);
    assert_eq!(begin, InstallState::DownloadBegin { asset_size: 100, bytes_read: 40 });
    let ev1 = session.on_chunk(10);
    assert_eq!(ev1, InstallState::Download { bytes_read: 50 });
    let ev2 = session.on_chunk(50);
    assert_eq!(ev2, InstallState::Download { bytes_read: 100 });
    assert_eq!(session.finish(), InstallState::DownloadFinish);
}

#[test]
fn checksum_of_known_vector() {
    let mut events = Vec::new();
    let digest = calculate_checksum(b"abc", &mut events);
    assert_eq!(
        data_encoding::HEXLOWER.encode(&digest),
        "ba7816bf8f01cfea414140de5dae2223b00361a396177a9cb410ff61f20015ad"
    );
    let mut stream = Sha256Stream::new();
    stream.update(b"ab");
    stream.update(b"c");
    assert_eq!(
        stream.finalize_hex(),
        "ba7816bf8f01cfea414140de5dae2223b00361a396177a9cb410ff61f20015ad"
    );
    assert_eq!(
        events,
        vec![
            InstallState::VerifyingBegin { asset_size: 3 },
            InstallState::Verifying { bytes_read: 3 },
            InstallState::VerifyingFinish,
        ]
    );
}

#[test]
fn checksum_of_empty_stream() {
    let mut events = Vec::new();
    let digest = calculate_checksum(b"", &mut events);
    assert_eq!(
        data_encoding::HEXLOWER.encode(&digest),
        "e3b0c44298fc1c149afbf4c8996fb92427ae41e4649b934ca495991b7852b855"
    );
    assert_eq!(
        events,
        vec![
            InstallState::VerifyingBegin { asset_size: 0 },
            InstallState::VerifyingFinish,
        ]
    );
}

/// Streaming in 64 KiB chunks reports one progress event per chunk and
/// matches the one-shot digest.
#[test]
fn chunked_checksum_events_and_digest() {
    let data = sample_bytes(70000);
    let mut events = Vec::new();
    let digest = calculate_checksum(&data, &mut events);
    assert_eq!(
        events,
        vec![
            InstallState::VerifyingBegin { asset_size: 70000 },
            InstallState::Verifying { bytes_read: 65536 },
            InstallState::Verifying { bytes_read: 70000 },
            InstallState::VerifyingFinish,
        ]
    );
    let mut stream = Sha256Stream::new();
    stream.update(&data[..1]);
    stream.update(&data[1..40000]);
    stream.update(&data[40000..]);
    let incremental = stream.finalize();
    assert_eq!(digest, incremental);

    let reference = sha2::Sha256::digest(&data);
    assert_eq!(digest.as_slice(), reference.as_slice());
}

#[test]
fn checksum_comparison_ignores_ascii_case() {
    assert!(checksums_match("ABCDEF01", "abcdef01"));
    assert!(checksums_match("abcdef01", "abcdef01"));
    assert!(!checksums_match("abcdef01", "abcdef02"));
    assert!(!checksums_match("abc", "abcd"));
}
