use std::io::Write;

use elementsd::acquire::start;
use elementsd::acquire::Acquisition;
use elementsd::acquire::Action;
use elementsd::acquire::Event;
use elementsd::acquire::Outcome;
use elementsd::errors::AcquisitionError;
use elementsd::release::Platform;

fn expect_pending(o: Outcome) -> (Acquisition, Action) {
    match o {
        Outcome::Pending(st, a) => (st, a),
        Outcome::Done(r) => panic!("expected a pending action, got {:?}", r.map_err(|e| e)),
    }
}

fn expect_done(o: Outcome) -> Result<String, AcquisitionError> {
    match o {
        Outcome::Pending(_, _) => panic!("expected the machine to be done"),
        Outcome::Done(r) => r,
    }
}

fn step_checked(st: Acquisition, ev: Event) -> Outcome {
    assert!(st.accepts(&ev));
    st.step(ev)
}

fn hex_of(bytes: &[u8]) -> String {
    let mut s = String::new();
    for b in bytes {
        s.push_str(&format!("{:02x}", b));
    }
    s
}

fn sha256_hex(bytes: &[u8]) -> String {
    hex_of(&bitcoin_hashes::sha256::Hash::hash(bytes).to_byte_array())
}

/// A gzip-compressed tar archive holding `entries` as (path, mode, data).
fn make_archive(entries: &[(&str, u32, &[u8])]) -> Vec<u8> {
    let mut builder = tar::Builder::new(Vec::new());
    for (path, mode, data) in entries {
        let mut header = tar::Header::new_gnu();
        header.set_size(data.len() as u64);
        header.set_mode(*mode);
        header.set_cksum();
        builder.append_data(&mut header, path, *data).unwrap();
    }
    let tar_bytes = builder.into_inner().unwrap();
    let mut encoder = flate2::write::GzEncoder::new(Vec::new(), flate2::Compression::default());
    encoder.write_all(&tar_bytes).unwrap();
    encoder.finish().unwrap()
}

const CACHE_PATH: &str = "/cache/elements/elements-1.2.3/bin/elementsd";
const FILENAME: &str = "elements-1.2.3-x86_64-linux-gnu.tar.gz";

fn start_to_cache_check(manifest: String) -> (Acquisition, String) {
    let (st, action) = expect_pending(start(
        String::from("1.2.3"),
        String::from("/cache"),
        Platform::LinuxX86_64,
    ));
    match &action {
        Action::ReadManifest(p) => assert_eq!(p, "sha256/SHA256SUMS_1.2.3.asc"),
        _ => panic!("expected a manifest read"),
    }
    let (st, action) = expect_pending(step_checked(st, Event::ManifestRead(Some(manifest))));
    let cache_path = match action {
        Action::CheckCache(p) => p,
        _ => panic!("expected a cache probe"),
    };
    assert_eq!(cache_path, CACHE_PATH);
    (st, cache_path)
}

#[test]
fn test_full_pipeline_extracts_only_the_binary() {
    let archive = make_archive(&[
        ("doc/README.md", 0o644, b"docs"),
        ("bin/elements-cli", 0o755, b"cli tool"),
        ("bin/elementsd", 0o755, b"daemon payload"),
        ("share/examples.conf", 0o644, b"config"),
    ]);
    let manifest = format!("{}  {}\n", sha256_hex(&archive), FILENAME);
    let (st, _) = start_to_cache_check(manifest);
    let (st, action) = expect_pending(step_checked(st, Event::CacheChecked(false)));
    match &action {
        Action::Download(url) => assert_eq!(
            url,
            "https://github.com/ElementsProject/elements/releases/download/elements-1.2.3/elements-1.2.3-x86_64-linux-gnu.tar.gz"
        ),
        _ => panic!("expected a download"),
    }
    let (st, action) = expect_pending(step_checked(st, Event::Downloaded(Some(archive))));
    match &action {
        Action::WriteBinary(path, mode, data) => {
            assert_eq!(path, CACHE_PATH);
            assert_eq!(*mode, 0o755);
            assert_ne!(*mode & 0o100, 0, "executable bit must be preserved");
            assert_eq!(data.as_slice(), b"daemon payload");
        },
        _ => panic!("expected a binary write"),
    }
    let result = expect_done(step_checked(st, Event::BinaryWritten(true)));
    assert_eq!(result.unwrap(), CACHE_PATH);
}

#[test]
fn test_cache_hit_skips_download() {
    let archive = make_archive(&[("bin/elementsd", 0o755, b"daemon payload")]);
    let manifest = format!("{}  {}\n", sha256_hex(&archive), FILENAME);
    let (st, cache_path) = start_to_cache_check(manifest);
    let result = expect_done(step_checked(st, Event::CacheChecked(true)));
    assert_eq!(result.unwrap(), cache_path);
}

#[test]
fn test_hash_mismatch_is_fatal() {
    let archive = make_archive(&[("bin/elementsd", 0o755, b"daemon payload")]);
    let manifest = format!("{}  {}\n", "ab".repeat(32), FILENAME);
    let (st, _) = start_to_cache_check(manifest);
    let (st, _) = expect_pending(step_checked(st, Event::CacheChecked(false)));
    let result = expect_done(step_checked(st, Event::Downloaded(Some(archive))));
    assert_eq!(result.unwrap_err(), AcquisitionError::HashMismatch);
}

#[test]
fn test_unsupported_platform_fails_before_any_action() {
    let outcome = start(
        String::from("1.2.3"),
        String::from("/cache"),
        Platform::LinuxAarch64,
    );
    let result = expect_done(outcome);
    assert_eq!(result.unwrap_err(), AcquisitionError::UnsupportedPlatform);
}

#[test]
fn test_unreadable_manifest() {
    let (st, _) = expect_pending(start(
        String::from("1.2.3"),
        String::from("/cache"),
        Platform::LinuxX86_64,
    ));
    let result = expect_done(step_checked(st, Event::ManifestRead(None)));
    assert_eq!(result.unwrap_err(), AcquisitionError::ManifestLookupFailed);
}

#[test]
fn test_manifest_without_entry() {
    let (st, _) = expect_pending(start(
        String::from("1.2.3"),
        String::from("/cache"),
        Platform::LinuxX86_64,
    ));
    let manifest = format!("{}  some-other-file.tar.gz\n", "cd".repeat(32));
    let result = expect_done(step_checked(st, Event::ManifestRead(Some(manifest))));
    assert_eq!(result.unwrap_err(), AcquisitionError::ManifestLookupFailed);
}

#[test]
fn test_download_failure() {
    let archive = make_archive(&[("bin/elementsd", 0o755, b"daemon payload")]);
    let manifest = format!("{}  {}\n", sha256_hex(&archive), FILENAME);
    let (st, _) = start_to_cache_check(manifest);
    let (st, _) = expect_pending(step_checked(st, Event::CacheChecked(false)));
    let result = expect_done(step_checked(st, Event::Downloaded(None)));
    assert_eq!(result.unwrap_err(), AcquisitionError::DownloadFailed);
}

#[test]
fn test_archive_without_binary() {
    let archive = make_archive(&[
        ("bin/elements-cli", 0o755, b"cli tool"),
        ("doc/README.md", 0o644, b"docs"),
    ]);
    let manifest = format!("{}  {}\n", sha256_hex(&archive), FILENAME);
    let (st, _) = start_to_cache_check(manifest);
    let (st, _) = expect_pending(step_checked(st, Event::CacheChecked(false)));
    let result = expect_done(step_checked(st, Event::Downloaded(Some(archive))));
    assert_eq!(result.unwrap_err(), AcquisitionError::BinaryNotFoundInArchive);
}

#[test]
fn test_binary_name_must_be_a_whole_component() {
    // An entry merely ending in the binary's name is not the binary.
    let archive = make_archive(&[("bin/not-elementsd", 0o755, b"impostor")]);
    let manifest = format!("{}  {}\n", sha256_hex(&archive), FILENAME);
    let (st, _) = start_to_cache_check(manifest);
    let (st, _) = expect_pending(step_checked(st, Event::CacheChecked(false)));
    let result = expect_done(step_checked(st, Event::Downloaded(Some(archive))));
    assert_eq!(result.unwrap_err(), AcquisitionError::BinaryNotFoundInArchive);
}

#[test]
fn test_failed_write_is_reported() {
    let archive = make_archive(&[("bin/elementsd", 0o755, b"daemon payload")]);
    let manifest = format!("{}  {}\n", sha256_hex(&archive), FILENAME);
    let (st, _) = start_to_cache_check(manifest);
    let (st, _) = expect_pending(step_checked(st, Event::CacheChecked(false)));
    let (st, _) = expect_pending(step_checked(st, Event::Downloaded(Some(archive))));
    let result = expect_done(step_checked(st, Event::BinaryWritten(false)));
    assert_eq!(result.unwrap_err(), AcquisitionError::CacheIoError);
}

#[test]
fn test_hash_mismatch_message_is_distinct() {
    // A tampered artifact must be tellable from a plain transport or cache
    // fault by its message.
    assert_ne!(
        AcquisitionError::HashMismatch.message(),
        AcquisitionError::DownloadFailed.message()
    );
    assert_ne!(
        AcquisitionError::HashMismatch.message(),
        AcquisitionError::CacheIoError.message()
    );
}

#[test]
fn test_corrupt_archive() {
    let bogus = b"not a gzip stream".to_vec();
    let manifest = format!("{}  {}\n", sha256_hex(&bogus), FILENAME);
    let (st, _) = start_to_cache_check(manifest);
    let (st, _) = expect_pending(step_checked(st, Event::CacheChecked(false)));
    let result = expect_done(step_checked(st, Event::Downloaded(Some(bogus))));
    assert_eq!(result.unwrap_err(), AcquisitionError::BinaryNotFoundInArchive);
}
