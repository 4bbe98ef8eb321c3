use elementsd::errors::AcquisitionError;
use elementsd::manifest::lookup_expected_hash;

const HASH_A: &str = "aaaaaaaaaaaaaaaaaaaaaaaaaaaaaaaaaaaaaaaaaaaaaaaaaaaaaaaaaaaaaaaa";
const HASH_B: &str = "0123456789abcdef0123456789abcdef0123456789abcdef0123456789ABCDEF";

#[test]
fn test_lookup_found() {
    let manifest = format!(
        "{}  elements-1.2.3-osx64.tar.gz\n{}  elements-1.2.3-x86_64-linux-gnu.tar.gz\n",
        HASH_A, HASH_B
    );
    let d = lookup_expected_hash(&manifest, "elements-1.2.3-x86_64-linux-gnu.tar.gz").unwrap();
    assert_eq!(d.len(), 32);
    let mut expected = vec![0x01u8, 0x23, 0x45, 0x67, 0x89, 0xab, 0xcd, 0xef];
    expected = expected.repeat(4);
    expected[28..32].copy_from_slice(&[0x89, 0xAB, 0xCD, 0xEF]);
    assert_eq!(d, expected);
}

#[test]
fn test_lookup_missing() {
    let manifest = format!("{}  elements-1.2.3-osx64.tar.gz\n", HASH_A);
    let e = lookup_expected_hash(&manifest, "elements-1.2.3-x86_64-linux-gnu.tar.gz").unwrap_err();
    assert_eq!(e, AcquisitionError::ManifestLookupFailed);
}

#[test]
fn test_lookup_empty_manifest() {
    let e = lookup_expected_hash("", "anything").unwrap_err();
    assert_eq!(e, AcquisitionError::ManifestLookupFailed);
}

#[test]
fn test_lookup_requires_exact_filename() {
    // The filename field must equal the query exactly; a longer name that
    // merely ends with the query must not match.
    let manifest = format!("{}  xelements-1.2.3.tar.gz\n", HASH_A);
    let e = lookup_expected_hash(&manifest, "elements-1.2.3.tar.gz").unwrap_err();
    assert_eq!(e, AcquisitionError::ManifestLookupFailed);
}

#[test]
fn test_lookup_requires_two_space_separator() {
    let manifest = format!("{} elements-1.2.3.tar.gz\n", HASH_A);
    let e = lookup_expected_hash(&manifest, "elements-1.2.3.tar.gz").unwrap_err();
    assert_eq!(e, AcquisitionError::ManifestLookupFailed);
}

#[test]
fn test_lookup_malformed_hash() {
    // Matching line, but the hash token is too short.
    let manifest = "abcd  elements-1.2.3.tar.gz\n";
    let e = lookup_expected_hash(manifest, "elements-1.2.3.tar.gz").unwrap_err();
    assert_eq!(e, AcquisitionError::ManifestLookupFailed);
    // Matching line, 64 characters, but not all hexadecimal.
    let manifest2 = format!(
        "{}  elements-1.2.3.tar.gz\n",
        "zzzzzzzzzzzzzzzzzzzzzzzzzzzzzzzzzzzzzzzzzzzzzzzzzzzzzzzzzzzzzzzz"
    );
    let e2 = lookup_expected_hash(&manifest2, "elements-1.2.3.tar.gz").unwrap_err();
    assert_eq!(e2, AcquisitionError::ManifestLookupFailed);
}

#[test]
fn test_lookup_first_match_wins() {
    let manifest = format!(
        "{}  elements-1.2.3.tar.gz\n{}  elements-1.2.3.tar.gz\n",
        HASH_A, HASH_B
    );
    let d = lookup_expected_hash(&manifest, "elements-1.2.3.tar.gz").unwrap();
    assert_eq!(d, vec![0xaau8; 32]);
}

#[test]
fn test_lookup_no_trailing_newline() {
    let manifest = format!("{}  elements-1.2.3.tar.gz", HASH_A);
    let d = lookup_expected_hash(&manifest, "elements-1.2.3.tar.gz").unwrap();
    assert_eq!(d, vec![0xaau8; 32]);
}
