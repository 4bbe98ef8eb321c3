use elementsd::errors::Error;
use elementsd::release::Version;
use elementsd::resolver::downloaded_exe_path;
use elementsd::resolver::exe_path;

#[test]
fn test_downloaded_exe_path_no_selection() {
    let e = downloaded_exe_path(None, "/out", false).unwrap_err();
    assert_eq!(e, Error::NoFeature);
}

#[test]
fn test_downloaded_exe_path_skip_download() {
    let e = downloaded_exe_path(Some(Version::V22_1_1), "/out", true).unwrap_err();
    assert_eq!(e, Error::SkipDownload);
}

#[test]
fn test_downloaded_exe_path_selected() {
    let p = downloaded_exe_path(Some(Version::V22_1_1), "/out", false).unwrap();
    assert_eq!(p, "/out/elements/elements-22.1.1/bin/elementsd");
    let q = downloaded_exe_path(Some(Version::V0_21_0), "/out", false).unwrap();
    assert_eq!(q, "/out/elements/elements-elements-0.21.0/bin/elementsd");
}

#[test]
fn test_exe_path_both_sources_is_an_error() {
    let e = exe_path(
        Some(Version::V22_1_1),
        "/out",
        false,
        Some(String::from("/opt/elementsd")),
        None,
    )
    .unwrap_err();
    assert_eq!(e, Error::BothFeatureAndEnvVar);
}

#[test]
fn test_exe_path_selection_wins_without_override() {
    let p = exe_path(Some(Version::V22_1_1), "/out", false, None, None).unwrap();
    assert_eq!(p, "/out/elements/elements-22.1.1/bin/elementsd");
}

#[test]
fn test_exe_path_override_wins_without_selection() {
    let p = exe_path(None, "/out", false, Some(String::from("/opt/elementsd")), None).unwrap();
    assert_eq!(p, "/opt/elementsd");
}

#[test]
fn test_exe_path_skip_download_falls_back_to_override() {
    let p = exe_path(
        Some(Version::V22_1_1),
        "/out",
        true,
        Some(String::from("/opt/elementsd")),
        None,
    )
    .unwrap();
    assert_eq!(p, "/opt/elementsd");
}

#[test]
fn test_exe_path_search_path_fallback() {
    let p = exe_path(None, "/out", false, None, Some(String::from("/usr/bin/elementsd"))).unwrap();
    assert_eq!(p, "/usr/bin/elementsd");
}

#[test]
fn test_exe_path_nothing_found() {
    let e = exe_path(None, "/out", false, None, None).unwrap_err();
    assert_eq!(e, Error::NoElementsdExecutableFound);
}

#[test]
fn test_error_messages_are_distinct() {
    let variants = [
        Error::NoFeature,
        Error::NoEnvVar,
        Error::BothFeatureAndEnvVar,
        Error::NoElementsdExecutableFound,
        Error::SkipDownload,
    ];
    for (i, a) in variants.iter().enumerate() {
        for (j, b) in variants.iter().enumerate() {
            assert_eq!(a.message() == b.message(), i == j);
        }
    }
}
