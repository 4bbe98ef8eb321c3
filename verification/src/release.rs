//! The release model: supported versions, platform-specific asset names, the
//! release URL, and the version-scoped cache layout.

use crate::chars::str_chars;
use crate::chars::chars_eq_at;
use crate::errors::AcquisitionError;
use vstd::prelude::*;
use vstd::string::StrSliceExecFns;
use vstd::string::StringExecFns;

verus! {

/// Target platforms the harness can be built for. Only some of them have a
/// published release asset.
#[derive(Clone, Copy, PartialEq, Eq, Structural, Debug)]
pub enum Platform {
    LinuxX86_64,
    MacOsX86_64,
    MacOsAarch64,
    LinuxAarch64,
    WindowsX86_64,
}

/// The closed set of daemon versions with a checked-in manifest. Exactly one
/// (or none) is selected when the harness is built.
#[derive(Clone, Copy, PartialEq, Eq, Structural, Debug)]
pub enum Version {
    V22_1_1,
    V0_21_0,
    V0_18_1_12,
}

/// Version string as it appears in asset filenames and the cache layout.
/// The 0.21.0 release names its assets with a doubled prefix
/// (`elements-elements-0.21.0-...`), so its version string keeps the
/// `elements-` prefix; [`tag_of_version`] strips it again for the URL tag.
pub open spec fn version_str_spec(v: Version) -> Seq<char> {
    match v {
        Version::V22_1_1 => "22.1.1"@,
        Version::V0_21_0 => "elements-0.21.0"@,
        Version::V0_18_1_12 => "0.18.1.12"@,
    }
}

/// See [`version_str_spec`].
pub fn version_string(v: Version) -> (r: String)
    ensures
        r@ == version_str_spec(v),
{
    match v {
        Version::V22_1_1 => String::from_str("22.1.1"),
        Version::V0_21_0 => String::from_str("elements-0.21.0"),
        Version::V0_18_1_12 => String::from_str("0.18.1.12"),
    }
}

/// Platform part of the asset filename, where a release exists.
pub open spec fn platform_asset_suffix(p: Platform) -> Option<Seq<char>> {
    match p {
        Platform::LinuxX86_64 => Some("x86_64-linux-gnu"@),
        Platform::MacOsX86_64 => Some("osx64"@),
        Platform::MacOsAarch64 => Some("osx64"@),
        Platform::LinuxAarch64 => None,
        Platform::WindowsX86_64 => None,
    }
}

/// Asset filename for a version and platform: `elements-<version>-<suffix>.tar.gz`,
/// or `None` where no filename-resolution rule exists.
pub open spec fn download_filename_spec(version: Seq<char>, p: Platform) -> Option<Seq<char>> {
    match platform_asset_suffix(p) {
        Some(suffix) => Some("elements-"@ + version + "-"@ + suffix + ".tar.gz"@),
        None => None,
    }
}

/// Version as it appears in the release tag: the version string with a
/// leading `elements-` stripped.
pub open spec fn tag_of_version(version: Seq<char>) -> Seq<char> {
    if version.len() >= 9 && version.take(9) == "elements-"@ {
        version.skip(9)
    } else {
        version
    }
}

/// Release URL for an asset:
/// `https://github.com/ElementsProject/elements/releases/download/elements-<tag>/<filename>`.
pub open spec fn download_url_spec(version: Seq<char>, filename: Seq<char>) -> Seq<char> {
    "https://github.com/ElementsProject/elements/releases/download/elements-"@
        + tag_of_version(version) + "/"@ + filename
}

/// Cache location of the extracted daemon binary:
/// `<cache-root>/elements/elements-<version>/bin/elementsd`.
pub open spec fn cache_path_spec(cache_root: Seq<char>, version: Seq<char>) -> Seq<char> {
    cache_root + "/elements/elements-"@ + version + "/bin/elementsd"@
}

/// Location of the checked-in manifest for a version:
/// `sha256/SHA256SUMS_<version>.asc`.
pub open spec fn manifest_path_spec(version: Seq<char>) -> Seq<char> {
    "sha256/SHA256SUMS_"@ + version + ".asc"@
}

fn asset_suffix(platform: Platform) -> (r: Option<&'static str>)
    ensures
        match r {
            Some(s) => platform_asset_suffix(platform) == Some(s@),
            None => platform_asset_suffix(platform) is None,
        },
{
    match platform {
        Platform::LinuxX86_64 => Some("x86_64-linux-gnu"),
        Platform::MacOsX86_64 => Some("osx64"),
        Platform::MacOsAarch64 => Some("osx64"),
        Platform::LinuxAarch64 => None,
        Platform::WindowsX86_64 => None,
    }
}

/// Resolves the asset filename for a version and platform; a platform with
/// no resolution rule is rejected with `UnsupportedPlatform`.
pub fn download_filename(version: &str, platform: Platform) -> (r: Result<
    String,
    AcquisitionError,
>)
    ensures
        match r {
            Ok(f) => download_filename_spec(version@, platform) == Some(f@),
            Err(e) => e == AcquisitionError::UnsupportedPlatform && download_filename_spec(
                version@,
                platform,
            ) is None,
        },
{
    match asset_suffix(platform) {
        Some(suffix) => {
            let mut s = String::from_str("elements-");
            s.append(version);
            s.append("-");
            s.append(suffix);
            s.append(".tar.gz");
            proof {
                assert(s@ =~= "elements-"@ + version@ + "-"@ + suffix@ + ".tar.gz"@);
            }
            Ok(s)
        },
        None => Err(AcquisitionError::UnsupportedPlatform),
    }
}

/// The version part of the release tag; see [`tag_of_version`].
pub fn release_tag(version: &str) -> (r: String)
    ensures
        r@ == tag_of_version(version@),
{
    let n = version.unicode_len();
    let v = str_chars(version);
    let prefix = str_chars("elements-");
    proof {
        reveal_strlit("elements-");
    }
    if n >= 9 && chars_eq_at(&v, 0, &prefix) {
        proof {
            assert(version@.take(9) =~= v@.subrange(0, 9));
        }
        let t = version.substring_char(9, n);
        String::from_str(t)
    } else {
        proof {
            if version@.len() >= 9 {
                assert(version@.take(9) =~= v@.subrange(0, 9));
            }
        }
        String::from_str(version)
    }
}

/// Builds the release URL for an asset; see [`download_url_spec`].
pub fn download_url(version: &str, filename: &str) -> (r: String)
    ensures
        r@ == download_url_spec(version@, filename@),
{
    let mut s = String::from_str(
        "https://github.com/ElementsProject/elements/releases/download/elements-",
    );
    let tag = release_tag(version);
    s.append(tag.as_str());
    s.append("/");
    s.append(filename);
    proof {
        assert(s@ =~= download_url_spec(version@, filename@));
    }
    s
}

/// Builds the cache path of the extracted binary; see [`cache_path_spec`].
pub fn cached_binary_path(cache_root: &str, version: &str) -> (r: String)
    ensures
        r@ == cache_path_spec(cache_root@, version@),
{
    let mut s = String::from_str(cache_root);
    s.append("/elements/elements-");
    s.append(version);
    s.append("/bin/elementsd");
    proof {
        assert(s@ =~= cache_path_spec(cache_root@, version@));
    }
    s
}

/// Builds the manifest path for a version; see [`manifest_path_spec`].
pub fn manifest_path(version: &str) -> (r: String)
    ensures
        r@ == manifest_path_spec(version@),
{
    let mut s = String::from_str("sha256/SHA256SUMS_");
    s.append(version);
    s.append(".asc");
    proof {
        assert(s@ =~= manifest_path_spec(version@));
    }
    s
}

} // verus!
