//! Executable-source resolution: which daemon executable a harness run
//! uses. The sources, in priority order: the compiled-in version selection
//! (backed by the download cache), the executable-path override from the
//! environment, and a daemon found on the search path. Selection and
//! override active together is an error, not a silent preference.

use crate::errors::Error;
use crate::release::cache_path_spec;
use crate::release::cached_binary_path;
use crate::release::version_str_spec;
use crate::release::version_string;
use crate::release::Version;
use vstd::prelude::*;

verus! {

/// What the compiled-in version selection provides: the version-scoped
/// cache path, `NoFeature` without a selection, `SkipDownload` when
/// auto-download is switched off.
pub open spec fn downloaded_exe_path_spec(
    selected: Option<Version>,
    cache_root: Seq<char>,
    skip_download: bool,
) -> Result<Seq<char>, Error> {
    match selected {
        None => Err(Error::NoFeature),
        Some(v) => if skip_download {
            Err(Error::SkipDownload)
        } else {
            Ok(cache_path_spec(cache_root, version_str_spec(v)))
        },
    }
}

/// The daemon executable the version selection provides; see
/// [`downloaded_exe_path_spec`].
pub fn downloaded_exe_path(selected: Option<Version>, cache_root: &str, skip_download: bool) -> (r:
    Result<String, Error>)
    ensures
        match r {
            Ok(p) => downloaded_exe_path_spec(selected, cache_root@, skip_download) == Ok::<
                Seq<char>,
                Error,
            >(p@),
            Err(e) => downloaded_exe_path_spec(selected, cache_root@, skip_download) == Err::<
                Seq<char>,
                Error,
            >(e),
        },
{
    match selected {
        None => Err(Error::NoFeature),
        Some(v) => {
            if skip_download {
                Err(Error::SkipDownload)
            } else {
                let vs = version_string(v);
                Ok(cached_binary_path(cache_root, vs.as_str()))
            }
        },
    }
}

/// Which executable a run uses, given every source: the version selection
/// (with its skip switch), the environment override, and the search-path
/// result. Selection and override both active is
/// `BothFeatureAndEnvVar`; with neither active the search path decides,
/// and an empty search ends in `NoElementsdExecutableFound`.
pub open spec fn exe_path_spec(
    selected: Option<Version>,
    cache_root: Seq<char>,
    skip_download: bool,
    env_exe: Option<Seq<char>>,
    path_exe: Option<Seq<char>>,
) -> Result<Seq<char>, Error> {
    match (downloaded_exe_path_spec(selected, cache_root, skip_download), env_exe) {
        (Ok(_), Some(_)) => Err(Error::BothFeatureAndEnvVar),
        (Ok(p), None) => Ok(p),
        (Err(_), Some(p)) => Ok(p),
        (Err(_), None) => match path_exe {
            Some(p) => Ok(p),
            None => Err(Error::NoElementsdExecutableFound),
        },
    }
}

/// Resolves the daemon executable for a run; see [`exe_path_spec`]. The
/// caller supplies the environment override and the search-path result as
/// plain values.
pub fn exe_path(
    selected: Option<Version>,
    cache_root: &str,
    skip_download: bool,
    env_exe: Option<String>,
    path_exe: Option<String>,
) -> (r: Result<String, Error>)
    ensures
        match r {
            Ok(p) => exe_path_spec(
                selected,
                cache_root@,
                skip_download,
                match env_exe {
                    None => None,
                    Some(s) => Some(s@),
                },
                match path_exe {
                    None => None,
                    Some(s) => Some(s@),
                },
            ) == Ok::<Seq<char>, Error>(p@),
            Err(e) => exe_path_spec(
                selected,
                cache_root@,
                skip_download,
                match env_exe {
                    None => None,
                    Some(s) => Some(s@),
                },
                match path_exe {
                    None => None,
                    Some(s) => Some(s@),
                },
            ) == Err::<Seq<char>, Error>(e),
        },
{
    match (downloaded_exe_path(selected, cache_root, skip_download), env_exe) {
        (Ok(_), Some(_)) => Err(Error::BothFeatureAndEnvVar),
        (Ok(p), None) => Ok(p),
        (Err(_), Some(p)) => Ok(p),
        (Err(_), None) => match path_exe {
            Some(p) => Ok(p),
            None => Err(Error::NoElementsdExecutableFound),
        },
    }
}

} // verus!
