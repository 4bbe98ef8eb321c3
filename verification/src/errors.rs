//! Error taxonomies: one for the acquisition pipeline, one for
//! executable-source resolution.

use vstd::prelude::*;

verus! {

/// Failures of the acquisition pipeline. Each step fails with its own
/// variant so that callers can tell a missing platform rule from a transport
/// fault from a tampered artifact.
#[derive(Clone, Copy, PartialEq, Eq, Structural, Debug)]
pub enum AcquisitionError {
    /// No filename-resolution rule exists for the requested platform.
    UnsupportedPlatform,
    /// The release manifest was unreadable, held no entry for the resolved
    /// filename, or held a malformed hash for it.
    ManifestLookupFailed,
    /// The asset could not be fetched from the release URL.
    DownloadFailed,
    /// The fetched asset's content hash differs from the manifest value.
    /// Fatal: a potential integrity compromise, never downgraded.
    HashMismatch,
    /// The archive decoded but held no entry for the daemon binary,
    /// or could not be decoded at all.
    BinaryNotFoundInArchive,
    /// The extracted binary could not be placed at its cache path.
    CacheIoError,
}

impl AcquisitionError {
    /// Short description, one per variant.
    pub fn message(&self) -> (r: &'static str)
        ensures
            r@ == match *self {
                AcquisitionError::UnsupportedPlatform => "no download rule for this platform"@,
                AcquisitionError::ManifestLookupFailed => "no usable manifest entry for the resolved filename"@,
                AcquisitionError::DownloadFailed => "fetching the release asset failed"@,
                AcquisitionError::HashMismatch => "downloaded asset hash differs from the manifest value"@,
                AcquisitionError::BinaryNotFoundInArchive => "no daemon binary entry in the archive"@,
                AcquisitionError::CacheIoError => "writing the binary to the cache failed"@,
            },
    {
        match self {
            AcquisitionError::UnsupportedPlatform => "no download rule for this platform",
            AcquisitionError::ManifestLookupFailed => "no usable manifest entry for the resolved filename",
            AcquisitionError::DownloadFailed => "fetching the release asset failed",
            AcquisitionError::HashMismatch => "downloaded asset hash differs from the manifest value",
            AcquisitionError::BinaryNotFoundInArchive => "no daemon binary entry in the archive",
            AcquisitionError::CacheIoError => "writing the binary to the cache failed",
        }
    }
}

/// Errors of executable-source resolution.
#[derive(Clone, Copy, PartialEq, Eq, Structural, Debug)]
pub enum Error {
    /// A method needed a compiled-in version selection, but none is active.
    NoFeature,
    /// A method needed the executable-path override, but it is not set.
    NoEnvVar,
    /// Both a version selection and the executable-path override are active.
    BothFeatureAndEnvVar,
    /// No version selection, no override, and no daemon executable on the
    /// search path.
    NoElementsdExecutableFound,
    /// A version selection is active but auto-download is switched off.
    SkipDownload,
}

impl Error {
    /// Short description, one per variant.
    pub fn message(&self) -> (r: &'static str)
        ensures
            r@ == match *self {
                Error::NoFeature => "a version selection is required but none is active"@,
                Error::NoEnvVar => "the executable-path override is required but not set"@,
                Error::BothFeatureAndEnvVar => "a version selection and the executable-path override are both active"@,
                Error::NoElementsdExecutableFound => "no version selection, no override, and no elementsd executable found"@,
                Error::SkipDownload => "a version selection is active but auto-download is switched off"@,
            },
    {
        match self {
            Error::NoFeature => "a version selection is required but none is active",
            Error::NoEnvVar => "the executable-path override is required but not set",
            Error::BothFeatureAndEnvVar => "a version selection and the executable-path override are both active",
            Error::NoElementsdExecutableFound => "no version selection, no override, and no elementsd executable found",
            Error::SkipDownload => "a version selection is active but auto-download is switched off",
        }
    }
}

} // verus!
