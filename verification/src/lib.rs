//! Test-harness support for a regtest-mode Elements sidechain daemon.
//!
//! Two components: an acquisition pipeline that resolves a platform-specific
//! release asset, verifies its content hash against a checked-in manifest and
//! extracts the daemon binary into a version-scoped cache, and a configuration
//! assembler that derives the daemon's startup arguments, optionally linking
//! the node to an already-running parent-chain node for peg-in validation.

pub mod acquire;
pub mod archive;
pub mod chars;
pub mod config;
pub mod errors;
pub mod manifest;
pub mod release;
pub mod resolver;

pub use config::build_args;
pub use config::LaunchConfig;
pub use config::NodeLinkage;
pub use errors::AcquisitionError;
pub use errors::Error;
pub use release::Platform;
pub use release::Version;
pub use resolver::downloaded_exe_path;
pub use resolver::exe_path;
