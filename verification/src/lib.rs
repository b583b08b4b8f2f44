//! Release versioning: the branch guard, the version engine and the run of
//! version-control commands that stages a version bump on a release branch.
//!
//! The library computes and decides; it reads no file and starts no
//! process. Its callers hand it what the tools answered and carry out what
//! it returns.

pub mod bump_type;
pub mod error;
pub mod git_manager;
pub mod semantic_version;
pub mod text;
pub mod version_manager;

pub use bump_type::BumpType;
pub use error::ReleaseError;
