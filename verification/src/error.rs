//! The ways in which a release can fail.

use vstd::prelude::*;
use vstd::string::*;

verus! {

/// Why a release was stopped. Every error is final: nothing is retried.
#[derive(Debug, Clone, PartialEq, Eq)]
pub enum ReleaseError {
    /// The bump directive is none of `major`, `minor`, `patch`.
    Input,
    /// The working branch is no trunk branch.
    Branch,
    /// The current version is no semantic version; `detail` says why.
    VersionParse { detail: String },
    /// The component to increase already holds the largest number.
    VersionOverflow,
    /// A version-control or build command failed; `message` names the step.
    ExternalCommand { message: String },
    /// The remote URL does not name an owner and a repository.
    RemoteUrlParse,
}

impl ReleaseError {
    /// The text that [`ReleaseError::message`] returns.
    pub open spec fn message_text(self) -> Seq<char> {
        match self {
            ReleaseError::Input => "Bump type needs to be one of the following: major, minor, patch"@,
            ReleaseError::Branch => "You need to be on the main or master branch to run the release script!"@,
            ReleaseError::VersionParse { detail } => "Failed to parse the current version: "@
                + detail@,
            ReleaseError::VersionOverflow => "The version number to increase is already the largest possible"@,
            ReleaseError::ExternalCommand { message } => message@,
            ReleaseError::RemoteUrlParse => "Failed to read the repository owner and name from the remote URL"@,
        }
    }

    /// A message for the operator.
    pub fn message(&self) -> (r: String)
        ensures
            r@ == self.message_text(),
    {
        match self {
            ReleaseError::Input => String::from_str(
                "Bump type needs to be one of the following: major, minor, patch",
            ),
            ReleaseError::Branch => String::from_str(
                "You need to be on the main or master branch to run the release script!",
            ),
            ReleaseError::VersionParse { detail } => String::from_str(
                "Failed to parse the current version: ",
            ).concat(detail.as_str()),
            ReleaseError::VersionOverflow => String::from_str(
                "The version number to increase is already the largest possible",
            ),
            ReleaseError::ExternalCommand { message } => message.clone(),
            ReleaseError::RemoteUrlParse => String::from_str(
                "Failed to read the repository owner and name from the remote URL",
            ),
        }
    }
}

} // verus!
