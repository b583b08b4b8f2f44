//! The bump directive that the operator gives.

use vstd::prelude::*;

use crate::error::ReleaseError;
use crate::text::same_text;

verus! {

/// Which component of the version a release increases.
#[allow(non_camel_case_types)]
#[derive(Debug, Clone, Copy, PartialEq, Eq, Structural)]
pub enum BumpType {
    MAJOR,
    MINOR,
    PATCH,
}

impl BumpType {
    /// The word that stands for this directive on the command line.
    pub open spec fn name(self) -> Seq<char> {
        match self {
            BumpType::MAJOR => "major"@,
            BumpType::MINOR => "minor"@,
            BumpType::PATCH => "patch"@,
        }
    }

    /// The directive that `input` names, if it names one.
    pub open spec fn named(input: Seq<char>) -> Option<BumpType> {
        if input == "major"@ {
            Some(BumpType::MAJOR)
        } else if input == "minor"@ {
            Some(BumpType::MINOR)
        } else if input == "patch"@ {
            Some(BumpType::PATCH)
        } else {
            None
        }
    }

    /// Reads a directive: exactly `major`, `minor` or `patch`. Anything else
    /// is an input error.
    pub fn parse(input: &str) -> (r: Result<BumpType, ReleaseError>)
        ensures
            match r {
                Ok(bump) => BumpType::named(input@) == Some(bump),
                Err(e) => e == ReleaseError::Input && BumpType::named(input@) is None,
            },
    {
        if same_text(input, "major") {
            Ok(BumpType::MAJOR)
        } else if same_text(input, "minor") {
            Ok(BumpType::MINOR)
        } else if same_text(input, "patch") {
            Ok(BumpType::PATCH)
        } else {
            Err(ReleaseError::Input)
        }
    }
}

/// Each directive is read back from its own name, and from no other text.
pub proof fn lemma_bump_names(bump: BumpType, input: Seq<char>)
    ensures
        BumpType::named(bump.name()) == Some(bump),
        BumpType::named(input) == Some(bump) <==> input == bump.name(),
{
    reveal_strlit("major");
    reveal_strlit("minor");
    reveal_strlit("patch");
    assert("major"@[1] == 'a' && "minor"@[1] == 'i' && "patch"@[0] == 'p' && "major"@[0] == 'm'
        && "minor"@[0] == 'm');
}

} // verus!
