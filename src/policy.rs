//! How missing files take part in a comparison.
use vstd::prelude::*;
use vstd::string::StringSliceAdditionalSpecFns;

use crate::text::eq_ignore_ascii_case;
use crate::text::equal_ignoring_ascii_case;

verus! {

/// Options for handling missing files.
#[derive(Clone, Copy, Debug, PartialEq, Eq, Structural)]
pub enum MissingFileBehavior {
    /// Treat missing files as older than all others.
    Oldest,
    /// Treat missing files as newer than all others.
    Newest,
    /// Ignore the file if it is missing.
    Ignore,
    /// Return an error if the file is missing.
    Error,
}

/// An error indicating a failure to parse a `MissingFileBehavior`.
#[derive(Clone, Copy, Debug, PartialEq, Eq, Structural)]
pub struct MissingFileBehaviorParseError;

/// Whether `s` names `word`, with ASCII case ignored.
pub open spec fn names(s: &str, word: &str) -> bool {
    equal_ignoring_ascii_case(s.spec_bytes(), word.spec_bytes())
}

/// The behavior that `s` names.
pub open spec fn missing_file_behavior_named(s: &str) -> Result<
    MissingFileBehavior,
    MissingFileBehaviorParseError,
> {
    if names(s, "oldest") {
        Ok(MissingFileBehavior::Oldest)
    } else if names(s, "newest") {
        Ok(MissingFileBehavior::Newest)
    } else if names(s, "ignore") {
        Ok(MissingFileBehavior::Ignore)
    } else if names(s, "error") {
        Ok(MissingFileBehavior::Error)
    } else {
        Err(MissingFileBehaviorParseError)
    }
}

impl MissingFileBehavior {
    /// Parses one of `oldest`, `newest`, `ignore` or `error`, in any ASCII
    /// case.
    pub fn parse(s: &str) -> (r: Result<MissingFileBehavior, MissingFileBehaviorParseError>)
        ensures
            r == missing_file_behavior_named(s),
    {
        if eq_ignore_ascii_case(s, "oldest") {
            Ok(MissingFileBehavior::Oldest)
        } else if eq_ignore_ascii_case(s, "newest") {
            Ok(MissingFileBehavior::Newest)
        } else if eq_ignore_ascii_case(s, "ignore") {
            Ok(MissingFileBehavior::Ignore)
        } else if eq_ignore_ascii_case(s, "error") {
            Ok(MissingFileBehavior::Error)
        } else {
            Err(MissingFileBehaviorParseError)
        }
    }

    /// Whether missing files order above present ones.
    pub fn promotes_newest(&self) -> (r: bool)
        ensures
            r == (*self == MissingFileBehavior::Newest),
    {
        match self {
            MissingFileBehavior::Newest => true,
            _ => false,
        }
    }
}

impl std::str::FromStr for MissingFileBehavior {
    type Err = MissingFileBehaviorParseError;

    fn from_str(s: &str) -> Result<MissingFileBehavior, MissingFileBehaviorParseError> {
        MissingFileBehavior::parse(s)
    }
}

} // verus!
