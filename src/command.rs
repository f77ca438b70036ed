//! Command line interface options.
use vstd::prelude::*;

use crate::ops::DiffOp;
use crate::policy::names;
use crate::policy::MissingFileBehavior;
use crate::text::eq_ignore_ascii_case;

verus! {

/// Takes a list of file names and returns the most recently modified file.
///
/// By default, the file name is returned, and missing files are ignored.
#[derive(Clone, Debug)]
pub struct FcmpOptions {
    /// File paths to compare.
    pub paths: Vec<String>,
    /// Return the oldest file instead of the newest.
    pub reverse: bool,
    /// Return the index of the file, instead of the path.
    pub index: bool,
    /// Ignore files that have the same content.
    pub diff: bool,
    /// Behavior when comparing missing files.
    pub missing: MissingBehavior,
}

/// What the `--missing` option accepts.
#[derive(Clone, Copy, Debug, PartialEq, Eq, Structural)]
pub enum MissingBehavior {
    Ignore,
    Error,
}

/// An error indicating a failure to parse a `MissingBehavior`.
#[derive(Clone, Copy, Debug, PartialEq, Eq, Structural)]
pub struct MissingBehaviorParseError;

/// The behavior that `s` names.
pub open spec fn missing_behavior_named(s: &str) -> Result<MissingBehavior, MissingBehaviorParseError> {
    if names(s, "ignore") {
        Ok(MissingBehavior::Ignore)
    } else if names(s, "error") {
        Ok(MissingBehavior::Error)
    } else {
        Err(MissingBehaviorParseError)
    }
}

impl MissingBehavior {
    /// Parses `ignore` or `error`, in any ASCII case.
    pub fn parse(s: &str) -> (r: Result<MissingBehavior, MissingBehaviorParseError>)
        ensures
            r == missing_behavior_named(s),
    {
        if eq_ignore_ascii_case(s, "ignore") {
            Ok(MissingBehavior::Ignore)
        } else if eq_ignore_ascii_case(s, "error") {
            Ok(MissingBehavior::Error)
        } else {
            Err(MissingBehaviorParseError)
        }
    }
}

impl std::str::FromStr for MissingBehavior {
    type Err = MissingBehaviorParseError;

    fn from_str(s: &str) -> Result<MissingBehavior, MissingBehaviorParseError> {
        MissingBehavior::parse(s)
    }
}

impl FcmpOptions {
    /// The content comparison the options ask for: in memory with `diff`,
    /// none otherwise.
    pub fn diff_op(&self) -> (r: DiffOp)
        ensures
            r == (if self.diff {
                DiffOp::Internal
            } else {
                DiffOp::NoOp
            }),
    {
        if self.diff {
            DiffOp::Internal
        } else {
            DiffOp::NoOp
        }
    }

    /// The missing-file policy the options ask for.
    pub fn missing_file_behavior(&self) -> (r: MissingFileBehavior)
        ensures
            r == (match self.missing {
                MissingBehavior::Ignore => MissingFileBehavior::Ignore,
                MissingBehavior::Error => MissingFileBehavior::Error,
            }),
    {
        match self.missing {
            MissingBehavior::Ignore => MissingFileBehavior::Ignore,
            MissingBehavior::Error => MissingFileBehavior::Error,
        }
    }
}

} // verus!
