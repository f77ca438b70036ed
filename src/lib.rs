//! Picks, among a list of files, the most (or least) recently modified one.
//!
//! The library holds the decisions: how two file observations order, how a
//! missing file takes part, how content comparisons override timestamps, and
//! how a single pass selects the extremal position. Reading the file system
//! and running comparator processes is left to the caller, which hands the
//! library plain observations and verdicts.
pub mod command;
pub mod compare;
pub mod error;
pub mod laws;
pub mod ops;
pub mod policy;
pub mod select;
pub mod text;

pub use compare::FileCmp;
pub use compare::FileKind;
pub use compare::FileMeta;
pub use error::CompareError;
pub use ops::DiffOp;
pub use policy::MissingFileBehavior;
pub use policy::MissingFileBehaviorParseError;
pub use select::Offer;
pub use select::Selection;
