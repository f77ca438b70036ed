//! File observations and how two of them order.
use vstd::prelude::*;

use std::cmp::Ordering;

use crate::error::CompareError;
use crate::policy::MissingFileBehavior;

verus! {

/// The kind of object a path names.
#[derive(Clone, Copy, Debug, PartialEq, Eq, Structural)]
pub enum FileKind {
    Regular,
    Directory,
    Symlink,
    Other,
}

/// What one look at an existing file saw.
#[derive(Clone, Copy, Debug, PartialEq, Eq, Structural)]
pub struct FileMeta {
    /// Length in bytes.
    pub size: u64,
    /// Modification time, in nanoseconds since the Unix epoch (negative
    /// before it).
    pub modified_ns: i128,
    /// Whether the path itself is a symbolic link.
    pub is_symlink: bool,
    pub kind: FileKind,
}

/// An observation of one path, made once: either the file's metadata or the
/// fact that nothing was found there.
#[derive(Debug)]
pub struct FileCmp {
    pub path: String,
    pub metadata: Option<FileMeta>,
}

/// `o` seen from the other side.
pub open spec fn flip(o: Ordering) -> Ordering {
    match o {
        Ordering::Less => Ordering::Greater,
        Ordering::Equal => Ordering::Equal,
        Ordering::Greater => Ordering::Less,
    }
}

/// The natural order of two integers.
pub open spec fn cmp_int(a: int, b: int) -> Ordering {
    if a < b {
        Ordering::Less
    } else if a == b {
        Ordering::Equal
    } else {
        Ordering::Greater
    }
}

/// How a missing file orders against a present one.
pub open spec fn missing_vs_present(promote_newest: bool) -> Ordering {
    if promote_newest {
        Ordering::Greater
    } else {
        Ordering::Less
    }
}

/// The order of `a` against `b`. When the content comparison found them not
/// to differ they are equal; otherwise a missing file sits below (or, when
/// missing files are promoted, above) a present one and two present files
/// order by modification time. Two missing files have no order.
pub open spec fn order_of(a: FileCmp, b: FileCmp, differs: bool, promote_newest: bool) -> Option<
    Ordering,
> {
    if !differs {
        Some(Ordering::Equal)
    } else {
        match (a.metadata, b.metadata) {
            (Some(x), Some(y)) => Some(cmp_int(x.modified_ns as int, y.modified_ns as int)),
            (None, Some(_)) => Some(missing_vs_present(promote_newest)),
            (Some(_), None) => Some(flip(missing_vs_present(promote_newest))),
            (None, None) => None,
        }
    }
}

impl FileCmp {
    /// An observation of a path where no file was found.
    pub fn not_found(path: String) -> (r: FileCmp)
        ensures
            r.path == path,
            r.metadata is None,
    {
        FileCmp { path, metadata: None }
    }

    /// An observation of a path where a file with metadata `meta` was found.
    pub fn found(path: String, meta: FileMeta) -> (r: FileCmp)
        ensures
            r.path == path,
            r.metadata == Some(meta),
    {
        FileCmp { path, metadata: Some(meta) }
    }

    /// Whether a file was found at the path.
    pub fn is_found(&self) -> (r: bool)
        ensures
            r == self.metadata is Some,
    {
        self.metadata.is_some()
    }

    /// The modification time, when the file was found.
    fn modified(&self) -> (r: Option<i128>)
        ensures
            r == (match self.metadata {
                Some(m) => Some(m.modified_ns),
                None => None,
            }),
    {
        match &self.metadata {
            Some(m) => Some(m.modified_ns),
            None => None,
        }
    }

    /// Orders this observation against `other`.
    ///
    /// `differs` is the content comparison's answer on the two paths: when it
    /// found no difference the files compare equal whatever their times.
    /// `promote_newest` makes a missing file greater than a present one;
    /// otherwise it is less.
    pub fn partial_cmp(&self, other: &FileCmp, differs: bool, promote_newest: bool) -> (r: Option<
        Ordering,
    >)
        ensures
            r == order_of(*self, *other, differs, promote_newest),
    {
        if !differs {
            return Some(Ordering::Equal);
        }
        let missing_first = if promote_newest {
            Ordering::Greater
        } else {
            Ordering::Less
        };
        let missing_second = if promote_newest {
            Ordering::Less
        } else {
            Ordering::Greater
        };
        let file_cmp = match (self.is_found(), other.is_found()) {
            (true, true) => Ordering::Equal,
            (false, true) => missing_first,
            (true, false) => missing_second,
            (false, false) => return None,
        };
        let time_cmp = match (self.modified(), other.modified()) {
            (Some(t1), Some(t2)) => if t1 < t2 {
                Ordering::Less
            } else if t1 == t2 {
                Ordering::Equal
            } else {
                Ordering::Greater
            },
            (None, Some(_)) => missing_first,
            (Some(_), None) => missing_second,
            (None, None) => return None,
        };
        match file_cmp {
            Ordering::Equal => Some(time_cmp),
            _ => Some(file_cmp),
        }
    }
}

/// How an observed file takes part under `missing`: a found file always does;
/// a missing one is an error under `Error`, drops out under `Ignore`, and
/// otherwise takes part as missing.
pub open spec fn resolution(file: FileCmp, missing: MissingFileBehavior) -> Result<
    Option<FileCmp>,
    CompareError,
> {
    if file.metadata is Some {
        Ok(Some(file))
    } else {
        match missing {
            MissingFileBehavior::Error => Err(CompareError::NotFound { path: file.path }),
            MissingFileBehavior::Ignore => Ok(None),
            _ => Ok(Some(file)),
        }
    }
}

/// Applies the missing-file policy to an observation.
pub fn resolve(file: FileCmp, missing: MissingFileBehavior) -> (r: Result<
    Option<FileCmp>,
    CompareError,
>)
    ensures
        r == resolution(file, missing),
{
    if file.is_found() {
        return Ok(Some(file));
    }
    match missing {
        MissingFileBehavior::Error => Err(CompareError::NotFound { path: file.path }),
        MissingFileBehavior::Ignore => Ok(None),
        _ => Ok(Some(file)),
    }
}

/// The first step of ordering two paths.
#[derive(Clone, Copy, Debug, PartialEq, Eq)]
pub enum PairStep {
    /// The order is known without a content comparison.
    Decided(Option<Ordering>),
    /// Both files take part: their order is `FileCmp::partial_cmp` with the
    /// content comparison's answer.
    Compare,
}

/// The first step of ordering the paths observed in `a` and `b`. The same
/// path is equal to itself; otherwise each file is resolved under `missing`,
/// a file that drops out sits above one that takes part, and two that drop
/// out are equal.
pub open spec fn pair_step(a: FileCmp, b: FileCmp, missing: MissingFileBehavior) -> Result<
    PairStep,
    CompareError,
> {
    if a.path@ == b.path@ {
        Ok(PairStep::Decided(Some(Ordering::Equal)))
    } else {
        match (resolution(a, missing), resolution(b, missing)) {
            (Err(e), _) => Err(e),
            (Ok(_), Err(e)) => Err(e),
            (Ok(Some(_)), Ok(Some(_))) => Ok(PairStep::Compare),
            (Ok(None), Ok(None)) => Ok(PairStep::Decided(Some(Ordering::Equal))),
            (Ok(None), Ok(Some(_))) => Ok(PairStep::Decided(Some(Ordering::Greater))),
            (Ok(Some(_)), Ok(None)) => Ok(PairStep::Decided(Some(Ordering::Less))),
        }
    }
}

/// Whether the missing-file policy drops `file`, or `Err` when it makes
/// `file` an error.
fn drops_out(file: &FileCmp, missing: MissingFileBehavior) -> (r: Result<bool, CompareError>)
    ensures
        r == (match resolution(*file, missing) {
            Err(e) => Err(e),
            Ok(kept) => Ok(kept is None),
        }),
{
    if file.is_found() {
        return Ok(false);
    }
    match missing {
        MissingFileBehavior::Error => Err(CompareError::NotFound { path: file.path.clone() }),
        MissingFileBehavior::Ignore => Ok(true),
        _ => Ok(false),
    }
}

/// Starts ordering two observed paths under `missing`; see `pair_step`.
pub fn partial_cmp_paths(a: &FileCmp, b: &FileCmp, missing: MissingFileBehavior) -> (r: Result<
    PairStep,
    CompareError,
>)
    ensures
        r == pair_step(*a, *b, missing),
{
    if a.path == b.path {
        return Ok(PairStep::Decided(Some(Ordering::Equal)));
    }
    let a_out = match drops_out(a, missing) {
        Ok(v) => v,
        Err(e) => return Err(e),
    };
    let b_out = match drops_out(b, missing) {
        Ok(v) => v,
        Err(e) => return Err(e),
    };
    match (a_out, b_out) {
        (false, false) => Ok(PairStep::Compare),
        (true, true) => Ok(PairStep::Decided(Some(Ordering::Equal))),
        (true, false) => Ok(PairStep::Decided(Some(Ordering::Greater))),
        (false, true) => Ok(PairStep::Decided(Some(Ordering::Less))),
    }
}

} // verus!
