//! Strategies that decide whether two files differ in content.
use vstd::prelude::*;

use crate::compare::FileCmp;
use crate::compare::FileMeta;
use crate::error::CompareError;

verus! {

/// A diff operation.
#[derive(Clone, Debug)]
pub enum DiffOp {
    /// No content is read: two paths differ unless they are the same path.
    NoOp,
    /// The files' bytes are compared in memory, chunk by chunk.
    Internal,
    /// A comparator is run as a subprocess on the two paths.
    Subprocess {
        /// The command to execute.
        command: &'static str,
        /// The arguments passed before the two paths.
        args: Vec<&'static str>,
    },
}

/// What is still to be done to learn whether two files differ.
#[derive(Clone, Copy, Debug, PartialEq, Eq, Structural)]
pub enum DiffPlan {
    /// Known already: `true` when the files differ.
    Decided(bool),
    /// Both files must be read and their bytes compared with `compare_chunks`.
    ReadContents,
    /// The comparator must be run; its exit goes to `exit_verdict`.
    RunCommand,
}

/// One step of comparing two byte streams.
#[derive(Clone, Copy, Debug, PartialEq, Eq, Structural)]
pub enum ChunkStep {
    /// Both streams ended together: no difference was found.
    Same,
    /// The streams differ.
    Different,
    /// The first `n` bytes of both chunks agree: consume them and go on.
    Advance(usize),
}

/// The verdict that the files' metadata settles without reading content, if
/// any: two missing files do not differ, one missing file differs from a
/// present one, and present files differ when their sizes or kinds differ or
/// either is a symbolic link.
pub open spec fn metadata_verdict(a: Option<FileMeta>, b: Option<FileMeta>) -> Option<bool> {
    match (a, b) {
        (None, None) => Some(false),
        (Some(x), Some(y)) => if x.size != y.size || x.is_symlink || y.is_symlink || x.kind
            != y.kind {
            Some(true)
        } else {
            None
        },
        _ => Some(true),
    }
}

/// The plan of `op` for two observed files.
pub open spec fn plan_of(op: DiffOp, a: FileCmp, b: FileCmp) -> DiffPlan {
    match op {
        DiffOp::NoOp => DiffPlan::Decided(a.path@ != b.path@),
        DiffOp::Internal => match metadata_verdict(a.metadata, b.metadata) {
            Some(v) => DiffPlan::Decided(v),
            None => DiffPlan::ReadContents,
        },
        DiffOp::Subprocess { .. } => DiffPlan::RunCommand,
    }
}

/// The length of the window that two chunks share.
pub open spec fn window(a: Seq<u8>, b: Seq<u8>) -> nat {
    if a.len() <= b.len() {
        a.len()
    } else {
        b.len()
    }
}

/// The step taken on chunks `a` and `b`: two empty chunks mean both streams
/// ended; one empty chunk means one stream ended before the other; otherwise
/// the shared window either agrees, and is consumed, or does not.
pub open spec fn chunk_step(a: Seq<u8>, b: Seq<u8>) -> ChunkStep {
    if a.len() == 0 && b.len() == 0 {
        ChunkStep::Same
    } else if a.len() == 0 || b.len() == 0 {
        ChunkStep::Different
    } else if a.take(window(a, b) as int) == b.take(window(a, b) as int) {
        ChunkStep::Advance(window(a, b) as usize)
    } else {
        ChunkStep::Different
    }
}

/// What a comparator's exit means: 0 is "no difference", 1 is "different",
/// any other code, or none at all (a signal ended it), is a failure.
pub open spec fn exit_meaning(code: Option<i32>) -> Result<bool, CompareError> {
    match code {
        Some(0) => Ok(false),
        Some(1) => Ok(true),
        Some(c) => Err(CompareError::ComparatorExit { code: c }),
        None => Err(CompareError::ComparatorKilled),
    }
}

impl DiffOp {
    /// Returns a `DiffOp` that will execute a POSIX diff subprocess.
    pub fn posix_diff() -> (r: DiffOp)
        ensures
            r matches DiffOp::Subprocess { command, args } && command@ == "diff"@ && args@.len()
                == 0,
    {
        DiffOp::Subprocess { command: "diff", args: vec![] }
    }

    /// Returns a `DiffOp` that will execute a POSIX cmp subprocess.
    pub fn posix_cmp() -> (r: DiffOp)
        ensures
            r matches DiffOp::Subprocess { command, args } && command@ == "cmp"@ && args@.len()
                == 1 && args@[0]@ == "-s"@,
    {
        DiffOp::Subprocess { command: "cmp", args: vec!["-s"] }
    }

    /// How this operation decides whether the files observed in `a` and `b`
    /// differ.
    pub fn plan(&self, a: &FileCmp, b: &FileCmp) -> (r: DiffPlan)
        ensures
            r == plan_of(*self, *a, *b),
    {
        match self {
            DiffOp::NoOp => DiffPlan::Decided(!(a.path == b.path)),
            DiffOp::Internal => match (&a.metadata, &b.metadata) {
                (None, None) => DiffPlan::Decided(false),
                (Some(x), Some(y)) => {
                    if x.size != y.size || x.is_symlink || y.is_symlink || x.kind != y.kind {
                        DiffPlan::Decided(true)
                    } else {
                        DiffPlan::ReadContents
                    }
                },
                _ => DiffPlan::Decided(true),
            },
            DiffOp::Subprocess { .. } => DiffPlan::RunCommand,
        }
    }
}

/// Compares the chunks currently available from two byte streams. The caller
/// consumes `n` bytes of both streams on `Advance(n)` and calls again with
/// what is then available; an empty chunk means that stream has ended.
pub fn compare_chunks(a: &[u8], b: &[u8]) -> (r: ChunkStep)
    ensures
        r == chunk_step(a@, b@),
{
    let la = a.len();
    let lb = b.len();
    if la == 0 && lb == 0 {
        return ChunkStep::Same;
    }
    if la == 0 || lb == 0 {
        return ChunkStep::Different;
    }
    let n: usize = if la <= lb {
        la
    } else {
        lb
    };
    let mut i: usize = 0;
    while i < n
        invariant
            n == window(a@, b@),
            n <= a@.len(),
            n <= b@.len(),
            i <= n,
            forall|k: int| 0 <= k < i ==> a@[k] == b@[k],
        decreases n - i,
    {
        if a[i] != b[i] {
            assert(a@.take(n as int)[i as int] != b@.take(n as int)[i as int]);
            return ChunkStep::Different;
        }
        i = i + 1;
    }
    assert(a@.take(n as int) =~= b@.take(n as int));
    ChunkStep::Advance(n)
}

/// Comparing two streams chunk by chunk gives the answer that comparing their
/// whole contents would, wherever the chunk boundaries fall. Let `a` and `b`
/// be the full contents, `pos` the number of bytes consumed from each so far
/// (and found equal), and `ca`, `cb` the chunks now available: each is what
/// follows `pos` in its stream, and empty only once that stream has ended.
/// Then `Same` means the contents are equal, `Different` that they are not,
/// and `Advance(n)` consumes at least one byte, all of them equal.
pub proof fn lemma_chunk_step_sound(a: Seq<u8>, b: Seq<u8>, pos: int, ca: Seq<u8>, cb: Seq<u8>)
    requires
        0 <= pos <= a.len(),
        pos <= b.len(),
        a.take(pos) == b.take(pos),
        pos + ca.len() <= a.len(),
        pos + cb.len() <= b.len(),
        ca == a.subrange(pos, pos + ca.len()),
        cb == b.subrange(pos, pos + cb.len()),
        ca.len() == 0 <==> pos == a.len(),
        cb.len() == 0 <==> pos == b.len(),
        ca.len() <= usize::MAX,
        cb.len() <= usize::MAX,
    ensures
        chunk_step(ca, cb) == ChunkStep::Same ==> a == b,
        chunk_step(ca, cb) == ChunkStep::Different ==> a != b,
        chunk_step(ca, cb) matches ChunkStep::Advance(n) ==> {
            &&& 0 < n
            &&& pos + n <= a.len()
            &&& pos + n <= b.len()
            &&& a.take(pos + n) == b.take(pos + n)
        },
{
    let n = window(ca, cb) as int;
    if ca.len() == 0 && cb.len() == 0 {
        assert(a =~= a.take(pos));
        assert(b =~= b.take(pos));
    } else if ca.len() == 0 || cb.len() == 0 {
        assert(a.len() != b.len());
    } else if ca.take(n) == cb.take(n) {
        assert forall|k: int| 0 <= k < pos + n implies a[k] == b[k] by {
            if k < pos {
                assert(a.take(pos)[k] == a[k]);
                assert(b.take(pos)[k] == b[k]);
            } else {
                assert(ca.take(n)[k - pos] == cb.take(n)[k - pos]);
                assert(ca[k - pos] == a[k]);
                assert(cb[k - pos] == b[k]);
            }
        }
        assert(a.take(pos + n) =~= b.take(pos + n));
    } else {
        assert(!(ca.take(n) =~= cb.take(n)));
        let k = choose|k: int| 0 <= k < n && ca.take(n)[k] != cb.take(n)[k];
        assert(ca[k] == a[pos + k]);
        assert(cb[k] == b[pos + k]);
    }
}

/// Interprets the exit of a comparator process: `code` is its exit code, or
/// `None` when a signal ended it. `Ok(true)` means the files differ.
pub fn exit_verdict(code: Option<i32>) -> (r: Result<bool, CompareError>)
    ensures
        r == exit_meaning(code),
{
    match code {
        Some(0) => Ok(false),
        Some(1) => Ok(true),
        Some(c) => Err(CompareError::ComparatorExit { code: c }),
        None => Err(CompareError::ComparatorKilled),
    }
}

} // verus!
