//! Properties of the comparison engine, stated over its specifications and
//! proved.
use vstd::prelude::*;

use std::cmp::Ordering;

use crate::compare::flip;
use crate::compare::order_of;
use crate::compare::FileCmp;
use crate::error::CompareError;
use crate::ops::chunk_step;
use crate::ops::plan_of;
use crate::ops::ChunkStep;
use crate::ops::DiffOp;
use crate::ops::DiffPlan;
use crate::policy::MissingFileBehavior;
use crate::select::best_after;
use crate::select::candidate_wins;
use crate::select::selected_index;
use crate::select::Round;
use crate::select::Selection;

verus! {

/// A file compares equal to itself. When it exists this holds whatever the
/// content comparison says; when it is missing, as soon as the comparison
/// finds no difference. The comparisons the library settles itself find
/// none: the no-op strategy sees the same path, the in-memory comparison sees
/// two missing files, and two identical chunks are never told apart.
pub proof fn lemma_self_comparison_equal(
    file: FileCmp,
    differs: bool,
    promote_newest: bool,
    chunk: Seq<u8>,
)
    requires
        file.metadata is Some || !differs,
    ensures
        order_of(file, file, differs, promote_newest) == Some(Ordering::Equal),
        plan_of(DiffOp::NoOp, file, file) == DiffPlan::Decided(false),
        file.metadata is None ==> plan_of(DiffOp::Internal, file, file) == DiffPlan::Decided(
            false,
        ),
        chunk_step(chunk, chunk) != ChunkStep::Different,
{
}

/// Swapping two files flips their order, and an undecided order stays
/// undecided, given one content verdict for both directions. The verdicts
/// the library settles itself (the no-op strategy, and the metadata step of
/// the in-memory comparison) are the same both ways.
pub proof fn lemma_order_antisymmetric(a: FileCmp, b: FileCmp, differs: bool, promote_newest: bool)
    ensures
        match order_of(b, a, differs, promote_newest) {
            Some(o) => order_of(a, b, differs, promote_newest) == Some(flip(o)),
            None => order_of(a, b, differs, promote_newest) is None,
        },
        plan_of(DiffOp::NoOp, a, b) == plan_of(DiffOp::NoOp, b, a),
        plan_of(DiffOp::Internal, a, b) == plan_of(DiffOp::Internal, b, a),
{
}

/// A pass depends on nothing but what it was shown: two passes in the same
/// direction and under the same policy, given the same observations and
/// verdicts, hold the same best file and so report the same index.
pub proof fn lemma_selection_deterministic(x: Selection, y: Selection)
    requires
        x.wf(),
        y.wf(),
        x@.reverse == y@.reverse,
        x@.missing == y@.missing,
        x@.rounds == y@.rounds,
    ensures
        x@.best == y@.best,
        x@.pending is None && y@.pending is None ==> selected_index(
            x@.rounds,
            x@.reverse,
            x@.missing,
        ) == selected_index(y@.rounds, y@.reverse, y@.missing),
{
}

/// A candidate that orders equal to the best so far never replaces it, in
/// either direction.
pub proof fn lemma_equal_never_wins(
    best: FileCmp,
    candidate: FileCmp,
    differs: bool,
    reverse: bool,
    promote_newest: bool,
)
    requires
        order_of(best, candidate, differs, promote_newest) == Some(Ordering::Equal),
    ensures
        !candidate_wins(best, candidate, differs, reverse, promote_newest),
{
}

/// Of two present files with the same modification time, the earlier one is
/// selected, whether the newest or the oldest is sought and whatever the
/// content comparison says.
pub proof fn lemma_tie_keeps_earlier(
    first: Round,
    second: Round,
    reverse: bool,
    missing: MissingFileBehavior,
)
    requires
        first.file.metadata is Some,
        second.file.metadata is Some,
        first.file.metadata.unwrap().modified_ns == second.file.metadata.unwrap().modified_ns,
    ensures
        selected_index(seq![first, second], reverse, missing) == Ok::<usize, CompareError>(
            first.index,
        ),
{
    let rounds = seq![first, second];
    assert(rounds.drop_last() == seq![first]);
    assert(seq![first].drop_last() == Seq::<Round>::empty());
    assert(seq![first].last() == first);
    assert(best_after(Seq::<Round>::empty(), reverse, missing) == Ok::<Option<(usize, FileCmp)>, CompareError>(
        None,
    ));
    assert(best_after(seq![first], reverse, missing) == Ok::<
        Option<(usize, FileCmp)>,
        CompareError,
    >(Some((first.index, first.file))));
    assert(order_of(first.file, second.file, second.differs, missing == MissingFileBehavior::Newest)
        == Some(Ordering::Equal));
}

/// A present file followed by a missing one, searching for the newest:
/// treating missing files as oldest keeps the present file, as newest selects
/// the missing one (once the content comparison tells them apart, as the
/// in-memory comparison does), ignoring them keeps the present file, and the
/// error policy fails naming the missing path.
pub proof fn lemma_missing_policy_outcomes(
    present: Round,
    absent: Round,
    missing: MissingFileBehavior,
)
    requires
        present.file.metadata is Some,
        absent.file.metadata is None,
        missing == MissingFileBehavior::Newest ==> absent.differs,
    ensures
        plan_of(DiffOp::Internal, present.file, absent.file) == DiffPlan::Decided(true),
        selected_index(seq![present, absent], false, missing) == match missing {
            MissingFileBehavior::Oldest => Ok(present.index),
            MissingFileBehavior::Newest => Ok(absent.index),
            MissingFileBehavior::Ignore => Ok(present.index),
            MissingFileBehavior::Error => Err(CompareError::NotFound { path: absent.file.path }),
        },
{
    let rounds = seq![present, absent];
    assert(rounds.drop_last() == seq![present]);
    assert(seq![present].drop_last() == Seq::<Round>::empty());
    assert(seq![present].last() == present);
    assert(best_after(Seq::<Round>::empty(), false, missing) == Ok::<Option<(usize, FileCmp)>, CompareError>(
        None,
    ));
    assert(best_after(seq![present], false, missing) == Ok::<
        Option<(usize, FileCmp)>,
        CompareError,
    >(Some((present.index, present.file))));
}

} // verus!
