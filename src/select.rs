//! Single-pass selection of the newest (or oldest) file in a sequence.
//!
//! The selection is driven from outside: the caller observes each path in
//! turn and offers it; when an offered file must be weighed against the best
//! so far, the caller runs the content comparison on the two and settles the
//! contest with its verdict.
use vstd::prelude::*;

use std::cmp::Ordering;

use crate::compare::order_of;
use crate::compare::resolution;
use crate::compare::resolve;
use crate::compare::FileCmp;
use crate::error::CompareError;
use crate::policy::MissingFileBehavior;

verus! {

/// One position of the sequence as the selection saw it: the observation
/// made there and, when it was weighed against the best so far, the content
/// comparison's answer (otherwise `differs` plays no part).
pub struct Round {
    pub index: usize,
    pub file: FileCmp,
    pub differs: bool,
}

/// Whether `candidate` replaces `best`: the order of `best` against the
/// candidate must favor the candidate strictly, that is be `Less` when the
/// newest file is sought and `Greater` when `reverse` seeks the oldest.
pub open spec fn candidate_wins(
    best: FileCmp,
    candidate: FileCmp,
    differs: bool,
    reverse: bool,
    promote_newest: bool,
) -> bool {
    order_of(best, candidate, differs, promote_newest) == Some(
        if reverse {
            Ordering::Greater
        } else {
            Ordering::Less
        },
    )
}

/// The best position and file after `round`, starting from `best`.
pub open spec fn after_round(
    best: Option<(usize, FileCmp)>,
    round: Round,
    reverse: bool,
    missing: MissingFileBehavior,
) -> Result<Option<(usize, FileCmp)>, CompareError> {
    match resolution(round.file, missing) {
        Err(e) => Err(e),
        Ok(None) => Ok(best),
        Ok(Some(f)) => Ok(
            match best {
                None => Some((round.index, f)),
                Some((_, b)) => if candidate_wins(
                    b,
                    f,
                    round.differs,
                    reverse,
                    missing == MissingFileBehavior::Newest,
                ) {
                    Some((round.index, f))
                } else {
                    best
                },
            },
        ),
    }
}

/// The best position and file after all of `rounds`, in order; the first
/// error ends the pass.
pub open spec fn best_after(rounds: Seq<Round>, reverse: bool, missing: MissingFileBehavior) -> Result<
    Option<(usize, FileCmp)>,
    CompareError,
>
    decreases rounds.len(),
{
    if rounds.len() == 0 {
        Ok(None)
    } else {
        match best_after(rounds.drop_last(), reverse, missing) {
            Err(e) => Err(e),
            Ok(best) => after_round(best, rounds.last(), reverse, missing),
        }
    }
}

/// The index that a pass over `rounds` selects: that of the best file, or 0
/// when no file took part.
pub open spec fn selected_index(rounds: Seq<Round>, reverse: bool, missing: MissingFileBehavior) -> Result<
    usize,
    CompareError,
> {
    match best_after(rounds, reverse, missing) {
        Err(e) => Err(e),
        Ok(None) => Ok(0),
        Ok(Some((i, _))) => Ok(i),
    }
}

/// What became of an offered file.
#[derive(Clone, Copy, Debug, PartialEq, Eq, Structural)]
pub enum Offer {
    /// The policy drops the file; it never becomes a candidate.
    Skipped,
    /// No file had taken part yet: this one is now the best.
    Adopted,
    /// The file must be weighed against the best so far: run the content
    /// comparison on the two (see `Selection::contest`) and call `settle`.
    Contest,
}

/// The abstract state of a `Selection`.
pub struct SelectionState {
    pub reverse: bool,
    pub missing: MissingFileBehavior,
    /// The best position and file so far.
    pub best: Option<(usize, FileCmp)>,
    /// A file offered and not yet settled, with its position.
    pub pending: Option<(usize, FileCmp)>,
    /// The rounds completed so far.
    pub rounds: Seq<Round>,
}

/// A pass in progress that selects the newest file (the oldest when
/// `reverse`), keeping the earliest among files that tie.
pub struct Selection {
    reverse: bool,
    missing: MissingFileBehavior,
    best: Option<(usize, FileCmp)>,
    pending: Option<(usize, FileCmp)>,
    rounds: Ghost<Seq<Round>>,
}

impl View for Selection {
    type V = SelectionState;

    closed spec fn view(&self) -> SelectionState {
        SelectionState {
            reverse: self.reverse,
            missing: self.missing,
            best: self.best,
            pending: self.pending,
            rounds: self.rounds@,
        }
    }
}

impl Selection {
    /// Whether the best so far is what the completed rounds select, and a
    /// pending file is one that takes part, waiting on a best file.
    pub open spec fn wf(&self) -> bool {
        &&& best_after(self@.rounds, self@.reverse, self@.missing) == Ok::<
            Option<(usize, FileCmp)>,
            CompareError,
        >(self@.best)
        &&& self@.pending matches Some((_, f)) ==> {
            &&& self@.best is Some
            &&& resolution(f, self@.missing) == Ok::<Option<FileCmp>, CompareError>(Some(f))
        }
    }

    /// A pass that has seen nothing yet.
    pub fn new(reverse: bool, missing: MissingFileBehavior) -> (r: Selection)
        ensures
            r.wf(),
            r@.reverse == reverse,
            r@.missing == missing,
            r@.best is None,
            r@.pending is None,
            r@.rounds == Seq::<Round>::empty(),
    {
        Selection { reverse, missing, best: None, pending: None, rounds: Ghost(Seq::empty()) }
    }

    /// Offers the file observed at position `index`. An error (a missing
    /// file under the `Error` policy) leaves the pass as it was.
    pub fn offer(&mut self, index: usize, observed: FileCmp) -> (r: Result<Offer, CompareError>)
        requires
            old(self).wf(),
            old(self)@.pending is None,
        ensures
            final(self).wf(),
            final(self)@.reverse == old(self)@.reverse,
            final(self)@.missing == old(self)@.missing,
            match resolution(observed, old(self)@.missing) {
                Err(e) => r == Err::<Offer, CompareError>(e) && final(self)@ == old(self)@,
                Ok(None) => {
                    &&& r == Ok::<Offer, CompareError>(Offer::Skipped)
                    &&& final(self)@.best == old(self)@.best
                    &&& final(self)@.pending is None
                    &&& final(self)@.rounds == old(self)@.rounds.push(
                        Round { index, file: observed, differs: false },
                    )
                },
                Ok(Some(f)) => match old(self)@.best {
                    None => {
                        &&& r == Ok::<Offer, CompareError>(Offer::Adopted)
                        &&& final(self)@.best == Some((index, f))
                        &&& final(self)@.pending is None
                        &&& final(self)@.rounds == old(self)@.rounds.push(
                            Round { index, file: observed, differs: false },
                        )
                    },
                    Some(_) => {
                        &&& r == Ok::<Offer, CompareError>(Offer::Contest)
                        &&& final(self)@.best == old(self)@.best
                        &&& final(self)@.pending == Some((index, f))
                        &&& final(self)@.rounds == old(self)@.rounds
                    },
                },
            },
    {
        let ghost before = self.rounds@;
        match resolve(observed, self.missing) {
            Err(e) => Err(e),
            Ok(None) => {
                let ghost file = observed;
                proof {
                    self.rounds = Ghost(before.push(Round { index, file, differs: false }));
                    assert(self.rounds@.drop_last() == before);
                }
                Ok(Offer::Skipped)
            },
            Ok(Some(f)) => {
                if self.best.is_none() {
                    let ghost file = observed;
                    proof {
                        self.rounds = Ghost(before.push(Round { index, file, differs: false }));
                        assert(self.rounds@.drop_last() == before);
                    }
                    self.best = Some((index, f));
                    Ok(Offer::Adopted)
                } else {
                    self.pending = Some((index, f));
                    Ok(Offer::Contest)
                }
            },
        }
    }

    /// The best file so far and the file waiting to be weighed against it.
    pub fn contest(&self) -> (r: Option<(&FileCmp, &FileCmp)>)
        ensures
            match (self@.best, self@.pending) {
                (Some((_, b)), Some((_, c))) => r == Some((&b, &c)),
                _ => r is None,
            },
    {
        match (&self.best, &self.pending) {
            (Some((_, b)), Some((_, c))) => Some((b, c)),
            _ => None,
        }
    }

    /// Settles the pending contest with the content comparison's answer:
    /// `differs` is `true` when the two files differ.
    pub fn settle(&mut self, differs: bool)
        requires
            old(self).wf(),
            old(self)@.pending is Some,
        ensures
            final(self).wf(),
            final(self)@.reverse == old(self)@.reverse,
            final(self)@.missing == old(self)@.missing,
            final(self)@.pending is None,
            final(self)@.rounds == old(self)@.rounds.push(
                Round {
                    index: old(self)@.pending.unwrap().0,
                    file: old(self)@.pending.unwrap().1,
                    differs,
                },
            ),
            final(self)@.best == if candidate_wins(
                old(self)@.best.unwrap().1,
                old(self)@.pending.unwrap().1,
                differs,
                old(self)@.reverse,
                old(self)@.missing == MissingFileBehavior::Newest,
            ) {
                old(self)@.pending
            } else {
                old(self)@.best
            },
    {
        let pending = self.pending.take();
        let (index, cand) = match pending {
            Some(p) => p,
            None => return ,
        };
        let ghost before = self.rounds@;
        let ghost file = cand;
        let wins = match &self.best {
            Some((_, best)) => {
                let order = best.partial_cmp(&cand, differs, self.missing.promotes_newest());
                let wanted = if self.reverse {
                    Ordering::Greater
                } else {
                    Ordering::Less
                };
                match (order, wanted) {
                    (Some(Ordering::Greater), Ordering::Greater) => true,
                    (Some(Ordering::Less), Ordering::Less) => true,
                    _ => false,
                }
            },
            None => false,
        };
        proof {
            self.rounds = Ghost(before.push(Round { index, file, differs }));
            assert(self.rounds@.drop_last() == before);
        }
        if wins {
            self.best = Some((index, cand));
        }
    }

    /// The index of the best file so far, or 0 when no file has taken part.
    pub fn best_index(&self) -> (r: usize)
        ensures
            r == (match self@.best {
                Some((i, _)) => i,
                None => 0,
            }),
            self.wf() && self@.pending is None ==> Ok::<usize, CompareError>(r) == selected_index(
                self@.rounds,
                self@.reverse,
                self@.missing,
            ),
    {
        match &self.best {
            Some((i, _)) => *i,
            None => 0,
        }
    }
}

} // verus!
