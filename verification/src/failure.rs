//! Keeping the first of several failures.

use vstd::prelude::*;

verus! {

/// The first failure of a batch of work that goes on past a failure. Once the batch is
/// through, the first one is reported; those after it are surplus.
pub struct FirstFailure<P> {
    kept: Option<P>,
}

/// What is kept once `failure` has come: what was kept before, or it.
pub open spec fn kept_after<P>(kept: Option<P>, failure: P) -> Option<P> {
    if kept is Some {
        kept
    } else {
        Some(failure)
    }
}

impl<P> View for FirstFailure<P> {
    type V = Option<P>;

    /// The failure that is kept.
    closed spec fn view(&self) -> Option<P> {
        self.kept
    }
}

impl<P> FirstFailure<P> {
    /// Nothing has failed yet.
    pub fn new() -> (record: Self)
        ensures
            record@ == None::<P>,
    {
        FirstFailure { kept: None }
    }

    /// Records a failure. The first one is kept; a later one is handed back, for the caller
    /// to dispose of.
    pub fn failed(&mut self, failure: P) -> (surplus: Option<P>)
        ensures
            final(self)@ == kept_after(old(self)@, failure),
            surplus == (if old(self)@ is Some {
                Some(failure)
            } else {
                None::<P>
            }),
    {
        if self.kept.is_some() {
            return Some(failure);
        }
        self.kept = Some(failure);
        None
    }

    /// Ends the batch: the failure to report, if there was one.
    pub fn finish(self) -> (first: Option<P>)
        ensures
            first == self@,
    {
        self.kept
    }
}

/// The record after each of the given failures, in order.
pub open spec fn recorded<P>(kept: Option<P>, failures: Seq<P>) -> Option<P>
    decreases failures.len(),
{
    if failures.len() == 0 {
        kept
    } else {
        recorded(kept_after(kept, failures[0]), failures.drop_first())
    }
}

/// Whatever fails in a batch, the first failure is the one reported, and none is exactly
/// when nothing failed.
pub proof fn law_first_failure_is_reported<P>(failures: Seq<P>)
    ensures
        recorded(None, failures) == (if failures.len() > 0 {
            Some(failures[0])
        } else {
            None::<P>
        }),
{
    if failures.len() > 0 {
        lemma_kept_stays(failures[0], failures.drop_first());
    }
}

proof fn lemma_kept_stays<P>(kept: P, failures: Seq<P>)
    ensures
        recorded(Some(kept), failures) == Some(kept),
    decreases failures.len(),
{
    if failures.len() > 0 {
        lemma_kept_stays(kept, failures.drop_first());
    }
}

} // verus!
