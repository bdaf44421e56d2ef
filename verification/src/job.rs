use crate::freshness::Freshness;
use crate::work::Work;
use vstd::prelude::*;

verus! {

/// A task with two bodies, one for each freshness outcome.
///
/// Both bodies are always there: a task that has nothing to do on one of the
/// two outcomes holds [`Work::noop`] for it.
#[verifier::reject_recursive_types(S)]
#[verifier::reject_recursive_types(E)]
pub struct Job<S, E> {
    dirty: Work<S, E>,
    fresh: Work<S, E>,
}

impl<S, E> Job<S, E> {
    /// The unit that runs when the task is dirty.
    pub closed spec fn dirty(&self) -> Work<S, E> {
        self.dirty
    }

    /// The unit that runs when the task is fresh.
    pub closed spec fn fresh(&self) -> Work<S, E> {
        self.fresh
    }

    /// The unit that a verdict selects.
    pub open spec fn selected(&self, verdict: Freshness) -> Work<S, E> {
        match verdict {
            Freshness::Fresh => self.fresh(),
            Freshness::Dirty => self.dirty(),
        }
    }

    /// Pairs the two bodies of a task. Nothing runs here.
    pub fn new(dirty: Work<S, E>, fresh: Work<S, E>) -> (job: Job<S, E>)
        ensures
            job.dirty() == dirty,
            job.fresh() == fresh,
    {
        Job { dirty, fresh }
    }

    /// Consumes the task by running the unit that `fresh` selects, and
    /// returns the result of that unit, a failure as it is. The other unit is
    /// dropped without being invoked: nothing is asked of it, and the handle
    /// ends as the selected unit alone left it.
    pub fn run(self, fresh: Freshness, state: &mut S) -> (result: Result<(), E>)
        requires
            self.selected(fresh).accepts(*old(state)),
        ensures
            exists|h: &mut S|
                *h == *old(state) && *final(h) == *final(state)
                    && #[trigger] self.selected(fresh).yields(h, result),
    {
        match fresh {
            Freshness::Fresh => self.fresh.call(state),
            Freshness::Dirty => self.dirty.call(state),
        }
    }

    /// What a log shows of a task: a fixed placeholder that tells nothing of
    /// the two bodies.
    pub fn describe(&self) -> (text: String)
        ensures
            text@ == "Job { ... }"@,
    {
        "Job { ... }".to_owned()
    }
}

} // verus!
