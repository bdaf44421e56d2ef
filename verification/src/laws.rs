//! What holds of units that were put together with [`Work::noop`] and
//! [`Work::then`], and of a [`Job`] made of two units.
//!
//! A law about a sequence takes the units it was made of and the sequence
//! itself, and asks of the sequence what [`Work::then`] ensures of its
//! result. A law about the unit that does nothing asks of it what
//! [`Work::noop`] ensures.
use crate::freshness::Freshness;
use crate::job::Job;
use crate::work::Work;
use vstd::prelude::*;

verus! {

/// Where the first unit cannot succeed, the second one never runs: the
/// sequence may be invoked whatever the second unit accepts, it fails, and
/// it ends with the result and the handle that the first unit alone left.
pub proof fn lemma_failure_of_first_ends_sequence<S, E>(
    first: Work<S, E>,
    second: Work<S, E>,
    both: Work<S, E>,
)
    requires
        // `both` is `first` followed by `second`
        forall|v: S|
            first.accepts(v) && (forall|h1: &mut S|
                *h1 == v && first.yields(h1, Ok(())) ==> second.accepts(*final(h1)))
                ==> #[trigger] both.accepts(v),
        forall|h: &mut S, r: Result<(), E>| #[trigger]
            both.yields(h, r) ==> {
                ||| r is Err && exists|h1: &mut S|
                    *h1 == *h && *final(h1) == *final(h) && #[trigger] first.yields(h1, r)
                ||| exists|h1: &mut S, h2: &mut S|
                    *h1 == *h && #[trigger] first.yields(h1, Ok(())) && *h2 == *final(h1)
                        && *final(h2) == *final(h) && #[trigger] second.yields(h2, r)
            },
    ensures
        forall|v: S|
            first.accepts(v) && (forall|h1: &mut S, r1: Result<(), E>|
                *h1 == v && first.yields(h1, r1) ==> r1 is Err)
                ==> #[trigger] both.accepts(v),
        forall|h: &mut S, r: Result<(), E>|
            #[trigger] both.yields(h, r) && (forall|h1: &mut S, r1: Result<(), E>|
                *h1 == *h && first.yields(h1, r1) ==> r1 is Err)
                ==> r is Err && exists|h1: &mut S|
                    *h1 == *h && *final(h1) == *final(h) && #[trigger] first.yields(h1, r),
{
}

/// Where the first unit cannot fail, the sequence returns what the second
/// unit returns, a failure of the second unit included, and the handle ends
/// as the second unit left it after the first.
pub proof fn lemma_result_of_second_is_returned<S, E>(
    first: Work<S, E>,
    second: Work<S, E>,
    both: Work<S, E>,
)
    requires
        // `both` is `first` followed by `second`
        forall|h: &mut S, r: Result<(), E>| #[trigger]
            both.yields(h, r) ==> {
                ||| r is Err && exists|h1: &mut S|
                    *h1 == *h && *final(h1) == *final(h) && #[trigger] first.yields(h1, r)
                ||| exists|h1: &mut S, h2: &mut S|
                    *h1 == *h && #[trigger] first.yields(h1, Ok(())) && *h2 == *final(h1)
                        && *final(h2) == *final(h) && #[trigger] second.yields(h2, r)
            },
    ensures
        forall|h: &mut S, r: Result<(), E>|
            #[trigger] both.yields(h, r) && (forall|h1: &mut S, r1: Result<(), E>|
                *h1 == *h && first.yields(h1, r1) ==> r1 is Ok)
                ==> exists|h1: &mut S, h2: &mut S|
                    *h1 == *h && #[trigger] first.yields(h1, Ok(())) && *h2 == *final(h1)
                        && *final(h2) == *final(h) && #[trigger] second.yields(h2, r),
{
}

/// Sequencing is associative in what can be observed. Sequence `a`, `b` and
/// `c` as `ab` followed by `c`, or as `a` followed by `bc`: either way, the
/// whole may be invoked where `a`, `b` and `c` can run one after the other,
/// and whatever it yields is a run of `a`, then `b`, then `c` on the one
/// handle, each starting where the one before it succeeded, which stops at
/// the first failure and returns it.
pub proof fn lemma_sequencing_is_associative<S, E>(
    a: Work<S, E>,
    b: Work<S, E>,
    c: Work<S, E>,
    ab: Work<S, E>,
    bc: Work<S, E>,
    left: Work<S, E>,
    right: Work<S, E>,
)
    requires
        // `ab` is `a` followed by `b`
        forall|v: S|
            a.accepts(v) && (forall|h1: &mut S|
                *h1 == v && a.yields(h1, Ok(())) ==> b.accepts(*final(h1)))
                ==> #[trigger] ab.accepts(v),
        forall|h: &mut S, r: Result<(), E>| #[trigger]
            ab.yields(h, r) ==> {
                ||| r is Err && exists|h1: &mut S|
                    *h1 == *h && *final(h1) == *final(h) && #[trigger] a.yields(h1, r)
                ||| exists|h1: &mut S, h2: &mut S|
                    *h1 == *h && #[trigger] a.yields(h1, Ok(())) && *h2 == *final(h1)
                        && *final(h2) == *final(h) && #[trigger] b.yields(h2, r)
            },
        // `bc` is `b` followed by `c`
        forall|v: S|
            b.accepts(v) && (forall|h1: &mut S|
                *h1 == v && b.yields(h1, Ok(())) ==> c.accepts(*final(h1)))
                ==> #[trigger] bc.accepts(v),
        forall|h: &mut S, r: Result<(), E>| #[trigger]
            bc.yields(h, r) ==> {
                ||| r is Err && exists|h1: &mut S|
                    *h1 == *h && *final(h1) == *final(h) && #[trigger] b.yields(h1, r)
                ||| exists|h1: &mut S, h2: &mut S|
                    *h1 == *h && #[trigger] b.yields(h1, Ok(())) && *h2 == *final(h1)
                        && *final(h2) == *final(h) && #[trigger] c.yields(h2, r)
            },
        // `left` is `ab` followed by `c`
        forall|v: S|
            ab.accepts(v) && (forall|h1: &mut S|
                *h1 == v && ab.yields(h1, Ok(())) ==> c.accepts(*final(h1)))
                ==> #[trigger] left.accepts(v),
        forall|h: &mut S, r: Result<(), E>| #[trigger]
            left.yields(h, r) ==> {
                ||| r is Err && exists|h1: &mut S|
                    *h1 == *h && *final(h1) == *final(h) && #[trigger] ab.yields(h1, r)
                ||| exists|h1: &mut S, h2: &mut S|
                    *h1 == *h && #[trigger] ab.yields(h1, Ok(())) && *h2 == *final(h1)
                        && *final(h2) == *final(h) && #[trigger] c.yields(h2, r)
            },
        // `right` is `a` followed by `bc`
        forall|v: S|
            a.accepts(v) && (forall|h1: &mut S|
                *h1 == v && a.yields(h1, Ok(())) ==> bc.accepts(*final(h1)))
                ==> #[trigger] right.accepts(v),
        forall|h: &mut S, r: Result<(), E>| #[trigger]
            right.yields(h, r) ==> {
                ||| r is Err && exists|h1: &mut S|
                    *h1 == *h && *final(h1) == *final(h) && #[trigger] a.yields(h1, r)
                ||| exists|h1: &mut S, h2: &mut S|
                    *h1 == *h && #[trigger] a.yields(h1, Ok(())) && *h2 == *final(h1)
                        && *final(h2) == *final(h) && #[trigger] bc.yields(h2, r)
            },
    ensures
        forall|v: S|
            #![trigger left.accepts(v)]
            #![trigger right.accepts(v)]
            a.accepts(v) && (forall|h1: &mut S|
                *h1 == v && a.yields(h1, Ok(())) ==> b.accepts(*final(h1)))
                && (forall|h1: &mut S, h2: &mut S|
                *h1 == v && a.yields(h1, Ok(())) && *h2 == *final(h1) && b.yields(h2, Ok(()))
                    ==> c.accepts(*final(h2)))
                ==> left.accepts(v) && right.accepts(v),
        forall|h: &mut S, r: Result<(), E>|
            #![trigger left.yields(h, r)]
            #![trigger right.yields(h, r)]
            left.yields(h, r) || right.yields(h, r) ==> {
                ||| r is Err && exists|h1: &mut S|
                    *h1 == *h && *final(h1) == *final(h) && #[trigger] a.yields(h1, r)
                ||| r is Err && exists|h1: &mut S, h2: &mut S|
                    *h1 == *h && #[trigger] a.yields(h1, Ok(())) && *h2 == *final(h1)
                        && *final(h2) == *final(h) && #[trigger] b.yields(h2, r)
                ||| exists|h1: &mut S, h2: &mut S, h3: &mut S|
                    *h1 == *h && #[trigger] a.yields(h1, Ok(())) && *h2 == *final(h1)
                        && #[trigger] b.yields(h2, Ok(())) && *h3 == *final(h2)
                        && *final(h3) == *final(h) && #[trigger] c.yields(h3, r)
            },
{
}

/// The unit that does nothing is a left identity of sequencing. Put before
/// a unit, it adds nothing: the sequence accepts what the unit accepts, and
/// whatever the sequence yields, the unit alone yields from the same handle.
pub proof fn lemma_noop_before_is_identity<S, E>(
    noop: Work<S, E>,
    unit: Work<S, E>,
    both: Work<S, E>,
)
    requires
        // `noop` does nothing
        forall|v: S| #[trigger] noop.accepts(v),
        forall|h: &mut S, r: Result<(), E>| #[trigger]
            noop.yields(h, r) ==> r == Ok::<(), E>(()) && *final(h) == *h,
        // `both` is `noop` followed by `unit`
        forall|v: S|
            noop.accepts(v) && (forall|h1: &mut S|
                *h1 == v && noop.yields(h1, Ok(())) ==> unit.accepts(*final(h1)))
                ==> #[trigger] both.accepts(v),
        forall|h: &mut S, r: Result<(), E>| #[trigger]
            both.yields(h, r) ==> {
                ||| r is Err && exists|h1: &mut S|
                    *h1 == *h && *final(h1) == *final(h) && #[trigger] noop.yields(h1, r)
                ||| exists|h1: &mut S, h2: &mut S|
                    *h1 == *h && #[trigger] noop.yields(h1, Ok(())) && *h2 == *final(h1)
                        && *final(h2) == *final(h) && #[trigger] unit.yields(h2, r)
            },
    ensures
        forall|v: S| unit.accepts(v) ==> #[trigger] both.accepts(v),
        forall|h: &mut S, r: Result<(), E>| #[trigger]
            both.yields(h, r) ==> exists|h1: &mut S|
                *h1 == *h && *final(h1) == *final(h) && #[trigger] unit.yields(h1, r),
{
}

/// The unit that does nothing is a right identity of sequencing. Put after
/// a unit, it adds nothing: the sequence accepts what the unit accepts, and
/// whatever the sequence yields, the unit alone yields from the same handle.
pub proof fn lemma_noop_after_is_identity<S, E>(
    unit: Work<S, E>,
    noop: Work<S, E>,
    both: Work<S, E>,
)
    requires
        // `noop` does nothing
        forall|v: S| #[trigger] noop.accepts(v),
        forall|h: &mut S, r: Result<(), E>| #[trigger]
            noop.yields(h, r) ==> r == Ok::<(), E>(()) && *final(h) == *h,
        // `both` is `unit` followed by `noop`
        forall|v: S|
            unit.accepts(v) && (forall|h1: &mut S|
                *h1 == v && unit.yields(h1, Ok(())) ==> noop.accepts(*final(h1)))
                ==> #[trigger] both.accepts(v),
        forall|h: &mut S, r: Result<(), E>| #[trigger]
            both.yields(h, r) ==> {
                ||| r is Err && exists|h1: &mut S|
                    *h1 == *h && *final(h1) == *final(h) && #[trigger] unit.yields(h1, r)
                ||| exists|h1: &mut S, h2: &mut S|
                    *h1 == *h && #[trigger] unit.yields(h1, Ok(())) && *h2 == *final(h1)
                        && *final(h2) == *final(h) && #[trigger] noop.yields(h2, r)
            },
    ensures
        forall|v: S| unit.accepts(v) ==> #[trigger] both.accepts(v),
        forall|h: &mut S, r: Result<(), E>| #[trigger]
            both.yields(h, r) ==> exists|h1: &mut S|
                *h1 == *h && *final(h1) == *final(h) && #[trigger] unit.yields(h1, r),
{
}

/// A verdict selects one unit of a task and leaves the other out: of a task
/// made of `dirty` and `fresh`, `Dirty` selects `dirty` and `Fresh` selects
/// `fresh`. [`Job::run`] asks that the selected unit accepts the handle and
/// returns what that unit yields, so the other unit has no part in the run.
pub proof fn lemma_verdict_selects_one_unit<S, E>(
    job: Job<S, E>,
    dirty: Work<S, E>,
    fresh: Work<S, E>,
)
    requires
        job.dirty() == dirty,
        job.fresh() == fresh,
    ensures
        job.selected(Freshness::Dirty) == dirty,
        job.selected(Freshness::Fresh) == fresh,
{
}

} // verus!
