use vstd::prelude::*;

verus! {

/// A boxed computation that is consumed by its single call.
///
/// `Send` is a supertrait, so that every boxed computation, and with it every
/// unit of work, can be handed to another thread.
trait FnBox<A, R>: Send {
    spec fn pre(&self, a: A) -> bool;

    spec fn post(&self, a: A, r: R) -> bool;

    fn call_box(self: Box<Self>, a: A) -> (r: R)
        requires
            self.pre(a),
        ensures
            self.post(a, r),
    ;
}

impl<A, R, F: FnOnce(A) -> R + Send> FnBox<A, R> for F {
    spec fn pre(&self, a: A) -> bool {
        call_requires(*self, (a,))
    }

    spec fn post(&self, a: A, r: R) -> bool {
        call_ensures(*self, (a,), r)
    }

    fn call_box(self: Box<F>, a: A) -> (r: R) {
        (*self)(a)
    }
}

/// A unit of work: a computation that has not run yet.
///
/// The computation takes a handle of type `S`, borrowed for the length of the
/// call, and returns `Ok(())` or a failure of type `E`. A unit is owned by
/// whoever holds it, can be sent to another thread, and is consumed by
/// [`Work::call`], so it runs at most once.
///
/// A unit is described by two predicates. [`Work::accepts`] says on which
/// handles it may be invoked. [`Work::yields`] relates a borrow of the handle
/// to a result: `w.yields(h, r)` allows an invocation that is given the
/// borrow `h` to return `r` and to leave `*final(h)` in the handle. What a
/// unit did to the handle is thus read off the borrow, as for any function
/// that takes `&mut`.
#[verifier::reject_recursive_types(S)]
#[verifier::reject_recursive_types(E)]
pub struct Work<S, E> {
    inner: Box<dyn for <'a>FnBox<&'a mut S, Result<(), E>>>,
}

impl<S, E> Work<S, E> {
    /// The unit may be invoked on a handle that holds `handle`.
    pub closed spec fn accepts(&self, handle: S) -> bool {
        forall|h: &mut S| *h == handle ==> #[trigger] self.inner.pre(h)
    }

    /// Invoked with `borrow`, the unit may return `result`, and the handle
    /// then holds `*final(borrow)`.
    pub closed spec fn yields(&self, borrow: &mut S, result: Result<(), E>) -> bool {
        self.inner.post(borrow, result)
    }

    /// Wraps a computation into a unit of work. Nothing runs here: the unit
    /// accepts what `f` requires and yields what `f` ensures.
    pub fn new<F>(f: F) -> (work: Work<S, E>) where
        F: FnOnce(&mut S) -> Result<(), E> + Send + 'static,

        ensures
            forall|v: S| #[trigger]
                work.accepts(v) <==> (forall|h: &mut S| *h == v ==> call_requires(f, (h,))),
            forall|h: &mut S, r: Result<(), E>| #[trigger]
                work.yields(h, r) <==> call_ensures(f, (h,), r),
    {
        let work = Work { inner: Box::new(f) };
        proof {
            assert forall|v: S| #[trigger]
                work.accepts(v) <==> (forall|h: &mut S| *h == v ==> call_requires(f, (h,))) by {
                if work.accepts(v) {
                    assert forall|h: &mut S| *h == v implies call_requires(f, (h,)) by {
                        assert(work.inner.pre(h));
                    }
                }
                if forall|h: &mut S| *h == v ==> call_requires(f, (h,)) {
                    assert forall|h: &mut S| *h == v implies #[trigger] work.inner.pre(h) by {
                        assert(call_requires(f, (h,)));
                    }
                }
            }
        }
        work
    }

    /// Invokes the unit on `state` and returns what the wrapped computation
    /// returns, a failure as it is. The unit is consumed.
    pub fn call(self, state: &mut S) -> (result: Result<(), E>)
        requires
            self.accepts(*old(state)),
        ensures
            exists|h: &mut S|
                *h == *old(state) && *final(h) == *final(state)
                    && #[trigger] self.yields(h, result),
    {
        proof {
            assert forall|h: &mut S, r: Result<(), E>| #[trigger]
                self.inner.post(h, r) implies self.yields(h, r) by {}
        }
        self.inner.call_box(state)
    }
}

// The computations that are built below name `S` and `E` in their types, so
// both have to be `'static` for the computations to be boxed.
impl<S: 'static, E: 'static> Work<S, E> {
    /// The unit that does nothing: it may be invoked on every handle, always
    /// succeeds, and leaves the handle as it found it.
    pub fn noop() -> (work: Work<S, E>)
        ensures
            forall|v: S| #[trigger] work.accepts(v),
            forall|h: &mut S, r: Result<(), E>| #[trigger]
                work.yields(h, r) ==> r == Ok::<(), E>(()) && *final(h) == *h,
    {
        Work::new(
            |state: &mut S| -> (r: Result<(), E>)
                ensures
                    r == Ok::<(), E>(()),
                    *final(state) == *old(state),
                { Ok(()) }
        )
    }

    /// Sequences two units into one. Invoked, the new unit runs `self`. If
    /// that fails, the failure is returned at once and `next` does not run.
    /// If it succeeds, `next` runs on the same handle and its result is the
    /// result of the whole.
    ///
    /// So the new unit accepts a handle that `self` accepts, provided `next`
    /// accepts whatever a success of `self` leaves there; nothing is asked of
    /// `next` on a handle where `self` cannot succeed. And whatever the new
    /// unit yields is either a failure of `self`, with the handle as `self`
    /// left it, or a success of `self` followed by what `next` yields from
    /// there.
    pub fn then(self, next: Work<S, E>) -> (work: Work<S, E>)
        ensures
            forall|v: S|
                self.accepts(v) && (forall|h1: &mut S|
                    *h1 == v && self.yields(h1, Ok(())) ==> next.accepts(*final(h1)))
                    ==> #[trigger] work.accepts(v),
            forall|h: &mut S, r: Result<(), E>| #[trigger]
                work.yields(h, r) ==> {
                    ||| r is Err && exists|h1: &mut S|
                        *h1 == *h && *final(h1) == *final(h) && #[trigger] self.yields(h1, r)
                    ||| exists|h1: &mut S, h2: &mut S|
                        *h1 == *h && #[trigger] self.yields(h1, Ok(())) && *h2 == *final(h1)
                            && *final(h2) == *final(h) && #[trigger] next.yields(h2, r)
                },
    {
        Work::new(
            move |state: &mut S| -> (r: Result<(), E>)
                requires
                    self.accepts(*old(state)),
                    forall|h1: &mut S|
                        *h1 == *old(state) && self.yields(h1, Ok(()))
                            ==> next.accepts(*final(h1)),
                ensures
                    ({
                        ||| r is Err && exists|h1: &mut S|
                            *h1 == *old(state) && *final(h1) == *final(state)
                                && #[trigger] self.yields(h1, r)
                        ||| exists|h1: &mut S, h2: &mut S|
                            *h1 == *old(state) && #[trigger] self.yields(h1, Ok(()))
                                && *h2 == *final(h1) && *final(h2) == *final(state)
                                && #[trigger] next.yields(h2, r)
                    }),
                {
                    self.call(state)?;
                    next.call(state)
                }
        )
    }
}

} // verus!
