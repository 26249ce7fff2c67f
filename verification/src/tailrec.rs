//! Stack-safe tail recursion through an explicit loop.

use vstd::prelude::*;

verus! {

/// One step of a tail-recursive computation: either finished with a
/// result, or continuing with a new input.
#[derive(Debug, Clone, PartialEq, Eq)]
pub enum RecursionState<Done, Continue> {
    /// Continue with the given input.
    Continue(Continue),
    /// Finished with the given output.
    Done(Done),
}

impl<D, C> RecursionState<D, C> {
    /// Whether the computation is finished.
    pub fn is_done(&self) -> (r: bool)
        ensures
            r == (self is Done),
    {
        matches!(self, RecursionState::Done(_))
    }

    /// Whether the computation continues.
    pub fn is_continue(&self) -> (r: bool)
        ensures
            r == (self is Continue),
    {
        matches!(self, RecursionState::Continue(_))
    }

    /// Map over the finished output.
    pub fn map_done<D2, F>(self, f: F) -> (r: RecursionState<D2, C>) where F: FnOnce(D) -> D2
        requires
            self matches RecursionState::Done(d) ==> f.requires((d,)),
        ensures
            match self {
                RecursionState::Done(d) => r matches RecursionState::Done(d2) && f.ensures((d,), d2),
                RecursionState::Continue(c) => r == RecursionState::<D2, C>::Continue(c),
            },
    {
        match self {
            RecursionState::Done(d) => RecursionState::Done(f(d)),
            RecursionState::Continue(c) => RecursionState::Continue(c),
        }
    }

    /// Map over the continuation input.
    pub fn map_continue<C2, F>(self, f: F) -> (r: RecursionState<D, C2>) where F: FnOnce(C) -> C2
        requires
            self matches RecursionState::Continue(c) ==> f.requires((c,)),
        ensures
            match self {
                RecursionState::Done(d) => r == RecursionState::<D, C2>::Done(d),
                RecursionState::Continue(c) => r matches RecursionState::Continue(c2)
                    && f.ensures((c,), c2),
            },
    {
        match self {
            RecursionState::Done(d) => RecursionState::Done(d),
            RecursionState::Continue(c) => RecursionState::Continue(f(c)),
        }
    }
}

/// Running `iterate` from `input` is safe and terminates: some invariant
/// holds of `input`, every state that satisfies it may be handed to
/// `iterate`, every `Continue` from such a state leads to a state that
/// satisfies it again, and along those steps some measure strictly
/// decreases. Only the states reachable from `input` need to qualify.
pub open spec fn terminates_from<I, O, F: FnMut(I) -> RecursionState<O, I>>(iterate: F, input: I) -> bool {
    exists|inv: spec_fn(I) -> bool, m: spec_fn(I) -> nat|
        #[trigger] safe_along(iterate, inv, m) && inv(input)
}

/// The invariant `inv` admits every call of `iterate` and is kept by every
/// `Continue` step, along which the measure `m` strictly decreases.
pub open spec fn safe_along<I, O, F: FnMut(I) -> RecursionState<O, I>>(
    iterate: F,
    inv: spec_fn(I) -> bool,
    m: spec_fn(I) -> nat,
) -> bool {
    &&& forall|i: I| inv(i) ==> #[trigger] iterate.requires((i,))
    &&& forall|i: I, j: I|
        inv(i) && #[trigger] iterate.ensures((i,), RecursionState::<O, I>::Continue(j)) ==> inv(j)
            && m(j) < m(i)
}

/// `trace` is a run of `iterate` from `input` to the output `out`: each
/// element steps to the next by `Continue`, and the last one finishes with
/// `Done(out)`.
pub open spec fn runs_to<I, O, F: FnMut(I) -> RecursionState<O, I>>(
    iterate: F,
    trace: Seq<I>,
    out: O,
) -> bool {
    &&& trace.len() > 0
    &&& forall|k: int|
        0 <= k < trace.len() - 1 ==> #[trigger] iterate.ensures(
            (trace[k],),
            RecursionState::<O, I>::Continue(trace[k + 1]),
        )
    &&& iterate.ensures((trace.last(),), RecursionState::<O, I>::Done(out))
}

/// Some run of `iterate` starting at `input` finishes with `out`.
pub open spec fn computes<I, O, F: FnMut(I) -> RecursionState<O, I>>(iterate: F, input: I, out: O) -> bool {
    exists|trace: Seq<I>| trace.len() > 0 && trace[0] == input && #[trigger] runs_to(iterate, trace, out)
}

/// Run a tail-recursive computation with a mutable step function, in
/// constant stack space.
#[verifier::loop_isolation(false)]
pub fn tail_rec_mut<Input, Output, F>(input: Input, mut iterate: F) -> (r: Output) where
    F: FnMut(Input) -> RecursionState<Output, Input>,

    requires
        terminates_from(iterate, input),
    ensures
        computes(iterate, input, r),
{
    let ghost (inv, m) = choose|inv: spec_fn(Input) -> bool, m: spec_fn(Input) -> nat|
        safe_along(iterate, inv, m) && inv(input);
    let ghost mut trace: Seq<Input> = seq![input];
    let ghost step = iterate;
    let mut state = iterate(input);
    loop
        invariant
            iterate == step,
            safe_along(iterate, inv, m),
            inv(trace.last()),
            trace.len() > 0,
            trace[0] == input,
            forall|k: int|
                0 <= k < trace.len() - 1 ==> #[trigger] iterate.ensures(
                    (trace[k],),
                    RecursionState::<Output, Input>::Continue(trace[k + 1]),
                ),
            iterate.ensures((trace.last(),), state),
        decreases
            match state {
                RecursionState::Continue(c) => m(c) + 1,
                RecursionState::Done(_) => 0,
            },
    {
        match state {
            RecursionState::Done(output) => {
                assert(runs_to(iterate, trace, output));
                return output;
            },
            RecursionState::Continue(next) => {
                proof {
                    trace = trace.push(next);
                }
                state = iterate(next);
            },
        }
    }
}

/// Run a tail-recursive computation in constant stack space: apply
/// `iterate` until it returns `Done`.
#[verifier::loop_isolation(false)]
pub fn tail_rec<Input, Output, F>(input: Input, iterate: F) -> (r: Output) where
    F: Fn(Input) -> RecursionState<Output, Input>,

    requires
        terminates_from(iterate, input),
    ensures
        computes(iterate, input, r),
{
    let ghost (inv, m) = choose|inv: spec_fn(Input) -> bool, m: spec_fn(Input) -> nat|
        safe_along(iterate, inv, m) && inv(input);
    let ghost mut trace: Seq<Input> = seq![input];
    let ghost step = iterate;
    let mut state = iterate(input);
    loop
        invariant
            iterate == step,
            safe_along(iterate, inv, m),
            inv(trace.last()),
            trace.len() > 0,
            trace[0] == input,
            forall|k: int|
                0 <= k < trace.len() - 1 ==> #[trigger] iterate.ensures(
                    (trace[k],),
                    RecursionState::<Output, Input>::Continue(trace[k + 1]),
                ),
            iterate.ensures((trace.last(),), state),
        decreases
            match state {
                RecursionState::Continue(c) => m(c) + 1,
                RecursionState::Done(_) => 0,
            },
    {
        match state {
            RecursionState::Done(output) => {
                assert(runs_to(iterate, trace, output));
                return output;
            },
            RecursionState::Continue(next) => {
                proof {
                    trace = trace.push(next);
                }
                state = iterate(next);
            },
        }
    }
}

/// Tail recursion on any value: the value is the first input.
pub trait TailRec<Output> {
    /// Run `iterate` from `self` until it returns `Done`.
    #[verifier::loop_isolation(false)]
    fn rec<F>(self, iterate: F) -> (r: Output) where
        Self: Sized,
        F: Fn(Self) -> RecursionState<Output, Self>,

        requires
            terminates_from(iterate, self),
        ensures
            computes(iterate, self, r),
    {
        let ghost (inv, m) = choose|inv: spec_fn(Self) -> bool, m: spec_fn(Self) -> nat|
            safe_along(iterate, inv, m) && inv(self);
        let ghost mut trace: Seq<Self> = seq![self];
        let mut state = iterate(self);
        loop
            invariant
                safe_along(iterate, inv, m),
                inv(trace.last()),
                trace.len() > 0,
                trace[0] == self,
                forall|k: int|
                    0 <= k < trace.len() - 1 ==> #[trigger] iterate.ensures(
                        (trace[k],),
                        RecursionState::<Output, Self>::Continue(trace[k + 1]),
                    ),
                iterate.ensures((trace.last(),), state),
            decreases
                match state {
                    RecursionState::Continue(c) => m(c) + 1,
                    RecursionState::Done(_) => 0,
                },
        {
            match state {
                RecursionState::Done(output) => {
                    assert(runs_to(iterate, trace, output));
                    return output;
                },
                RecursionState::Continue(next) => {
                    proof {
                        trace = trace.push(next);
                    }
                    state = iterate(next);
                },
            }
        }
    }

    /// Run `iterate` from a borrowed `self` until it returns `Done`; each
    /// step borrows the current input.
    #[verifier::loop_isolation(false)]
    fn rec_ref<F>(&self, iterate: F) -> (r: Output) where
        Self: Sized + Clone,
        F: Fn(&Self) -> RecursionState<Output, Self>,

        requires
            ref_terminates_from(iterate, *self),
        ensures
            ref_computes(iterate, *self, r),
    {
        let ghost (inv, m) = choose|inv: spec_fn(Self) -> bool, m: spec_fn(Self) -> nat|
            ref_safe_along(iterate, inv, m) && inv(*self);
        let ghost mut trace: Seq<Self> = seq![*self];
        let mut state = iterate(self);
        loop
            invariant
                ref_safe_along(iterate, inv, m),
                inv(trace.last()),
                trace.len() > 0,
                trace[0] == *self,
                forall|k: int|
                    0 <= k < trace.len() - 1 ==> #[trigger] iterate.ensures(
                        (&trace[k],),
                        RecursionState::<Output, Self>::Continue(trace[k + 1]),
                    ),
                iterate.ensures((&trace.last(),), state),
            decreases
                match state {
                    RecursionState::Continue(c) => m(c) + 1,
                    RecursionState::Done(_) => 0,
                },
        {
            match state {
                RecursionState::Done(output) => {
                    assert(ref_runs_to(iterate, trace, output));
                    return output;
                },
                RecursionState::Continue(next) => {
                    proof {
                        trace = trace.push(next);
                    }
                    state = iterate(&next);
                },
            }
        }
    }
}

impl<T: Sized, Output> TailRec<Output> for T {
}

/// Running the borrowing step function `iterate` from `input` is safe and
/// terminates, in the sense of `terminates_from`.
pub open spec fn ref_terminates_from<I, O, F: Fn(&I) -> RecursionState<O, I>>(iterate: F, input: I) -> bool {
    exists|inv: spec_fn(I) -> bool, m: spec_fn(I) -> nat|
        #[trigger] ref_safe_along(iterate, inv, m) && inv(input)
}

/// The invariant `inv` admits every call of the borrowing `iterate` and is
/// kept by every `Continue` step, along which `m` strictly decreases.
pub open spec fn ref_safe_along<I, O, F: Fn(&I) -> RecursionState<O, I>>(
    iterate: F,
    inv: spec_fn(I) -> bool,
    m: spec_fn(I) -> nat,
) -> bool {
    &&& forall|i: &I| inv(*i) ==> #[trigger] iterate.requires((i,))
    &&& forall|i: &I, j: I|
        inv(*i) && #[trigger] iterate.ensures((i,), RecursionState::<O, I>::Continue(j)) ==> inv(j)
            && m(j) < m(*i)
}

/// `trace` is a run of the borrowing step function `iterate` that finishes
/// with `out`.
pub open spec fn ref_runs_to<I, O, F: Fn(&I) -> RecursionState<O, I>>(
    iterate: F,
    trace: Seq<I>,
    out: O,
) -> bool {
    &&& trace.len() > 0
    &&& forall|k: int|
        0 <= k < trace.len() - 1 ==> #[trigger] iterate.ensures(
            (&trace[k],),
            RecursionState::<O, I>::Continue(trace[k + 1]),
        )
    &&& iterate.ensures((&trace.last(),), RecursionState::<O, I>::Done(out))
}

/// Some run of the borrowing step function `iterate` starting at `input`
/// finishes with `out`.
pub open spec fn ref_computes<I, O, F: Fn(&I) -> RecursionState<O, I>>(
    iterate: F,
    input: I,
    out: O,
) -> bool {
    exists|trace: Seq<I>| trace.len() > 0 && trace[0] == input && #[trigger] ref_runs_to(iterate, trace, out)
}

} // verus!
