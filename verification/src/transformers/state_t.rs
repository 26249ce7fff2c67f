//! `StateT`: computations that thread a state, over a base monad
//! (`Option`, `Result` or `Vec`). A computation takes the state and gives
//! the new state together with its value.

use vstd::prelude::*;

use crate::actio::{Actio, Involucrum, calls, calls2, clone_of, gives, gives2};

verus! {

/// A computation that takes a state of type `S` and produces `M`.
#[verifier::reject_recursive_types(S)]
#[verifier::reject_recursive_types(M)]
pub struct StateT<S, M> {
    run_fn: Box<dyn Actio<S, M>>,
}

impl<S, M> StateT<S, M> {
    /// Whether the computation may run from state `s`.
    pub closed spec fn can_run(&self, s: S) -> bool {
        self.run_fn.pre(s)
    }

    /// Whether running from state `s` may give `m`.
    pub closed spec fn runs_to(&self, s: S, m: M) -> bool {
        self.run_fn.post(s, m)
    }

    /// Run the computation from state `state`.
    pub fn run(&self, state: S) -> (r: M)
        requires
            self.can_run(state),
        ensures
            self.runs_to(state, r),
    {
        self.run_fn.invoke(state)
    }
}

impl<S: 'static, M: 'static> StateT<S, M> {
    /// The computation that runs `f` on the state.
    pub fn new<F>(f: F) -> (r: Self) where F: Fn(S) -> M + 'static
        ensures
            forall|s: S| #[trigger] r.can_run(s) == f.requires((s,)),
            forall|s: S, m: M| #[trigger] r.runs_to(s, m) == f.ensures((s,), m),
    {
        StateT { run_fn: Box::new(Involucrum(f)) }
    }
}

// ---------------------------------------------------------------------------
// Over `Option`
// ---------------------------------------------------------------------------

/// The outcomes of binding `m` over `Option` to `f` from state `s`: a
/// value and the state it left go to the computation `f` makes of the
/// value, run from that state; no value passes through.
pub open spec fn state_option_bound<S, A, B, F: Fn(A) -> StateT<S, Option<(S, B)>>>(
    m: StateT<S, Option<(S, A)>>,
    f: F,
    s: S,
    mb: Option<(S, B)>,
) -> bool {
    exists|ma: Option<(S, A)>|
        m.runs_to(s, ma) && match ma {
            Some((s1, a)) => exists|k: StateT<S, Option<(S, B)>>|
                f.ensures((a,), k) && k.runs_to(s1, mb),
            None => mb is None,
        }
}

impl<S: 'static, A: 'static> StateT<S, Option<(S, A)>> {
    /// Keep the state and give a clone of `value`.
    pub fn pure(value: A) -> (r: Self) where A: Clone
        ensures
            forall|s: S| #[trigger] r.can_run(s),
            forall|s: S, m: Option<(S, A)>| #[trigger]
                r.runs_to(s, m) ==> (m matches Some((s1, x)) && s1 == s && cloned(value, x)),
    {
        let h = move |s: S| -> (m: Option<(S, A)>)
            ensures
                m matches Some((s1, x)) && s1 == s && clone_of(&value, x),
            { Some((s, value.clone())) };
        StateT::new(h)
    }

    /// Give nothing.
    pub fn none() -> (r: Self)
        ensures
            forall|s: S| #[trigger] r.can_run(s),
            forall|s: S, m: Option<(S, A)>| #[trigger] r.runs_to(s, m) ==> m is None,
    {
        let h = |s: S| -> (m: Option<(S, A)>)
            ensures
                m is None,
            { None };
        StateT::new(h)
    }

    /// Read the state: a clone of it becomes the new state, and the state
    /// itself the value.
    pub fn get() -> (r: StateT<S, Option<(S, S)>>) where S: Clone
        ensures
            forall|s: S| #[trigger] r.can_run(s),
            forall|s: S, m: Option<(S, S)>| #[trigger]
                r.runs_to(s, m) ==> (m matches Some((c, v)) && cloned(s, c) && v == s),
    {
        let h = |s: S| -> (m: Option<(S, S)>)
            ensures
                m matches Some((c, v)) && cloned(s, c) && v == s,
            {
                let c = s.clone();
                Some((c, s))
            };
        StateT::new(h)
    }

    /// Replace the state by a clone of `new_state`; the old state becomes
    /// the value.
    pub fn put(new_state: S) -> (r: StateT<S, Option<(S, S)>>) where S: Clone
        ensures
            forall|s: S| #[trigger] r.can_run(s),
            forall|s: S, m: Option<(S, S)>| #[trigger]
                r.runs_to(s, m) ==> (m matches Some((c, v)) && cloned(new_state, c) && v == s),
    {
        let h = move |old: S| -> (m: Option<(S, S)>)
            ensures
                m matches Some((c, v)) && clone_of(&new_state, c) && v == old,
            { Some((new_state.clone(), old)) };
        StateT::new(h)
    }

    /// Replace the state by `f` of it.
    pub fn modify<F>(f: F) -> (r: StateT<S, Option<(S, ())>>) where F: Fn(S) -> S + 'static
        ensures
            forall|s: S| f.requires((s,)) ==> #[trigger] r.can_run(s),
            forall|s: S, m: Option<(S, ())>| #[trigger]
                r.runs_to(s, m) ==> (m matches Some((s1, _)) && f.ensures((s,), s1)),
    {
        let h = move |s: S| -> (m: Option<(S, ())>)
            requires
                calls(&f, s),
            ensures
                m matches Some((s1, _)) && gives(&f, s, s1),
            {
                assert((&f).requires((s,)));
                Some((f(s), ()))
            };
        StateT::new(h)
    }

    /// Apply `f` to the value, keeping the new state.
    pub fn map<B: 'static, F>(self, f: F) -> (r: StateT<S, Option<(S, B)>>) where F: Fn(A) -> B + 'static
        ensures
            forall|s: S|
                self.can_run(s) && (forall|s1: S, a: A| self.runs_to(s, Some((s1, a))) ==> f.requires((a,)))
                    ==> #[trigger] r.can_run(s),
            forall|s: S, mb: Option<(S, B)>| #[trigger]
                r.runs_to(s, mb) ==> exists|ma: Option<(S, A)>|
                    self.runs_to(s, ma) && match ma {
                        Some((s1, a)) => mb matches Some((s2, b)) && s2 == s1 && f.ensures((a,), b),
                        None => mb is None,
                    },
    {
        let st = self;
        let h = move |s: S| -> (mb: Option<(S, B)>)
            requires
                st.can_run(s),
                forall|s1: S, a: A| st.runs_to(s, Some((s1, a))) ==> calls(&f, a),
            ensures
                exists|ma: Option<(S, A)>|
                    st.runs_to(s, ma) && match ma {
                        Some((s1, a)) => mb matches Some((s2, b)) && s2 == s1 && gives(&f, a, b),
                        None => mb is None,
                    },
            {
                let ma = st.run(s);
                match ma {
                    Some((s1, a)) => {
                        assert(calls(&f, a));
                        assert((&f).requires((a,)));
                        Some((s1, f(a)))
                    },
                    None => None,
                }
            };
        StateT::new(h)
    }

    /// Chain a computation on the value, run from the new state.
    pub fn flat_map<B: 'static, F>(self, f: F) -> (r: StateT<S, Option<(S, B)>>) where
        F: Fn(A) -> StateT<S, Option<(S, B)>> + 'static,
        ensures
            forall|s: S|
                self.can_run(s) && (forall|s1: S, a: A|
                    self.runs_to(s, Some((s1, a))) ==> f.requires((a,)) && forall|k: StateT<S, Option<(S, B)>>|
                        f.ensures((a,), k) ==> k.can_run(s1)) ==> #[trigger] r.can_run(s),
            forall|s: S, mb: Option<(S, B)>| #[trigger]
                r.runs_to(s, mb) ==> state_option_bound(self, f, s, mb),
    {
        let st = self;
        let h = move |s: S| -> (mb: Option<(S, B)>)
            requires
                st.can_run(s),
                forall|s1: S, a: A|
                    st.runs_to(s, Some((s1, a))) ==> calls(&f, a) && forall|k: StateT<S, Option<(S, B)>>|
                        gives(&f, a, k) ==> k.can_run(s1),
            ensures
                exists|ma: Option<(S, A)>|
                    st.runs_to(s, ma) && match ma {
                        Some((s1, a)) => exists|k: StateT<S, Option<(S, B)>>|
                            gives(&f, a, k) && k.runs_to(s1, mb),
                        None => mb is None,
                    },
            {
                let ma = st.run(s);
                match ma {
                    Some((s1, a)) => {
                        assert(calls(&f, a));
                        assert((&f).requires((a,)));
                        let k = f(a);
                        k.run(s1)
                    },
                    None => None,
                }
            };
        StateT::new(h)
    }

    /// Run from `state` and keep only the final state.
    pub fn exec_state(&self, state: S) -> (r: Option<S>)
        requires
            self.can_run(state),
        ensures
            exists|m: Option<(S, A)>|
                self.runs_to(state, m) && match m {
                    Some((s1, _)) => r == Some(s1),
                    None => r is None,
                },
    {
        let m = self.run(state);
        match m {
            Some((s1, _)) => Some(s1),
            None => None,
        }
    }

    /// Run from `state` and keep only the value.
    pub fn eval_state(&self, state: S) -> (r: Option<A>)
        requires
            self.can_run(state),
        ensures
            exists|m: Option<(S, A)>|
                self.runs_to(state, m) && match m {
                    Some((_, a)) => r == Some(a),
                    None => r is None,
                },
    {
        let m = self.run(state);
        match m {
            Some((_, a)) => Some(a),
            None => None,
        }
    }

    /// Run the function computation `sf` first, then this one from the
    /// state it leaves, and apply the function to the value.
    pub fn apply<B: 'static, G>(self, sf: StateT<S, Option<(S, G)>>) -> (r: StateT<S, Option<(S, B)>>) where
        G: FnOnce(A) -> B + 'static,
        ensures
            forall|s: S|
                sf.can_run(s) && (forall|s1: S, g: G|
                    sf.runs_to(s, Some((s1, g))) ==> self.can_run(s1) && forall|s2: S, a: A|
                        self.runs_to(s1, Some((s2, a))) ==> g.requires((a,))) ==> #[trigger] r.can_run(s),
            forall|s: S, mb: Option<(S, B)>| #[trigger]
                r.runs_to(s, mb) ==> exists|mf: Option<(S, G)>|
                    sf.runs_to(s, mf) && match mf {
                        Some((s1, g)) => exists|ma: Option<(S, A)>|
                            self.runs_to(s1, ma) && match ma {
                                Some((s2, a)) => mb matches Some((s3, b)) && s3 == s2 && g.ensures((a,), b),
                                None => mb is None,
                            },
                        None => mb is None,
                    },
    {
        let st = self;
        let h = move |s: S| -> (mb: Option<(S, B)>)
            requires
                sf.can_run(s),
                forall|s1: S, g: G|
                    sf.runs_to(s, Some((s1, g))) ==> st.can_run(s1) && forall|s2: S, a: A|
                        st.runs_to(s1, Some((s2, a))) ==> g.requires((a,)),
            ensures
                exists|mf: Option<(S, G)>|
                    sf.runs_to(s, mf) && match mf {
                        Some((s1, g)) => exists|ma: Option<(S, A)>|
                            st.runs_to(s1, ma) && match ma {
                                Some((s2, a)) => mb matches Some((s3, b)) && s3 == s2 && g.ensures((a,), b),
                                None => mb is None,
                            },
                        None => mb is None,
                    },
            {
                let mf = sf.run(s);
                match mf {
                    Some((s1, g)) => {
                        let ma = st.run(s1);
                        match ma {
                            Some((s2, a)) => Some((s2, g(a))),
                            None => None,
                        }
                    },
                    None => None,
                }
            };
        StateT::new(h)
    }

    /// Run this computation, then `other` from the state it leaves, and
    /// combine the two values with `f`.
    pub fn map2<B: 'static, C: 'static, F>(self, other: StateT<S, Option<(S, B)>>, f: F) -> (r: StateT<
        S,
        Option<(S, C)>,
    >) where F: Fn(A, B) -> C + 'static
        ensures
            forall|s: S|
                self.can_run(s) && (forall|s1: S, a: A|
                    self.runs_to(s, Some((s1, a))) ==> other.can_run(s1) && forall|s2: S, b: B|
                        other.runs_to(s1, Some((s2, b))) ==> f.requires((a, b))) ==> #[trigger] r.can_run(s),
            forall|s: S, mc: Option<(S, C)>| #[trigger]
                r.runs_to(s, mc) ==> exists|ma: Option<(S, A)>|
                    self.runs_to(s, ma) && match ma {
                        Some((s1, a)) => exists|mb: Option<(S, B)>|
                            other.runs_to(s1, mb) && match mb {
                                Some((s2, b)) => mc matches Some((s3, c)) && s3 == s2 && f.ensures((a, b), c),
                                None => mc is None,
                            },
                        None => mc is None,
                    },
    {
        let st = self;
        let h = move |s: S| -> (mc: Option<(S, C)>)
            requires
                st.can_run(s),
                forall|s1: S, a: A|
                    st.runs_to(s, Some((s1, a))) ==> other.can_run(s1) && forall|s2: S, b: B|
                        other.runs_to(s1, Some((s2, b))) ==> calls2(&f, a, b),
            ensures
                exists|ma: Option<(S, A)>|
                    st.runs_to(s, ma) && match ma {
                        Some((s1, a)) => exists|mb: Option<(S, B)>|
                            other.runs_to(s1, mb) && match mb {
                                Some((s2, b)) => mc matches Some((s3, c)) && s3 == s2 && gives2(&f, a, b, c),
                                None => mc is None,
                            },
                        None => mc is None,
                    },
            {
                let ma = st.run(s);
                match ma {
                    Some((s1, a)) => {
                        let mb = other.run(s1);
                        match mb {
                            Some((s2, b)) => {
                                assert(calls2(&f, a, b));
                                assert((&f).requires((a, b)));
                                Some((s2, f(a, b)))
                            },
                            None => None,
                        }
                    },
                    None => None,
                }
            };
        StateT::new(h)
    }
}

// ---------------------------------------------------------------------------
// Over `Result`
// ---------------------------------------------------------------------------

impl<S: 'static, A: 'static, E: 'static> StateT<S, Result<(S, A), E>> {
    /// Keep the state and succeed with a clone of `value`.
    pub fn ok(value: A) -> (r: Self) where A: Clone
        ensures
            forall|s: S| #[trigger] r.can_run(s),
            forall|s: S, m: Result<(S, A), E>| #[trigger]
                r.runs_to(s, m) ==> (m matches Ok((s1, x)) && s1 == s && cloned(value, x)),
    {
        let h = move |s: S| -> (m: Result<(S, A), E>)
            ensures
                m matches Ok((s1, x)) && s1 == s && clone_of(&value, x),
            { Ok((s, value.clone())) };
        StateT::new(h)
    }

    /// Fail with a clone of `error`.
    pub fn err(error: E) -> (r: Self) where E: Clone
        ensures
            forall|s: S| #[trigger] r.can_run(s),
            forall|s: S, m: Result<(S, A), E>| #[trigger]
                r.runs_to(s, m) ==> (m matches Err(x) && cloned(error, x)),
    {
        let h = move |s: S| -> (m: Result<(S, A), E>)
            ensures
                m matches Err(x) && clone_of(&error, x),
            { Err(error.clone()) };
        StateT::new(h)
    }

    /// Read the state: a clone of it becomes the new state, and the state
    /// itself the value.
    pub fn get_result() -> (r: StateT<S, Result<(S, S), E>>) where S: Clone
        ensures
            forall|s: S| #[trigger] r.can_run(s),
            forall|s: S, m: Result<(S, S), E>| #[trigger]
                r.runs_to(s, m) ==> (m matches Ok((c, v)) && cloned(s, c) && v == s),
    {
        let h = |s: S| -> (m: Result<(S, S), E>)
            ensures
                m matches Ok((c, v)) && cloned(s, c) && v == s,
            {
                let c = s.clone();
                Ok((c, s))
            };
        StateT::new(h)
    }

    /// Replace the state by a clone of `new_state`; the old state becomes
    /// the value.
    pub fn put_result(new_state: S) -> (r: StateT<S, Result<(S, S), E>>) where S: Clone
        ensures
            forall|s: S| #[trigger] r.can_run(s),
            forall|s: S, m: Result<(S, S), E>| #[trigger]
                r.runs_to(s, m) ==> (m matches Ok((c, v)) && cloned(new_state, c) && v == s),
    {
        let h = move |old: S| -> (m: Result<(S, S), E>)
            ensures
                m matches Ok((c, v)) && clone_of(&new_state, c) && v == old,
            { Ok((new_state.clone(), old)) };
        StateT::new(h)
    }

    /// Replace the state by `f` of it.
    pub fn modify_result<F>(f: F) -> (r: StateT<S, Result<(S, ()), E>>) where F: Fn(S) -> S + 'static
        ensures
            forall|s: S| f.requires((s,)) ==> #[trigger] r.can_run(s),
            forall|s: S, m: Result<(S, ()), E>| #[trigger]
                r.runs_to(s, m) ==> (m matches Ok((s1, _)) && f.ensures((s,), s1)),
    {
        let h = move |s: S| -> (m: Result<(S, ()), E>)
            requires
                calls(&f, s),
            ensures
                m matches Ok((s1, _)) && gives(&f, s, s1),
            {
                assert((&f).requires((s,)));
                Ok((f(s), ()))
            };
        StateT::new(h)
    }

    /// Apply `f` to a success's value, keeping the new state.
    pub fn map_ok<B: 'static, F>(self, f: F) -> (r: StateT<S, Result<(S, B), E>>) where
        F: Fn(A) -> B + 'static,
        ensures
            forall|s: S|
                self.can_run(s) && (forall|s1: S, a: A| self.runs_to(s, Ok((s1, a))) ==> f.requires((a,)))
                    ==> #[trigger] r.can_run(s),
            forall|s: S, mb: Result<(S, B), E>| #[trigger]
                r.runs_to(s, mb) ==> exists|ma: Result<(S, A), E>|
                    self.runs_to(s, ma) && match ma {
                        Ok((s1, a)) => mb matches Ok((s2, b)) && s2 == s1 && f.ensures((a,), b),
                        Err(e) => mb == Err::<(S, B), E>(e),
                    },
    {
        let st = self;
        let h = move |s: S| -> (mb: Result<(S, B), E>)
            requires
                st.can_run(s),
                forall|s1: S, a: A| st.runs_to(s, Ok((s1, a))) ==> calls(&f, a),
            ensures
                exists|ma: Result<(S, A), E>|
                    st.runs_to(s, ma) && match ma {
                        Ok((s1, a)) => mb matches Ok((s2, b)) && s2 == s1 && gives(&f, a, b),
                        Err(e) => mb == Err::<(S, B), E>(e),
                    },
            {
                let ma = st.run(s);
                match ma {
                    Ok((s1, a)) => {
                        assert(calls(&f, a));
                        assert((&f).requires((a,)));
                        Ok((s1, f(a)))
                    },
                    Err(e) => Err(e),
                }
            };
        StateT::new(h)
    }

    /// Apply `f` to an error.
    pub fn map_err<E2: 'static, F>(self, f: F) -> (r: StateT<S, Result<(S, A), E2>>) where
        F: Fn(E) -> E2 + 'static,
        ensures
            forall|s: S|
                self.can_run(s) && (forall|e: E| self.runs_to(s, Err(e)) ==> f.requires((e,)))
                    ==> #[trigger] r.can_run(s),
            forall|s: S, mb: Result<(S, A), E2>| #[trigger]
                r.runs_to(s, mb) ==> exists|ma: Result<(S, A), E>|
                    self.runs_to(s, ma) && match ma {
                        Ok(p) => mb == Ok::<(S, A), E2>(p),
                        Err(e) => mb matches Err(e2) && f.ensures((e,), e2),
                    },
    {
        let st = self;
        let h = move |s: S| -> (mb: Result<(S, A), E2>)
            requires
                st.can_run(s),
                forall|e: E| st.runs_to(s, Err(e)) ==> calls(&f, e),
            ensures
                exists|ma: Result<(S, A), E>|
                    st.runs_to(s, ma) && match ma {
                        Ok(p) => mb == Ok::<(S, A), E2>(p),
                        Err(e) => mb matches Err(e2) && gives(&f, e, e2),
                    },
            {
                let ma = st.run(s);
                match ma {
                    Ok(p) => Ok(p),
                    Err(e) => {
                        assert(calls(&f, e));
                        assert((&f).requires((e,)));
                        Err(f(e))
                    },
                }
            };
        StateT::new(h)
    }

    /// Chain a computation on a success's value, run from the new state.
    pub fn flat_map_ok<B: 'static, F>(self, f: F) -> (r: StateT<S, Result<(S, B), E>>) where
        F: Fn(A) -> StateT<S, Result<(S, B), E>> + 'static,
        ensures
            forall|s: S|
                self.can_run(s) && (forall|s1: S, a: A|
                    self.runs_to(s, Ok((s1, a))) ==> f.requires((a,)) && forall|k: StateT<S, Result<(S, B), E>>|
                        f.ensures((a,), k) ==> k.can_run(s1)) ==> #[trigger] r.can_run(s),
            forall|s: S, mb: Result<(S, B), E>| #[trigger]
                r.runs_to(s, mb) ==> exists|ma: Result<(S, A), E>|
                    self.runs_to(s, ma) && match ma {
                        Ok((s1, a)) => exists|k: StateT<S, Result<(S, B), E>>|
                            f.ensures((a,), k) && k.runs_to(s1, mb),
                        Err(e) => mb == Err::<(S, B), E>(e),
                    },
    {
        let st = self;
        let h = move |s: S| -> (mb: Result<(S, B), E>)
            requires
                st.can_run(s),
                forall|s1: S, a: A|
                    st.runs_to(s, Ok((s1, a))) ==> calls(&f, a) && forall|k: StateT<S, Result<(S, B), E>>|
                        gives(&f, a, k) ==> k.can_run(s1),
            ensures
                exists|ma: Result<(S, A), E>|
                    st.runs_to(s, ma) && match ma {
                        Ok((s1, a)) => exists|k: StateT<S, Result<(S, B), E>>|
                            gives(&f, a, k) && k.runs_to(s1, mb),
                        Err(e) => mb == Err::<(S, B), E>(e),
                    },
            {
                let ma = st.run(s);
                match ma {
                    Ok((s1, a)) => {
                        assert(calls(&f, a));
                        assert((&f).requires((a,)));
                        let k = f(a);
                        k.run(s1)
                    },
                    Err(e) => Err(e),
                }
            };
        StateT::new(h)
    }

    /// Run from `state` and keep only the final state of a success.
    pub fn exec_state_result(&self, state: S) -> (r: Result<S, E>)
        requires
            self.can_run(state),
        ensures
            exists|m: Result<(S, A), E>|
                self.runs_to(state, m) && match m {
                    Ok((s1, _)) => r == Ok::<S, E>(s1),
                    Err(e) => r == Err::<S, E>(e),
                },
    {
        let m = self.run(state);
        match m {
            Ok((s1, _)) => Ok(s1),
            Err(e) => Err(e),
        }
    }

    /// Run from `state` and keep only the value of a success.
    pub fn eval_state_result(&self, state: S) -> (r: Result<A, E>)
        requires
            self.can_run(state),
        ensures
            exists|m: Result<(S, A), E>|
                self.runs_to(state, m) && match m {
                    Ok((_, a)) => r == Ok::<A, E>(a),
                    Err(e) => r == Err::<A, E>(e),
                },
    {
        let m = self.run(state);
        match m {
            Ok((_, a)) => Ok(a),
            Err(e) => Err(e),
        }
    }

    /// Run this computation, then `other` from the state it leaves, and
    /// combine the two values with `f`; the first error stops.
    pub fn map2_ok<B: 'static, C: 'static, F>(self, other: StateT<S, Result<(S, B), E>>, f: F) -> (r:
        StateT<S, Result<(S, C), E>>) where F: Fn(A, B) -> C + 'static
        ensures
            forall|s: S|
                self.can_run(s) && (forall|s1: S, a: A|
                    self.runs_to(s, Ok((s1, a))) ==> other.can_run(s1) && forall|s2: S, b: B|
                        other.runs_to(s1, Ok((s2, b))) ==> f.requires((a, b))) ==> #[trigger] r.can_run(s),
            forall|s: S, mc: Result<(S, C), E>| #[trigger]
                r.runs_to(s, mc) ==> exists|ma: Result<(S, A), E>|
                    self.runs_to(s, ma) && match ma {
                        Ok((s1, a)) => exists|mb: Result<(S, B), E>|
                            other.runs_to(s1, mb) && match mb {
                                Ok((s2, b)) => mc matches Ok((s3, c)) && s3 == s2 && f.ensures((a, b), c),
                                Err(e) => mc == Err::<(S, C), E>(e),
                            },
                        Err(e) => mc == Err::<(S, C), E>(e),
                    },
    {
        let st = self;
        let h = move |s: S| -> (mc: Result<(S, C), E>)
            requires
                st.can_run(s),
                forall|s1: S, a: A|
                    st.runs_to(s, Ok((s1, a))) ==> other.can_run(s1) && forall|s2: S, b: B|
                        other.runs_to(s1, Ok((s2, b))) ==> calls2(&f, a, b),
            ensures
                exists|ma: Result<(S, A), E>|
                    st.runs_to(s, ma) && match ma {
                        Ok((s1, a)) => exists|mb: Result<(S, B), E>|
                            other.runs_to(s1, mb) && match mb {
                                Ok((s2, b)) => mc matches Ok((s3, c)) && s3 == s2 && gives2(&f, a, b, c),
                                Err(e) => mc == Err::<(S, C), E>(e),
                            },
                        Err(e) => mc == Err::<(S, C), E>(e),
                    },
            {
                let ma = st.run(s);
                match ma {
                    Ok((s1, a)) => {
                        let mb = other.run(s1);
                        match mb {
                            Ok((s2, b)) => {
                                assert(calls2(&f, a, b));
                                assert((&f).requires((a, b)));
                                Ok((s2, f(a, b)))
                            },
                            Err(e) => Err(e),
                        }
                    },
                    Err(e) => Err(e),
                }
            };
        StateT::new(h)
    }
}

// ---------------------------------------------------------------------------
// Over `Vec`
// ---------------------------------------------------------------------------

/// Whether `piece` is what a computation given by `f` for value `a` may
/// produce from state `s`.
pub open spec fn state_piece_of<S, A, B, F: Fn(A) -> StateT<S, Vec<(S, B)>>>(
    f: &F,
    s: S,
    a: A,
    piece: Seq<(S, B)>,
) -> bool {
    exists|k: StateT<S, Vec<(S, B)>>, v: Vec<(S, B)>| gives(f, a, k) && k.runs_to(s, v) && v@ == piece
}

/// Whether `pieces` are results of binding each (state, value) pair of
/// `ma` to `f`, run from that pair's state.
pub open spec fn state_bound_pieces<S, A, B, F: Fn(A) -> StateT<S, Vec<(S, B)>>>(
    f: &F,
    ma: Seq<(S, A)>,
    pieces: Seq<Seq<(S, B)>>,
) -> bool {
    &&& pieces.len() == ma.len()
    &&& forall|i: int| 0 <= i < ma.len() ==> #[trigger] state_piece_of(f, ma[i].0, ma[i].1, pieces[i])
}

proof fn lemma_state_bound_pieces<S, A, B, F: Fn(A) -> StateT<S, Vec<(S, B)>>>(
    f: &F,
    ma: Seq<(S, A)>,
    pieces: Seq<Seq<(S, B)>>,
    ks: Seq<StateT<S, Vec<(S, B)>>>,
    vs: Seq<Vec<(S, B)>>,
)
    requires
        pieces.len() == ma.len(),
        ks.len() == ma.len(),
        vs.len() == ma.len(),
        forall|i: int|
            0 <= i < ma.len() ==> gives(f, ma[i].1, #[trigger] ks[i]) && ks[i].runs_to(ma[i].0, vs[i])
                && vs[i]@ == pieces[i],
    ensures
        state_bound_pieces(f, ma, pieces),
{
    assert forall|i: int| 0 <= i < ma.len() implies #[trigger] state_piece_of(f, ma[i].0, ma[i].1, pieces[i]) by {
        let k = ks[i];
        assert(gives(f, ma[i].1, k));
    }
}

impl<S: Clone + 'static, A: 'static> StateT<S, Vec<(S, A)>> {
    /// Keep the state and give a single clone of `value`.
    pub fn singleton(value: A) -> (r: Self) where A: Clone
        ensures
            forall|s: S| #[trigger] r.can_run(s),
            forall|s: S, m: Vec<(S, A)>| #[trigger]
                r.runs_to(s, m) ==> m@.len() == 1 && m@[0].0 == s && cloned(value, m@[0].1),
    {
        let h = move |s: S| -> (m: Vec<(S, A)>)
            ensures
                m@.len() == 1 && m@[0].0 == s && clone_of(&value, m@[0].1),
            {
                let mut v: Vec<(S, A)> = Vec::new();
                v.push((s, value.clone()));
                v
            };
        StateT::new(h)
    }

    /// Give nothing.
    pub fn empty_vec() -> (r: Self)
        ensures
            forall|s: S| #[trigger] r.can_run(s),
            forall|s: S, m: Vec<(S, A)>| #[trigger] r.runs_to(s, m) ==> m@.len() == 0,
    {
        let h = |s: S| -> (m: Vec<(S, A)>)
            ensures
                m@.len() == 0,
            { Vec::new() };
        StateT::new(h)
    }

    /// Apply `f` to every value, in order, keeping each state.
    pub fn map_vec<B: 'static, F>(self, f: F) -> (r: StateT<S, Vec<(S, B)>>) where F: Fn(A) -> B + 'static
        ensures
            forall|s: S|
                self.can_run(s) && (forall|p: (S, A), m: Vec<(S, A)>| self.runs_to(s, m) && m@.contains(p) ==> f.requires((p.1,)))
                    ==> #[trigger] r.can_run(s),
            forall|s: S, mb: Vec<(S, B)>| #[trigger]
                r.runs_to(s, mb) ==> exists|ma: Vec<(S, A)>|
                    self.runs_to(s, ma) && mb@.len() == ma@.len() && forall|i: int|
                        0 <= i < ma@.len() ==> (#[trigger] mb@[i]).0 == ma@[i].0 && f.ensures((ma@[i].1,), mb@[i].1),
    {
        let st = self;
        let h = move |s: S| -> (mb: Vec<(S, B)>)
            requires
                st.can_run(s),
                forall|p: (S, A), m: Vec<(S, A)>| st.runs_to(s, m) && m@.contains(p) ==> calls(&f, p.1),
            ensures
                exists|ma: Vec<(S, A)>|
                    st.runs_to(s, ma) && mb@.len() == ma@.len() && forall|i: int|
                        0 <= i < ma@.len() ==> (#[trigger] mb@[i]).0 == ma@[i].0 && gives(&f, ma@[i].1, mb@[i].1),
            {
                let ma = st.run(s);
                let ghost src = ma@;
                let ghost whole = ma;
                let mut out: Vec<(S, B)> = Vec::new();
                for p in it: ma
                    invariant
                        it.seq() == src,
                        src == whole@,
                        st.runs_to(s, whole),
                        out@.len() == it.index(),
                        forall|p: (S, A), m: Vec<(S, A)>| st.runs_to(s, m) && m@.contains(p) ==> calls(&f, p.1),
                        forall|i: int|
                            0 <= i < it.index() ==> (#[trigger] out@[i]).0 == src[i].0 && gives(&f, src[i].1, out@[i].1),
                {
                    proof {
                        assert(src.contains(src[it.index() as int]));
                    }
                    let (s1, a) = p;
                    assert(calls(&f, a));
                    assert((&f).requires((a,)));
                    let b = f(a);
                    out.push((s1, b));
                }
                out
            };
        StateT::new(h)
    }

    /// Bind every value to `f`, each run from its own state, concatenating
    /// the results in order.
    pub fn flat_map_vec<B: 'static, F>(self, f: F) -> (r: StateT<S, Vec<(S, B)>>) where
        F: Fn(A) -> StateT<S, Vec<(S, B)>> + 'static,
        ensures
            forall|s: S|
                self.can_run(s) && (forall|p: (S, A), m: Vec<(S, A)>|
                    self.runs_to(s, m) && m@.contains(p) ==> f.requires((p.1,)) && forall|
                        k: StateT<S, Vec<(S, B)>>,
                    | f.ensures((p.1,), k) ==> k.can_run(p.0)) ==> #[trigger] r.can_run(s),
            forall|s: S, mb: Vec<(S, B)>| #[trigger]
                r.runs_to(s, mb) ==> exists|ma: Vec<(S, A)>, pieces: Seq<Seq<(S, B)>>|
                    #![trigger self.runs_to(s, ma), state_bound_pieces(&f, ma@, pieces)]
                    self.runs_to(s, ma) && state_bound_pieces(&f, ma@, pieces) && mb@ == pieces.flatten(),
    {
        let st = self;
        let fa = Involucrum(f);
        let h = move |s: S| -> (mb: Vec<(S, B)>)
            requires
                st.can_run(s),
                forall|p: (S, A), m: Vec<(S, A)>|
                    st.runs_to(s, m) && m@.contains(p) ==> Actio::pre(&fa, p.1) && forall|
                        k: StateT<S, Vec<(S, B)>>,
                    | Actio::post(&fa, p.1, k) ==> k.can_run(p.0),
            ensures
                exists|ma: Vec<(S, A)>, pieces: Seq<Seq<(S, B)>>|
                    #![trigger st.runs_to(s, ma), state_bound_pieces(&fa.0, ma@, pieces)]
                    st.runs_to(s, ma) && state_bound_pieces(&fa.0, ma@, pieces) && mb@ == pieces.flatten(),
            {
                let ma = st.run(s);
                let ghost src = ma@;
                let ghost whole = ma;
                let ghost mut pieces: Seq<Seq<(S, B)>> = Seq::empty();
                let ghost mut ks: Seq<StateT<S, Vec<(S, B)>>> = Seq::empty();
                let ghost mut vs: Seq<Vec<(S, B)>> = Seq::empty();
                let mut out: Vec<(S, B)> = Vec::new();
                for p in it: ma
                    invariant
                        it.seq() == src,
                        src == whole@,
                        st.runs_to(s, whole),
                        pieces.len() == it.index(),
                        ks.len() == it.index(),
                        vs.len() == it.index(),
                        out@ == pieces.flatten(),
                        forall|p: (S, A), m: Vec<(S, A)>|
                            st.runs_to(s, m) && m@.contains(p) ==> Actio::pre(&fa, p.1) && forall|
                                k: StateT<S, Vec<(S, B)>>,
                            | Actio::post(&fa, p.1, k) ==> k.can_run(p.0),
                        forall|i: int|
                            0 <= i < it.index() ==> Actio::post(&fa, src[i].1, #[trigger] ks[i])
                                && ks[i].runs_to(src[i].0, vs[i]) && vs[i]@ == pieces[i],
                {
                    proof {
                        assert(src.contains(src[it.index() as int]));
                    }
                    let (s1, a) = p;
                    let k = Actio::invoke(&fa, a);
                    let mut v = k.run(s1);
                    proof {
                        pieces.lemma_flatten_push(v@);
                        pieces = pieces.push(v@);
                        ks = ks.push(k);
                        vs = vs.push(v);
                    }
                    out.append(&mut v);
                }
                proof {
                    assert forall|i: int| 0 <= i < whole@.len() implies gives(&fa.0, whole@[i].1, #[trigger] ks[i])
                        && ks[i].runs_to(whole@[i].0, vs[i]) && vs[i]@ == pieces[i] by {
                        assert(Actio::post(&fa, src[i].1, ks[i]));
                    }
                    lemma_state_bound_pieces(&fa.0, whole@, pieces, ks, vs);
                }
                out
            };
        StateT::new(h)
    }
}

/// Left identity over `Option`: when `m` only ever gives `a` and keeps the
/// state, every outcome of binding `m` to `f` from `s` is an outcome of
/// what `f` makes of `a`, run from `s`.
pub proof fn law_state_t_left_identity<S, A, B, F: Fn(A) -> StateT<S, Option<(S, B)>>>(
    m: StateT<S, Option<(S, A)>>,
    a: A,
    f: F,
    s: S,
    mb: Option<(S, B)>,
)
    requires
        forall|o: Option<(S, A)>| #[trigger] m.runs_to(s, o) ==> o == Some((s, a)),
    ensures
        state_option_bound(m, f, s, mb) ==> exists|k: StateT<S, Option<(S, B)>>|
            f.ensures((a,), k) && k.runs_to(s, mb),
{
}

/// Right identity over `Option`: binding `m` to a function whose
/// computations only give back their argument and keep the state has no
/// outcome from `s` that `m` does not have from there.
pub proof fn law_state_t_right_identity<S, A, K: Fn(A) -> StateT<S, Option<(S, A)>>>(
    m: StateT<S, Option<(S, A)>>,
    k: K,
    s: S,
    ma: Option<(S, A)>,
)
    requires
        forall|a: A, c: StateT<S, Option<(S, A)>>, s1: S, o: Option<(S, A)>|
            #[trigger] k.ensures((a,), c) && #[trigger] c.runs_to(s1, o) ==> o == Some((s1, a)),
    ensures
        state_option_bound(m, k, s, ma) ==> m.runs_to(s, ma),
{
}

} // verus!
