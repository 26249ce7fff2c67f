//! `LectorEcclesiaT`: a reader that takes its environment by value.

use vstd::prelude::*;

use crate::actio::{Actio, Involucrum, calls, gives};

verus! {

/// A computation that reads an environment of type `R`, given by value, and
/// produces `M`.
#[verifier::reject_recursive_types(R)]
#[verifier::reject_recursive_types(M)]
pub struct LectorEcclesiaT<R, M> {
    run: Box<dyn Actio<R, M>>,
}

impl<R, M> LectorEcclesiaT<R, M> {
    /// Whether the computation may run in environment `env`.
    pub closed spec fn can_run(&self, env: R) -> bool {
        self.run.pre(env)
    }

    /// Whether running in environment `env` may give `m`.
    pub closed spec fn runs_to(&self, env: R, m: M) -> bool {
        self.run.post(env, m)
    }

    /// Run the computation in environment `env`.
    pub fn run(self, env: R) -> (r: M)
        requires
            self.can_run(env),
        ensures
            self.runs_to(env, r),
    {
        self.run.invoke(env)
    }
}

impl<R: 'static, M: 'static> LectorEcclesiaT<R, M> {
    /// The computation that runs `f` on the environment.
    pub fn new<F>(f: F) -> (r: Self) where F: Fn(R) -> M + 'static
        ensures
            forall|env: R| #[trigger] r.can_run(env) == f.requires((env,)),
            forall|env: R, m: M| #[trigger] r.runs_to(env, m) == f.ensures((env,), m),
    {
        LectorEcclesiaT { run: Box::new(Involucrum(f)) }
    }

    /// Apply `f` to the result.
    pub fn map<B: 'static, F>(self, f: F) -> (r: LectorEcclesiaT<R, B>) where F: Fn(M) -> B + 'static
        ensures
            forall|env: R|
                self.can_run(env) && (forall|m: M| self.runs_to(env, m) ==> f.requires((m,)))
                    ==> #[trigger] r.can_run(env),
            forall|env: R, b: B| #[trigger]
                r.runs_to(env, b) ==> exists|m: M| self.runs_to(env, m) && f.ensures((m,), b),
    {
        let s = self;
        let h = move |env: R| -> (b: B)
            requires
                s.can_run(env),
                forall|m: M| s.runs_to(env, m) ==> calls(&f, m),
            ensures
                exists|m: M| s.runs_to(env, m) && gives(&f, m, b),
            {
                let m = s.run.invoke(env);
                assert(calls(&f, m));
                assert((&f).requires((m,)));
                let b = f(m);
                assert(s.runs_to(env, m) && gives(&f, m, b));
                b
            };
        LectorEcclesiaT::new(h)
    }

    /// Chain a computation on the result, run in a clone of the same
    /// environment.
    pub fn flat_map<B: 'static, F>(self, f: F) -> (r: LectorEcclesiaT<R, B>) where
        F: Fn(M) -> LectorEcclesiaT<R, B> + 'static,
        R: Clone,
        ensures
            forall|env: R|
                (forall|e: R| cloned(env, e) ==> self.can_run(e)) && (forall|e: R, m: M|
                    cloned(env, e) && self.runs_to(e, m) ==> f.requires((m,)) && forall|
                        k: LectorEcclesiaT<R, B>,
                    | f.ensures((m,), k) ==> k.can_run(env)) ==> #[trigger] r.can_run(env),
            forall|env: R, b: B| #[trigger]
                r.runs_to(env, b) ==> exists|e: R, m: M, k: LectorEcclesiaT<R, B>|
                    cloned(env, e) && self.runs_to(e, m) && f.ensures((m,), k) && k.runs_to(env, b),
    {
        let s = self;
        let h = move |env: R| -> (b: B)
            requires
                forall|e: R| cloned(env, e) ==> s.can_run(e),
                forall|e: R, m: M|
                    cloned(env, e) && s.runs_to(e, m) ==> calls(&f, m) && forall|k: LectorEcclesiaT<R, B>|
                        gives(&f, m, k) ==> k.can_run(env),
            ensures
                exists|e: R, m: M, k: LectorEcclesiaT<R, B>|
                    cloned(env, e) && s.runs_to(e, m) && gives(&f, m, k) && k.runs_to(env, b),
            {
                let e = env.clone();
                let ghost e0 = e;
                assert(cloned(env, e0));
                assert(s.can_run(e0));
                let m = s.run.invoke(e);
                assert(s.runs_to(e0, m));
                assert(calls(&f, m));
                assert((&f).requires((m,)));
                let next = f(m);
                let ghost k0 = next;
                let b = next.run(env);
                assert(cloned(env, e0) && s.runs_to(e0, m) && gives(&f, m, k0) && k0.runs_to(env, b));
                b
            };
        LectorEcclesiaT::new(h)
    }

    /// The computation that gives the environment itself.
    pub fn ask() -> (r: LectorEcclesiaT<R, R>)
        ensures
            forall|env: R| #[trigger] r.can_run(env),
            forall|env: R, m: R| #[trigger] r.runs_to(env, m) ==> m == env,
    {
        let h = |env: R| -> (m: R)
            ensures
                m == env,
            { env };
        LectorEcclesiaT::new(h)
    }

    /// The computation that runs this one in the environment transformed by
    /// `f`.
    pub fn local<F>(self, f: F) -> (r: LectorEcclesiaT<R, M>) where F: Fn(R) -> R + 'static
        ensures
            forall|env: R|
                f.requires((env,)) && (forall|e2: R| f.ensures((env,), e2) ==> self.can_run(e2))
                    ==> #[trigger] r.can_run(env),
            forall|env: R, m: M| #[trigger]
                r.runs_to(env, m) ==> exists|e2: R| f.ensures((env,), e2) && self.runs_to(e2, m),
    {
        let s = self;
        let h = move |env: R| -> (m: M)
            requires
                calls(&f, env),
                forall|e2: R| gives(&f, env, e2) ==> s.can_run(e2),
            ensures
                exists|e2: R| gives(&f, env, e2) && s.runs_to(e2, m),
            {
                assert((&f).requires((env,)));
                let e2 = f(env);
                assert(gives(&f, env, e2));
                assert(s.can_run(e2));
                let m = s.run.invoke(e2);
                assert(gives(&f, env, e2) && s.runs_to(e2, m));
                m
            };
        LectorEcclesiaT::new(h)
    }
}

} // verus!
