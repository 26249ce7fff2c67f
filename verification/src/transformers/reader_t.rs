//! `ReaderT`: computations that read a shared environment, over a base
//! monad (`Option`, `Result` or `Vec`).

use vstd::prelude::*;

use vstd::std_specs::convert::FromSpec;

use crate::actio::{Actio, ActioRef, Involucrum, calls, calls2, clone_of, gives, gives2};

verus! {

/// A computation that reads an environment of type `E` and produces a
/// result of type `M`.
#[verifier::reject_recursive_types(E)]
#[verifier::reject_recursive_types(M)]
pub struct ReaderT<E, M> {
    run_fn: Box<dyn ActioRef<E, M>>,
}

impl<E, M> ReaderT<E, M> {
    /// Whether the computation may run in environment `env`.
    pub closed spec fn can_run(&self, env: &E) -> bool {
        self.run_fn.pre(env)
    }

    /// Whether running in environment `env` may give `m`.
    pub closed spec fn runs_to(&self, env: &E, m: M) -> bool {
        self.run_fn.post(env, m)
    }

    /// Run the computation in environment `env`.
    pub fn run(&self, env: &E) -> (r: M)
        requires
            self.can_run(env),
        ensures
            self.runs_to(env, r),
    {
        self.run_fn.invoke(env)
    }
}

impl<E: 'static, M: 'static> ReaderT<E, M> {
    /// The computation that runs `f` on the environment.
    pub fn new<F>(f: F) -> (r: Self) where F: Fn(&E) -> M + 'static
        ensures
            forall|env: &E| #[trigger] r.can_run(env) == f.requires((env,)),
            forall|env: &E, m: M| #[trigger] r.runs_to(env, m) == f.ensures((env,), m),
    {
        ReaderT { run_fn: Box::new(Involucrum(f)) }
    }

    /// The computation that reads the environment, converted into `M`.
    pub fn ask() -> (r: Self) where E: Clone, M: From<E>
        ensures
            forall|env: &E| #[trigger] r.can_run(env),
            forall|env: &E, m: M| #[trigger]
                r.runs_to(env, m) ==> exists|e: E| cloned(*env, e) && (M::obeys_from_spec() ==> m == M::from_spec(e)),
    {
        let h = |env: &E| -> (m: M)
            ensures
                exists|e: E| cloned(*env, e) && (M::obeys_from_spec() ==> m == M::from_spec(e)),
            {
                let e = env.clone();
                let m = M::from(e);
                assert(cloned(*env, e) && (M::obeys_from_spec() ==> m == M::from_spec(e)));
                m
            };
        ReaderT::new(h)
    }

    /// The computation that runs this one in the environment transformed by
    /// `f`.
    pub fn local<F>(self, f: F) -> (r: Self) where F: Fn(&E) -> E + 'static
        ensures
            forall|env: &E|
                f.requires((env,)) && (forall|e2: E| f.ensures((env,), e2) ==> self.can_run(&e2))
                    ==> #[trigger] r.can_run(env),
            forall|env: &E, m: M| #[trigger]
                r.runs_to(env, m) ==> exists|e2: E| f.ensures((env,), e2) && self.runs_to(&e2, m),
    {
        let s = self;
        let fa = Involucrum(f);
        let h = move |env: &E| -> (m: M)
            requires
                ActioRef::pre(&fa, env),
                forall|e2: E| ActioRef::post(&fa, env, e2) ==> s.can_run(&e2),
            ensures
                exists|e2: E| ActioRef::post(&fa, env, e2) && s.runs_to(&e2, m),
            {
                let e2 = ActioRef::invoke(&fa, env);
                s.run(&e2)
            };
        ReaderT::new(h)
    }
}

// ---------------------------------------------------------------------------
// Over `Option`
// ---------------------------------------------------------------------------

/// The outcomes of binding `m` over `Option` to `f` in environment `env`:
/// a value goes to the computation `f` makes of it, run in the same
/// environment; no value passes through.
pub open spec fn reader_option_bound<E, A, B, F: Fn(A) -> ReaderT<E, Option<B>>>(
    m: ReaderT<E, Option<A>>,
    f: F,
    env: &E,
    ob: Option<B>,
) -> bool {
    exists|oa: Option<A>|
        m.runs_to(env, oa) && match oa {
            Some(a) => exists|k: ReaderT<E, Option<B>>| f.ensures((a,), k) && k.runs_to(env, ob),
            None => ob is None,
        }
}

impl<E: 'static, A: 'static> ReaderT<E, Option<A>> {
    /// The computation that ignores the environment and gives a clone of
    /// `value`.
    pub fn pure(value: A) -> (r: Self) where A: Clone
        ensures
            forall|env: &E| #[trigger] r.can_run(env),
            forall|env: &E, m: Option<A>| #[trigger]
                r.runs_to(env, m) ==> (m matches Some(x) && cloned(value, x)),
    {
        let h = move |env: &E| -> (m: Option<A>)
            ensures
                m matches Some(x) && clone_of(&value, x),
            { Some(value.clone()) };
        ReaderT::new(h)
    }

    /// The computation that gives no value.
    pub fn none() -> (r: Self)
        ensures
            forall|env: &E| #[trigger] r.can_run(env),
            forall|env: &E, m: Option<A>| #[trigger] r.runs_to(env, m) ==> m is None,
    {
        let h = |env: &E| -> (m: Option<A>)
            ensures
                m is None,
            { None };
        ReaderT::new(h)
    }

    /// Apply `f` to the value, if there is one.
    pub fn map<B: 'static, F>(self, f: F) -> (r: ReaderT<E, Option<B>>) where F: Fn(A) -> B + 'static
        ensures
            forall|env: &E|
                self.can_run(env) && (forall|a: A| self.runs_to(env, Some(a)) ==> f.requires((a,)))
                    ==> #[trigger] r.can_run(env),
            forall|env: &E, ob: Option<B>| #[trigger]
                r.runs_to(env, ob) ==> exists|oa: Option<A>|
                    self.runs_to(env, oa) && match oa {
                        Some(a) => ob matches Some(b) && f.ensures((a,), b),
                        None => ob is None,
                    },
    {
        let s = self;
        let h = move |env: &E| -> (ob: Option<B>)
            requires
                s.can_run(env),
                forall|a: A| s.runs_to(env, Some(a)) ==> calls(&f, a),
            ensures
                exists|oa: Option<A>|
                    s.runs_to(env, oa) && match oa {
                        Some(a) => ob matches Some(b) && gives(&f, a, b),
                        None => ob is None,
                    },
            {
                let oa = s.run(env);
                match oa {
                    Some(a) => {
                        assert(calls(&f, a));
                        assert((&f).requires((a,)));
                        Some(f(a))
                    },
                    None => None,
                }
            };
        ReaderT::new(h)
    }

    /// Chain a computation on the value, run in the same environment.
    pub fn flat_map<B: 'static, F>(self, f: F) -> (r: ReaderT<E, Option<B>>) where
        F: Fn(A) -> ReaderT<E, Option<B>> + 'static,
        ensures
            forall|env: &E|
                self.can_run(env) && (forall|a: A|
                    self.runs_to(env, Some(a)) ==> f.requires((a,)) && forall|k: ReaderT<E, Option<B>>|
                        f.ensures((a,), k) ==> k.can_run(env)) ==> #[trigger] r.can_run(env),
            forall|env: &E, ob: Option<B>| #[trigger]
                r.runs_to(env, ob) ==> reader_option_bound(self, f, env, ob),
    {
        let s = self;
        let h = move |env: &E| -> (ob: Option<B>)
            requires
                s.can_run(env),
                forall|a: A|
                    s.runs_to(env, Some(a)) ==> calls(&f, a) && forall|k: ReaderT<E, Option<B>>|
                        gives(&f, a, k) ==> k.can_run(env),
            ensures
                exists|oa: Option<A>|
                    s.runs_to(env, oa) && match oa {
                        Some(a) => exists|k: ReaderT<E, Option<B>>|
                            gives(&f, a, k) && k.runs_to(env, ob),
                        None => ob is None,
                    },
            {
                let oa = s.run(env);
                match oa {
                    Some(a) => {
                        assert(calls(&f, a));
                        assert((&f).requires((a,)));
                        let k = f(a);
                        k.run(env)
                    },
                    None => None,
                }
            };
        ReaderT::new(h)
    }

    /// Apply the function computed by `f` to the value computed by this
    /// computation, both in the same environment; no value if either has
    /// none.
    pub fn apply<B: 'static, G>(self, f: ReaderT<E, Option<G>>) -> (r: ReaderT<E, Option<B>>) where
        G: FnOnce(A) -> B + 'static,
        ensures
            forall|env: &E|
                self.can_run(env) && f.can_run(env) && (forall|a: A, g: G|
                    self.runs_to(env, Some(a)) && f.runs_to(env, Some(g)) ==> g.requires((a,)))
                    ==> #[trigger] r.can_run(env),
            forall|env: &E, ob: Option<B>| #[trigger]
                r.runs_to(env, ob) ==> exists|oa: Option<A>, og: Option<G>|
                    self.runs_to(env, oa) && f.runs_to(env, og) && match (oa, og) {
                        (Some(a), Some(g)) => ob matches Some(b) && g.ensures((a,), b),
                        _ => ob is None,
                    },
    {
        let s = self;
        let h = move |env: &E| -> (ob: Option<B>)
            requires
                s.can_run(env),
                f.can_run(env),
                forall|a: A, g: G| s.runs_to(env, Some(a)) && f.runs_to(env, Some(g)) ==> g.requires((a,)),
            ensures
                exists|oa: Option<A>, og: Option<G>|
                    s.runs_to(env, oa) && f.runs_to(env, og) && match (oa, og) {
                        (Some(a), Some(g)) => ob matches Some(b) && g.ensures((a,), b),
                        _ => ob is None,
                    },
            {
                let oa = s.run(env);
                let og = f.run(env);
                match (oa, og) {
                    (Some(a), Some(func)) => Some(func(a)),
                    _ => None,
                }
            };
        ReaderT::new(h)
    }

    /// Combine the values of two computations, run in the same environment,
    /// with `f`; no value if either has none.
    pub fn map2<B: 'static, C: 'static, F>(self, other: ReaderT<E, Option<B>>, f: F) -> (r: ReaderT<
        E,
        Option<C>,
    >) where F: Fn(A, B) -> C + 'static
        ensures
            forall|env: &E|
                self.can_run(env) && other.can_run(env) && (forall|a: A, b: B|
                    self.runs_to(env, Some(a)) && other.runs_to(env, Some(b)) ==> f.requires((a, b)))
                    ==> #[trigger] r.can_run(env),
            forall|env: &E, oc: Option<C>| #[trigger]
                r.runs_to(env, oc) ==> exists|oa: Option<A>, ob: Option<B>|
                    self.runs_to(env, oa) && other.runs_to(env, ob) && match (oa, ob) {
                        (Some(a), Some(b)) => oc matches Some(c) && f.ensures((a, b), c),
                        _ => oc is None,
                    },
    {
        let s = self;
        let h = move |env: &E| -> (oc: Option<C>)
            requires
                s.can_run(env),
                other.can_run(env),
                forall|a: A, b: B| s.runs_to(env, Some(a)) && other.runs_to(env, Some(b)) ==> calls2(&f, a, b),
            ensures
                exists|oa: Option<A>, ob: Option<B>|
                    s.runs_to(env, oa) && other.runs_to(env, ob) && match (oa, ob) {
                        (Some(a), Some(b)) => oc matches Some(c) && gives2(&f, a, b, c),
                        _ => oc is None,
                    },
            {
                let oa = s.run(env);
                let ob = other.run(env);
                match (oa, ob) {
                    (Some(a), Some(b)) => {
                        assert(calls2(&f, a, b));
                        assert((&f).requires((a, b)));
                        Some(f(a, b))
                    },
                    _ => None,
                }
            };
        ReaderT::new(h)
    }
}

// ---------------------------------------------------------------------------
// Over `Result`
// ---------------------------------------------------------------------------

impl<E: 'static, A: 'static, Fail: 'static> ReaderT<E, Result<A, Fail>> {
    /// The computation that ignores the environment and succeeds with a
    /// clone of `value`.
    pub fn ok(value: A) -> (r: Self) where A: Clone
        ensures
            forall|env: &E| #[trigger] r.can_run(env),
            forall|env: &E, m: Result<A, Fail>| #[trigger]
                r.runs_to(env, m) ==> (m matches Ok(x) && cloned(value, x)),
    {
        let h = move |env: &E| -> (m: Result<A, Fail>)
            ensures
                m matches Ok(x) && clone_of(&value, x),
            { Ok(value.clone()) };
        ReaderT::new(h)
    }

    /// The computation that ignores the environment and fails with a clone
    /// of `error`.
    pub fn err(error: Fail) -> (r: Self) where Fail: Clone
        ensures
            forall|env: &E| #[trigger] r.can_run(env),
            forall|env: &E, m: Result<A, Fail>| #[trigger]
                r.runs_to(env, m) ==> (m matches Err(x) && cloned(error, x)),
    {
        let h = move |env: &E| -> (m: Result<A, Fail>)
            ensures
                m matches Err(x) && clone_of(&error, x),
            { Err(error.clone()) };
        ReaderT::new(h)
    }

    /// Apply `f` to a success.
    pub fn map<B: 'static, F>(self, f: F) -> (r: ReaderT<E, Result<B, Fail>>) where F: Fn(A) -> B + 'static
        ensures
            forall|env: &E|
                self.can_run(env) && (forall|a: A| self.runs_to(env, Ok(a)) ==> f.requires((a,)))
                    ==> #[trigger] r.can_run(env),
            forall|env: &E, rb: Result<B, Fail>| #[trigger]
                r.runs_to(env, rb) ==> exists|ra: Result<A, Fail>|
                    self.runs_to(env, ra) && match ra {
                        Ok(a) => rb matches Ok(b) && f.ensures((a,), b),
                        Err(e) => rb == Err::<B, Fail>(e),
                    },
    {
        let s = self;
        let h = move |env: &E| -> (rb: Result<B, Fail>)
            requires
                s.can_run(env),
                forall|a: A| s.runs_to(env, Ok(a)) ==> calls(&f, a),
            ensures
                exists|ra: Result<A, Fail>|
                    s.runs_to(env, ra) && match ra {
                        Ok(a) => rb matches Ok(b) && gives(&f, a, b),
                        Err(e) => rb == Err::<B, Fail>(e),
                    },
            {
                let ra = s.run(env);
                match ra {
                    Ok(a) => {
                        assert(calls(&f, a));
                        assert((&f).requires((a,)));
                        Ok(f(a))
                    },
                    Err(e) => Err(e),
                }
            };
        ReaderT::new(h)
    }

    /// Chain a computation on a success, run in the same environment.
    pub fn flat_map<B: 'static, F>(self, f: F) -> (r: ReaderT<E, Result<B, Fail>>) where
        F: Fn(A) -> ReaderT<E, Result<B, Fail>> + 'static,
        ensures
            forall|env: &E|
                self.can_run(env) && (forall|a: A|
                    self.runs_to(env, Ok(a)) ==> f.requires((a,)) && forall|k: ReaderT<E, Result<B, Fail>>|
                        f.ensures((a,), k) ==> k.can_run(env)) ==> #[trigger] r.can_run(env),
            forall|env: &E, rb: Result<B, Fail>| #[trigger]
                r.runs_to(env, rb) ==> exists|ra: Result<A, Fail>|
                    self.runs_to(env, ra) && match ra {
                        Ok(a) => exists|k: ReaderT<E, Result<B, Fail>>|
                            f.ensures((a,), k) && k.runs_to(env, rb),
                        Err(e) => rb == Err::<B, Fail>(e),
                    },
    {
        let s = self;
        let h = move |env: &E| -> (rb: Result<B, Fail>)
            requires
                s.can_run(env),
                forall|a: A|
                    s.runs_to(env, Ok(a)) ==> calls(&f, a) && forall|k: ReaderT<E, Result<B, Fail>>|
                        gives(&f, a, k) ==> k.can_run(env),
            ensures
                exists|ra: Result<A, Fail>|
                    s.runs_to(env, ra) && match ra {
                        Ok(a) => exists|k: ReaderT<E, Result<B, Fail>>|
                            gives(&f, a, k) && k.runs_to(env, rb),
                        Err(e) => rb == Err::<B, Fail>(e),
                    },
            {
                let ra = s.run(env);
                match ra {
                    Ok(a) => {
                        assert(calls(&f, a));
                        assert((&f).requires((a,)));
                        let k = f(a);
                        k.run(env)
                    },
                    Err(e) => Err(e),
                }
            };
        ReaderT::new(h)
    }

    /// Apply `f` to an error.
    pub fn map_err<Err2: 'static, F>(self, f: F) -> (r: ReaderT<E, Result<A, Err2>>) where
        F: Fn(Fail) -> Err2 + 'static,
        ensures
            forall|env: &E|
                self.can_run(env) && (forall|e: Fail| self.runs_to(env, Err(e)) ==> f.requires((e,)))
                    ==> #[trigger] r.can_run(env),
            forall|env: &E, rb: Result<A, Err2>| #[trigger]
                r.runs_to(env, rb) ==> exists|ra: Result<A, Fail>|
                    self.runs_to(env, ra) && match ra {
                        Ok(a) => rb == Ok::<A, Err2>(a),
                        Err(e) => rb matches Err(e2) && f.ensures((e,), e2),
                    },
    {
        let s = self;
        let h = move |env: &E| -> (rb: Result<A, Err2>)
            requires
                s.can_run(env),
                forall|e: Fail| s.runs_to(env, Err(e)) ==> calls(&f, e),
            ensures
                exists|ra: Result<A, Fail>|
                    s.runs_to(env, ra) && match ra {
                        Ok(a) => rb == Ok::<A, Err2>(a),
                        Err(e) => rb matches Err(e2) && gives(&f, e, e2),
                    },
            {
                let ra = s.run(env);
                match ra {
                    Ok(a) => Ok(a),
                    Err(e) => {
                        assert(calls(&f, e));
                        assert((&f).requires((e,)));
                        Err(f(e))
                    },
                }
            };
        ReaderT::new(h)
    }

    /// Combine two successes, computed in the same environment, with `f`;
    /// otherwise the first error, looking at this computation first.
    pub fn map2_ok<B: 'static, C: 'static, F>(self, other: ReaderT<E, Result<B, Fail>>, f: F) -> (r:
        ReaderT<E, Result<C, Fail>>) where F: Fn(A, B) -> C + 'static
        ensures
            forall|env: &E|
                self.can_run(env) && other.can_run(env) && (forall|a: A, b: B|
                    self.runs_to(env, Ok(a)) && other.runs_to(env, Ok(b)) ==> f.requires((a, b)))
                    ==> #[trigger] r.can_run(env),
            forall|env: &E, rc: Result<C, Fail>| #[trigger]
                r.runs_to(env, rc) ==> exists|ra: Result<A, Fail>, rb: Result<B, Fail>|
                    self.runs_to(env, ra) && other.runs_to(env, rb) && match (ra, rb) {
                        (Ok(a), Ok(b)) => rc matches Ok(c) && f.ensures((a, b), c),
                        (Err(e), _) => rc == Err::<C, Fail>(e),
                        (_, Err(e)) => rc == Err::<C, Fail>(e),
                    },
    {
        let s = self;
        let h = move |env: &E| -> (rc: Result<C, Fail>)
            requires
                s.can_run(env),
                other.can_run(env),
                forall|a: A, b: B| s.runs_to(env, Ok(a)) && other.runs_to(env, Ok(b)) ==> calls2(&f, a, b),
            ensures
                exists|ra: Result<A, Fail>, rb: Result<B, Fail>|
                    s.runs_to(env, ra) && other.runs_to(env, rb) && match (ra, rb) {
                        (Ok(a), Ok(b)) => rc matches Ok(c) && gives2(&f, a, b, c),
                        (Err(e), _) => rc == Err::<C, Fail>(e),
                        (_, Err(e)) => rc == Err::<C, Fail>(e),
                    },
            {
                let ra = s.run(env);
                let rb = other.run(env);
                match (ra, rb) {
                    (Ok(a), Ok(b)) => {
                        assert(calls2(&f, a, b));
                        assert((&f).requires((a, b)));
                        Ok(f(a, b))
                    },
                    (Err(e), _) => Err(e),
                    (_, Err(e)) => Err(e),
                }
            };
        ReaderT::new(h)
    }
}

// ---------------------------------------------------------------------------
// Over `Vec`
// ---------------------------------------------------------------------------

/// Whether `pieces` are results of binding the values `ma` to `f` in
/// environment `env`: one piece per value, each what a computation given by
/// `f` for that value may produce.
pub open spec fn bound_pieces<E, A, B, F: Fn(A) -> ReaderT<E, Vec<B>>>(
    f: &F,
    env: &E,
    ma: Seq<A>,
    pieces: Seq<Seq<B>>,
) -> bool {
    &&& pieces.len() == ma.len()
    &&& forall|i: int| 0 <= i < ma.len() ==> #[trigger] piece_of(f, env, ma[i], pieces[i])
}

/// Whether `piece` is what a computation given by `f` for value `a` may
/// produce in environment `env`.
pub open spec fn piece_of<E, A, B, F: Fn(A) -> ReaderT<E, Vec<B>>>(f: &F, env: &E, a: A, piece: Seq<B>) -> bool {
    exists|k: ReaderT<E, Vec<B>>, v: Vec<B>| gives(f, a, k) && k.runs_to(env, v) && v@ == piece
}

proof fn lemma_bound_pieces<E, A, B, F: Fn(A) -> ReaderT<E, Vec<B>>>(
    f: &F,
    env: &E,
    ma: Seq<A>,
    pieces: Seq<Seq<B>>,
    ks: Seq<ReaderT<E, Vec<B>>>,
    vs: Seq<Vec<B>>,
)
    requires
        pieces.len() == ma.len(),
        ks.len() == ma.len(),
        vs.len() == ma.len(),
        forall|i: int|
            0 <= i < ma.len() ==> gives(f, ma[i], #[trigger] ks[i]) && ks[i].runs_to(env, vs[i])
                && vs[i]@ == pieces[i],
    ensures
        bound_pieces(f, env, ma, pieces),
{
    assert forall|i: int| 0 <= i < ma.len() implies #[trigger] piece_of(f, env, ma[i], pieces[i]) by {
        let k = ks[i];
        assert(gives(f, ma[i], k));
        assert(k.runs_to(env, vs[i]));
        assert(vs[i]@ == pieces[i]);
    }
}

impl<E: 'static, A: 'static> ReaderT<E, Vec<A>> {
    /// The computation that ignores the environment and gives a single
    /// clone of `value`.
    pub fn singleton(value: A) -> (r: Self) where A: Clone
        ensures
            forall|env: &E| #[trigger] r.can_run(env),
            forall|env: &E, m: Vec<A>| #[trigger]
                r.runs_to(env, m) ==> m@.len() == 1 && cloned(value, m@[0]),
    {
        let h = move |env: &E| -> (m: Vec<A>)
            ensures
                m@.len() == 1 && clone_of(&value, m@[0]),
            {
                let mut v: Vec<A> = Vec::new();
                v.push(value.clone());
                v
            };
        ReaderT::new(h)
    }

    /// The computation that gives no values.
    pub fn empty() -> (r: Self)
        ensures
            forall|env: &E| #[trigger] r.can_run(env),
            forall|env: &E, m: Vec<A>| #[trigger] r.runs_to(env, m) ==> m@.len() == 0,
    {
        let h = |env: &E| -> (m: Vec<A>)
            ensures
                m@.len() == 0,
            { Vec::new() };
        ReaderT::new(h)
    }

    /// Apply `f` to every value, in order.
    pub fn map<B: 'static, F>(self, f: F) -> (r: ReaderT<E, Vec<B>>) where F: Fn(A) -> B + 'static
        ensures
            forall|env: &E|
                self.can_run(env) && (forall|a: A, m: Vec<A>| self.runs_to(env, m) && m@.contains(a) ==> f.requires((a,)))
                    ==> #[trigger] r.can_run(env),
            forall|env: &E, mb: Vec<B>| #[trigger]
                r.runs_to(env, mb) ==> exists|ma: Vec<A>|
                    self.runs_to(env, ma) && mb@.len() == ma@.len() && forall|i: int|
                        0 <= i < ma@.len() ==> f.ensures((ma@[i],), #[trigger] mb@[i]),
    {
        let s = self;
        let h = move |env: &E| -> (mb: Vec<B>)
            requires
                s.can_run(env),
                forall|a: A, m: Vec<A>| s.runs_to(env, m) && m@.contains(a) ==> calls(&f, a),
            ensures
                exists|ma: Vec<A>|
                    s.runs_to(env, ma) && mb@.len() == ma@.len() && forall|i: int|
                        0 <= i < ma@.len() ==> gives(&f, ma@[i], #[trigger] mb@[i]),
            {
                let ma = s.run(env);
                let ghost src = ma@;
                let ghost whole = ma;
                let mut out: Vec<B> = Vec::new();
                for a in it: ma
                    invariant
                        it.seq() == src,
                        src == whole@,
                        s.runs_to(env, whole),
                        out@.len() == it.index(),
                        forall|a: A, m: Vec<A>| s.runs_to(env, m) && m@.contains(a) ==> calls(&f, a),
                        forall|i: int| 0 <= i < it.index() ==> gives(&f, src[i], #[trigger] out@[i]),
                {
                    proof {
                        assert(src.contains(src[it.index() as int]));
                    }
                    assert(calls(&f, a));
                    assert((&f).requires((a,)));
                    out.push(f(a));
                }
                out
            };
        ReaderT::new(h)
    }

    /// Bind every value to `f`, run in the same environment, concatenating
    /// the results in order.
    pub fn flat_map_vec<B: 'static, F>(self, f: F) -> (r: ReaderT<E, Vec<B>>) where
        F: Fn(A) -> ReaderT<E, Vec<B>> + 'static,
        ensures
            forall|env: &E|
                self.can_run(env) && (forall|a: A, m: Vec<A>|
                    self.runs_to(env, m) && m@.contains(a) ==> f.requires((a,)) && forall|k: ReaderT<E, Vec<B>>|
                        f.ensures((a,), k) ==> k.can_run(env)) ==> #[trigger] r.can_run(env),
            forall|env: &E, mb: Vec<B>| #[trigger]
                r.runs_to(env, mb) ==> exists|ma: Vec<A>, pieces: Seq<Seq<B>>|
                    #![trigger self.runs_to(env, ma), bound_pieces(&f, env, ma@, pieces)]
                    self.runs_to(env, ma) && bound_pieces(&f, env, ma@, pieces) && mb@ == pieces.flatten(),
    {
        let s = self;
        let fa = Involucrum(f);
        let h = move |env: &E| -> (mb: Vec<B>)
            requires
                s.can_run(env),
                forall|a: A, m: Vec<A>|
                    s.runs_to(env, m) && m@.contains(a) ==> Actio::pre(&fa, a) && forall|k: ReaderT<E, Vec<B>>|
                        Actio::post(&fa, a, k) ==> k.can_run(env),
            ensures
                exists|ma: Vec<A>, pieces: Seq<Seq<B>>|
                    #![trigger s.runs_to(env, ma), bound_pieces(&fa.0, env, ma@, pieces)]
                    s.runs_to(env, ma) && bound_pieces(&fa.0, env, ma@, pieces) && mb@ == pieces.flatten(),
            {
                let ma = s.run(env);
                let ghost src = ma@;
                let ghost whole = ma;
                let ghost mut pieces: Seq<Seq<B>> = Seq::empty();
                let ghost mut ks: Seq<ReaderT<E, Vec<B>>> = Seq::empty();
                let ghost mut vs: Seq<Vec<B>> = Seq::empty();
                let mut out: Vec<B> = Vec::new();
                for a in it: ma
                    invariant
                        it.seq() == src,
                        src == whole@,
                        s.runs_to(env, whole),
                        pieces.len() == it.index(),
                        ks.len() == it.index(),
                        vs.len() == it.index(),
                        out@ == pieces.flatten(),
                        forall|a: A, m: Vec<A>|
                            s.runs_to(env, m) && m@.contains(a) ==> Actio::pre(&fa, a) && forall|
                                k: ReaderT<E, Vec<B>>,
                            | Actio::post(&fa, a, k) ==> k.can_run(env),
                        forall|i: int|
                            0 <= i < it.index() ==> Actio::post(&fa, src[i], #[trigger] ks[i])
                                && ks[i].runs_to(env, vs[i]) && vs[i]@ == pieces[i],
                {
                    proof {
                        assert(src.contains(src[it.index() as int]));
                    }
                    let k = Actio::invoke(&fa, a);
                    let mut v = k.run(env);
                    proof {
                        pieces.lemma_flatten_push(v@);
                        pieces = pieces.push(v@);
                        ks = ks.push(k);
                        vs = vs.push(v);
                    }
                    out.append(&mut v);
                }
                proof {
                    assert forall|i: int| 0 <= i < whole@.len() implies gives(&fa.0, whole@[i], #[trigger] ks[i])
                        && ks[i].runs_to(env, vs[i]) && vs[i]@ == pieces[i] by {
                        assert(Actio::post(&fa, src[i], ks[i]));
                    }
                    lemma_bound_pieces(&fa.0, env, whole@, pieces, ks, vs);
                }
                assert(bound_pieces(&fa.0, env, whole@, pieces));
                out
            };
        ReaderT::new(h)
    }
}

/// Left identity over `Option`: when `m` only ever gives `a` in `env`,
/// every outcome of binding `m` to `f` there is an outcome of what `f`
/// makes of `a`.
pub proof fn law_reader_t_left_identity<E, A, B, F: Fn(A) -> ReaderT<E, Option<B>>>(
    m: ReaderT<E, Option<A>>,
    a: A,
    f: F,
    env: &E,
    ob: Option<B>,
)
    requires
        forall|o: Option<A>| #[trigger] m.runs_to(env, o) ==> o == Some(a),
    ensures
        reader_option_bound(m, f, env, ob) ==> exists|k: ReaderT<E, Option<B>>|
            f.ensures((a,), k) && k.runs_to(env, ob),
{
}

/// Right identity over `Option`: binding `m` to a function whose
/// computations only give back their argument has no outcome in `env`
/// that `m` does not have there.
pub proof fn law_reader_t_right_identity<E, A, K: Fn(A) -> ReaderT<E, Option<A>>>(
    m: ReaderT<E, Option<A>>,
    k: K,
    env: &E,
    oa: Option<A>,
)
    requires
        forall|a: A, c: ReaderT<E, Option<A>>, o: Option<A>|
            #[trigger] k.ensures((a,), c) && #[trigger] c.runs_to(env, o) ==> o == Some(a),
    ensures
        reader_option_bound(m, k, env, oa) ==> m.runs_to(env, oa),
{
}

} // verus!
