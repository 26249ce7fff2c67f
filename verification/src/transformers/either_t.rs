//! `EitherT`: error handling on top of a base monad. `EitherT<M>` wraps
//! `M<Result<A, E>>`, over three base monads: `Option`, `Result` and `Vec`.

use vstd::prelude::*;

use super::MonadTransformer;

verus! {

/// The `EitherT` transformer: a computation of type `M` whose results may be
/// errors.
#[derive(Debug, Clone, PartialEq, Eq)]
pub struct EitherT<M> {
    inner: M,
}

impl<M> View for EitherT<M> {
    type V = M;

    /// The wrapped computation.
    closed spec fn view(&self) -> M {
        self.inner
    }
}

impl<M> EitherT<M> {
    /// Wrap the computation `inner`.
    pub fn new(inner: M) -> (r: Self)
        ensures
            r@ == inner,
    {
        EitherT { inner }
    }

    /// Run the transformer: the wrapped computation.
    pub fn run(self) -> (r: M)
        ensures
            r == self@,
    {
        self.inner
    }

    /// A reference to the wrapped computation.
    pub fn inner_ref(&self) -> (r: &M)
        ensures
            *r == self@,
    {
        &self.inner
    }
}

// ---------------------------------------------------------------------------
// Over `Option`
// ---------------------------------------------------------------------------

/// The outcomes of binding the computation `m` over `Option` to `f`: a
/// success goes to `f`; errors and absence pass through.
pub open spec fn either_bound<A, B, E, F: FnOnce(A) -> EitherT<Option<Result<B, E>>>>(
    m: Option<Result<A, E>>,
    f: F,
    r: EitherT<Option<Result<B, E>>>,
) -> bool {
    match m {
        Some(Ok(a)) => f.ensures((a,), r),
        Some(Err(e)) => r@ == Some(Err::<B, E>(e)),
        None => r@ == None::<Result<B, E>>,
    }
}

impl<A, E> EitherT<Option<Result<A, E>>> {
    /// A success.
    pub fn right(value: A) -> (r: Self)
        ensures
            r@ == Some(Ok::<A, E>(value)),
    {
        EitherT::new(Some(Ok(value)))
    }

    /// An error.
    pub fn left(error: E) -> (r: Self)
        ensures
            r@ == Some(Err::<A, E>(error)),
    {
        EitherT::new(Some(Err(error)))
    }

    /// No computation result.
    pub fn absent() -> (r: Self)
        ensures
            r@ == None::<Result<A, E>>,
    {
        EitherT::new(None)
    }

    /// Lift an `Option`: a value becomes a success.
    pub fn lift_m(option: Option<A>) -> (r: Self)
        ensures
            match option {
                Some(a) => r@ == Some(Ok::<A, E>(a)),
                None => r@ == None::<Result<A, E>>,
            },
    {
        EitherT::new(
            match option {
                Some(a) => Some(Ok(a)),
                None => None,
            },
        )
    }

    /// Apply `f` to a success.
    pub fn map<B, F>(self, f: F) -> (r: EitherT<Option<Result<B, E>>>) where F: FnOnce(A) -> B
        requires
            self@ matches Some(Ok(a)) ==> f.requires((a,)),
        ensures
            match self@ {
                Some(Ok(a)) => r@ matches Some(Ok(b)) && f.ensures((a,), b),
                Some(Err(e)) => r@ == Some(Err::<B, E>(e)),
                None => r@ == None::<Result<B, E>>,
            },
    {
        EitherT::new(
            match self.inner {
                Some(Ok(a)) => Some(Ok(f(a))),
                Some(Err(e)) => Some(Err(e)),
                None => None,
            },
        )
    }

    /// Apply `f` to an error.
    pub fn map_left<E2, F>(self, f: F) -> (r: EitherT<Option<Result<A, E2>>>) where
        F: FnOnce(E) -> E2,
        requires
            self@ matches Some(Err(e)) ==> f.requires((e,)),
        ensures
            match self@ {
                Some(Ok(a)) => r@ == Some(Ok::<A, E2>(a)),
                Some(Err(e)) => r@ matches Some(Err(e2)) && f.ensures((e,), e2),
                None => r@ == None::<Result<A, E2>>,
            },
    {
        EitherT::new(
            match self.inner {
                Some(Ok(a)) => Some(Ok(a)),
                Some(Err(e)) => Some(Err(f(e))),
                None => None,
            },
        )
    }

    /// Chain a computation on a success (bind).
    pub fn flat_map<B, F>(self, f: F) -> (r: EitherT<Option<Result<B, E>>>) where
        F: FnOnce(A) -> EitherT<Option<Result<B, E>>>,
        requires
            self@ matches Some(Ok(a)) ==> f.requires((a,)),
        ensures
            either_bound(self@, f, r),
    {
        match self.inner {
            Some(Ok(a)) => f(a),
            Some(Err(e)) => EitherT::new(Some(Err(e))),
            None => EitherT::new(None),
        }
    }

    /// Apply a wrapped function to this value: two successes give the
    /// application; otherwise an error, then absence, wins, looking at this
    /// value first.
    pub fn apply<B, F>(self, f: EitherT<Option<Result<F, E>>>) -> (r: EitherT<Option<Result<B, E>>>) where
        F: FnOnce(A) -> B,
        requires
            match (self@, f@) {
                (Some(Ok(a)), Some(Ok(g))) => g.requires((a,)),
                _ => true,
            },
        ensures
            match (self@, f@) {
                (Some(Ok(a)), Some(Ok(g))) => r@ matches Some(Ok(b)) && g.ensures((a,), b),
                (Some(Err(e)), _) => r@ == Some(Err::<B, E>(e)),
                (_, Some(Err(e))) => r@ == Some(Err::<B, E>(e)),
                _ => r@ == None::<Result<B, E>>,
            },
    {
        EitherT::new(
            match (self.inner, f.inner) {
                (Some(Ok(a)), Some(Ok(func))) => Some(Ok(func(a))),
                (Some(Err(e)), _) => Some(Err(e)),
                (_, Some(Err(e))) => Some(Err(e)),
                _ => None,
            },
        )
    }

    /// Combine two successes with `f`; otherwise an error, then absence,
    /// wins, looking at this value first.
    pub fn map2<B, C, F>(self, other: EitherT<Option<Result<B, E>>>, f: F) -> (r: EitherT<
        Option<Result<C, E>>,
    >) where F: FnOnce(A, B) -> C
        requires
            match (self@, other@) {
                (Some(Ok(a)), Some(Ok(b))) => f.requires((a, b)),
                _ => true,
            },
        ensures
            match (self@, other@) {
                (Some(Ok(a)), Some(Ok(b))) => r@ matches Some(Ok(c)) && f.ensures((a, b), c),
                (Some(Err(e)), _) => r@ == Some(Err::<C, E>(e)),
                (_, Some(Err(e))) => r@ == Some(Err::<C, E>(e)),
                _ => r@ == None::<Result<C, E>>,
            },
    {
        EitherT::new(
            match (self.inner, other.inner) {
                (Some(Ok(a)), Some(Ok(b))) => Some(Ok(f(a, b))),
                (Some(Err(e)), _) => Some(Err(e)),
                (_, Some(Err(e))) => Some(Err(e)),
                _ => None,
            },
        )
    }

    /// Recover from an error with `f`; successes and absence pass through.
    pub fn handle_error<F>(self, f: F) -> (r: Self) where F: FnOnce(E) -> Self
        requires
            self@ matches Some(Err(e)) ==> f.requires((e,)),
        ensures
            match self@ {
                Some(Err(e)) => f.ensures((e,), r),
                _ => r == self,
            },
    {
        match self.inner {
            Some(Ok(a)) => EitherT::new(Some(Ok(a))),
            Some(Err(e)) => f(e),
            None => EitherT::new(None),
        }
    }

    /// Transform the error with `f` (the same as `map_left`).
    pub fn with_error<E2, F>(self, f: F) -> (r: EitherT<Option<Result<A, E2>>>) where
        F: FnOnce(E) -> E2,
        requires
            self@ matches Some(Err(e)) ==> f.requires((e,)),
        ensures
            match self@ {
                Some(Ok(a)) => r@ == Some(Ok::<A, E2>(a)),
                Some(Err(e)) => r@ matches Some(Err(e2)) && f.ensures((e,), e2),
                None => r@ == None::<Result<A, E2>>,
            },
    {
        self.map_left(f)
    }

    /// Whether the computation succeeded.
    pub fn is_right(&self) -> (r: bool)
        ensures
            r == (self@ matches Some(Ok(_))),
    {
        match &self.inner {
            Some(Ok(_)) => true,
            _ => false,
        }
    }

    /// Whether the computation failed.
    pub fn is_left(&self) -> (r: bool)
        ensures
            r == (self@ matches Some(Err(_))),
    {
        match &self.inner {
            Some(Err(_)) => true,
            _ => false,
        }
    }

    /// Whether there is no computation result.
    pub fn is_absent(&self) -> (r: bool)
        ensures
            r == (self@ is None),
    {
        match &self.inner {
            None => true,
            _ => false,
        }
    }
}

/// A computation over `Option` lifted into `EitherT`: a value becomes a
/// success, no value stays.
pub open spec fn option_lifted<A, E>(base: Option<A>) -> Option<Result<A, E>> {
    match base {
        Some(a) => Some(Ok(a)),
        None => None,
    }
}

impl<A, E> MonadTransformer for EitherT<Option<Result<A, E>>> {
    type BaseMonad = Option<A>;

    open spec fn elevatum(base: Option<A>, r: Self) -> bool {
        r@ == option_lifted::<A, E>(base)
    }

    /// Lift an `Option`: a value becomes a success.
    fn lift(base: Option<A>) -> (r: Self)
        ensures
            r@ == option_lifted::<A, E>(base),
    {
        EitherT::lift_m(base)
    }
}

/// Left identity: binding a success `a` to `f` has exactly the outcomes of
/// `f(a)`.
pub proof fn law_either_t_left_identity<A, B, E, F: FnOnce(A) -> EitherT<Option<Result<B, E>>>>(
    a: A,
    f: F,
    r: EitherT<Option<Result<B, E>>>,
)
    ensures
        either_bound(Some(Ok::<A, E>(a)), f, r) <==> f.ensures((a,), r),
{
}

/// Right identity: binding `m` to a function that only wraps its argument
/// as a success gives `m` back.
pub proof fn law_either_t_right_identity<A, E, K: FnOnce(A) -> EitherT<Option<Result<A, E>>>>(
    m: Option<Result<A, E>>,
    k: K,
    r: EitherT<Option<Result<A, E>>>,
)
    requires
        forall|a: A, o: EitherT<Option<Result<A, E>>>| #[trigger]
            k.ensures((a,), o) ==> o@ == Some(Ok::<A, E>(a)),
    ensures
        either_bound(m, k, r) ==> r@ == m,
{
}

/// Associativity: binding `m` to `f` and then to `g` has the same outcomes
/// as binding `m` to the Kleisli composite `kf` of `f` and `g`.
pub proof fn law_either_t_associativity<
    A,
    B,
    C,
    E,
    F: FnOnce(A) -> EitherT<Option<Result<B, E>>>,
    G: FnOnce(B) -> EitherT<Option<Result<C, E>>>,
    K: FnOnce(A) -> EitherT<Option<Result<C, E>>>,
>(m: Option<Result<A, E>>, f: F, g: G, kf: K, r: EitherT<Option<Result<C, E>>>)
    requires
        forall|a: A, c: EitherT<Option<Result<C, E>>>| #[trigger]
            kf.ensures((a,), c) <==> exists|q: EitherT<Option<Result<B, E>>>|
                f.ensures((a,), q) && either_bound(q@, g, c),
    ensures
        (exists|q: EitherT<Option<Result<B, E>>>| either_bound(m, f, q) && either_bound(q@, g, r))
            <==> either_bound(m, kf, r),
{
    match m {
        Some(Ok(a)) => {
            assert(kf.ensures((a,), r) <==> exists|q: EitherT<Option<Result<B, E>>>|
                f.ensures((a,), q) && either_bound(q@, g, r));
            if exists|q: EitherT<Option<Result<B, E>>>| f.ensures((a,), q) && either_bound(q@, g, r) {
                let q = choose|q: EitherT<Option<Result<B, E>>>| f.ensures((a,), q) && either_bound(q@, g, r);
                assert(either_bound(m, f, q) && either_bound(q@, g, r));
            }
            if exists|q: EitherT<Option<Result<B, E>>>| either_bound(m, f, q) && either_bound(q@, g, r) {
                let q = choose|q: EitherT<Option<Result<B, E>>>| either_bound(m, f, q) && either_bound(q@, g, r);
                assert(f.ensures((a,), q) && either_bound(q@, g, r));
            }
        },
        Some(Err(e)) => {
            let q = EitherT::<Option<Result<B, E>>> { inner: Some(Err(e)) };
            if r@ == Some(Err::<C, E>(e)) {
                assert(either_bound(m, f, q) && either_bound(q@, g, r));
            }
        },
        None => {
            let q = EitherT::<Option<Result<B, E>>> { inner: None };
            if r@ == None::<Result<C, E>> {
                assert(either_bound(m, f, q) && either_bound(q@, g, r));
            }
        },
    }
}

// ---------------------------------------------------------------------------
// Over `Result`
// ---------------------------------------------------------------------------

impl<A, E1, E2> EitherT<Result<Result<A, E1>, E2>> {
    /// A success.
    pub fn right_result(value: A) -> (r: Self)
        ensures
            r@ == Ok::<Result<A, E1>, E2>(Ok(value)),
    {
        EitherT::new(Ok(Ok(value)))
    }

    /// An inner error.
    pub fn left_result(error: E1) -> (r: Self)
        ensures
            r@ == Ok::<Result<A, E1>, E2>(Err(error)),
    {
        EitherT::new(Ok(Err(error)))
    }

    /// An outer error.
    pub fn outer_err(error: E2) -> (r: Self)
        ensures
            r@ == Err::<Result<A, E1>, E2>(error),
    {
        EitherT::new(Err(error))
    }

    /// Apply `f` to a success.
    pub fn map_result<B, F>(self, f: F) -> (r: EitherT<Result<Result<B, E1>, E2>>) where
        F: FnOnce(A) -> B,
        requires
            self@ matches Ok(Ok(a)) ==> f.requires((a,)),
        ensures
            match self@ {
                Ok(Ok(a)) => r@ matches Ok(Ok(b)) && f.ensures((a,), b),
                Ok(Err(e)) => r@ == Ok::<Result<B, E1>, E2>(Err(e)),
                Err(e) => r@ == Err::<Result<B, E1>, E2>(e),
            },
    {
        EitherT::new(
            match self.inner {
                Ok(Ok(a)) => Ok(Ok(f(a))),
                Ok(Err(e)) => Ok(Err(e)),
                Err(e) => Err(e),
            },
        )
    }

    /// Chain a computation on a success.
    pub fn flat_map_result<B, F>(self, f: F) -> (r: EitherT<Result<Result<B, E1>, E2>>) where
        F: FnOnce(A) -> EitherT<Result<Result<B, E1>, E2>>,
        requires
            self@ matches Ok(Ok(a)) ==> f.requires((a,)),
        ensures
            match self@ {
                Ok(Ok(a)) => f.ensures((a,), r),
                Ok(Err(e)) => r@ == Ok::<Result<B, E1>, E2>(Err(e)),
                Err(e) => r@ == Err::<Result<B, E1>, E2>(e),
            },
    {
        match self.inner {
            Ok(Ok(a)) => f(a),
            Ok(Err(e)) => EitherT::new(Ok(Err(e))),
            Err(e) => EitherT::new(Err(e)),
        }
    }
}

// ---------------------------------------------------------------------------
// Over `Vec`
// ---------------------------------------------------------------------------

/// The pieces a `Vec` computation is bound into: the result `outs[i]` of the
/// function for a success, the single error otherwise.
pub open spec fn either_vec_pieces<A, B, E>(
    m: Seq<Result<A, E>>,
    outs: Seq<EitherT<Vec<Result<B, E>>>>,
) -> Seq<Seq<Result<B, E>>> {
    Seq::new(
        m.len(),
        |i: int|
            match m[i] {
                Ok(_) => outs[i]@@,
                Err(e) => seq![Err::<B, E>(e)],
            },
    )
}

impl<A, E> EitherT<Vec<Result<A, E>>> {
    /// A single success over `Vec`.
    pub fn right_vec(value: A) -> (r: Self)
        ensures
            r@@ == seq![Ok::<A, E>(value)],
    {
        let v = vec![Ok(value)];
        EitherT::new(v)
    }

    /// A single error over `Vec`.
    pub fn left_vec(error: E) -> (r: Self)
        ensures
            r@@ == seq![Err::<A, E>(error)],
    {
        let v = vec![Err(error)];
        EitherT::new(v)
    }

    /// The computation with the given results.
    pub fn from_vec(values: Vec<Result<A, E>>) -> (r: Self)
        ensures
            r@ == values,
    {
        EitherT::new(values)
    }

    /// Apply `f` to every success, in order.
    pub fn map_vec<B, F>(self, f: F) -> (r: EitherT<Vec<Result<B, E>>>) where F: FnMut(A) -> B
        requires
            forall|i: int| #![trigger self@@[i]] 0 <= i < self@@.len() ==> (self@@[i] matches Ok(a) ==> f.requires((a,))),
        ensures
            r@@.len() == self@@.len(),
            forall|i: int|
                #![trigger self@@[i]]
                0 <= i < self@@.len() ==> match self@@[i] {
                    Ok(a) => r@@[i] matches Ok(b) && f.ensures((a,), b),
                    Err(e) => r@@[i] == Err::<B, E>(e),
                },
    {
        let ghost src = self.inner@;
        let mut out: Vec<Result<B, E>> = Vec::new();
        let mut g = f;
        for x in it: self.inner
            invariant
                it.seq() == src,
                out@.len() == it.index(),
                g == f,
                forall|i: int| #![trigger src[i]] 0 <= i < src.len() ==> (src[i] matches Ok(a) ==> f.requires((a,))),
                forall|i: int|
                    #![trigger src[i]]
                    0 <= i < it.index() ==> match src[i] {
                        Ok(a) => out@[i] matches Ok(b) && f.ensures((a,), b),
                        Err(e) => out@[i] == Err::<B, E>(e),
                    },
        {
            match x {
                Ok(a) => {
                    let b = g(a);
                    out.push(Ok(b));
                },
                Err(e) => {
                    out.push(Err(e));
                },
            }
        }
        EitherT::new(out)
    }

    /// Bind every success to `f`, in order, concatenating the results; an
    /// error stays a single error.
    pub fn flat_map_vec<B, F>(self, f: F) -> (r: EitherT<Vec<Result<B, E>>>) where
        F: FnMut(A) -> EitherT<Vec<Result<B, E>>>,
        requires
            forall|i: int| #![trigger self@@[i]] 0 <= i < self@@.len() ==> (self@@[i] matches Ok(a) ==> f.requires((a,))),
        ensures
            exists|outs: Seq<EitherT<Vec<Result<B, E>>>>|
                {
                    &&& outs.len() == self@@.len()
                    &&& forall|i: int|
                        0 <= i < self@@.len() ==> (self@@[i] matches Ok(a) ==> f.ensures(
                            (a,),
                            #[trigger] outs[i],
                        ))
                    &&& r@@ == either_vec_pieces(self@@, outs).flatten()
                },
    {
        let ghost src = self.inner@;
        let ghost mut outs: Seq<EitherT<Vec<Result<B, E>>>> = Seq::empty();
        assert forall|i: int| #![trigger src[i]] 0 <= i < src.len() implies (src[i] matches Ok(a) ==> f.requires((a,))) by {
            assert(self@@[i] == src[i]);
        }
        let mut out: Vec<Result<B, E>> = Vec::new();
        let mut g = f;
        for x in it: self.inner
            invariant
                it.seq() == src,
                outs.len() == it.index(),
                g == f,
                forall|i: int| #![trigger src[i]] 0 <= i < src.len() ==> (src[i] matches Ok(a) ==> f.requires((a,))),
                forall|i: int|
                    0 <= i < it.index() ==> (src[i] matches Ok(a) ==> f.ensures((a,), #[trigger] outs[i])),
                out@ == either_vec_pieces(src.take(it.index() as int), outs).flatten(),
        {
            let ghost k = it.index() as int;
            let ghost outs_old = outs;
            match x {
                Ok(a) => {
                    let piece = g(a);
                    proof {
                        outs = outs.push(piece);
                    }
                    let mut items = piece.run();
                    out.append(&mut items);
                },
                Err(e) => {
                    proof {
                        outs = outs.push(arbitrary());
                    }
                    out.push(Err(e));
                },
            }
            proof {
                let pieces_new = either_vec_pieces(src.take(k + 1), outs);
                let pieces_old = either_vec_pieces(src.take(k), outs_old);
                assert(pieces_new =~= pieces_old.push(pieces_new[k]));
                pieces_old.lemma_flatten_push(pieces_new[k]);
            }
        }
        proof {
            assert(src.take(src.len() as int) =~= src);
        }
        EitherT::new(out)
    }
}

/// Lifting preserves identity: a lifted value is the success that `right`
/// builds.
pub proof fn law_either_t_lift_pure<A, E>(x: A)
    ensures
        option_lifted::<A, E>(Some(x)) == Some(Ok::<A, E>(x)),
{
}

/// Lifting preserves binding: binding the lifted `m` to `g`, which lifts
/// what `f` gives, has the outcomes of lifting `m` chained with `f`.
pub proof fn law_either_t_lift_bind<
    A,
    B,
    E,
    F: FnOnce(A) -> Option<B>,
    G: FnOnce(A) -> EitherT<Option<Result<B, E>>>,
>(m: Option<A>, f: F, g: G, r: EitherT<Option<Result<B, E>>>)
    requires
        forall|a: A, o: EitherT<Option<Result<B, E>>>| #[trigger]
            g.ensures((a,), o) <==> exists|b: Option<B>|
                f.ensures((a,), b) && o@ == option_lifted::<B, E>(b),
    ensures
        either_bound(option_lifted::<A, E>(m), g, r) <==> match m {
            Some(a) => exists|b: Option<B>| f.ensures((a,), b) && r@ == option_lifted::<B, E>(b),
            None => r@ == None::<Result<B, E>>,
        },
{
}

} // verus!
