//! `OptionT`: optionality on top of a base monad. `OptionT<M>` wraps
//! `M<Option<A>>`; its operations handle the `Option` layer, over three
//! base monads: `Option`, `Result` and `Vec`.

use vstd::prelude::*;

use super::MonadTransformer;

verus! {

/// The `OptionT` transformer: a computation of type `M` whose results are
/// optional.
#[derive(Debug, Clone, PartialEq, Eq)]
pub struct OptionT<M> {
    inner: M,
}

impl<M> View for OptionT<M> {
    type V = M;

    /// The wrapped computation.
    closed spec fn view(&self) -> M {
        self.inner
    }
}

impl<M> OptionT<M> {
    /// Wrap the computation `inner`.
    pub fn new(inner: M) -> (r: Self)
        ensures
            r@ == inner,
    {
        OptionT { inner }
    }

    /// Run the transformer: the wrapped computation.
    pub fn run(self) -> (r: M)
        ensures
            r == self@,
    {
        self.inner
    }

    /// A reference to the wrapped computation.
    pub fn inner_ref(&self) -> (r: &M)
        ensures
            *r == self@,
    {
        &self.inner
    }

    /// Two transformers with the same computation are equal.
    pub proof fn lemma_view_determines(a: Self, b: Self)
        requires
            a@ == b@,
        ensures
            a == b,
    {
    }
}

// ---------------------------------------------------------------------------
// Over `Option`
// ---------------------------------------------------------------------------

/// The outcomes of binding the computation `m` over `Option` to `f`:
/// a present value goes to `f`; absence of a value or of a computation
/// passes through.
pub open spec fn option_bound<A, B, F: FnOnce(A) -> OptionT<Option<Option<B>>>>(
    m: Option<Option<A>>,
    f: F,
    r: OptionT<Option<Option<B>>>,
) -> bool {
    match m {
        Some(Some(a)) => f.ensures((a,), r),
        Some(None) => r@ == Some(None::<B>),
        None => r@ == None::<Option<B>>,
    }
}

impl<A> OptionT<Option<Option<A>>> {
    /// A present value over `Option`.
    pub fn some_option(value: A) -> (r: Self)
        ensures
            r@ == Some(Some(value)),
    {
        OptionT::new(Some(Some(value)))
    }

    /// No value over `Option`.
    pub fn none_option() -> (r: Self)
        ensures
            r@ == Some(None::<A>),
    {
        OptionT::new(Some(None))
    }

    /// Apply `f` to a present value.
    pub fn map<B, F>(self, f: F) -> (r: OptionT<Option<Option<B>>>) where F: FnOnce(A) -> B
        requires
            self@ matches Some(Some(a)) ==> f.requires((a,)),
        ensures
            match self@ {
                Some(Some(a)) => r@ matches Some(Some(b)) && f.ensures((a,), b),
                Some(None) => r@ == Some(None::<B>),
                None => r@ == None::<Option<B>>,
            },
    {
        OptionT::new(
            match self.inner {
                Some(Some(a)) => Some(Some(f(a))),
                Some(None) => Some(None),
                None => None,
            },
        )
    }

    /// Chain a computation on a present value.
    pub fn flat_map<B, F>(self, f: F) -> (r: OptionT<Option<Option<B>>>) where
        F: FnOnce(A) -> OptionT<Option<Option<B>>>,
        requires
            self@ matches Some(Some(a)) ==> f.requires((a,)),
        ensures
            option_bound(self@, f, r),
    {
        match self.inner {
            Some(Some(a)) => f(a),
            Some(None) => OptionT::new(Some(None)),
            None => OptionT::new(None),
        }
    }

    /// Apply a wrapped function to this value: both present gives the
    /// application; otherwise an absent value, then an absent computation,
    /// wins, looking at this value first.
    pub fn apply<B, F>(self, f: OptionT<Option<Option<F>>>) -> (r: OptionT<Option<Option<B>>>) where
        F: FnOnce(A) -> B,
        requires
            match (self@, f@) {
                (Some(Some(a)), Some(Some(g))) => g.requires((a,)),
                _ => true,
            },
        ensures
            match (self@, f@) {
                (Some(Some(a)), Some(Some(g))) => r@ matches Some(Some(b)) && g.ensures((a,), b),
                (Some(None), _) => r@ == Some(None::<B>),
                (_, Some(None)) => r@ == Some(None::<B>),
                _ => r@ == None::<Option<B>>,
            },
    {
        OptionT::new(
            match (self.inner, f.inner) {
                (Some(Some(a)), Some(Some(func))) => Some(Some(func(a))),
                (Some(None), _) => Some(None),
                (_, Some(None)) => Some(None),
                _ => None,
            },
        )
    }
}

impl<A> MonadTransformer for OptionT<Option<Option<A>>> {
    type BaseMonad = Option<A>;

    open spec fn elevatum(base: Option<A>, r: Self) -> bool {
        r@ == Some(base)
    }

    /// Wrap the base computation's result as an optional value.
    fn lift(base: Option<A>) -> (r: Self)
        ensures
            r@ == Some(base),
    {
        OptionT::new(Some(base))
    }
}

// ---------------------------------------------------------------------------
// Over `Result`
// ---------------------------------------------------------------------------

/// The outcomes of binding the computation `m` over `Result` to `f`: a
/// present value goes to `f`; absence and errors pass through.
pub open spec fn result_bound<A, B, E, F: FnOnce(A) -> OptionT<Result<Option<B>, E>>>(
    m: Result<Option<A>, E>,
    f: F,
    r: OptionT<Result<Option<B>, E>>,
) -> bool {
    match m {
        Ok(Some(a)) => f.ensures((a,), r),
        Ok(None) => r@ == Ok::<Option<B>, E>(None),
        Err(e) => r@ == Err::<Option<B>, E>(e),
    }
}

impl<A, E> OptionT<Result<Option<A>, E>> {
    /// A present value over `Result`.
    pub fn some(value: A) -> (r: Self)
        ensures
            r@ == Ok::<Option<A>, E>(Some(value)),
    {
        OptionT::new(Ok(Some(value)))
    }

    /// No value over `Result`.
    pub fn none() -> (r: Self)
        ensures
            r@ == Ok::<Option<A>, E>(None),
    {
        OptionT::new(Ok(None))
    }

    /// An error.
    pub fn err(e: E) -> (r: Self)
        ensures
            r@ == Err::<Option<A>, E>(e),
    {
        OptionT::new(Err(e))
    }

    /// Lift a `Result`: success becomes a present value.
    pub fn lift_m(result: Result<A, E>) -> (r: Self)
        ensures
            match result {
                Ok(a) => r@ == Ok::<Option<A>, E>(Some(a)),
                Err(e) => r@ == Err::<Option<A>, E>(e),
            },
    {
        OptionT::new(
            match result {
                Ok(a) => Ok(Some(a)),
                Err(e) => Err(e),
            },
        )
    }

    /// Apply `f` to a present value; absence and errors pass through.
    pub fn map<B, F>(self, f: F) -> (r: OptionT<Result<Option<B>, E>>) where F: FnOnce(A) -> B
        requires
            self@ matches Ok(Some(a)) ==> f.requires((a,)),
        ensures
            match self@ {
                Ok(Some(a)) => r@ matches Ok(Some(b)) && f.ensures((a,), b),
                Ok(None) => r@ == Ok::<Option<B>, E>(None),
                Err(e) => r@ == Err::<Option<B>, E>(e),
            },
    {
        OptionT::new(
            match self.inner {
                Ok(Some(a)) => Ok(Some(f(a))),
                Ok(None) => Ok(None),
                Err(e) => Err(e),
            },
        )
    }

    /// Apply `f` to an error.
    pub fn map_err<E2, F>(self, f: F) -> (r: OptionT<Result<Option<A>, E2>>) where
        F: FnOnce(E) -> E2,
        requires
            self@ matches Err(e) ==> f.requires((e,)),
        ensures
            match self@ {
                Ok(o) => r@ == Ok::<Option<A>, E2>(o),
                Err(e) => r@ matches Err(e2) && f.ensures((e,), e2),
            },
    {
        OptionT::new(
            match self.inner {
                Ok(o) => Ok(o),
                Err(e) => Err(f(e)),
            },
        )
    }

    /// Chain a computation on a present value (bind).
    pub fn flat_map<B, F>(self, f: F) -> (r: OptionT<Result<Option<B>, E>>) where
        F: FnOnce(A) -> OptionT<Result<Option<B>, E>>,
        requires
            self@ matches Ok(Some(a)) ==> f.requires((a,)),
        ensures
            result_bound(self@, f, r),
    {
        match self.inner {
            Ok(Some(a)) => f(a),
            Ok(None) => OptionT::new(Ok(None)),
            Err(e) => OptionT::new(Err(e)),
        }
    }

    /// Apply a wrapped function to this value: both present gives the
    /// application; otherwise absence, then an error, wins, looking at this
    /// value first.
    pub fn apply<B, F>(self, f: OptionT<Result<Option<F>, E>>) -> (r: OptionT<Result<Option<B>, E>>) where
        F: FnOnce(A) -> B,
        requires
            match (self@, f@) {
                (Ok(Some(a)), Ok(Some(g))) => g.requires((a,)),
                _ => true,
            },
        ensures
            match (self@, f@) {
                (Ok(Some(a)), Ok(Some(g))) => r@ matches Ok(Some(b)) && g.ensures((a,), b),
                (Ok(None), _) => r@ == Ok::<Option<B>, E>(None),
                (_, Ok(None)) => r@ == Ok::<Option<B>, E>(None),
                (Err(e), _) => r@ == Err::<Option<B>, E>(e),
                (_, Err(e)) => r@ == Err::<Option<B>, E>(e),
            },
    {
        OptionT::new(
            match (self.inner, f.inner) {
                (Ok(Some(a)), Ok(Some(func))) => Ok(Some(func(a))),
                (Ok(None), _) => Ok(None),
                (_, Ok(None)) => Ok(None),
                (Err(e), _) => Err(e),
                (_, Err(e)) => Err(e),
            },
        )
    }

    /// Combine two present values with `f`; otherwise absence, then an
    /// error, wins, looking at this value first.
    pub fn map2<B, C, F>(self, other: OptionT<Result<Option<B>, E>>, f: F) -> (r: OptionT<
        Result<Option<C>, E>,
    >) where F: FnOnce(A, B) -> C
        requires
            match (self@, other@) {
                (Ok(Some(a)), Ok(Some(b))) => f.requires((a, b)),
                _ => true,
            },
        ensures
            match (self@, other@) {
                (Ok(Some(a)), Ok(Some(b))) => r@ matches Ok(Some(c)) && f.ensures((a, b), c),
                (Ok(None), _) => r@ == Ok::<Option<C>, E>(None),
                (_, Ok(None)) => r@ == Ok::<Option<C>, E>(None),
                (Err(e), _) => r@ == Err::<Option<C>, E>(e),
                (_, Err(e)) => r@ == Err::<Option<C>, E>(e),
            },
    {
        OptionT::new(
            match (self.inner, other.inner) {
                (Ok(Some(a)), Ok(Some(b))) => Ok(Some(f(a, b))),
                (Ok(None), _) => Ok(None),
                (_, Ok(None)) => Ok(None),
                (Err(e), _) => Err(e),
                (_, Err(e)) => Err(e),
            },
        )
    }

    /// This computation if it has a value or an error; the alternative
    /// `f()` if it has no value.
    pub fn or_else<F>(self, f: F) -> (r: Self) where F: FnOnce() -> Self
        requires
            self@ matches Ok(None) ==> f.requires(()),
        ensures
            match self@ {
                Ok(None) => f.ensures((), r),
                _ => r == self,
            },
    {
        match self.inner {
            Ok(Some(a)) => OptionT::new(Ok(Some(a))),
            Ok(None) => f(),
            Err(e) => OptionT::new(Err(e)),
        }
    }

    /// The value, or `default()` when absent; errors pass through.
    pub fn get_or_else<F>(self, default: F) -> (r: Result<A, E>) where F: FnOnce() -> A
        requires
            self@ matches Ok(None) ==> default.requires(()),
        ensures
            match self@ {
                Ok(Some(a)) => r == Ok::<A, E>(a),
                Ok(None) => r matches Ok(d) && default.ensures((), d),
                Err(e) => r == Err::<A, E>(e),
            },
    {
        match self.inner {
            Ok(Some(a)) => Ok(a),
            Ok(None) => Ok(default()),
            Err(e) => Err(e),
        }
    }

    /// The wrapped `Result`.
    pub fn to_result(self) -> (r: Result<Option<A>, E>)
        ensures
            r == self@,
    {
        self.inner
    }

    /// Whether the computation has a value.
    pub fn is_some(&self) -> (r: bool)
        ensures
            r == (self@ matches Ok(Some(_))),
    {
        match &self.inner {
            Ok(Some(_)) => true,
            _ => false,
        }
    }

    /// Whether the computation has no value.
    pub fn is_none(&self) -> (r: bool)
        ensures
            r == (self@ matches Ok(None)),
    {
        match &self.inner {
            Ok(None) => true,
            _ => false,
        }
    }

    /// Whether the computation failed.
    pub fn is_err(&self) -> (r: bool)
        ensures
            r == (self@ is Err),
    {
        match &self.inner {
            Err(_) => true,
            _ => false,
        }
    }
}

/// A computation over `Result` lifted into `OptionT`: success becomes a
/// present value, an error stays.
pub open spec fn result_lifted<A, E>(base: Result<A, E>) -> Result<Option<A>, E> {
    match base {
        Ok(a) => Ok(Some(a)),
        Err(e) => Err(e),
    }
}

impl<A, E> MonadTransformer for OptionT<Result<Option<A>, E>> {
    type BaseMonad = Result<A, E>;

    open spec fn elevatum(base: Result<A, E>, r: Self) -> bool {
        r@ == result_lifted(base)
    }

    /// Lift a `Result`: success becomes a present value.
    fn lift(base: Result<A, E>) -> (r: Self)
        ensures
            r@ == result_lifted(base),
    {
        OptionT::lift_m(base)
    }
}

/// Left identity: binding a present value `a` to `f` has exactly the
/// outcomes of `f(a)`.
pub proof fn law_option_t_left_identity<A, B, E, F: FnOnce(A) -> OptionT<Result<Option<B>, E>>>(
    a: A,
    f: F,
    r: OptionT<Result<Option<B>, E>>,
)
    ensures
        result_bound(Ok::<Option<A>, E>(Some(a)), f, r) <==> f.ensures((a,), r),
{
}

/// Right identity: binding `m` to a function that only wraps its argument
/// as a present value gives `m` back.
pub proof fn law_option_t_right_identity<A, E, K: FnOnce(A) -> OptionT<Result<Option<A>, E>>>(
    m: Result<Option<A>, E>,
    k: K,
    r: OptionT<Result<Option<A>, E>>,
)
    requires
        forall|a: A, o: OptionT<Result<Option<A>, E>>| #[trigger]
            k.ensures((a,), o) ==> o@ == Ok::<Option<A>, E>(Some(a)),
    ensures
        result_bound(m, k, r) ==> r@ == m,
{
}

/// Associativity: binding `m` to `f` and then to `g` has the same outcomes
/// as binding `m` to the Kleisli composite `kf` of `f` and `g`.
pub proof fn law_option_t_associativity<
    A,
    B,
    C,
    E,
    F: FnOnce(A) -> OptionT<Result<Option<B>, E>>,
    G: FnOnce(B) -> OptionT<Result<Option<C>, E>>,
    K: FnOnce(A) -> OptionT<Result<Option<C>, E>>,
>(m: Result<Option<A>, E>, f: F, g: G, kf: K, r: OptionT<Result<Option<C>, E>>)
    requires
        forall|a: A, c: OptionT<Result<Option<C>, E>>| #[trigger]
            kf.ensures((a,), c) <==> exists|q: OptionT<Result<Option<B>, E>>|
                f.ensures((a,), q) && result_bound(q@, g, c),
    ensures
        (exists|q: OptionT<Result<Option<B>, E>>| result_bound(m, f, q) && result_bound(q@, g, r))
            <==> result_bound(m, kf, r),
{
    match m {
        Ok(Some(a)) => {
            assert(kf.ensures((a,), r) <==> exists|q: OptionT<Result<Option<B>, E>>|
                f.ensures((a,), q) && result_bound(q@, g, r));
            if exists|q: OptionT<Result<Option<B>, E>>| f.ensures((a,), q) && result_bound(q@, g, r) {
                let q = choose|q: OptionT<Result<Option<B>, E>>| f.ensures((a,), q) && result_bound(q@, g, r);
                assert(result_bound(m, f, q) && result_bound(q@, g, r));
            }
            if exists|q: OptionT<Result<Option<B>, E>>| result_bound(m, f, q) && result_bound(q@, g, r) {
                let q = choose|q: OptionT<Result<Option<B>, E>>| result_bound(m, f, q) && result_bound(q@, g, r);
                assert(f.ensures((a,), q) && result_bound(q@, g, r));
            }
        },
        Ok(None) => {
            let q = OptionT::<Result<Option<B>, E>> { inner: Ok(None) };
            if r@ == Ok::<Option<C>, E>(None) {
                assert(result_bound(m, f, q) && result_bound(q@, g, r));
            }
        },
        Err(e) => {
            let q = OptionT::<Result<Option<B>, E>> { inner: Err(e) };
            if r@ == Err::<Option<C>, E>(e) {
                assert(result_bound(m, f, q) && result_bound(q@, g, r));
            }
        },
    }
}

// ---------------------------------------------------------------------------
// Over `Vec`
// ---------------------------------------------------------------------------

/// The pieces a `Vec` computation is bound into: the result `outs[i]` of the
/// function for a present value, a single absent value otherwise.
pub open spec fn vec_pieces<A, B>(m: Seq<Option<A>>, outs: Seq<OptionT<Vec<Option<B>>>>) -> Seq<Seq<Option<B>>> {
    Seq::new(m.len(), |i: int| if m[i] is Some { outs[i]@@ } else { seq![None::<B>] })
}

impl<A> OptionT<Vec<Option<A>>> {
    /// A single present value over `Vec`.
    pub fn some_vec(value: A) -> (r: Self)
        ensures
            r@@ == seq![Some(value)],
    {
        let v = vec![Some(value)];
        OptionT::new(v)
    }

    /// A single absent value over `Vec`.
    pub fn none_vec() -> (r: Self)
        ensures
            r@@ == seq![None::<A>],
    {
        let v = vec![None];
        OptionT::new(v)
    }

    /// The computation with the given optional values.
    pub fn from_vec(values: Vec<Option<A>>) -> (r: Self)
        ensures
            r@ == values,
    {
        OptionT::new(values)
    }

    /// Apply `f` to every present value, in order.
    pub fn map<B, F>(self, f: F) -> (r: OptionT<Vec<Option<B>>>) where F: FnMut(A) -> B
        requires
            forall|i: int| #![trigger self@@[i]] 0 <= i < self@@.len() ==> (self@@[i] matches Some(a) ==> f.requires((a,))),
        ensures
            r@@.len() == self@@.len(),
            forall|i: int|
                #![trigger self@@[i]]
                0 <= i < self@@.len() ==> match self@@[i] {
                    Some(a) => r@@[i] matches Some(b) && f.ensures((a,), b),
                    None => r@@[i] is None,
                },
    {
        let ghost src = self.inner@;
        let mut out: Vec<Option<B>> = Vec::new();
        let mut g = f;
        for o in it: self.inner
            invariant
                it.seq() == src,
                out@.len() == it.index(),
                g == f,
                forall|i: int| #![trigger src[i]] 0 <= i < src.len() ==> (src[i] matches Some(a) ==> f.requires((a,))),
                forall|i: int|
                    #![trigger src[i]]
                    0 <= i < it.index() ==> match src[i] {
                        Some(a) => out@[i] matches Some(b) && f.ensures((a,), b),
                        None => out@[i] is None,
                    },
        {
            match o {
                Some(a) => {
                    let b = g(a);
                    out.push(Some(b));
                },
                None => {
                    out.push(None);
                },
            }
        }
        OptionT::new(out)
    }

    /// Bind every present value to `f`, in order, concatenating the
    /// results; an absent value stays a single absent value.
    pub fn flat_map<B, F>(self, f: F) -> (r: OptionT<Vec<Option<B>>>) where
        F: FnMut(A) -> OptionT<Vec<Option<B>>>,
        requires
            forall|i: int| #![trigger self@@[i]] 0 <= i < self@@.len() ==> (self@@[i] matches Some(a) ==> f.requires((a,))),
        ensures
            exists|outs: Seq<OptionT<Vec<Option<B>>>>|
                {
                    &&& outs.len() == self@@.len()
                    &&& forall|i: int|
                        0 <= i < self@@.len() ==> (self@@[i] matches Some(a) ==> f.ensures(
                            (a,),
                            #[trigger] outs[i],
                        ))
                    &&& r@@ == vec_pieces(self@@, outs).flatten()
                },
    {
        let ghost src = self.inner@;
        let ghost mut outs: Seq<OptionT<Vec<Option<B>>>> = Seq::empty();
        assert forall|i: int| #![trigger src[i]] 0 <= i < src.len() implies (src[i] matches Some(a) ==> f.requires((a,))) by {
            assert(self@@[i] == src[i]);
        }
        let mut out: Vec<Option<B>> = Vec::new();
        let mut g = f;
        for o in it: self.inner
            invariant
                it.seq() == src,
                outs.len() == it.index(),
                g == f,
                forall|i: int| #![trigger src[i]] 0 <= i < src.len() ==> (src[i] matches Some(a) ==> f.requires((a,))),
                forall|i: int|
                    0 <= i < it.index() ==> (src[i] matches Some(a) ==> f.ensures((a,), #[trigger] outs[i])),
                out@ == vec_pieces(src.take(it.index() as int), outs).flatten(),
        {
            let ghost k = it.index() as int;
            let ghost outs_old = outs;
            match o {
                Some(a) => {
                    let piece = g(a);
                    proof {
                        outs = outs.push(piece);
                    }
                    let mut items = piece.run();
                    out.append(&mut items);
                },
                None => {
                    proof {
                        outs = outs.push(arbitrary());
                    }
                    out.push(None);
                },
            }
            proof {
                let pieces_new = vec_pieces(src.take(k + 1), outs);
                let pieces_old = vec_pieces(src.take(k), outs_old);
                assert(pieces_new =~= pieces_old.push(pieces_new[k]));
                pieces_old.lemma_flatten_push(pieces_new[k]);
            }
        }
        proof {
            assert(src.take(src.len() as int) =~= src);
        }
        OptionT::new(out)
    }
}

impl<A> MonadTransformer for OptionT<Vec<Option<A>>> {
    type BaseMonad = Vec<A>;

    open spec fn elevatum(base: Vec<A>, r: Self) -> bool {
        &&& r@@.len() == base@.len()
        &&& forall|i: int| 0 <= i < base@.len() ==> #[trigger] r@@[i] == Some(base@[i])
    }

    /// Every value of the base computation, present.
    fn lift(base: Vec<A>) -> (r: Self)
        ensures
            r@@.len() == base@.len(),
            forall|i: int| 0 <= i < base@.len() ==> #[trigger] r@@[i] == Some(base@[i]),
    {
        let ghost src = base@;
        let mut out: Vec<Option<A>> = Vec::new();
        for a in it: base
            invariant
                it.seq() == src,
                out@.len() == it.index(),
                forall|i: int| 0 <= i < it.index() ==> #[trigger] out@[i] == Some(src[i]),
        {
            out.push(Some(a));
        }
        OptionT::new(out)
    }
}

/// Lifting preserves identity: a lifted success is the present value that
/// `some` builds.
pub proof fn law_option_t_lift_pure<A, E>(x: A)
    ensures
        result_lifted(Ok::<A, E>(x)) == Ok::<Option<A>, E>(Some(x)),
{
}

/// Lifting preserves binding: binding the lifted `m` to `g`, which lifts
/// what `f` gives, has the outcomes of lifting `m` chained with `f`.
pub proof fn law_option_t_lift_bind<
    A,
    B,
    E,
    F: FnOnce(A) -> Result<B, E>,
    G: FnOnce(A) -> OptionT<Result<Option<B>, E>>,
>(m: Result<A, E>, f: F, g: G, r: OptionT<Result<Option<B>, E>>)
    requires
        forall|a: A, o: OptionT<Result<Option<B>, E>>| #[trigger]
            g.ensures((a,), o) <==> exists|b: Result<B, E>| f.ensures((a,), b) && o@ == result_lifted(b),
    ensures
        result_bound(result_lifted(m), g, r) <==> match m {
            Ok(a) => exists|b: Result<B, E>| f.ensures((a,), b) && r@ == result_lifted(b),
            Err(e) => r@ == Err::<Option<B>, E>(e),
        },
{
}

/// Lifting over `Option` preserves identity and binding: a lifted value is
/// what `some_option` builds, and binding the lifted `m` to `g`, which
/// lifts what `f` gives, has the outcomes of lifting `m` chained with `f`.
pub proof fn law_option_t_lift_option<
    A,
    B,
    F: FnOnce(A) -> Option<B>,
    G: FnOnce(A) -> OptionT<Option<Option<B>>>,
>(
    x: A,
    lifted: OptionT<Option<Option<A>>>,
    m: Option<A>,
    f: F,
    g: G,
    r: OptionT<Option<Option<B>>>,
)
    requires
        forall|a: A, o: OptionT<Option<Option<B>>>| #[trigger]
            g.ensures((a,), o) <==> exists|b: Option<B>| f.ensures((a,), b) && o@ == Some(b),
    ensures
        <OptionT<Option<Option<A>>> as MonadTransformer>::elevatum(Some(x), lifted) <==> lifted@
            == Some(Some(x)),
        option_bound(Some(m), g, r) <==> match m {
            Some(a) => exists|b: Option<B>| f.ensures((a,), b) && r@ == Some(b),
            None => r@ == Some(None::<B>),
        },
{
}

} // verus!
