//! `Refinatus<T, P>`: a value that satisfies predicate `P`.

use core::marker::PhantomData;
use core::ops::Deref;
use vstd::prelude::*;
use vstd::std_specs::cmp::{PartialEqSpec, PartialEqSpecImpl, PartialOrdSpec, PartialOrdSpecImpl};

use super::predicate::Praedicatum;

verus! {

/// A value of type `T` that satisfies predicate `P`.
///
/// Every constructor runs the check and a value that fails is never
/// wrapped, so every refined value satisfies its predicate (the type
/// invariant `holds`).
#[derive(Debug)]
pub struct Refinatus<T, P: Praedicatum<T>> {
    value: T,
    _predicate: PhantomData<P>,
}

impl<T, P: Praedicatum<T>> Refinatus<T, P> {
    /// The wrapped value satisfies the predicate.
    #[verifier::type_invariant]
    spec fn holds(self) -> bool {
        P::tenet(&self.value)
    }
}

impl<T, P: Praedicatum<T>> View for Refinatus<T, P> {
    type V = T;

    /// The wrapped value.
    closed spec fn view(&self) -> T {
        self.value
    }
}

impl<T, P: Praedicatum<T>> Refinatus<T, P> {
    /// Wrap `value` exactly when its check `passed`.
    fn from_verdict(value: T, passed: bool) -> (r: Option<Self>)
        requires
            passed == P::tenet(&value),
        ensures
            passed ==> (r matches Some(x) && x@ == value),
            !passed ==> r is None,
    {
        if passed {
            Some(Refinatus { value, _predicate: PhantomData })
        } else {
            None
        }
    }

    /// Create a refined value if the predicate holds.
    pub fn new(value: T) -> (r: Option<Self>)
        ensures
            r is Some <==> P::tenet(&value),
            r matches Some(x) ==> x@ == value,
    {
        let passed = P::check(&value);
        Self::from_verdict(value, passed)
    }

    /// Create a refined value, or report which predicate failed.
    pub fn try_new(value: T) -> (r: Result<Self, RefinementError>)
        ensures
            r is Ok <==> P::tenet(&value),
            r matches Ok(x) ==> x@ == value,
            r matches Err(e) ==> call_ensures(P::name, (), e.predicate_name) && call_ensures(
                P::description,
                (),
                e.description,
            ),
    {
        let passed = P::check(&value);
        let predicate_name = P::name();
        let description = P::description();
        match Self::from_verdict(value, passed) {
            Some(x) => Ok(x),
            None => Err(RefinementError { predicate_name, description }),
        }
    }

    /// A reference to the refined value.
    pub fn value(&self) -> (r: &T)
        ensures
            *r == self@,
            P::tenet(r),
    {
        proof {
            use_type_invariant(self);
        }
        &self.value
    }

    /// Unwrap the refined value.
    pub fn into_inner(self) -> (r: T)
        ensures
            r == self@,
            P::tenet(&r),
    {
        proof {
            use_type_invariant(&self);
        }
        self.value
    }

    /// Map the value and re-check it against predicate `Q`.
    pub fn map<F, U, Q>(self, f: F) -> (r: Option<Refinatus<U, Q>>) where
        F: FnOnce(T) -> U,
        Q: Praedicatum<U>,

        requires
            f.requires((self@,)),
        ensures
            r matches Some(x) ==> f.ensures((self@,), x@) && Q::tenet(&x@),
            r is None ==> exists|u: U| f.ensures((self@,), u) && !Q::tenet(&u),
    {
        Refinatus::new(f(self.value))
    }

    /// Modify the value and re-check it against `P`.
    pub fn modify<F>(self, f: F) -> (r: Option<Self>) where F: FnOnce(T) -> T
        requires
            f.requires((self@,)),
        ensures
            r matches Some(x) ==> f.ensures((self@,), x@) && P::tenet(&x@),
            r is None ==> exists|u: T| f.ensures((self@,), u) && !P::tenet(&u),
    {
        Refinatus::new(f(self.value))
    }

    /// Replace the value, re-checking against `P`.
    pub fn replace(self, value: T) -> (r: Option<Self>)
        ensures
            r is Some <==> P::tenet(&value),
            r matches Some(x) ==> x@ == value,
    {
        Refinatus::new(value)
    }
}

impl<T: Clone, P: Praedicatum<T>> Refinatus<T, P> {
    /// Apply `f` to a clone of the value and re-check, leaving `self`
    /// untouched.
    pub fn with<F>(&self, f: F) -> (r: Option<Self>) where F: FnOnce(T) -> T
        requires
            forall|c: T| cloned(self@, c) ==> f.requires((c,)),
        ensures
            r matches Some(x) ==> exists|c: T| cloned(self@, c) && f.ensures((c,), x@) && P::tenet(&x@),
            r is None ==> exists|c: T, u: T| cloned(self@, c) && f.ensures((c,), u) && !P::tenet(&u),
    {
        let c = self.value.clone();
        assert(cloned(self@, c));
        let fc = f(c);
        assert(cloned(self@, c) && f.ensures((c,), fc));
        let r = Refinatus::new(fc);
        assert(r is None ==> cloned(self@, c) && f.ensures((c,), fc) && !P::tenet(&fc));
        r
    }
}

impl<T: Default, P: Praedicatum<T>> Refinatus<T, P> {
    /// The default value of `T`, if it satisfies the predicate: `Some` of it
    /// exactly when it does.
    pub fn try_default() -> (r: Option<Self>)
        ensures
            exists|d: T|
                call_ensures(T::default, (), d) && (r is Some <==> P::tenet(&d)) && (r matches Some(
                    x,
                ) ==> x@ == d),
            r matches Some(x) ==> P::tenet(&x@),
    {
        let d = T::default();
        let r = Refinatus::new(d);
        assert(call_ensures(T::default, (), d) && (r is Some <==> P::tenet(&d)));
        r
    }
}

impl<T, P: Praedicatum<T>> Deref for Refinatus<T, P> {
    type Target = T;

    /// Shared access to the refined value.
    fn deref(&self) -> (r: &T)
        ensures
            *r == self@,
            P::tenet(r),
    {
        proof {
            use_type_invariant(self);
        }
        &self.value
    }
}

impl<T: Copy, P: Praedicatum<T>> Clone for Refinatus<T, P> {
    /// A copy of a refined value: the same value, which satisfies the
    /// predicate.
    fn clone(&self) -> (r: Self)
        ensures
            r@ == self@,
            P::tenet(&r@),
    {
        proof {
            use_type_invariant(self);
        }
        Refinatus { value: self.value, _predicate: PhantomData }
    }
}

impl<T: Copy, P: Praedicatum<T>> Copy for Refinatus<T, P> {
}

impl<T: PartialEq, P: Praedicatum<T>> PartialEq for Refinatus<T, P> {
    /// Refined values are equal when their values are.
    fn eq(&self, other: &Self) -> (r: bool) {
        self.value == other.value
    }
}

impl<T: PartialEq, P: Praedicatum<T>> PartialEqSpecImpl for Refinatus<T, P> {
    open spec fn obeys_eq_spec() -> bool {
        T::obeys_eq_spec()
    }

    closed spec fn eq_spec(&self, other: &Self) -> bool {
        self.value.eq_spec(&other.value)
    }
}

impl<T: Eq, P: Praedicatum<T>> Eq for Refinatus<T, P> {
}

impl<T: PartialOrd, P: Praedicatum<T>> PartialOrd for Refinatus<T, P> {
    /// Refined values are ordered by their values.
    fn partial_cmp(&self, other: &Self) -> (r: Option<core::cmp::Ordering>) {
        self.value.partial_cmp(&other.value)
    }
}

impl<T: PartialOrd, P: Praedicatum<T>> PartialOrdSpecImpl for Refinatus<T, P> {
    open spec fn obeys_partial_cmp_spec() -> bool {
        T::obeys_partial_cmp_spec()
    }

    closed spec fn partial_cmp_spec(&self, other: &Self) -> Option<core::cmp::Ordering> {
        self.value.partial_cmp_spec(&other.value)
    }
}

/// English alias of `Refinatus`.
pub type Refined<T, P> = Refinatus<T, P>;

/// Why a refinement failed: the name and description of the predicate.
#[derive(Debug, Clone)]
pub struct RefinementError {
    /// The name of the failed predicate.
    pub predicate_name: &'static str,
    /// The description of the failed predicate.
    pub description: &'static str,
}

impl RefinementError {
    /// The displayed form: `Refinement predicate '<name>' failed: <description>`.
    pub fn to_string(&self) -> (r: String)
        ensures
            r@ == "Refinement predicate '"@ + self.predicate_name@ + "' failed: "@
                + self.description@,
    {
        let mut s = String::from_str("Refinement predicate '");
        s.append(self.predicate_name);
        s.append("' failed: ");
        s.append(self.description);
        s
    }
}

/// A builder that refines a value against a predicate chosen at the call.
pub struct AedificatorRefinati<T> {
    value: T,
}

impl<T> View for AedificatorRefinati<T> {
    type V = T;

    /// The value to refine.
    closed spec fn view(&self) -> T {
        self.value
    }
}

impl<T> AedificatorRefinati<T> {
    /// Start refining `value`.
    pub fn new(value: T) -> (r: Self)
        ensures
            r@ == value,
    {
        AedificatorRefinati { value }
    }

    /// Refine against predicate `P`.
    pub fn refine<P: Praedicatum<T>>(self) -> (r: Option<Refinatus<T, P>>)
        ensures
            r is Some <==> P::tenet(&self@),
            r matches Some(x) ==> x@ == self@,
    {
        Refinatus::new(self.value)
    }

    /// Refine against predicate `P`, reporting the failed predicate.
    pub fn try_refine<P: Praedicatum<T>>(self) -> (r: Result<Refinatus<T, P>, RefinementError>)
        ensures
            r is Ok <==> P::tenet(&self@),
            r matches Ok(x) ==> x@ == self@,
            r matches Err(e) ==> call_ensures(P::name, (), e.predicate_name) && call_ensures(
                P::description,
                (),
                e.description,
            ),
    {
        Refinatus::try_new(self.value)
    }

    /// Keep the value if the ad-hoc `predicate` holds for it.
    pub fn refine_with<F>(self, predicate: F) -> (r: Option<T>) where F: FnOnce(&T) -> bool
        requires
            predicate.requires((&self@,)),
        ensures
            r matches Some(x) ==> x == self@ && predicate.ensures((&self@,), true),
            r is None ==> predicate.ensures((&self@,), false),
    {
        if predicate(&self.value) {
            Some(self.value)
        } else {
            None
        }
    }
}

/// Start building a refined value.
pub fn refine<T>(value: T) -> (r: AedificatorRefinati<T>)
    ensures
        r@ == value,
{
    AedificatorRefinati::new(value)
}

} // verus!
