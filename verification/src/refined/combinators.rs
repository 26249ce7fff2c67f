//! Predicate combinators: negation, conjunction, disjunction, exclusive or,
//! implication, equivalence, and three-way conjunction and disjunction.

use core::marker::PhantomData;
use vstd::prelude::*;

use super::predicate::Praedicatum;

verus! {

/// Negation: holds when `P` fails.
pub struct Non<P> {
    _predicate: PhantomData<P>,
}

impl<T, P: Praedicatum<T>> Praedicatum<T> for Non<P> {
    open spec fn tenet(value: &T) -> bool {
        !P::tenet(value)
    }

    fn check(value: &T) -> (r: bool) {
        let p = P::check(value);
        !p
    }

    fn description() -> (r: &'static str)
        ensures
            r@ == "NOT condition"@,
    {
        "NOT condition"
    }

    fn name() -> (r: &'static str)
        ensures
            r@ == "Non"@,
    {
        "Non"
    }
}

/// English alias of `Non`.
pub type Not<P> = Non<P>;

/// Conjunction: holds when both `P1` and `P2` hold.
pub struct Et<P1, P2> {
    _predicates: PhantomData<(P1, P2)>,
}

impl<T, P1: Praedicatum<T>, P2: Praedicatum<T>> Praedicatum<T> for Et<P1, P2> {
    open spec fn tenet(value: &T) -> bool {
        P1::tenet(value) && P2::tenet(value)
    }

    fn check(value: &T) -> (r: bool) {
        P1::check(value) && P2::check(value)
    }

    fn description() -> (r: &'static str)
        ensures
            r@ == "both conditions must be true"@,
    {
        "both conditions must be true"
    }

    fn name() -> (r: &'static str)
        ensures
            r@ == "Et"@,
    {
        "Et"
    }
}

/// English alias of `Et`.
pub type And<P1, P2> = Et<P1, P2>;

/// Disjunction: holds when `P1` or `P2` holds.
pub struct Vel<P1, P2> {
    _predicates: PhantomData<(P1, P2)>,
}

impl<T, P1: Praedicatum<T>, P2: Praedicatum<T>> Praedicatum<T> for Vel<P1, P2> {
    open spec fn tenet(value: &T) -> bool {
        P1::tenet(value) || P2::tenet(value)
    }

    fn check(value: &T) -> (r: bool) {
        P1::check(value) || P2::check(value)
    }

    fn description() -> (r: &'static str)
        ensures
            r@ == "at least one condition must be true"@,
    {
        "at least one condition must be true"
    }

    fn name() -> (r: &'static str)
        ensures
            r@ == "Vel"@,
    {
        "Vel"
    }
}

/// English alias of `Vel`.
pub type Or<P1, P2> = Vel<P1, P2>;

/// Exclusive or: holds when exactly one of `P1` and `P2` holds.
pub struct Aut<P1, P2> {
    _predicates: PhantomData<(P1, P2)>,
}

impl<T, P1: Praedicatum<T>, P2: Praedicatum<T>> Praedicatum<T> for Aut<P1, P2> {
    open spec fn tenet(value: &T) -> bool {
        P1::tenet(value) != P2::tenet(value)
    }

    fn check(value: &T) -> (r: bool) {
        let a = P1::check(value);
        let b = P2::check(value);
        a != b
    }

    fn description() -> (r: &'static str)
        ensures
            r@ == "exactly one condition must be true"@,
    {
        "exactly one condition must be true"
    }

    fn name() -> (r: &'static str)
        ensures
            r@ == "Aut"@,
    {
        "Aut"
    }
}

/// English alias of `Aut`.
pub type Xor<P1, P2> = Aut<P1, P2>;

/// Implication: holds when `P1` fails or `P2` holds.
pub struct Implicatio<P1, P2> {
    _predicates: PhantomData<(P1, P2)>,
}

impl<T, P1: Praedicatum<T>, P2: Praedicatum<T>> Praedicatum<T> for Implicatio<P1, P2> {
    open spec fn tenet(value: &T) -> bool {
        P1::tenet(value) ==> P2::tenet(value)
    }

    fn check(value: &T) -> (r: bool) {
        !P1::check(value) || P2::check(value)
    }

    fn description() -> (r: &'static str)
        ensures
            r@ == "if first condition then second condition"@,
    {
        "if first condition then second condition"
    }

    fn name() -> (r: &'static str)
        ensures
            r@ == "Implicatio"@,
    {
        "Implicatio"
    }
}

/// English alias of `Implicatio`.
pub type Implies<P1, P2> = Implicatio<P1, P2>;

/// Equivalence: holds when `P1` and `P2` have the same truth value.
pub struct Aequivalentia<P1, P2> {
    _predicates: PhantomData<(P1, P2)>,
}

impl<T, P1: Praedicatum<T>, P2: Praedicatum<T>> Praedicatum<T> for Aequivalentia<P1, P2> {
    open spec fn tenet(value: &T) -> bool {
        P1::tenet(value) == P2::tenet(value)
    }

    fn check(value: &T) -> (r: bool) {
        let a = P1::check(value);
        let b = P2::check(value);
        a == b
    }

    fn description() -> (r: &'static str)
        ensures
            r@ == "conditions must have same truth value"@,
    {
        "conditions must have same truth value"
    }

    fn name() -> (r: &'static str)
        ensures
            r@ == "Aequivalentia"@,
    {
        "Aequivalentia"
    }
}

/// English alias of `Aequivalentia`.
pub type Iff<P1, P2> = Aequivalentia<P1, P2>;

/// Three-way conjunction: holds when all of `P1`, `P2`, `P3` hold.
pub struct Omnes<P1, P2, P3> {
    _predicates: PhantomData<(P1, P2, P3)>,
}

impl<T, P1, P2, P3> Praedicatum<T> for Omnes<P1, P2, P3> where
    P1: Praedicatum<T>,
    P2: Praedicatum<T>,
    P3: Praedicatum<T>,
 {
    open spec fn tenet(value: &T) -> bool {
        P1::tenet(value) && P2::tenet(value) && P3::tenet(value)
    }

    fn check(value: &T) -> (r: bool) {
        P1::check(value) && P2::check(value) && P3::check(value)
    }

    fn description() -> (r: &'static str)
        ensures
            r@ == "all conditions must be true"@,
    {
        "all conditions must be true"
    }

    fn name() -> (r: &'static str)
        ensures
            r@ == "Omnes"@,
    {
        "Omnes"
    }
}

/// English alias of `Omnes`.
pub type All<P1, P2, P3> = Omnes<P1, P2, P3>;

/// Three-way disjunction: holds when any of `P1`, `P2`, `P3` holds.
pub struct Aliquis<P1, P2, P3> {
    _predicates: PhantomData<(P1, P2, P3)>,
}

impl<T, P1, P2, P3> Praedicatum<T> for Aliquis<P1, P2, P3> where
    P1: Praedicatum<T>,
    P2: Praedicatum<T>,
    P3: Praedicatum<T>,
 {
    open spec fn tenet(value: &T) -> bool {
        P1::tenet(value) || P2::tenet(value) || P3::tenet(value)
    }

    fn check(value: &T) -> (r: bool) {
        P1::check(value) || P2::check(value) || P3::check(value)
    }

    fn description() -> (r: &'static str)
        ensures
            r@ == "at least one condition must be true"@,
    {
        "at least one condition must be true"
    }

    fn name() -> (r: &'static str)
        ensures
            r@ == "Aliquis"@,
    {
        "Aliquis"
    }
}

/// English alias of `Aliquis`.
pub type Any<P1, P2, P3> = Aliquis<P1, P2, P3>;

/// Double negation: negating a predicate twice gives it back.
pub proof fn law_double_negation<T, P: Praedicatum<T>>(value: &T)
    ensures
        <Non<Non<P>> as Praedicatum<T>>::tenet(value) == P::tenet(value),
{
}

/// De Morgan: the negation of a conjunction is the disjunction of the
/// negations, and the negation of a disjunction the conjunction of the
/// negations.
pub proof fn law_de_morgan<T, P1: Praedicatum<T>, P2: Praedicatum<T>>(value: &T)
    ensures
        <Non<Et<P1, P2>> as Praedicatum<T>>::tenet(value) == <Vel<Non<P1>, Non<P2>> as Praedicatum<
            T,
        >>::tenet(value),
        <Non<Vel<P1, P2>> as Praedicatum<T>>::tenet(value) == <Et<Non<P1>, Non<P2>> as Praedicatum<
            T,
        >>::tenet(value),
{
}

/// An implication holds exactly when its premise fails or its conclusion
/// holds, and an equivalence exactly when both implications hold.
pub proof fn law_implication_equivalence<T, P1: Praedicatum<T>, P2: Praedicatum<T>>(value: &T)
    ensures
        <Implicatio<P1, P2> as Praedicatum<T>>::tenet(value) == <Vel<Non<P1>, P2> as Praedicatum<
            T,
        >>::tenet(value),
        <Aequivalentia<P1, P2> as Praedicatum<T>>::tenet(value) == <Et<
            Implicatio<P1, P2>,
            Implicatio<P2, P1>,
        > as Praedicatum<T>>::tenet(value),
{
}

/// Each two-place combinator decides a value from what its two predicates
/// decide of it: negation flips, conjunction needs both, disjunction needs
/// one, exclusive or needs exactly one, implication fails only when the
/// premise holds and the conclusion fails, and equivalence needs both to
/// agree.
pub proof fn law_combinator_truth_tables<T, P1: Praedicatum<T>, P2: Praedicatum<T>>(value: &T)
    ensures
        <Non<P1> as Praedicatum<T>>::tenet(value) != P1::tenet(value),
        <Et<P1, P2> as Praedicatum<T>>::tenet(value) <==> (P1::tenet(value) && P2::tenet(value)),
        <Vel<P1, P2> as Praedicatum<T>>::tenet(value) <==> (P1::tenet(value) || P2::tenet(value)),
        <Aut<P1, P2> as Praedicatum<T>>::tenet(value) <==> (P1::tenet(value) != P2::tenet(value)),
        !<Implicatio<P1, P2> as Praedicatum<T>>::tenet(value) <==> (P1::tenet(value)
            && !P2::tenet(value)),
        <Aequivalentia<P1, P2> as Praedicatum<T>>::tenet(value) <==> (P1::tenet(value)
            == P2::tenet(value)),
{
}

/// The three-way conjunction holds exactly when each of its three
/// predicates holds, so a value that fails any one of them fails it, and it
/// agrees with the nested two-way conjunction.
pub proof fn law_omnes<T, P1: Praedicatum<T>, P2: Praedicatum<T>, P3: Praedicatum<T>>(value: &T)
    ensures
        <Omnes<P1, P2, P3> as Praedicatum<T>>::tenet(value) <==> (P1::tenet(value) && P2::tenet(
            value,
        ) && P3::tenet(value)),
        !P1::tenet(value) ==> !<Omnes<P1, P2, P3> as Praedicatum<T>>::tenet(value),
        !P2::tenet(value) ==> !<Omnes<P1, P2, P3> as Praedicatum<T>>::tenet(value),
        !P3::tenet(value) ==> !<Omnes<P1, P2, P3> as Praedicatum<T>>::tenet(value),
        <Omnes<P1, P2, P3> as Praedicatum<T>>::tenet(value) == <Et<P1, Et<P2, P3>> as Praedicatum<
            T,
        >>::tenet(value),
{
}

/// The three-way disjunction holds exactly when at least one of its three
/// predicates holds, so a value that satisfies any one of them satisfies
/// it, and it agrees with the nested two-way disjunction.
pub proof fn law_aliquis<T, P1: Praedicatum<T>, P2: Praedicatum<T>, P3: Praedicatum<T>>(value: &T)
    ensures
        <Aliquis<P1, P2, P3> as Praedicatum<T>>::tenet(value) <==> (P1::tenet(value) || P2::tenet(
            value,
        ) || P3::tenet(value)),
        P1::tenet(value) ==> <Aliquis<P1, P2, P3> as Praedicatum<T>>::tenet(value),
        P2::tenet(value) ==> <Aliquis<P1, P2, P3> as Praedicatum<T>>::tenet(value),
        P3::tenet(value) ==> <Aliquis<P1, P2, P3> as Praedicatum<T>>::tenet(value),
        <Aliquis<P1, P2, P3> as Praedicatum<T>>::tenet(value) == <Vel<P1, Vel<P2, P3>> as Praedicatum<
            T,
        >>::tenet(value),
{
}

} // verus!
