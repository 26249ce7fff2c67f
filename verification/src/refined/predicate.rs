//! Predicates over values, validation, and the evidence that a check passed.

use core::marker::PhantomData;
use vstd::prelude::*;

verus! {

/// A predicate over values of type `T`, implemented by users and by the
/// combinators of this module.
///
/// `tenet` states which values satisfy the predicate and `check` computes
/// it; the contracts of this module speak of `tenet`. An implementation
/// written outside verified code is taken at its word that its `check`
/// computes its `tenet`.
pub trait Praedicatum<T>: Sized {
    /// Whether `value` satisfies the predicate.
    spec fn tenet(value: &T) -> bool;

    /// Whether `value` satisfies the predicate.
    fn check(value: &T) -> (r: bool)
        ensures
            r == Self::tenet(value),
    ;

    /// A human-readable description of the predicate.
    fn description() -> &'static str;

    /// The message reported when the predicate fails (by default the
    /// description).
    fn error_message() -> (r: &'static str) {
        Self::description()
    }

    /// The name of the predicate (by default its description).
    fn name() -> &'static str {
        Self::description()
    }
}

/// Alias of `Praedicatum`, implemented for every `Praedicatum`.
pub trait Predicate<T>: Praedicatum<T> {}

impl<T, P: Praedicatum<T>> Predicate<T> for P {}

/// Validation of a value against a predicate `P`.
pub trait Validatus<P> {
    /// Whether the value satisfies `P`.
    spec fn valet(&self) -> bool;

    /// Whether the value satisfies `P`.
    fn is_valid(&self) -> (r: bool)
        ensures
            r == self.valet(),
    ;

    /// `Ok` when the value satisfies `P`, otherwise the predicate's error
    /// message.
    fn validate(&self) -> (r: Result<(), &'static str>)
        ensures
            r is Ok <==> self.valet(),
    ;
}

impl<T, P: Praedicatum<T>> Validatus<P> for T {
    open spec fn valet(&self) -> bool {
        P::tenet(self)
    }

    fn is_valid(&self) -> (r: bool) {
        P::check(self)
    }

    fn validate(&self) -> (r: Result<(), &'static str>) {
        let passed = P::check(self);
        let message = P::error_message();
        validation_outcome(passed, message)
    }
}

/// The outcome of a validation whose check returned `passed`: `Ok` when it
/// passed, otherwise `Err` with the predicate's `message`.
pub fn validation_outcome(passed: bool, message: &'static str) -> (r: Result<(), &'static str>)
    ensures
        passed ==> r == Ok::<(), &'static str>(()),
        !passed ==> r == Err::<(), &'static str>(message),
{
    if passed {
        Ok(())
    } else {
        Err(message)
    }
}

/// Evidence that a value satisfied the predicate `P` when it was checked.
pub struct EvidentiaPredicati<T, P: Praedicatum<T>> {
    _marker: PhantomData<(T, P)>,
}

impl<T, P: Praedicatum<T>> EvidentiaPredicati<T, P> {
    /// Check `value` and return evidence if the predicate holds.
    pub fn verify(value: &T) -> (r: Option<Self>)
        ensures
            r is Some <==> P::tenet(value),
    {
        let passed = P::check(value);
        Self::from_verdict(passed)
    }

    /// Evidence exactly when the check `passed`.
    fn from_verdict(passed: bool) -> (r: Option<Self>)
        ensures
            r is Some <==> passed,
    {
        if passed {
            Some(EvidentiaPredicati { _marker: PhantomData })
        } else {
            None
        }
    }
}

impl<T, P: Praedicatum<T>> Clone for EvidentiaPredicati<T, P> {
    /// Evidence carries no data: every copy is the same evidence.
    fn clone(&self) -> (r: Self)
        ensures
            r == *self,
    {
        EvidentiaPredicati { _marker: PhantomData }
    }
}

impl<T, P: Praedicatum<T>> Copy for EvidentiaPredicati<T, P> {
}

/// The result of checking a predicate.
#[derive(Debug, Clone)]
pub enum ExitusPraedicati {
    /// The predicate passed.
    Verum,
    /// The predicate failed.
    Falsum {
        /// Description of the failed predicate.
        description: &'static str,
    },
}

impl ExitusPraedicati {
    /// Whether the predicate passed.
    pub fn passed(&self) -> (r: bool)
        ensures
            r == (self is Verum),
    {
        matches!(self, ExitusPraedicati::Verum)
    }

    /// Whether the predicate failed.
    pub fn failed(&self) -> (r: bool)
        ensures
            r == (self is Falsum),
    {
        matches!(self, ExitusPraedicati::Falsum { .. })
    }

    /// Convert to a `Result`: `Ok` when passed, otherwise the description.
    pub fn to_result(self) -> (r: Result<(), &'static str>)
        ensures
            match self {
                ExitusPraedicati::Verum => r == Ok::<(), &'static str>(()),
                ExitusPraedicati::Falsum { description } => r == Err::<(), &'static str>(
                    description,
                ),
            },
    {
        match self {
            ExitusPraedicati::Verum => Ok(()),
            ExitusPraedicati::Falsum { description } => Err(description),
        }
    }
}

/// The result of a check that `passed`, with the predicate's `description`
/// for a failure.
pub fn exitus_of(passed: bool, description: &'static str) -> (r: ExitusPraedicati)
    ensures
        passed ==> r is Verum,
        !passed ==> r == (ExitusPraedicati::Falsum { description }),
{
    if passed {
        ExitusPraedicati::Verum
    } else {
        ExitusPraedicati::Falsum { description }
    }
}

/// Check a value against predicate `P`, returning a detailed result.
pub fn check_predicate<T, P: Praedicatum<T>>(value: &T) -> (r: ExitusPraedicati)
    ensures
        r is Verum <==> P::tenet(value),
{
    let passed = P::check(value);
    let description = P::description();
    exitus_of(passed, description)
}

/// A failed check never converts to `Ok`, and a passed one always does.
pub proof fn law_exitus_result(e: ExitusPraedicati)
    ensures
        (e is Verum) != (e is Falsum),
{
}

} // verus!
