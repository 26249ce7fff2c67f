use ordofp_core::refined::{
    check_predicate, refine, Aequivalentia, All, And, Any, Aut, Et, EvidentiaPredicati, Implicatio,
    Non, Not, Or, Praedicatum, Refinatus, RefinementError, Validatus, Vel,
};

struct Positive;

impl Praedicatum<i32> for Positive {
    fn tenet(value: &i32) -> bool {
        *value > 0
    }

    fn check(value: &i32) -> bool {
        *value > 0
    }

    fn description() -> &'static str {
        "value must be positive"
    }
}

struct Negative;

impl Praedicatum<i32> for Negative {
    fn tenet(value: &i32) -> bool {
        *value < 0
    }

    fn check(value: &i32) -> bool {
        *value < 0
    }

    fn description() -> &'static str {
        "value must be negative"
    }
}

struct NonNegative;

impl Praedicatum<i32> for NonNegative {
    fn tenet(value: &i32) -> bool {
        *value >= 0
    }

    fn check(value: &i32) -> bool {
        *value >= 0
    }

    fn description() -> &'static str {
        "value must be non-negative"
    }
}

struct Even;

impl Praedicatum<i32> for Even {
    fn tenet(value: &i32) -> bool {
        *value % 2 == 0
    }

    fn check(value: &i32) -> bool {
        *value % 2 == 0
    }

    fn description() -> &'static str {
        "value must be even"
    }
}


#[derive(Debug)]
struct IsPositive;

impl Praedicatum<i32> for IsPositive {
    fn tenet(value: &i32) -> bool {
        *value > 0
    }

    fn check(value: &i32) -> bool {
        *value > 0
    }

    fn description() -> &'static str {
        "value must be positive"
    }
}

#[test]
fn test_praedicatum_check() {
    assert!(IsPositive::check(&42));
    assert!(!IsPositive::check(&0));
    assert!(!IsPositive::check(&-1));
}

#[test]
fn test_praedicatum_description() {
    assert_eq!(IsPositive::description(), "value must be positive");
}

#[test]
fn test_validatus() {
    assert!(<i32 as Validatus<IsPositive>>::is_valid(&42i32));
    assert!(!<i32 as Validatus<IsPositive>>::is_valid(&0i32));
    assert!(<i32 as Validatus<IsPositive>>::validate(&42i32).is_ok());
    assert!(<i32 as Validatus<IsPositive>>::validate(&0i32).is_err());
}

#[test]
fn test_evidentia_verify() {
    let evidence = EvidentiaPredicati::<i32, IsPositive>::verify(&42);
    assert!(evidence.is_some());

    let no_evidence = EvidentiaPredicati::<i32, IsPositive>::verify(&-1);
    assert!(no_evidence.is_none());
}

#[test]
fn test_exitus_praedicati() {
    let result = check_predicate::<i32, IsPositive>(&42);
    assert!(result.passed());
    assert!(!result.failed());
    assert!(result.to_result().is_ok());

    let result = check_predicate::<i32, IsPositive>(&-1);
    assert!(!result.passed());
    assert!(result.failed());
    assert!(result.to_result().is_err());
}


#[test]
fn test_not() {
    // Not Positive = non-positive (zero or negative)
    assert!(!Non::<Positive>::check(&42i32));
    assert!(Non::<Positive>::check(&0i32));
    assert!(Non::<Positive>::check(&-1i32));
}

#[test]
fn test_and() {
    // Positive AND Even = positive even numbers
    assert!(Et::<Positive, Even>::check(&42i32));
    assert!(!Et::<Positive, Even>::check(&41i32)); // positive but odd
    assert!(!Et::<Positive, Even>::check(&-2i32)); // even but negative
    assert!(!Et::<Positive, Even>::check(&0i32)); // even but not positive
}

#[test]
fn test_or() {
    // Positive OR Even
    assert!(Vel::<Positive, Even>::check(&42i32)); // both
    assert!(Vel::<Positive, Even>::check(&41i32)); // positive only
    assert!(Vel::<Positive, Even>::check(&-2i32)); // even only
    assert!(!Vel::<Positive, Even>::check(&-1i32)); // neither
}

#[test]
fn test_xor() {
    // Positive XOR Even = exactly one
    assert!(!Aut::<Positive, Even>::check(&42i32)); // both - false
    assert!(Aut::<Positive, Even>::check(&41i32)); // positive only - true
    assert!(Aut::<Positive, Even>::check(&-2i32)); // even only - true
    assert!(!Aut::<Positive, Even>::check(&-1i32)); // neither - false
}

#[test]
fn test_implies() {
    // Positive => Even (if positive then even)
    assert!(Implicatio::<Positive, Even>::check(&42i32)); // P=T, Q=T -> T
    assert!(!Implicatio::<Positive, Even>::check(&41i32)); // P=T, Q=F -> F
    assert!(Implicatio::<Positive, Even>::check(&-2i32)); // P=F, Q=T -> T
    assert!(Implicatio::<Positive, Even>::check(&-1i32)); // P=F, Q=F -> T
}

#[test]
fn test_iff() {
    // Positive <=> Even (both same truth value)
    assert!(Aequivalentia::<Positive, Even>::check(&42i32)); // T, T -> T
    assert!(!Aequivalentia::<Positive, Even>::check(&41i32)); // T, F -> F
    assert!(!Aequivalentia::<Positive, Even>::check(&-2i32)); // F, T -> F
    assert!(Aequivalentia::<Positive, Even>::check(&-1i32)); // F, F -> T
}

#[test]
fn test_all() {
    // Positive AND Even AND NonNegative
    assert!(All::<Positive, Even, NonNegative>::check(&42i32));
    assert!(!All::<Positive, Even, NonNegative>::check(&41i32)); // odd
    assert!(!All::<Positive, Even, NonNegative>::check(&0i32)); // not positive
}

#[test]
fn test_any() {
    // Positive OR Even OR Negative
    assert!(Any::<Positive, Even, Negative>::check(&42i32)); // positive and even
    assert!(Any::<Positive, Even, Negative>::check(&41i32)); // positive
    assert!(Any::<Positive, Even, Negative>::check(&-2i32)); // even and negative
    assert!(Any::<Positive, Even, Negative>::check(&-1i32)); // negative
}

#[test]
fn test_combined() {
    // (Positive AND Even) OR Negative
    type PositiveEven = And<Positive, Even>;
    type Combined = Or<PositiveEven, Negative>;

    assert!(Combined::check(&42i32)); // positive and even
    assert!(!Combined::check(&41i32)); // positive but odd
    assert!(Combined::check(&-1i32)); // negative
    assert!(!Combined::check(&0i32)); // neither
}

#[test]
fn test_double_negation() {
    // Not(Not(P)) = P
    type DoubleNot = Not<Not<Positive>>;

    assert!(DoubleNot::check(&42i32));
    assert!(!DoubleNot::check(&-1i32));
}

#[test]
fn test_de_morgan() {
    // Not(P AND Q) = Not(P) OR Not(Q)
    type Lhs = Not<And<Positive, Even>>;
    type Rhs = Or<Not<Positive>, Not<Even>>;

    // Test De Morgan's law
    for val in [-10, -1, 0, 1, 2, 10, 42, 43] {
        assert_eq!(
            Lhs::check(&val),
            Rhs::check(&val),
            "De Morgan failed for {val}"
        );
    }
}



#[test]
fn test_refinatus_new() {
    let pos = Refinatus::<i32, IsPositive>::new(42);
    assert!(pos.is_some());
    assert_eq!(*pos.expect("42 satisfies the IsPositive predicate"), 42);

    let neg = Refinatus::<i32, IsPositive>::new(-1);
    assert!(neg.is_none());
}

#[test]
fn test_refinatus_try_new() {
    let pos = Refinatus::<i32, IsPositive>::try_new(42);
    assert!(pos.is_ok());

    let neg = Refinatus::<i32, IsPositive>::try_new(-1);
    assert!(neg.is_err());
}


#[test]
fn test_refinatus_value() {
    let pos = Refinatus::<i32, IsPositive>::new(42).expect("42 satisfies IsPositive predicate");
    assert_eq!(pos.value(), &42);
    assert_eq!(pos.into_inner(), 42);
}

#[test]
fn test_refinatus_deref() {
    let pos = Refinatus::<i32, IsPositive>::new(42).expect("42 satisfies IsPositive predicate");
    let val: i32 = *pos;
    assert_eq!(val, 42);
}

#[test]
fn test_refinatus_clone() {
    let pos = Refinatus::<i32, IsPositive>::new(42).expect("42 satisfies IsPositive predicate");
    let cloned = pos;
    assert_eq!(*cloned, 42);
}

#[test]
fn test_refinatus_eq() {
    let a = Refinatus::<i32, IsPositive>::new(42).expect("42 satisfies IsPositive predicate");
    let b = Refinatus::<i32, IsPositive>::new(42).expect("42 satisfies IsPositive predicate");
    let c = Refinatus::<i32, IsPositive>::new(10).expect("10 satisfies IsPositive predicate");

    assert!(a == b);
    assert!(a != c);
}

#[test]
fn test_refinatus_ord() {
    let a = Refinatus::<i32, IsPositive>::new(10).expect("10 satisfies IsPositive predicate");
    let b = Refinatus::<i32, IsPositive>::new(42).expect("42 satisfies IsPositive predicate");

    assert!(a < b);
    assert!(b > a);
}

#[test]
fn test_refinatus_modify() {
    let pos = Refinatus::<i32, IsPositive>::new(42).expect("42 satisfies IsPositive predicate");

    // Valid modification
    let doubled = pos.modify(|x| x * 2);
    assert!(doubled.is_some());
    assert_eq!(
        *doubled.expect("modify with *2 on 42 yields 84, which satisfies IsPositive"),
        84
    );
}

#[test]
fn test_refinatus_modify_invalid() {
    let pos = Refinatus::<i32, IsPositive>::new(42).expect("42 satisfies IsPositive predicate");

    // Invalid modification (negation)
    let negated = pos.modify(|x| -x);
    assert!(negated.is_none());
}

#[test]
fn test_refinatus_with() {
    let pos = Refinatus::<i32, IsPositive>::new(42).expect("42 satisfies IsPositive predicate");

    let doubled = pos.with(|x| x * 2);
    assert!(doubled.is_some());

    // The refined value itself is unchanged.
    assert_eq!(*pos, 42);
}

#[test]
fn test_refine_builder() {
    let pos: Option<Refinatus<i32, IsPositive>> = refine(42).refine();
    assert!(pos.is_some());

    let neg: Option<Refinatus<i32, IsPositive>> = refine(-1).refine();
    assert!(neg.is_none());
}

#[test]
fn test_refine_with() {
    let even = refine(42).refine_with(|x| x % 2 == 0);
    assert!(even.is_some());
    assert_eq!(
        even.expect("42 satisfies the even predicate (42 % 2 == 0)"),
        42
    );

    let odd = refine(42).refine_with(|x| x % 2 == 1);
    assert!(odd.is_none());
}

#[test]
fn test_refinement_error_display() {
    let err = RefinementError {
        predicate_name: "IsPositive",
        description: "value must be positive",
    };
    let msg = err.to_string();
    assert!(msg.contains("IsPositive"));
    assert!(msg.contains("positive"));
}



#[test]
fn test_refinatus_map_revalidates_predicate_on_result() {
    // `map` must re-check predicate Q on the mapped value, not blindly wrap it.
    // Valid path: mapping a positive value in a way that stays positive.
    let pos = Refinatus::<i32, IsPositive>::new(21).expect("21 satisfies IsPositive");
    let doubled: Option<Refinatus<i32, IsPositive>> = pos.map(|x| x * 2);
    assert!(
        doubled.is_some(),
        "map that keeps value positive must return Some"
    );
    assert_eq!(*doubled.expect("42 satisfies IsPositive"), 42);

    // Edge-case path: mapping a positive value to a non-positive one must yield None,
    // not silently produce a Refinatus whose invariant is violated.
    let pos2 = Refinatus::<i32, IsPositive>::new(21).expect("21 satisfies IsPositive");
    let negated: Option<Refinatus<i32, IsPositive>> = pos2.map(|x| -x);
    assert!(
        negated.is_none(),
        "map that violates predicate must return None, not an invalid Refinatus"
    );
}

#[test]
fn test_refinatus_debug() {
    let pos = Refinatus::<i32, IsPositive>::new(42).expect("42 satisfies IsPositive predicate");
    let debug = format!("{pos:?}");
    assert!(debug.contains("42"));
}

#[test]
fn test_refinatus_try_new_error_fields() {
    let err = Refinatus::<i32, IsPositive>::try_new(-1).unwrap_err();
    assert_eq!(err.predicate_name, IsPositive::name());
    assert_eq!(err.description, "value must be positive");
    let err = refine(-3).try_refine::<IsPositive>().unwrap_err();
    assert_eq!(err.description, "value must be positive");
}

#[test]
fn test_refinatus_clone_keeps_value() {
    let pos = Refinatus::<i32, IsPositive>::new(7).expect("7 satisfies IsPositive predicate");
    #[allow(clippy::clone_on_copy)]
    let copy = pos.clone();
    assert_eq!(copy.into_inner(), 7);
    assert!(IsPositive::check(pos.value()));
}
