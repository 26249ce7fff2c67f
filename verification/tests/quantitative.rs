use ordofp_core::quantitative::{
    bind_qtt, is_subusage, join_qtt, kleisli_qtt, lift2_qtt, linear_apply, linear_compose,
    linear_const, linear_curry, linear_flip, linear_uncurry, map2_qtt, map3_qtt, mult_add,
    mult_mul, purus_qtt, sequence_qtt, traverse_qtt, AdditiveChoice, FunctioLinearis,
    ManusLinearis, Multiplicitas, MultiplicitasSemiring, Nihil, Omega, ParLinearis, Qtt,
    QttErasum, QttExt, QttLiber, QttLinearis, QttMonad, Semel, Usage, WithLinearis,
};


#[test]
fn test_multiplicitas_variants() {
    let zero = Multiplicitas::Nihil;
    let one = Multiplicitas::Semel;
    let omega = Multiplicitas::Omega;

    assert!(zero.is_nihil());
    assert!(one.is_semel());
    assert!(omega.is_omega());
}

#[test]
fn test_multiplicitas_semiring() {
    // 0 * x = 0
    assert_eq!(
        mult_mul(Multiplicitas::Nihil, Multiplicitas::Omega),
        Multiplicitas::Nihil
    );

    // 1 * x = x
    assert_eq!(
        mult_mul(Multiplicitas::Semel, Multiplicitas::Omega),
        Multiplicitas::Omega
    );

    // ω + ω = ω
    assert_eq!(
        mult_add(Multiplicitas::Omega, Multiplicitas::Omega),
        Multiplicitas::Omega
    );
}


#[test]
fn test_multiplicitas_predicates() {
    assert!(Multiplicitas::Nihil.is_nihil());
    assert!(!Multiplicitas::Nihil.is_semel());
    assert!(!Multiplicitas::Nihil.is_omega());

    assert!(!Multiplicitas::Semel.is_nihil());
    assert!(Multiplicitas::Semel.is_semel());
    assert!(!Multiplicitas::Semel.is_omega());

    assert!(!Multiplicitas::Omega.is_nihil());
    assert!(!Multiplicitas::Omega.is_semel());
    assert!(Multiplicitas::Omega.is_omega());
}

#[test]
fn test_allows_zero() {
    assert!(Multiplicitas::Nihil.allows_zero());
    assert!(!Multiplicitas::Semel.allows_zero());
    assert!(Multiplicitas::Omega.allows_zero());
}

#[test]
fn test_requires_use() {
    assert!(!Multiplicitas::Nihil.requires_use());
    assert!(Multiplicitas::Semel.requires_use());
    assert!(!Multiplicitas::Omega.requires_use());
}

#[test]
fn test_allows_many() {
    assert!(!Multiplicitas::Nihil.allows_many());
    assert!(!Multiplicitas::Semel.allows_many());
    assert!(Multiplicitas::Omega.allows_many());
}

#[test]
fn test_subusage() {
    // 0 ≤ everything
    assert!(Multiplicitas::Nihil.is_subusage_of(&Multiplicitas::Nihil));
    assert!(Multiplicitas::Nihil.is_subusage_of(&Multiplicitas::Semel));
    assert!(Multiplicitas::Nihil.is_subusage_of(&Multiplicitas::Omega));

    // 1 ≤ 1, ω
    assert!(!Multiplicitas::Semel.is_subusage_of(&Multiplicitas::Nihil));
    assert!(Multiplicitas::Semel.is_subusage_of(&Multiplicitas::Semel));
    assert!(Multiplicitas::Semel.is_subusage_of(&Multiplicitas::Omega));

    // ω ≤ ω only
    assert!(!Multiplicitas::Omega.is_subusage_of(&Multiplicitas::Nihil));
    assert!(!Multiplicitas::Omega.is_subusage_of(&Multiplicitas::Semel));
    assert!(Multiplicitas::Omega.is_subusage_of(&Multiplicitas::Omega));
}

#[test]
fn test_semiring_addition() {
    // max semantics
    assert_eq!(
        mult_add(Multiplicitas::Nihil, Multiplicitas::Nihil),
        Multiplicitas::Nihil
    );
    assert_eq!(
        mult_add(Multiplicitas::Nihil, Multiplicitas::Semel),
        Multiplicitas::Semel
    );
    assert_eq!(
        mult_add(Multiplicitas::Nihil, Multiplicitas::Omega),
        Multiplicitas::Omega
    );
    assert_eq!(
        mult_add(Multiplicitas::Semel, Multiplicitas::Semel),
        Multiplicitas::Semel
    );
    assert_eq!(
        mult_add(Multiplicitas::Semel, Multiplicitas::Omega),
        Multiplicitas::Omega
    );
    assert_eq!(
        mult_add(Multiplicitas::Omega, Multiplicitas::Omega),
        Multiplicitas::Omega
    );
}

#[test]
fn test_semiring_multiplication() {
    // 0 * x = 0
    assert_eq!(
        mult_mul(Multiplicitas::Nihil, Multiplicitas::Nihil),
        Multiplicitas::Nihil
    );
    assert_eq!(
        mult_mul(Multiplicitas::Nihil, Multiplicitas::Semel),
        Multiplicitas::Nihil
    );
    assert_eq!(
        mult_mul(Multiplicitas::Nihil, Multiplicitas::Omega),
        Multiplicitas::Nihil
    );

    // 1 * x = x
    assert_eq!(
        mult_mul(Multiplicitas::Semel, Multiplicitas::Nihil),
        Multiplicitas::Nihil
    );
    assert_eq!(
        mult_mul(Multiplicitas::Semel, Multiplicitas::Semel),
        Multiplicitas::Semel
    );
    assert_eq!(
        mult_mul(Multiplicitas::Semel, Multiplicitas::Omega),
        Multiplicitas::Omega
    );

    // ω * x
    assert_eq!(
        mult_mul(Multiplicitas::Omega, Multiplicitas::Nihil),
        Multiplicitas::Nihil
    );
    assert_eq!(
        mult_mul(Multiplicitas::Omega, Multiplicitas::Semel),
        Multiplicitas::Omega
    );
    assert_eq!(
        mult_mul(Multiplicitas::Omega, Multiplicitas::Omega),
        Multiplicitas::Omega
    );
}

#[test]
fn multiplicitas_test_display() {
    assert_eq!(Multiplicitas::Nihil.to_string(), "0");
    assert_eq!(Multiplicitas::Semel.to_string(), "1");
    assert_eq!(Multiplicitas::Omega.to_string(), "ω");
}

#[test]
fn test_type_level_usage() {
    assert_eq!(Nihil::VALUE, Multiplicitas::Nihil);
    assert_eq!(Semel::VALUE, Multiplicitas::Semel);
    assert_eq!(Omega::VALUE, Multiplicitas::Omega);

    assert!(Nihil::ALLOWS_DISCARD);
    assert!(!Semel::ALLOWS_DISCARD);
    assert!(Omega::ALLOWS_DISCARD);

    assert!(Nihil::ALLOWS_DUP);
    assert!(!Semel::ALLOWS_DUP);
    assert!(Omega::ALLOWS_DUP);
}

#[test]
fn test_default() {
    assert_eq!(Multiplicitas::default(), Multiplicitas::Omega);
}


#[test]
fn test_functio_linearis_new_apply() {
    let f = FunctioLinearis::new(|x: i32| x * 2);
    let result = f.apply(21);
    assert_eq!(result, 42);
}

#[test]
fn test_functio_linearis_compose() {
    let f = FunctioLinearis::new(|x: i32| x + 1);
    let g = FunctioLinearis::new(|x: i32| x * 2);

    let composed = f.compose(g);
    let result = composed.apply(5);
    assert_eq!(result, 12); // (5 + 1) * 2
}

#[test]
fn test_functio_linearis_and_then() {
    let f = FunctioLinearis::new(|x: i32| x + 1);
    let g = FunctioLinearis::new(|x: i32| x * 2);

    let chained = f.and_then(g);
    let result = chained.apply(5);
    assert_eq!(result, 12);
}

#[test]
fn test_functio_linearis_map_output() {
    let f = FunctioLinearis::new(|x: i32| x + 1);
    let mapped = f.map_output(|y| y.to_string());
    assert_eq!(mapped.apply(41), "42");
}

#[test]
fn test_functio_linearis_contramap_input() {
    let f = FunctioLinearis::new(|x: i32| x * 2);
    let contramapped = f.contramap_input(|s: &str| {
        s.parse::<i32>()
            .expect("test input should be a valid integer string")
    });
    assert_eq!(contramapped.apply("21"), 42);
}

#[test]
fn test_functio_linearis_identity() {
    let id: FunctioLinearis<i32, i32> = FunctioLinearis::identity();
    assert_eq!(id.apply(42), 42);
}

#[test]
fn test_linear_apply_fn() {
    let f = FunctioLinearis::new(|x: i32| x * 2);
    let result = linear_apply(f, 21);
    assert_eq!(result, 42);
}

#[test]
fn test_linear_compose_fn() {
    let f = FunctioLinearis::new(|x: i32| x + 1);
    let g = FunctioLinearis::new(|x: i32| x * 2);

    let h = linear_compose(f, g);
    assert_eq!(h.apply(5), 12);
}

#[test]
fn test_linear_const() {
    let f: FunctioLinearis<i32, &str> = linear_const("hello");
    assert_eq!(f.apply(42), "hello");
}

#[test]
fn test_linear_curry() {
    let f = FunctioLinearis::new(|(a, b): (i32, i32)| a + b);
    let curried = linear_curry(f);
    let result = curried.apply(10).apply(32);
    assert_eq!(result, 42);
}

#[test]
fn test_linear_uncurry() {
    let f = FunctioLinearis::new(|a: i32| FunctioLinearis::new(move |b: i32| a + b));
    let uncurried = linear_uncurry(f);
    let result = uncurried.apply((10, 32));
    assert_eq!(result, 42);
}

#[test]
fn test_linear_flip() {
    let f =
        FunctioLinearis::new(|a: i32| FunctioLinearis::new(move |b: &str| format!("{b}: {a}")));
    let flipped = linear_flip(f);
    let result = flipped.apply("answer").apply(42);
    assert_eq!(result, "answer: 42");
}



#[test]
fn test_linear_creation() {
    let x: Qtt<i32, Semel> = Qtt::linear(42);
    assert_eq!(x.multiplicity(), Multiplicitas::Semel);
    assert!(!x.can_discard());
    assert!(!x.can_dup());
}

#[test]
fn test_linear_consume() {
    let x: Qtt<i32, Semel> = Qtt::linear(42);
    let result = x.consume();
    assert_eq!(result, 42);
}

#[test]
fn test_linear_fmap() {
    let x: Qtt<i32, Semel> = Qtt::linear(5);
    let y = x.fmap(|n| n * 2);
    assert_eq!(y.consume(), 10);
}

#[test]
fn test_linear_bind() {
    let x: Qtt<i32, Semel> = Qtt::linear(5);
    let y = x.bind_linear(|n| Qtt::linear(n + 10));
    assert_eq!(y.consume(), 15);
}

#[test]
fn test_unrestricted_creation() {
    let x: Qtt<i32, Omega> = Qtt::unrestricted(42);
    assert_eq!(x.multiplicity(), Multiplicitas::Omega);
    assert!(x.can_discard());
    assert!(x.can_dup());
}

#[test]
fn test_unrestricted_dup() {
    let x: Qtt<i32, Omega> = Qtt::unrestricted(42);
    let y = x.dup();
    let z = x.dup();
    assert_eq!(y.consume(), 42);
    assert_eq!(z.consume(), 42);
    assert_eq!(x.consume(), 42);
}

#[test]
fn test_unrestricted_discard() {
    let x: Qtt<i32, Omega> = Qtt::unrestricted(42);
    x.discard(); // Should compile and run
}

#[test]
fn test_unrestricted_deref() {
    let x: Qtt<i32, Omega> = Qtt::unrestricted(42);
    assert_eq!(*x, 42);
}

#[test]
fn test_erased_creation() {
    let x: Qtt<i32, Nihil> = Qtt::erased(42);
    assert_eq!(x.multiplicity(), Multiplicitas::Nihil);
    assert!(x.can_discard());
}

#[test]
fn test_erased_discard() {
    let x: Qtt<i32, Nihil> = Qtt::erased(42);
    x.discard(); // Should compile and run
}

#[test]
fn test_linear_relax() {
    let x: Qtt<i32, Semel> = Qtt::linear(42);
    let y: Qtt<i32, Omega> = x.relax();
    assert_eq!(y.multiplicity(), Multiplicitas::Omega);
    assert_eq!(y.consume(), 42);
}

#[test]
fn test_unrestricted_restrict() {
    let x: Qtt<i32, Omega> = Qtt::unrestricted(42);
    let y: Qtt<i32, Semel> = x.restrict();
    assert_eq!(y.multiplicity(), Multiplicitas::Semel);
    assert_eq!(y.consume(), 42);
}

#[test]
fn test_qtt_ext() {
    let x = 42.into_linear();
    assert_eq!(x.consume(), 42);

    let y = 42.into_unrestricted();
    assert_eq!(y.consume(), 42);

    let z = 42.into_erased();
    z.discard();
}

#[test]
fn test_type_aliases() {
    let _linear: QttLinearis<i32> = Qtt::linear(42);
    let _erased: QttErasum<i32> = Qtt::erased(42);
    let _free: QttLiber<i32> = Qtt::unrestricted(42);
}


#[test]
fn test_split() {
    let pair: Qtt<(i32, &str), Semel> = Qtt::linear((42, "hello"));
    let (a, b) = pair.split(|(n, s)| (n, s));
    assert_eq!(a.consume(), 42);
    assert_eq!(b.consume(), "hello");
}

#[test]
fn test_chaining() {
    let result = Qtt::linear(5i32)
        .fmap(|x| x * 2)
        .fmap(|x| x + 1)
        .bind_linear(|x: i32| Qtt::linear(x.to_string()))
        .consume();

    assert_eq!(result, "11");
}

#[test]
fn test_clone_omega() {
    let x: Qtt<i32, Omega> = Qtt::unrestricted(42);
    let y = x;
    assert_eq!(x.consume(), 42);
    assert_eq!(y.consume(), 42);
}

#[test]
fn test_copy_omega() {
    let x: Qtt<i32, Omega> = Qtt::unrestricted(42);
    let y = x; // Copy
    assert_eq!(x.consume(), 42);
    assert_eq!(y.consume(), 42);
}


#[test]
fn test_monas_linearis_purus() {
    let q: Qtt<i32, Semel> = Qtt::purus(42);
    assert_eq!(q.consume(), 42);
}

#[test]
fn test_monas_linearis_bind() {
    let q: Qtt<i32, Semel> = Qtt::new(5);
    let result = q.bind(|x| Qtt::new(x * 2));
    assert_eq!(result.consume(), 10);
}

#[test]
fn test_monas_linearis_fmap() {
    let q: Qtt<i32, Semel> = Qtt::new(5);
    let result = q.fmap(|x| x * 2);
    assert_eq!(result.consume(), 10);
}

#[test]
fn test_monas_linearis_then() {
    let q1: Qtt<i32, Semel> = Qtt::new(5);
    let q2: Qtt<&str, Semel> = Qtt::new("done");
    let result = q1.then(q2);
    assert_eq!(result.consume(), "done");
}

#[test]
fn test_qtt_monad_purus() {
    let m = QttMonad::<_, Semel>::purus(42);
    assert_eq!(m.run(), 42);
}

#[test]
fn test_qtt_monad_map() {
    let m = QttMonad::<_, Semel>::purus(5);
    let result = m.map(|x| x * 2);
    assert_eq!(result.run(), 10);
}

#[test]
fn test_qtt_monad_flat_map() {
    let m = QttMonad::<_, Semel>::purus(5);
    let result = m.flat_map(|x| QttMonad::purus(x + 10));
    assert_eq!(result.run(), 15);
}

#[test]
fn test_qtt_monad_chaining() {
    let result = QttMonad::<_, Semel>::purus(5i32)
        .map(|x| x * 2)
        .flat_map(|x| QttMonad::purus(x + 1))
        .map(|x: i32| x.to_string())
        .run();

    assert_eq!(result, "11");
}

#[test]
fn test_purus_qtt() {
    let q: Qtt<i32, Semel> = purus_qtt(42);
    assert_eq!(q.consume(), 42);
}

#[test]
fn test_bind_qtt() {
    let q: Qtt<i32, Semel> = Qtt::new(5);
    let result = bind_qtt(q, |x| Qtt::new(x * 2));
    assert_eq!(result.consume(), 10);
}

#[test]
fn test_sequence_qtt() {
    let qs: Vec<Qtt<i32, Semel>> = vec![Qtt::new(1), Qtt::new(2), Qtt::new(3)];
    let result = sequence_qtt(qs);
    assert_eq!(result.consume(), vec![1, 2, 3]);
}

#[test]
fn test_traverse_qtt() {
    let items = vec![1, 2, 3];
    let result: Qtt<Vec<i32>, Semel> = traverse_qtt(items, |x| Qtt::new(x * 2));
    assert_eq!(result.consume(), vec![2, 4, 6]);
}

#[test]
fn test_join_qtt() {
    let nested: Qtt<Qtt<i32, Semel>, Semel> = Qtt::new(Qtt::new(42));
    let flat = join_qtt(nested);
    assert_eq!(flat.consume(), 42);
}

#[test]
fn test_kleisli_qtt() {
    let f = |x: i32| Qtt::<_, Semel>::new(x + 1);
    let g = |x: i32| Qtt::<_, Semel>::new(x * 2);

    let composed = kleisli_qtt(f, g);
    let result = composed(5);
    assert_eq!(result.consume(), 12); // (5 + 1) * 2
}

#[test]
fn test_map2_qtt() {
    let qa: Qtt<i32, Semel> = Qtt::new(10);
    let qb: Qtt<i32, Semel> = Qtt::new(32);
    let result = map2_qtt(qa, qb, |a, b| a + b);
    assert_eq!(result.consume(), 42);
}

#[test]
fn test_map3_qtt() {
    let qa: Qtt<i32, Semel> = Qtt::new(1);
    let qb: Qtt<i32, Semel> = Qtt::new(2);
    let qc: Qtt<i32, Semel> = Qtt::new(3);
    let result = map3_qtt(qa, qb, qc, |a, b, c| a + b + c);
    assert_eq!(result.consume(), 6);
}

#[test]
fn test_lift2_qtt() {
    let add = lift2_qtt(|a: i32, b: i32| a + b);
    let qa: Qtt<i32, Semel> = Qtt::new(10);
    let qb: Qtt<i32, Semel> = Qtt::new(32);
    let result = add(qa, qb);
    assert_eq!(result.consume(), 42);
}

// Monad Laws for Qtt

#[test]
fn monas_test_left_identity() {
    // pure(a).bind(f) ≡ f(a)
    let a = 5;
    let f = |x: i32| Qtt::<_, Semel>::new(x * 2);

    let left: Qtt<i32, Semel> = Qtt::purus(a);
    let left_result = left.bind(f);

    let right = f(a);

    assert_eq!(left_result.consume(), right.consume());
}

#[test]
fn monas_test_right_identity() {
    // m.bind(pure) ≡ m
    let m: Qtt<i32, Semel> = Qtt::new(42);
    let result = m.bind(Qtt::<_, Semel>::new);

    assert_eq!(result.consume(), 42);
}

#[test]
fn monas_test_associativity() {
    // m.bind(f).bind(g) ≡ m.bind(|x| f(x).bind(g))
    let f = |x: i32| Qtt::<_, Semel>::new(x + 1);
    let g = |x: i32| Qtt::<_, Semel>::new(x * 2);

    let m1: Qtt<i32, Semel> = Qtt::new(5);
    let left = m1.bind(f).bind(g);

    let m2: Qtt<i32, Semel> = Qtt::new(5);
    let right = m2.bind(|x| {
        let fx: Qtt<i32, Semel> = Qtt::new(x + 1);
        fx.bind(g)
    });

    assert_eq!(left.consume(), right.consume());
}


#[test]
fn assoc_left_reassociates_and_round_trips() {
    let nested = ParLinearis::new(1, ParLinearis::new("b", 3.0)); // A ⊗ (B ⊗ C)
    let left = nested.assoc_left(); // (A ⊗ B) ⊗ C
    let ((a, b), c) = {
        let (ab, c) = left.split();
        (ab.split(), c)
    };
    assert_eq!((a, b, c), (1, "b", 3.0));

    // Round trip: assoc_right undoes assoc_left.
    let back = ParLinearis::new(ParLinearis::new(1, "b"), 3.0).assoc_right();
    let (a2, bc) = back.split();
    let (b2, c2) = bc.split();
    assert_eq!((a2, b2, c2), (1, "b", 3.0));
}

#[test]
fn test_par_linearis_new_split() {
    let pair = ParLinearis::new(42, "hello");
    let (n, s) = pair.split();
    assert_eq!(n, 42);
    assert_eq!(s, "hello");
}

#[test]
fn test_par_linearis_consume_with() {
    let pair = ParLinearis::new(5, 10);
    let result = pair.consume_with(|a, b| a + b);
    assert_eq!(result, 15);
}

#[test]
fn test_par_linearis_map_first() {
    let pair = ParLinearis::new(5, "hello");
    let mapped = pair.map_first(|x| x * 2);
    let (n, s) = mapped.split();
    assert_eq!(n, 10);
    assert_eq!(s, "hello");
}

#[test]
fn test_par_linearis_map_second() {
    let pair = ParLinearis::new(42, 5);
    let mapped = pair.map_second(|x| x * 2);
    let (n, m) = mapped.split();
    assert_eq!(n, 42);
    assert_eq!(m, 10);
}

#[test]
fn test_par_linearis_bimap() {
    let pair = ParLinearis::new(5, 10);
    let mapped = pair.bimap(|x| x * 2, |y| y + 1);
    let (a, b) = mapped.split();
    assert_eq!(a, 10);
    assert_eq!(b, 11);
}

#[test]
fn test_par_linearis_swap() {
    let pair = ParLinearis::new(42, "hello");
    let swapped = pair.swap();
    let (s, n) = swapped.split();
    assert_eq!(s, "hello");
    assert_eq!(n, 42);
}

#[test]
fn test_par_linearis_from_tuple() {
    let pair: ParLinearis<i32, &str> = (42, "hello").into();
    let (n, s) = pair.split();
    assert_eq!(n, 42);
    assert_eq!(s, "hello");
}

#[test]
fn test_par_linearis_into_tuple() {
    let pair = ParLinearis::new(42, "hello");
    let tuple: (i32, &str) = pair.into();
    assert_eq!(tuple, (42, "hello"));
}


#[test]
fn test_par_linearis_assoc_right() {
    let nested = ParLinearis::new(ParLinearis::new(1, 2), 3);
    let assoc = nested.assoc_right();
    let (a, bc) = assoc.split();
    let (b, c) = bc.split();
    assert_eq!(a, 1);
    assert_eq!(b, 2);
    assert_eq!(c, 3);
}

// WithLinearis tests

#[test]
fn test_with_linearis_choose_left() {
    let choice = WithLinearis::new(42, "hello");
    let left = choice.choose_left();
    assert_eq!(left, 42);
}

#[test]
fn test_with_linearis_choose_right() {
    let choice = WithLinearis::new(42, "hello");
    let right = choice.choose_right();
    assert_eq!(right, "hello");
}

#[test]
fn test_with_linearis_choose_bool() {
    let choice1 = WithLinearis::new(42, "hello");
    let result1 = choice1.eligere(true);
    assert!(result1.is_left());

    let choice2 = WithLinearis::new(42, "hello");
    let result2 = choice2.eligere(false);
    assert!(result2.is_right());
}

#[test]
fn test_with_linearis_project() {
    let choice = WithLinearis::new(42, "hello");
    assert_eq!(*choice.project_left(), 42);
    assert_eq!(*choice.project_right(), "hello");
}

#[test]
fn test_with_linearis_map() {
    let choice = WithLinearis::new(5, 10);
    let mapped = choice.map_left(|x| x * 2).map_right(|x| x + 1);
    assert_eq!(mapped.choose_left(), 10);
}

#[test]
fn test_with_linearis_swap() {
    let choice = WithLinearis::new(42, "hello");
    let swapped = choice.swap();
    assert_eq!(swapped.choose_left(), "hello");
}


// AdditiveChoice tests

#[test]
fn test_additive_choice_left() {
    let choice: AdditiveChoice<i32, &str> = AdditiveChoice::Left(42);
    assert!(choice.is_left());
    assert!(!choice.is_right());
    assert_eq!(choice.left(), Some(42));
}

#[test]
fn test_additive_choice_right() {
    let choice: AdditiveChoice<i32, &str> = AdditiveChoice::Right("hello");
    assert!(!choice.is_left());
    assert!(choice.is_right());
    assert_eq!(choice.right(), Some("hello"));
}

#[test]
fn test_additive_choice_bimap() {
    let choice: AdditiveChoice<i32, i32> = AdditiveChoice::Left(5);
    let mapped = choice.bimap(|x| x * 2, |x| x + 1);
    assert_eq!(mapped.left(), Some(10));
}

#[test]
fn test_additive_choice_fold() {
    let left: AdditiveChoice<i32, &str> = AdditiveChoice::Left(42);
    let result = left.fold(|n| n.to_string(), std::string::ToString::to_string);
    assert_eq!(result, "42");

    let right: AdditiveChoice<i32, &str> = AdditiveChoice::Right("hello");
    let result = right.fold(|n| n.to_string(), std::string::ToString::to_string);
    assert_eq!(result, "hello");
}


#[test]
fn test_acquire_release() {
    let handle = ManusLinearis::acquire(42);
    let value = handle.release();
    assert_eq!(value, 42);
}

#[test]
fn test_use_ref() {
    let handle = ManusLinearis::acquire(vec![1, 2, 3]);
    let len = handle.use_ref(std::vec::Vec::len);
    assert_eq!(len, 3);
    let _ = handle.release();
}

#[test]
fn test_use_mut() {
    let mut handle = ManusLinearis::acquire(vec![1, 2, 3]);
    handle.use_mut(|v| v.push(4));
    let vec = handle.release();
    assert_eq!(vec, vec![1, 2, 3, 4]);
}

#[test]
fn test_release_with() {
    let handle = ManusLinearis::acquire(10);
    let result = handle.release_with(|x| x * 2);
    assert_eq!(result, 20);
}

#[test]
fn manus_test_map() {
    let handle = ManusLinearis::acquire(5);
    let mapped = handle.map(|x| x * 2);
    assert_eq!(mapped.release(), 10);
}

#[test]
fn test_and_then() {
    let handle = ManusLinearis::acquire(5);
    let chained = handle.and_then(|x| ManusLinearis::acquire(x + 10));
    assert_eq!(chained.release(), 15);
}



#[test]
fn test_into_qtt() {
    let handle = ManusLinearis::acquire(42);
    let qtt = handle.into_qtt();
    assert_eq!(qtt.consume(), 42);
}

#[test]
fn test_is_released() {
    let handle = ManusLinearis::acquire(42);
    assert!(!handle.is_released());
    let _ = handle.release();
    // Can't check after release since handle is consumed
}

#[test]
fn manus_test_debug() {
    let handle = ManusLinearis::acquire(42);
    let debug_str = format!("{handle:?}");
    assert!(debug_str.contains("ManusLinearis"));
    assert!(debug_str.contains("42"));
}

#[test]
fn test_resource_mut_writes_into_handle() {
    let mut handle = ManusLinearis::acquire(vec![1, 2, 3]);
    handle.resource_mut().push(4);
    handle.resource_mut().push(5);
    assert_eq!(handle.release(), vec![1, 2, 3, 4, 5]);
}

#[test]
fn test_take_resource_releases_handle() {
    let mut handle = ManusLinearis::acquire(String::from("file"));
    assert!(!handle.is_released());
    assert_eq!(handle.resource(), "file");
    let taken = handle.take_resource();
    assert_eq!(taken, "file");
    assert!(handle.is_released());
}
