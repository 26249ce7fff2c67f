use ordofp_core::transformers::{EitherT, OptionT, ReaderT, Scriptor, StateT};


#[test]
fn test_option_t_some() {
    let opt: OptionT<Result<Option<i32>, &str>> = OptionT::some(42);
    assert_eq!(opt.run(), Ok(Some(42)));
}

#[test]
fn test_option_t_none() {
    let opt: OptionT<Result<Option<i32>, &str>> = OptionT::none();
    assert_eq!(opt.run(), Ok(None));
}

#[test]
fn test_option_t_err() {
    let opt: OptionT<Result<Option<i32>, &str>> = OptionT::err("error");
    assert_eq!(opt.run(), Err("error"));
}

#[test]
fn test_option_t_map() {
    let opt: OptionT<Result<Option<i32>, &str>> = OptionT::some(21);
    let result = opt.map(|x| x * 2);
    assert_eq!(result.run(), Ok(Some(42)));

    let none: OptionT<Result<Option<i32>, &str>> = OptionT::none();
    let result_none = none.map(|x| x * 2);
    assert_eq!(result_none.run(), Ok(None));
}

#[test]
fn test_option_t_flat_map() {
    let opt: OptionT<Result<Option<i32>, &str>> = OptionT::some(10);
    let result = opt.flat_map(|x| {
        if x > 5 {
            OptionT::some(x * 2)
        } else {
            OptionT::none()
        }
    });
    assert_eq!(result.run(), Ok(Some(20)));

    let opt2: OptionT<Result<Option<i32>, &str>> = OptionT::some(3);
    let result2 = opt2.flat_map(|x| {
        if x > 5 {
            OptionT::some(x * 2)
        } else {
            OptionT::none()
        }
    });
    assert_eq!(result2.run(), Ok(None));
}

#[test]
#[allow(clippy::type_complexity)] // spelled-out nested transformer type is the point
fn test_option_t_apply() {
    let val: OptionT<Result<Option<i32>, &str>> = OptionT::some(21);
    let func: OptionT<Result<Option<fn(i32) -> i32>, &str>> = OptionT::some(|x: i32| x * 2);
    let result = val.apply(func);
    assert_eq!(result.run(), Ok(Some(42)));
}

#[test]
fn test_option_t_lift_m() {
    let ok: Result<i32, &str> = Ok(42);
    let lifted: OptionT<Result<Option<i32>, &str>> = OptionT::lift_m(ok);
    assert_eq!(lifted.run(), Ok(Some(42)));

    let err: Result<i32, &str> = Err("error");
    let lifted_err: OptionT<Result<Option<i32>, &str>> = OptionT::lift_m(err);
    assert_eq!(lifted_err.run(), Err("error"));
}

#[test]
fn test_option_t_map2() {
    let a: OptionT<Result<Option<i32>, &str>> = OptionT::some(10);
    let b: OptionT<Result<Option<i32>, &str>> = OptionT::some(20);
    let combined = a.map2(b, |x, y| x + y);
    assert_eq!(combined.run(), Ok(Some(30)));
}

#[test]
fn test_option_t_or_else() {
    let a: OptionT<Result<Option<i32>, &str>> = OptionT::none();
    let b = || OptionT::some(42);
    assert_eq!(a.or_else(b).run(), Ok(Some(42)));
}

// Monad law tests
#[test]
fn test_option_t_left_identity() {
    // pure(a).flat_map(f) == f(a)
    let a = 5;
    let f = |x: i32| OptionT::<Result<Option<i32>, &str>>::some(x * 2);

    let left = OptionT::<Result<Option<i32>, &str>>::some(a).flat_map(f);
    let right = f(a);
    assert_eq!(left.run(), right.run());
}

#[test]
fn test_option_t_right_identity() {
    // m.flat_map(pure) == m
    let m: OptionT<Result<Option<i32>, &str>> = OptionT::some(42);
    let result = m.flat_map(OptionT::some);
    assert_eq!(result.run(), Ok(Some(42)));
}

#[test]
fn test_option_t_associativity() {
    // m.flat_map(f).flat_map(g) == m.flat_map(|x| f(x).flat_map(g))
    let m: OptionT<Result<Option<i32>, &str>> = OptionT::some(5);
    let f = |x: i32| OptionT::<Result<Option<i32>, &str>>::some(x + 1);
    let g = |x: i32| OptionT::<Result<Option<i32>, &str>>::some(x * 2);

    let left = m.flat_map(f).flat_map(g);
    let right = OptionT::<Result<Option<i32>, &str>>::some(5).flat_map(|x| f(x).flat_map(g));
    assert_eq!(left.run(), right.run());
}

#[test]
fn test_option_t_vec() {
    let opt: OptionT<Vec<Option<i32>>> = OptionT::some_vec(42);
    assert_eq!(opt.run(), vec![Some(42)]);

    let mapped = OptionT::some_vec(21).map(|x| x * 2);
    assert_eq!(mapped.run(), vec![Some(42)]);
}


#[test]
fn test_either_t_right() {
    let ok: EitherT<Option<Result<i32, &str>>> = EitherT::right(42);
    assert_eq!(ok.run(), Some(Ok(42)));
}

#[test]
fn test_either_t_left() {
    let err: EitherT<Option<Result<i32, &str>>> = EitherT::left("error");
    assert_eq!(err.run(), Some(Err("error")));
}

#[test]
fn test_either_t_absent() {
    let absent: EitherT<Option<Result<i32, &str>>> = EitherT::absent();
    assert_eq!(absent.run(), None);
}

#[test]
fn test_either_t_map() {
    let ok: EitherT<Option<Result<i32, &str>>> = EitherT::right(21);
    let doubled = ok.map(|x| x * 2);
    assert_eq!(doubled.run(), Some(Ok(42)));

    let err: EitherT<Option<Result<i32, &str>>> = EitherT::left("error");
    let err_mapped = err.map(|x| x * 2);
    assert_eq!(err_mapped.run(), Some(Err("error")));
}

#[test]
fn test_either_t_flat_map() {
    let ok: EitherT<Option<Result<i32, &str>>> = EitherT::right(10);
    let result = ok.flat_map(|x| {
        if x > 5 {
            EitherT::right(x * 2)
        } else {
            EitherT::left("too small")
        }
    });
    assert_eq!(result.run(), Some(Ok(20)));

    let ok2: EitherT<Option<Result<i32, &str>>> = EitherT::right(3);
    let result2 = ok2.flat_map(|x| {
        if x > 5 {
            EitherT::right(x * 2)
        } else {
            EitherT::left("too small")
        }
    });
    assert_eq!(result2.run(), Some(Err("too small")));
}

#[test]
#[allow(clippy::type_complexity)] // spelled-out nested transformer type is the point
fn test_either_t_apply() {
    let val: EitherT<Option<Result<i32, &str>>> = EitherT::right(21);
    let func: EitherT<Option<Result<fn(i32) -> i32, &str>>> = EitherT::right(|x: i32| x * 2);
    let result = val.apply(func);
    assert_eq!(result.run(), Some(Ok(42)));
}

#[test]
fn test_either_t_lift_m() {
    let some: Option<i32> = Some(42);
    let lifted: EitherT<Option<Result<i32, &str>>> = EitherT::lift_m(some);
    assert_eq!(lifted.run(), Some(Ok(42)));

    let none: Option<i32> = None;
    let lifted_none: EitherT<Option<Result<i32, &str>>> = EitherT::lift_m(none);
    assert_eq!(lifted_none.run(), None);
}

#[test]
fn test_either_t_handle_error() {
    let err: EitherT<Option<Result<i32, &str>>> = EitherT::left("error");
    let recovered = err.handle_error(|_| EitherT::right(0));
    assert_eq!(recovered.run(), Some(Ok(0)));
}

// Monad law tests
#[test]
fn test_either_t_left_identity() {
    // pure(a).flat_map(f) == f(a)
    let a = 5;
    let f = |x: i32| EitherT::<Option<Result<i32, &str>>>::right(x * 2);

    let left = EitherT::<Option<Result<i32, &str>>>::right(a).flat_map(f);
    let right = f(a);
    assert_eq!(left.run(), right.run());
}

#[test]
fn test_either_t_right_identity() {
    // m.flat_map(pure) == m
    let m: EitherT<Option<Result<i32, &str>>> = EitherT::right(42);
    let result = m.flat_map(EitherT::right);
    assert_eq!(result.run(), Some(Ok(42)));
}

#[test]
fn test_either_t_associativity() {
    // m.flat_map(f).flat_map(g) == m.flat_map(|x| f(x).flat_map(g))
    let m: EitherT<Option<Result<i32, &str>>> = EitherT::right(5);
    let f = |x: i32| EitherT::<Option<Result<i32, &str>>>::right(x + 1);
    let g = |x: i32| EitherT::<Option<Result<i32, &str>>>::right(x * 2);

    let left = m.flat_map(f).flat_map(g);
    let right = EitherT::<Option<Result<i32, &str>>>::right(5).flat_map(|x| f(x).flat_map(g));
    assert_eq!(left.run(), right.run());
}

#[test]
fn test_either_t_vec() {
    let ok: EitherT<Vec<Result<i32, &str>>> = EitherT::right_vec(42);
    assert_eq!(ok.run(), vec![Ok(42)]);

    let mapped: EitherT<Vec<Result<i32, &str>>> = EitherT::right_vec(21);
    let result = mapped.map_vec(|x| x * 2);
    assert_eq!(result.run(), vec![Ok(42)]);
}


#[test]
fn test_reader_t_new_and_run() {
    let reader: ReaderT<i32, Option<i32>> = ReaderT::new(|env: &i32| Some(*env * 2));
    assert_eq!(reader.run(&21), Some(42));
}

#[test]
fn test_reader_t_pure() {
    let reader: ReaderT<(), Option<i32>> = ReaderT::pure(42);
    assert_eq!(reader.run(&()), Some(42));
}

#[test]
fn test_reader_t_none() {
    let reader: ReaderT<(), Option<i32>> = ReaderT::none();
    assert_eq!(reader.run(&()), None);
}

#[test]
fn test_reader_t_map() {
    let reader: ReaderT<(), Option<i32>> = ReaderT::pure(21);
    let doubled = reader.map(|x| x * 2);
    assert_eq!(doubled.run(&()), Some(42));
}

#[test]
fn test_reader_t_flat_map() {
    let reader: ReaderT<i32, Option<i32>> = ReaderT::new(|env: &i32| Some(*env));
    let chained = reader.flat_map(|val| {
        ReaderT::new(move |env: &i32| if *env > 0 { Some(val * 2) } else { None })
    });
    assert_eq!(chained.run(&5), Some(10));
    assert_eq!(chained.run(&0), None);
}

#[test]
#[allow(clippy::type_complexity)] // spelled-out nested transformer type is the point
fn test_reader_t_apply() {
    let val: ReaderT<(), Option<i32>> = ReaderT::pure(21);
    let func: ReaderT<(), Option<fn(i32) -> i32>> =
        ReaderT::pure((|x: i32| x * 2) as fn(i32) -> i32);
    let result = val.apply(func);
    assert_eq!(result.run(&()), Some(42));
}

#[test]
fn test_reader_t_local() {
    let reader: ReaderT<i32, Option<i32>> = ReaderT::new(|n: &i32| Some(*n * 2));
    let modified = reader.local(|n: &i32| *n + 10);
    assert_eq!(modified.run(&5), Some(30)); // (5 + 10) * 2 = 30
}

#[test]
fn test_reader_t_result() {
    let reader: ReaderT<(), Result<i32, &str>> = ReaderT::ok(42);
    assert_eq!(reader.run(&()), Ok(42));

    let err_reader: ReaderT<(), Result<i32, &str>> = ReaderT::err("error");
    assert_eq!(err_reader.run(&()), Err("error"));
}

#[test]
fn test_reader_t_result_universalis_map() {
    // Test that the Universalis map works with Result
    let reader: ReaderT<(), Result<i32, &str>> = ReaderT::ok(21);
    let doubled = reader.map(|x| x * 2);
    assert_eq!(doubled.run(&()), Ok(42));
}

#[test]
fn test_reader_t_result_universalis_flat_map() {
    // Test that the Universalis flat_map works with Result
    let reader: ReaderT<i32, Result<i32, &str>> = ReaderT::new(|env: &i32| Ok(*env));
    let chained = reader.flat_map(|val| {
        ReaderT::new(move |env: &i32| {
            if *env > 0 {
                Ok(val * 2)
            } else {
                Err("negative")
            }
        })
    });
    assert_eq!(chained.run(&5), Ok(10));
    assert_eq!(chained.run(&0), Err("negative"));
}

// Monad law tests
#[test]
fn test_reader_t_left_identity() {
    // pure(a).flat_map(f) == f(a)
    let a = 5;
    let f = |x: i32| ReaderT::<(), Option<i32>>::pure(x * 2);

    let left = ReaderT::<(), Option<i32>>::pure(a).flat_map(f);
    let right = f(a);
    assert_eq!(left.run(&()), right.run(&()));
}

#[test]
fn test_reader_t_right_identity() {
    // m.flat_map(pure) == m
    let m: ReaderT<(), Option<i32>> = ReaderT::pure(42);
    let result = m.flat_map(ReaderT::pure);
    assert_eq!(result.run(&()), Some(42));
}

#[test]
fn test_reader_t_associativity() {
    // m.flat_map(f).flat_map(g) == m.flat_map(|x| f(x).flat_map(g))
    let f = |x: i32| ReaderT::<(), Option<i32>>::pure(x + 1);
    let g = |x: i32| ReaderT::<(), Option<i32>>::pure(x * 2);

    let left = ReaderT::<(), Option<i32>>::pure(5).flat_map(f).flat_map(g);
    let right = ReaderT::<(), Option<i32>>::pure(5).flat_map(move |x| f(x).flat_map(g));
    assert_eq!(left.run(&()), right.run(&()));
}

#[test]
fn test_reader_t_vec() {
    let reader: ReaderT<(), Vec<i32>> = ReaderT::singleton(42);
    assert_eq!(reader.run(&()), vec![42]);

    let mapped = ReaderT::singleton(21).map(|x| x * 2);
    assert_eq!(mapped.run(&()), vec![42]);
}


#[test]
fn test_state_t_new_and_run() {
    let state_t: StateT<i32, Option<(i32, i32)>> = StateT::new(|s: i32| Some((s + 1, s)));
    assert_eq!(state_t.run(5), Some((6, 5)));
}

#[test]
fn test_state_t_pure() {
    let pure_val: StateT<i32, Option<(i32, &str)>> = StateT::pure("hello");
    assert_eq!(pure_val.run(42), Some((42, "hello")));
}

#[test]
fn test_state_t_none() {
    let fail: StateT<i32, Option<(i32, i32)>> = StateT::none();
    assert_eq!(fail.run(42), None);
}

#[test]
fn test_state_t_get() {
    let get: StateT<i32, Option<(i32, i32)>> = StateT::<i32, Option<(i32, i32)>>::get();
    assert_eq!(get.run(42), Some((42, 42)));
}

#[test]
fn test_state_t_put() {
    let put: StateT<i32, Option<(i32, i32)>> = StateT::<i32, Option<(i32, i32)>>::put(100);
    assert_eq!(put.run(42), Some((100, 42)));
}

#[test]
fn test_state_t_modify() {
    let modify: StateT<i32, Option<(i32, ())>> =
        StateT::<i32, Option<(i32, ())>>::modify(|s| s * 2);
    assert_eq!(modify.run(21), Some((42, ())));
}

#[test]
fn test_state_t_map() {
    let inc: StateT<i32, Option<(i32, i32)>> = StateT::new(|s: i32| Some((s + 1, s)));
    let doubled = inc.map(|v| v * 2);
    assert_eq!(doubled.run(5), Some((6, 10)));
}

#[test]
fn test_state_t_flat_map() {
    let inc: StateT<i32, Option<(i32, i32)>> = StateT::new(|s: i32| Some((s + 1, s)));
    let chained = inc.flat_map(|val| StateT::new(move |s: i32| Some((s * 2, val + s))));
    // Start: 5, inc: (6, 5), then (6*2, 5+6) = (12, 11)
    assert_eq!(chained.run(5), Some((12, 11)));
}

#[test]
fn test_state_t_exec_state() {
    let inc: StateT<i32, Option<(i32, i32)>> = StateT::new(|s: i32| Some((s + 1, s)));
    assert_eq!(inc.exec_state(5), Some(6));
}

#[test]
fn test_state_t_eval_state() {
    let inc: StateT<i32, Option<(i32, i32)>> = StateT::new(|s: i32| Some((s + 1, s)));
    assert_eq!(inc.eval_state(5), Some(5));
}

#[test]
fn test_state_t_result() {
    let ok_val: StateT<i32, Result<(i32, &str), &str>> = StateT::ok("hello");
    assert_eq!(ok_val.run(42), Ok((42, "hello")));

    let err_val: StateT<i32, Result<(i32, &str), &str>> = StateT::err("error");
    assert_eq!(err_val.run(42), Err("error"));
}

#[test]
fn test_state_t_result_flat_map() {
    let inc: StateT<i32, Result<(i32, i32), &str>> = StateT::new(|s: i32| Ok((s + 1, s)));
    let chained = inc.flat_map_ok(|val| {
        StateT::new(move |s: i32| {
            if s > 0 {
                Ok((s * 2, val + s))
            } else {
                Err("negative state")
            }
        })
    });
    assert_eq!(chained.run(5), Ok((12, 11)));
}

// Monad law tests
#[test]
fn test_state_t_left_identity() {
    // pure(a).flat_map(f) == f(a)
    let a = 5;
    let f = |x: i32| StateT::<i32, Option<(i32, i32)>>::pure(x * 2);

    let left = StateT::<i32, Option<(i32, i32)>>::pure(a).flat_map(f);
    let right = f(a);
    assert_eq!(left.run(10), right.run(10));
}

#[test]
fn test_state_t_right_identity() {
    // m.flat_map(pure) == m
    let m: StateT<i32, Option<(i32, i32)>> = StateT::pure(42);
    let result = m.flat_map(StateT::pure);
    assert_eq!(result.run(10), Some((10, 42)));
}

#[test]
fn test_state_t_associativity() {
    // m.flat_map(f).flat_map(g) == m.flat_map(|x| f(x).flat_map(g))
    let f = |x: i32| StateT::<i32, Option<(i32, i32)>>::pure(x + 1);
    let g = |x: i32| StateT::<i32, Option<(i32, i32)>>::pure(x * 2);

    let left = StateT::<i32, Option<(i32, i32)>>::pure(5)
        .flat_map(f)
        .flat_map(g);
    let right = StateT::<i32, Option<(i32, i32)>>::pure(5).flat_map(move |x| f(x).flat_map(g));
    assert_eq!(left.run(10), right.run(10));
}

#[test]
fn test_state_t_vec() {
    let state_t: StateT<i32, Vec<(i32, i32)>> = StateT::singleton(42);
    assert_eq!(state_t.run(10), vec![(10, 42)]);

    let mapped = StateT::singleton(21).map_vec(|x| x * 2);
    assert_eq!(mapped.run(10), vec![(10, 42)]);
}


#[test]
fn test_scriptor_new() {
    let writer: Scriptor<Vec<String>, i32> = Scriptor::new(vec!["test".to_string()], 42);
    let (log, value) = writer.run();
    assert_eq!(value, 42);
    assert_eq!(log, vec!["test".to_string()]);
}

#[test]
fn test_scriptor_pure() {
    let writer: Scriptor<Vec<String>, i32> = Scriptor::pure(42);
    let (log, value) = writer.run();
    assert_eq!(value, 42);
    assert!(log.is_empty());
}

#[test]
fn test_scriptor_dictum() {
    let writer: Scriptor<Vec<String>, ()> =
        Scriptor::<Vec<String>, ()>::dictum(vec!["message".to_string()]);
    let (log, value) = writer.run();
    assert_eq!(value, ());
    assert_eq!(log, vec!["message".to_string()]);
}

#[test]
fn test_scriptor_map() {
    let writer = Scriptor::new(vec!["start".to_string()], 21);
    let doubled = writer.map(|x| x * 2);
    let (log, value) = doubled.run();
    assert_eq!(value, 42);
    assert_eq!(log, vec!["start".to_string()]);
}

#[test]
fn test_scriptor_flat_map() {
    let writer = Scriptor::new(vec!["step1".to_string()], 10);
    let result = writer.flat_map(|x| Scriptor::new(vec!["step2".to_string()], x + 5));

    let (log, value) = result.run();
    assert_eq!(value, 15);
    assert_eq!(log, vec!["step1".to_string(), "step2".to_string()]);
}

#[test]
fn test_scriptor_chain() {
    let result = Scriptor::new(vec!["A".to_string()], 1)
        .flat_map(|a| Scriptor::new(vec!["B".to_string()], a + 1))
        .flat_map(|b| Scriptor::new(vec!["C".to_string()], b + 1));

    let (log, value) = result.run();
    assert_eq!(value, 3);
    assert_eq!(log, vec!["A".to_string(), "B".to_string(), "C".to_string()]);
}

#[test]
fn test_scriptor_listen() {
    let writer = Scriptor::new(vec!["log".to_string()], 42);
    let listened = writer.listen();
    let (outer_log, (value, inner_log)) = listened.run();
    assert_eq!(value, 42);
    assert_eq!(inner_log, vec!["log".to_string()]);
    assert_eq!(outer_log, vec!["log".to_string()]);
}

#[test]
fn test_scriptor_censor() {
    let writer = Scriptor::new(vec!["hello".to_string()], 42);
    let censored = writer.censor(|log| log.into_iter().map(|s| s.to_uppercase()).collect());
    let (log, value) = censored.run();
    assert_eq!(value, 42);
    assert_eq!(log, vec!["HELLO".to_string()]);
}

#[test]
fn test_scriptor_left_identity() {
    // pure(a).bind(f) == f(a)
    let a = 5;
    let f = |x: i32| Scriptor::new(vec!["f".to_string()], x * 2);

    let left: Scriptor<Vec<String>, _> = Scriptor::pure(a).bind(f);
    let right = f(a);

    assert_eq!(left.run(), right.run());
}

#[test]
fn test_scriptor_right_identity() {
    // m.bind(pure) == m
    let m = Scriptor::new(vec!["m".to_string()], 42);
    let bound = m.clone().bind(Scriptor::pure);

    assert_eq!(m.run(), bound.run());
}

#[test]
fn test_scriptor_associativity() {
    // (m.bind(f)).bind(g) == m.bind(|x| f(x).bind(g))
    let m = Scriptor::new(vec!["m".to_string()], 5);
    let f = |x: i32| Scriptor::new(vec!["f".to_string()], x + 1);
    let g = |x: i32| Scriptor::new(vec!["g".to_string()], x * 2);

    let left = m.clone().bind(f).bind(g);
    let right = m.bind(|x| f(x).bind(g));

    assert_eq!(left.run(), right.run());
}
