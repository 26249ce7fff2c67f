use std::marker::PhantomData;

use ordofp_core::specialization::{
    black_box, cold_path, fits_in_cache_line, hot_path, instances_per_cache_line, likely,
    prefetch_read, prefetch_write, unlikely, Distinct, Effectful, InlineHint, LayoutInfo, Mono,
    NoInlineHint, OptimizationHints, Pure, SizeCategory, SmallType, Stateful, ZeroSized,
};

#[test]
fn test_likely_unlikely() {
    // These should compile and run without issues
    assert!(likely(true));
    assert!(!likely(false));
    assert!(unlikely(true));
    assert!(!unlikely(false));
}

#[test]
fn test_cold_hot_paths() {
    let result = cold_path(|| 42);
    assert_eq!(result, 42);

    let result = hot_path(|| 100);
    assert_eq!(result, 100);
}

#[test]
fn test_black_box() {
    let x = black_box(42);
    assert_eq!(x, 42);
}

#[test]
fn test_prefetch() {
    let data = 42i32;
    prefetch_read(&data);

    let mut mutable = 42i32;
    prefetch_write(&mut mutable);
}





#[test]
fn test_layout_info() {
    assert_eq!(LayoutInfo::<u32>::size(), 4);
    assert_eq!(LayoutInfo::<u64>::size(), 8);
    assert!(LayoutInfo::<()>::is_zst());
    assert!(LayoutInfo::<u64>::fits_in_register());
}

#[test]
fn test_size_category() {
    assert_eq!(SizeCategory::of::<()>(), SizeCategory::Zero);
    assert_eq!(SizeCategory::of::<u8>(), SizeCategory::Tiny);
    assert_eq!(SizeCategory::of::<u64>(), SizeCategory::Tiny);
    assert_eq!(SizeCategory::of::<[u64; 3]>(), SizeCategory::Small);
    assert_eq!(SizeCategory::of::<[u64; 10]>(), SizeCategory::Medium);
    assert_eq!(SizeCategory::of::<[u64; 100]>(), SizeCategory::Large);
}

#[test]
fn test_optimization_hints() {
    assert!(OptimizationHints::<u32>::pass_by_value());
    assert!(OptimizationHints::<u8>::should_inline());
    assert!(OptimizationHints::<[u8; 1000]>::should_box());
}

#[test]
fn test_cache_optimization() {
    assert!(fits_in_cache_line::<u64>());
    assert!(fits_in_cache_line::<[u8; 64]>());
    assert!(!fits_in_cache_line::<[u8; 65]>());

    assert_eq!(instances_per_cache_line::<u64>(), 8);
    assert_eq!(instances_per_cache_line::<u8>(), 64);
}



#[test]
fn markers_test_mono_marker() {
    let _m1: Mono<i32> = Mono::new();
    let _m2: Mono<String> = Mono::default();
}

#[test]
fn test_distinct_marker() {
    let _d1: Distinct<i32, 1> = Distinct::new();
    let _d2: Distinct<i32, 2> = Distinct::new();
}

#[test]
fn test_effect_markers() {
    let _ = Pure;
    let _: Stateful<i32> = Stateful::new();
    let _: Effectful<()> = Effectful::new();
}

#[test]
fn test_inline_hint() {
    let hint = InlineHint::new(|x: i32| x * 2);
    assert_eq!(hint.call(21), 42);
}

#[test]
fn test_no_inline_hint() {
    let hint = NoInlineHint::new(|x: i32| x + 1);
    assert_eq!(hint.call(41), 42);
}

#[test]
fn test_zero_sized() {
    assert!(<()>::is_zst());
    assert!(<PhantomData<i32>>::is_zst());
}

#[test]
fn test_small_type() {
    assert!(u32::is_small());
    assert!(u64::is_small());
}
