//! Hints for the optimizer: branch likelihood, code temperature, prefetch,
//! optimization barriers and spin loops. None of them changes a result.

use vstd::prelude::*;

verus! {

/// `core::hint::black_box` is documented as an identity function that the
/// optimizer must treat as opaque: this states that it returns its argument.
pub assume_specification<T>[ core::hint::black_box::<T> ](dummy: T) -> (r: T)
    ensures
        r == dummy,
;

/// `core::hint::spin_loop` only signals a busy-wait to the processor; it
/// takes and returns nothing, so nothing is stated of it.
pub assume_specification[ core::hint::spin_loop ]();

/// Hint that a condition is likely true; returns the condition.
pub fn likely(b: bool) -> (r: bool)
    ensures
        r == b,
{
    b
}

/// Hint that a condition is likely false; returns the condition.
pub fn unlikely(b: bool) -> (r: bool)
    ensures
        r == b,
{
    b
}

/// Run a rarely taken path.
#[inline(never)]
pub fn cold_path<F, R>(f: F) -> (r: R) where F: FnOnce() -> R
    requires
        f.requires(()),
    ensures
        f.ensures((), r),
{
    f()
}

/// Run a frequently taken path.
#[inline(always)]
pub fn hot_path<F, R>(f: F) -> (r: R) where F: FnOnce() -> R
    requires
        f.requires(()),
    ensures
        f.ensures((), r),
{
    f()
}

/// Hint that `data` will be read soon (a no-op on this platform).
pub fn prefetch_read<T>(_data: &T) {
}

/// Hint that `data` will be written soon (a no-op on this platform).
pub fn prefetch_write<T>(_data: &mut T)
    ensures
        *final(_data) == *old(_data),
{
}

/// An optimization barrier: returns its argument unchanged.
pub fn black_box<T>(x: T) -> (r: T)
    ensures
        r == x,
{
    core::hint::black_box(x)
}

/// Signal a spin-wait loop to the processor.
pub fn spin_loop_hint() {
    core::hint::spin_loop();
}

} // verus!
