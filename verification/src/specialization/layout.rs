//! Layout information about types and the optimization decisions drawn
//! from it.

use core::marker::PhantomData;
use core::mem;
use vstd::layout::{align_of, size_of};
use vstd::prelude::*;

verus! {

broadcast use vstd::layout::group_align_properties;

/// Layout queries about `T`.
pub struct LayoutInfo<T> {
    _marker: PhantomData<T>,
}

impl<T> LayoutInfo<T> {
    /// Create a layout query object.
    pub fn new() -> (r: Self) {
        LayoutInfo { _marker: PhantomData }
    }

    /// The size of `T` in bytes.
    pub fn size() -> (r: usize)
        ensures
            r == size_of::<T>(),
    {
        mem::size_of::<T>()
    }

    /// The alignment of `T` in bytes.
    pub fn align() -> (r: usize)
        ensures
            r == align_of::<T>(),
    {
        mem::align_of::<T>()
    }

    /// Whether `T` is zero-sized.
    pub fn is_zst() -> (r: bool)
        ensures
            r == (size_of::<T>() == 0),
    {
        mem::size_of::<T>() == 0
    }

    /// Whether `T` fits in one machine register.
    pub fn fits_in_register() -> (r: bool)
        ensures
            r == (size_of::<T>() <= size_of::<usize>()),
    {
        mem::size_of::<T>() <= mem::size_of::<usize>()
    }

    /// Whether `T` fits in two machine registers.
    pub fn fits_in_two_registers() -> (r: bool)
        ensures
            r == (size_of::<T>() <= 2 * size_of::<usize>()),
    {
        let word = mem::size_of::<usize>();
        assert(word <= 8) by {
            vstd::layout::usize_size_pow2();
        }
        mem::size_of::<T>() <= 2 * word
    }

    /// Whether `T` is exactly pointer-sized.
    pub fn is_pointer_sized() -> (r: bool)
        ensures
            r == (size_of::<T>() == size_of::<usize>()),
    {
        mem::size_of::<T>() == mem::size_of::<usize>()
    }

    /// The padding needed after `current_offset` to align a `T`.
    pub fn padding_needed(current_offset: usize) -> (r: usize)
        ensures
            current_offset as nat % align_of::<T>() == 0 ==> r == 0,
            current_offset as nat % align_of::<T>() != 0 ==> r == align_of::<T>() - (
            current_offset as nat % align_of::<T>()),
    {
        let align = mem::align_of::<T>();
        let misalign = current_offset % align;
        if misalign == 0 {
            0
        } else {
            align - misalign
        }
    }
}

impl<T> Default for LayoutInfo<T> {
    /// Same as `new`.
    fn default() -> (r: Self) {
        Self::new()
    }
}

/// Size classes that drive optimization decisions.
#[derive(Debug, Clone, Copy, PartialEq, Eq, Structural)]
pub enum SizeCategory {
    /// Zero-sized.
    Zero,
    /// 1 to 8 bytes.
    Tiny,
    /// 9 to 32 bytes.
    Small,
    /// 33 to 256 bytes.
    Medium,
    /// More than 256 bytes.
    Large,
}

/// The size class of a size in bytes.
pub open spec fn category_of_size(size: int) -> SizeCategory {
    if size == 0 {
        SizeCategory::Zero
    } else if size <= 8 {
        SizeCategory::Tiny
    } else if size <= 32 {
        SizeCategory::Small
    } else if size <= 256 {
        SizeCategory::Medium
    } else {
        SizeCategory::Large
    }
}

impl SizeCategory {
    /// The size class of `size` bytes.
    pub fn from_size(size: usize) -> (r: Self)
        ensures
            r == category_of_size(size as int),
    {
        if size == 0 {
            SizeCategory::Zero
        } else if size <= 8 {
            SizeCategory::Tiny
        } else if size <= 32 {
            SizeCategory::Small
        } else if size <= 256 {
            SizeCategory::Medium
        } else {
            SizeCategory::Large
        }
    }

    /// The size class of `T`.
    pub fn of<T>() -> (r: Self)
        ensures
            r == category_of_size(size_of::<T>() as int),
    {
        Self::from_size(mem::size_of::<T>())
    }

    /// Whether values of this class are cheap to pass by value.
    pub fn pass_by_value(self) -> (r: bool)
        ensures
            r == (self == SizeCategory::Zero || self == SizeCategory::Tiny || self
                == SizeCategory::Small),
    {
        matches!(self, SizeCategory::Zero | SizeCategory::Tiny | SizeCategory::Small)
    }

    /// Whether inlining is beneficial for values of this class.
    pub fn inline_beneficial(self) -> (r: bool)
        ensures
            r == (self == SizeCategory::Zero || self == SizeCategory::Tiny),
    {
        matches!(self, SizeCategory::Zero | SizeCategory::Tiny)
    }
}

/// Optimization decisions for `T`, derived from its size class.
pub struct OptimizationHints<T> {
    _marker: PhantomData<T>,
}

impl<T> OptimizationHints<T> {
    /// Create a hints object.
    pub fn new() -> (r: Self) {
        OptimizationHints { _marker: PhantomData }
    }

    /// Whether `T` should be passed by value (at most 32 bytes).
    pub fn pass_by_value() -> (r: bool)
        ensures
            r == (size_of::<T>() <= 32),
    {
        SizeCategory::of::<T>().pass_by_value()
    }

    /// Whether functions on `T` should be inlined (at most 8 bytes).
    pub fn should_inline() -> (r: bool)
        ensures
            r == (size_of::<T>() <= 8),
    {
        SizeCategory::of::<T>().inline_beneficial()
    }

    /// Whether `T` should be boxed (more than 256 bytes).
    pub fn should_box() -> (r: bool)
        ensures
            r == (size_of::<T>() > 256),
    {
        matches!(SizeCategory::of::<T>(), SizeCategory::Large)
    }

    /// Whether `T` should live in an arena (9 to 256 bytes).
    pub fn use_arena() -> (r: bool)
        ensures
            r == (8 < size_of::<T>() <= 256),
    {
        matches!(SizeCategory::of::<T>(), SizeCategory::Small | SizeCategory::Medium)
    }
}

impl<T> Default for OptimizationHints<T> {
    /// Same as `new`.
    fn default() -> (r: Self) {
        Self::new()
    }
}

/// Cache line size in bytes (common value for x86_64 and ARM64).
pub const CACHE_LINE_SIZE: usize = 64;

/// Whether `T` fits in a single cache line.
pub fn fits_in_cache_line<T>() -> (r: bool)
    ensures
        r == (size_of::<T>() <= CACHE_LINE_SIZE),
{
    mem::size_of::<T>() <= CACHE_LINE_SIZE
}

/// How many values of `T` fit in one cache line (`usize::MAX` for
/// zero-sized types).
pub fn instances_per_cache_line<T>() -> (r: usize)
    ensures
        size_of::<T>() == 0 ==> r == usize::MAX,
        size_of::<T>() != 0 ==> r == CACHE_LINE_SIZE as nat / size_of::<T>(),
{
    let size = mem::size_of::<T>();
    if size == 0 {
        usize::MAX
    } else {
        CACHE_LINE_SIZE / size
    }
}

/// Marker for types with C-compatible layout.
pub trait CRepr {}

/// Marker for packed types.
pub trait Packed {}

/// Marker for transparent wrappers.
pub trait Transparent {}

} // verus!
