//! Specialization support: optimizer hints, layout queries and markers.

pub mod hints;
pub mod layout;
pub mod markers;

pub use hints::{
    black_box, cold_path, hot_path, likely, prefetch_read, prefetch_write, spin_loop_hint,
    unlikely,
};
pub use layout::{
    CACHE_LINE_SIZE, CRepr, LayoutInfo, OptimizationHints, Packed, SizeCategory, Transparent,
    category_of_size, fits_in_cache_line, instances_per_cache_line,
};
pub use markers::{
    DefaultSpec, Distinct, Effectful, FuseWith, Fusible, InlineHint, InlineSpec, LargeSpec, Mono,
    NoFuse, NoInlineHint, NoInlineSpec, Pure, SmallSpec, SmallType, Specialize, Stateful,
    ZeroSized,
};
