//! Types that must fit within their bounds to be constructed.
use vstd::prelude::*;

pub mod generic;
pub mod bounded_i128;
pub mod bounded_i16;
pub mod bounded_i32;
pub mod bounded_i64;
pub mod bounded_i8;
pub mod bounded_isize;
pub mod bounded_u128;
pub mod bounded_u16;
pub mod bounded_u32;
pub mod bounded_u64;
pub mod bounded_u8;
pub mod bounded_usize;

pub use generic::Bounded;
pub use bounded_i128::BoundedI128;
pub use bounded_i16::BoundedI16;
pub use bounded_i32::BoundedI32;
pub use bounded_i64::BoundedI64;
pub use bounded_i8::BoundedI8;
pub use bounded_isize::BoundedISize;
pub use bounded_u128::BoundedU128;
pub use bounded_u16::BoundedU16;
pub use bounded_u32::BoundedU32;
pub use bounded_u64::BoundedU64;
pub use bounded_u8::BoundedU8;
pub use bounded_usize::BoundedUSize;

verus! {

/// Why a value was refused.
#[derive(Clone, Copy, Debug, PartialEq, Eq, Structural)]
pub enum BoundsError {
    /// The value lies below the lower bound.
    TooSmall,
    /// The value lies at or above the upper bound.
    TooLarge,
}

/// Why `v` cannot be stored between `min` and `max`, if it cannot.
pub open spec fn rejection(v: int, min: int, max: int) -> Option<BoundsError> {
    if v >= max {
        Some(BoundsError::TooLarge)
    } else if v < min {
        Some(BoundsError::TooSmall)
    } else {
        None
    }
}

/// With the bounds in order, a value is let in exactly when it lies in
/// `min..max`, it is too small exactly when it lies below `min`, and it is
/// too large exactly when it lies at or above `max`.
pub proof fn lemma_rejection_exact(v: int, min: int, max: int)
    requires
        min < max,
    ensures
        rejection(v, min, max) is None <==> min <= v < max,
        rejection(v, min, max) == Some(BoundsError::TooSmall) <==> v < min,
        rejection(v, min, max) == Some(BoundsError::TooLarge) <==> v >= max,
{
}

} // verus!
