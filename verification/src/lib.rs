//! Wrapping, saturating, and other forms of number clamping.
//!
//! Three families of numeric wrapper keep a value inside a pair of bounds:
//!
//! - [`bounded`]: a value outside `min..max` cannot be made at all;
//! - [`wrapping`]: a value is folded into `min..max` modulo the width of
//!   the range;
//! - [`saturating`]: a value is pinned to the nearest bound.
//!
//! Each family comes in three shapes.
//!
//! - A generic form over any ordered type (`Wrapping<T>`), which stores its
//!   bounds next to the value and works through the operators of `T`.
//!   What is proved of it holds for every `T` whose operators do what
//!   their specifications say, as those of the primitive integers do.
//! - One form for each unsigned integer type (`WrappingU32<MIN, MAX>`),
//!   whose bounds are fixed by the type.
//! - One form for each signed integer type (`WrappingI32`), which stores
//!   its bounds next to the value.
//!
//! Making a value takes it on trust that the lower bound is less than the
//! upper bound: that is a precondition of every constructor.
//!
//! The plain operators `+ - * / %` hand back the raw result of the
//! operation on the stored value and never put it back into the range.
//! The assigning operators of the wrapping and saturating families do put
//! it back; on the integer forms they work on the exact mathematical
//! result and never overflow, so that only division by zero is excluded.
//! Comparisons look at the stored value alone.
//!
//! The mathematical meaning of the three disciplines lives in [`model`],
//! together with the laws that hold of them; the contracts of the integer
//! forms are phrased over it. The arithmetic that never overflows lives in
//! [`wide`].
pub mod bounded;
pub mod model;
pub mod saturating;
pub mod text;
pub mod wide;
pub mod wrapping;
