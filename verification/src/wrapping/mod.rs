//! Types that wrap around to stay inside their bounds.

pub mod generic;
pub mod wrapping_i128;
pub mod wrapping_i16;
pub mod wrapping_i32;
pub mod wrapping_i64;
pub mod wrapping_i8;
pub mod wrapping_isize;
pub mod wrapping_u128;
pub mod wrapping_u16;
pub mod wrapping_u32;
pub mod wrapping_u64;
pub mod wrapping_u8;
pub mod wrapping_usize;

pub use generic::Wrapping;
pub use wrapping_i128::WrappingI128;
pub use wrapping_i16::WrappingI16;
pub use wrapping_i32::WrappingI32;
pub use wrapping_i64::WrappingI64;
pub use wrapping_i8::WrappingI8;
pub use wrapping_isize::WrappingISize;
pub use wrapping_u128::WrappingU128;
pub use wrapping_u16::WrappingU16;
pub use wrapping_u32::WrappingU32;
pub use wrapping_u64::WrappingU64;
pub use wrapping_u8::WrappingU8;
pub use wrapping_usize::WrappingUSize;
