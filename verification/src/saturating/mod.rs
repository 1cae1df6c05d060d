//! Types that are pinned to the nearest bound to stay inside their bounds.

pub mod generic;
pub mod saturating_i128;
pub mod saturating_i16;
pub mod saturating_i32;
pub mod saturating_i64;
pub mod saturating_i8;
pub mod saturating_isize;
pub mod saturating_u128;
pub mod saturating_u16;
pub mod saturating_u32;
pub mod saturating_u64;
pub mod saturating_u8;
pub mod saturating_usize;

pub use generic::Saturating;
pub use saturating_i128::SaturatingI128;
pub use saturating_i16::SaturatingI16;
pub use saturating_i32::SaturatingI32;
pub use saturating_i64::SaturatingI64;
pub use saturating_i8::SaturatingI8;
pub use saturating_isize::SaturatingISize;
pub use saturating_u128::SaturatingU128;
pub use saturating_u16::SaturatingU16;
pub use saturating_u32::SaturatingU32;
pub use saturating_u64::SaturatingU64;
pub use saturating_u8::SaturatingU8;
pub use saturating_usize::SaturatingUSize;
