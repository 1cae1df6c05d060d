//! A `u32` that is pinned inside bounds fixed by its type.
use crate::model::clamp;
use crate::model::in_closed_range;
use crate::model::lemma_product_sign;
use crate::model::lemma_quotient_bounds;
use crate::model::quotient;
use crate::model::remainder;
use core::cmp::Ordering;
use core::ops::Add;
use core::ops::AddAssign;
use core::ops::Div;
use core::ops::DivAssign;
use core::ops::Mul;
use core::ops::MulAssign;
use core::ops::RangeInclusive;
use core::ops::Rem;
use core::ops::RemAssign;
use core::ops::Sub;
use core::ops::SubAssign;
use vstd::prelude::*;
use vstd::std_specs::cmp::PartialEqSpecImpl;
use vstd::std_specs::cmp::PartialOrdSpecImpl;
use vstd::std_specs::ops::AddSpecImpl;
use vstd::std_specs::ops::DivSpecImpl;
use vstd::std_specs::ops::MulSpecImpl;
use vstd::std_specs::ops::RemSpecImpl;
use vstd::std_specs::ops::SubSpecImpl;

verus! {

/// A `u32` kept inside `MIN..=MAX` by pinning it to the nearest bound.
///
/// The plain operators hand back the raw `u32` result; the assigning
/// operators pin their result back into the range.
#[derive(Debug, Clone, Copy, Eq, Ord)]
pub struct SaturatingU32<const MIN: u32, const MAX: u32>(u32);

impl<const MIN: u32, const MAX: u32> SaturatingU32<MIN, MAX> {
    #[verifier::type_invariant]
    spec fn in_bounds(self) -> bool {
        MIN < MAX && MIN <= self.0 <= MAX
    }

    /// The stored value.
    pub closed spec fn value(self) -> u32 {
        self.0
    }

    /// Pins `inner` into `MIN..=MAX`.
    pub fn new(inner: u32) -> (r: Self)
        requires
            MIN < MAX,
        ensures
            r.value() == clamp(inner as int, MIN as int, MAX as int),
            in_closed_range(inner as int, MIN as int, MAX as int) ==> r.value() == inner,
    {
        if inner >= MAX {
            Self(MAX)
        } else if inner < MIN {
            Self(MIN)
        } else {
            Self(inner)
        }
    }

    /// The stored value, which always lies in `MIN..=MAX`.
    pub fn inner(&self) -> (r: u32)
        ensures
            r == self.value(),
            MIN <= r <= MAX,
    {
        proof {
            use_type_invariant(self);
        }
        self.0
    }

    /// The range the value lives in.
    pub fn range(&self) -> (r: RangeInclusive<u32>)
        ensures
            r@.start == MIN,
            r@.end == MAX,
            !r@.exhausted,
            r@.start < r@.end,
    {
        proof {
            use_type_invariant(self);
        }
        MIN..=MAX
    }

    /// The lower bound, which the value may reach.
    pub fn min_bound(&self) -> (r: u32)
        ensures
            r == MIN,
    {
        MIN
    }

    /// The upper bound, which the value may reach.
    pub fn max_bound(&self) -> (r: u32)
        ensures
            r == MAX,
    {
        MAX
    }
}

/// The raw sum of the stored value and a bare number. It may lie outside the
/// bounds.
impl<const MIN: u32, const MAX: u32> Add<u32> for SaturatingU32<MIN, MAX> {
    type Output = u32;

    fn add(self, other: u32) -> (r: u32) {
        self.0 + other
    }
}

impl<const MIN: u32, const MAX: u32> AddSpecImpl<u32> for SaturatingU32<MIN, MAX> {
    open spec fn obeys_add_spec() -> bool {
        true
    }

    open spec fn add_req(self, other: u32) -> bool {
        u32::MIN <= self.value() + other <= u32::MAX
    }

    open spec fn add_spec(self, other: u32) -> u32 {
        (self.value() + other) as u32
    }
}

/// The raw sum of the stored value and the value stored in another instance. It
/// may lie outside the bounds.
impl<
    const MIN: u32,
    const MAX: u32,
    const OTHER_MIN: u32,
    const OTHER_MAX: u32,
> Add<SaturatingU32<OTHER_MIN, OTHER_MAX>> for SaturatingU32<MIN, MAX> {
    type Output = u32;

    fn add(self, other: SaturatingU32<OTHER_MIN, OTHER_MAX>) -> (r: u32) {
        self.0 + other.0
    }
}

impl<
    const MIN: u32,
    const MAX: u32,
    const OTHER_MIN: u32,
    const OTHER_MAX: u32,
> AddSpecImpl<SaturatingU32<OTHER_MIN, OTHER_MAX>> for SaturatingU32<MIN, MAX> {
    open spec fn obeys_add_spec() -> bool {
        true
    }

    open spec fn add_req(self, other: SaturatingU32<OTHER_MIN, OTHER_MAX>) -> bool {
        u32::MIN <= self.value() + other.value() <= u32::MAX
    }

    open spec fn add_spec(self, other: SaturatingU32<OTHER_MIN, OTHER_MAX>) -> u32 {
        (self.value() + other.value()) as u32
    }
}

/// The raw difference of the stored value and a bare number. It may lie outside
/// the bounds.
impl<const MIN: u32, const MAX: u32> Sub<u32> for SaturatingU32<MIN, MAX> {
    type Output = u32;

    fn sub(self, other: u32) -> (r: u32) {
        self.0 - other
    }
}

impl<const MIN: u32, const MAX: u32> SubSpecImpl<u32> for SaturatingU32<MIN, MAX> {
    open spec fn obeys_sub_spec() -> bool {
        true
    }

    open spec fn sub_req(self, other: u32) -> bool {
        u32::MIN <= self.value() - other <= u32::MAX
    }

    open spec fn sub_spec(self, other: u32) -> u32 {
        (self.value() - other) as u32
    }
}

/// The raw difference of the stored value and the value stored in another
/// instance. It may lie outside the bounds.
impl<
    const MIN: u32,
    const MAX: u32,
    const OTHER_MIN: u32,
    const OTHER_MAX: u32,
> Sub<SaturatingU32<OTHER_MIN, OTHER_MAX>> for SaturatingU32<MIN, MAX> {
    type Output = u32;

    fn sub(self, other: SaturatingU32<OTHER_MIN, OTHER_MAX>) -> (r: u32) {
        self.0 - other.0
    }
}

impl<
    const MIN: u32,
    const MAX: u32,
    const OTHER_MIN: u32,
    const OTHER_MAX: u32,
> SubSpecImpl<SaturatingU32<OTHER_MIN, OTHER_MAX>> for SaturatingU32<MIN, MAX> {
    open spec fn obeys_sub_spec() -> bool {
        true
    }

    open spec fn sub_req(self, other: SaturatingU32<OTHER_MIN, OTHER_MAX>) -> bool {
        u32::MIN <= self.value() - other.value() <= u32::MAX
    }

    open spec fn sub_spec(self, other: SaturatingU32<OTHER_MIN, OTHER_MAX>) -> u32 {
        (self.value() - other.value()) as u32
    }
}

/// The raw product of the stored value and a bare number. It may lie outside
/// the bounds.
impl<const MIN: u32, const MAX: u32> Mul<u32> for SaturatingU32<MIN, MAX> {
    type Output = u32;

    fn mul(self, other: u32) -> (r: u32) {
        self.0 * other
    }
}

impl<const MIN: u32, const MAX: u32> MulSpecImpl<u32> for SaturatingU32<MIN, MAX> {
    open spec fn obeys_mul_spec() -> bool {
        true
    }

    open spec fn mul_req(self, other: u32) -> bool {
        u32::MIN <= self.value() * other <= u32::MAX
    }

    open spec fn mul_spec(self, other: u32) -> u32 {
        (self.value() * other) as u32
    }
}

/// The raw product of the stored value and the value stored in another
/// instance. It may lie outside the bounds.
impl<
    const MIN: u32,
    const MAX: u32,
    const OTHER_MIN: u32,
    const OTHER_MAX: u32,
> Mul<SaturatingU32<OTHER_MIN, OTHER_MAX>> for SaturatingU32<MIN, MAX> {
    type Output = u32;

    fn mul(self, other: SaturatingU32<OTHER_MIN, OTHER_MAX>) -> (r: u32) {
        self.0 * other.0
    }
}

impl<
    const MIN: u32,
    const MAX: u32,
    const OTHER_MIN: u32,
    const OTHER_MAX: u32,
> MulSpecImpl<SaturatingU32<OTHER_MIN, OTHER_MAX>> for SaturatingU32<MIN, MAX> {
    open spec fn obeys_mul_spec() -> bool {
        true
    }

    open spec fn mul_req(self, other: SaturatingU32<OTHER_MIN, OTHER_MAX>) -> bool {
        u32::MIN <= self.value() * other.value() <= u32::MAX
    }

    open spec fn mul_spec(self, other: SaturatingU32<OTHER_MIN, OTHER_MAX>) -> u32 {
        (self.value() * other.value()) as u32
    }
}

/// The raw quotient of the stored value and a bare number. It may lie outside
/// the bounds.
impl<const MIN: u32, const MAX: u32> Div<u32> for SaturatingU32<MIN, MAX> {
    type Output = u32;

    fn div(self, other: u32) -> (r: u32) {
        proof {
            lemma_quotient_bounds(self.value() as int, other as int);
        }
        self.0 / other
    }
}

impl<const MIN: u32, const MAX: u32> DivSpecImpl<u32> for SaturatingU32<MIN, MAX> {
    open spec fn obeys_div_spec() -> bool {
        true
    }

    open spec fn div_req(self, other: u32) -> bool {
        other != 0
    }

    open spec fn div_spec(self, other: u32) -> u32 {
        quotient(self.value() as int, other as int) as u32
    }
}

/// The raw quotient of the stored value and the value stored in another
/// instance. It may lie outside the bounds.
impl<
    const MIN: u32,
    const MAX: u32,
    const OTHER_MIN: u32,
    const OTHER_MAX: u32,
> Div<SaturatingU32<OTHER_MIN, OTHER_MAX>> for SaturatingU32<MIN, MAX> {
    type Output = u32;

    fn div(self, other: SaturatingU32<OTHER_MIN, OTHER_MAX>) -> (r: u32) {
        proof {
            lemma_quotient_bounds(self.value() as int, other.value() as int);
        }
        self.0 / other.0
    }
}

impl<
    const MIN: u32,
    const MAX: u32,
    const OTHER_MIN: u32,
    const OTHER_MAX: u32,
> DivSpecImpl<SaturatingU32<OTHER_MIN, OTHER_MAX>> for SaturatingU32<MIN, MAX> {
    open spec fn obeys_div_spec() -> bool {
        true
    }

    open spec fn div_req(self, other: SaturatingU32<OTHER_MIN, OTHER_MAX>) -> bool {
        other.value() != 0
    }

    open spec fn div_spec(self, other: SaturatingU32<OTHER_MIN, OTHER_MAX>) -> u32 {
        quotient(self.value() as int, other.value() as int) as u32
    }
}

/// The raw remainder of the stored value and a bare number. It may lie outside
/// the bounds.
impl<const MIN: u32, const MAX: u32> Rem<u32> for SaturatingU32<MIN, MAX> {
    type Output = u32;

    fn rem(self, other: u32) -> (r: u32) {
        self.0 % other
    }
}

impl<const MIN: u32, const MAX: u32> RemSpecImpl<u32> for SaturatingU32<MIN, MAX> {
    open spec fn obeys_rem_spec() -> bool {
        true
    }

    open spec fn rem_req(self, other: u32) -> bool {
        other != 0
    }

    open spec fn rem_spec(self, other: u32) -> u32 {
        remainder(self.value() as int, other as int) as u32
    }
}

/// The raw remainder of the stored value and the value stored in another
/// instance. It may lie outside the bounds.
impl<
    const MIN: u32,
    const MAX: u32,
    const OTHER_MIN: u32,
    const OTHER_MAX: u32,
> Rem<SaturatingU32<OTHER_MIN, OTHER_MAX>> for SaturatingU32<MIN, MAX> {
    type Output = u32;

    fn rem(self, other: SaturatingU32<OTHER_MIN, OTHER_MAX>) -> (r: u32) {
        self.0 % other.0
    }
}

impl<
    const MIN: u32,
    const MAX: u32,
    const OTHER_MIN: u32,
    const OTHER_MAX: u32,
> RemSpecImpl<SaturatingU32<OTHER_MIN, OTHER_MAX>> for SaturatingU32<MIN, MAX> {
    open spec fn obeys_rem_spec() -> bool {
        true
    }

    open spec fn rem_req(self, other: SaturatingU32<OTHER_MIN, OTHER_MAX>) -> bool {
        other.value() != 0
    }

    open spec fn rem_spec(self, other: SaturatingU32<OTHER_MIN, OTHER_MAX>) -> u32 {
        remainder(self.value() as int, other.value() as int) as u32
    }
}

/// Adds a bare number and pins the exact result back into the range. Nothing
/// overflows on the way, however large the operand is.
impl<const MIN: u32, const MAX: u32> AddAssign<u32> for SaturatingU32<MIN, MAX> {
    fn add_assign(&mut self, other: u32)
        ensures
            final(self).value() == clamp(old(self).value() + other, MIN as int, MAX as int),
            old(self).value() == MAX ==> final(self).value() == MAX,
    {
        proof {
            use_type_invariant(&*self);
        }
        *self = match self.0.checked_add(other) {
            Some(exact) => Self::new(exact),
            None => Self(MAX),
        };
    }
}

/// Adds the value stored in another instance and pins the exact result back
/// into the range. Nothing overflows on the way, however large the operand is.
impl<
    const MIN: u32,
    const MAX: u32,
    const OTHER_MIN: u32,
    const OTHER_MAX: u32,
> AddAssign<SaturatingU32<OTHER_MIN, OTHER_MAX>> for SaturatingU32<MIN, MAX> {
    fn add_assign(&mut self, other: SaturatingU32<OTHER_MIN, OTHER_MAX>)
        ensures
            final(self).value() == clamp(old(self).value() + other.value(), MIN as int, MAX as int),
            old(self).value() == MAX ==> final(self).value() == MAX,
    {
        proof {
            use_type_invariant(&*self);
        }
        *self = match self.0.checked_add(other.0) {
            Some(exact) => Self::new(exact),
            None => Self(MAX),
        };
    }
}

/// Takes away a bare number and pins the exact result back into the range.
/// Nothing overflows on the way, however large the operand is.
impl<const MIN: u32, const MAX: u32> SubAssign<u32> for SaturatingU32<MIN, MAX> {
    fn sub_assign(&mut self, other: u32)
        ensures
            final(self).value() == clamp(old(self).value() - other, MIN as int, MAX as int),
            old(self).value() == MIN ==> final(self).value() == MIN,
    {
        proof {
            use_type_invariant(&*self);
        }
        *self = match self.0.checked_sub(other) {
            Some(exact) => Self::new(exact),
            None => Self(MIN),
        };
    }
}

/// Takes away the value stored in another instance and pins the exact result
/// back into the range. Nothing overflows on the way, however large the operand
/// is.
impl<
    const MIN: u32,
    const MAX: u32,
    const OTHER_MIN: u32,
    const OTHER_MAX: u32,
> SubAssign<SaturatingU32<OTHER_MIN, OTHER_MAX>> for SaturatingU32<MIN, MAX> {
    fn sub_assign(&mut self, other: SaturatingU32<OTHER_MIN, OTHER_MAX>)
        ensures
            final(self).value() == clamp(old(self).value() - other.value(), MIN as int, MAX as int),
            old(self).value() == MIN ==> final(self).value() == MIN,
    {
        proof {
            use_type_invariant(&*self);
        }
        *self = match self.0.checked_sub(other.0) {
            Some(exact) => Self::new(exact),
            None => Self(MIN),
        };
    }
}

/// Multiplies by a bare number and pins the exact product back into the range.
/// Nothing overflows on the way, however large the operand is.
impl<const MIN: u32, const MAX: u32> MulAssign<u32> for SaturatingU32<MIN, MAX> {
    fn mul_assign(&mut self, other: u32)
        ensures
            final(self).value() == clamp(old(self).value() * other, MIN as int, MAX as int),
    {
        proof {
            use_type_invariant(&*self);
            lemma_product_sign(self.value() as int, other as int);
        }
        *self = match self.0.checked_mul(other) {
            Some(exact) => Self::new(exact),
            None => Self(MAX),
        };
    }
}

/// Multiplies by the value stored in another instance and pins the exact
/// product back into the range. Nothing overflows on the way, however large the
/// operand is.
impl<
    const MIN: u32,
    const MAX: u32,
    const OTHER_MIN: u32,
    const OTHER_MAX: u32,
> MulAssign<SaturatingU32<OTHER_MIN, OTHER_MAX>> for SaturatingU32<MIN, MAX> {
    fn mul_assign(&mut self, other: SaturatingU32<OTHER_MIN, OTHER_MAX>)
        ensures
            final(self).value() == clamp(old(self).value() * other.value(), MIN as int, MAX as int),
    {
        proof {
            use_type_invariant(&*self);
            lemma_product_sign(self.value() as int, other.value() as int);
        }
        *self = match self.0.checked_mul(other.0) {
            Some(exact) => Self::new(exact),
            None => Self(MAX),
        };
    }
}

/// Divides by a bare number and pins the quotient back into the range.
impl<const MIN: u32, const MAX: u32> DivAssign<u32> for SaturatingU32<MIN, MAX> {
    fn div_assign(&mut self, other: u32)
        requires
            other != 0,
        ensures
            final(self).value() == clamp(
                quotient(old(self).value() as int, other as int),
                MIN as int,
                MAX as int,
            ),
    {
        proof {
            use_type_invariant(&*self);
            lemma_quotient_bounds(self.value() as int, other as int);
        }
        *self = Self::new(self.0 / other);
    }
}

/// Divides by the value stored in another instance and pins the quotient back
/// into the range.
impl<
    const MIN: u32,
    const MAX: u32,
    const OTHER_MIN: u32,
    const OTHER_MAX: u32,
> DivAssign<SaturatingU32<OTHER_MIN, OTHER_MAX>> for SaturatingU32<MIN, MAX> {
    fn div_assign(&mut self, other: SaturatingU32<OTHER_MIN, OTHER_MAX>)
        requires
            other.value() != 0,
        ensures
            final(self).value() == clamp(
                quotient(old(self).value() as int, other.value() as int),
                MIN as int,
                MAX as int,
            ),
    {
        proof {
            use_type_invariant(&*self);
            lemma_quotient_bounds(self.value() as int, other.value() as int);
        }
        *self = Self::new(self.0 / other.0);
    }
}

/// Takes the remainder by a bare number and pins it back into the range.
impl<const MIN: u32, const MAX: u32> RemAssign<u32> for SaturatingU32<MIN, MAX> {
    fn rem_assign(&mut self, other: u32)
        requires
            other != 0,
        ensures
            final(self).value() == clamp(
                remainder(old(self).value() as int, other as int),
                MIN as int,
                MAX as int,
            ),
    {
        proof {
            use_type_invariant(&*self);
        }
        *self = Self::new(self.0 % other);
    }
}

/// Takes the remainder by the value stored in another instance and pins it back
/// into the range.
impl<
    const MIN: u32,
    const MAX: u32,
    const OTHER_MIN: u32,
    const OTHER_MAX: u32,
> RemAssign<SaturatingU32<OTHER_MIN, OTHER_MAX>> for SaturatingU32<MIN, MAX> {
    fn rem_assign(&mut self, other: SaturatingU32<OTHER_MIN, OTHER_MAX>)
        requires
            other.value() != 0,
        ensures
            final(self).value() == clamp(
                remainder(old(self).value() as int, other.value() as int),
                MIN as int,
                MAX as int,
            ),
    {
        proof {
            use_type_invariant(&*self);
        }
        *self = Self::new(self.0 % other.0);
    }
}

/// Equal to a bare number exactly when the stored values are equal.
impl<const MIN: u32, const MAX: u32> PartialEq<u32> for SaturatingU32<MIN, MAX> {
    fn eq(&self, other: &u32) -> (r: bool) {
        self.0 == *other
    }
}

impl<const MIN: u32, const MAX: u32> PartialEqSpecImpl<u32> for SaturatingU32<MIN, MAX> {
    open spec fn obeys_eq_spec() -> bool {
        true
    }

    open spec fn eq_spec(&self, other: &u32) -> bool {
        self.value() == *other
    }
}

/// Equal to another instance exactly when the stored values are equal; the
/// bounds play no part.
impl<
    const MIN: u32,
    const MAX: u32,
    const OTHER_MIN: u32,
    const OTHER_MAX: u32,
> PartialEq<SaturatingU32<OTHER_MIN, OTHER_MAX>> for SaturatingU32<MIN, MAX> {
    fn eq(&self, other: &SaturatingU32<OTHER_MIN, OTHER_MAX>) -> (r: bool) {
        self.0 == other.0
    }
}

impl<
    const MIN: u32,
    const MAX: u32,
    const OTHER_MIN: u32,
    const OTHER_MAX: u32,
> PartialEqSpecImpl<SaturatingU32<OTHER_MIN, OTHER_MAX>> for SaturatingU32<MIN, MAX> {
    open spec fn obeys_eq_spec() -> bool {
        true
    }

    open spec fn eq_spec(&self, other: &SaturatingU32<OTHER_MIN, OTHER_MAX>) -> bool {
        self.value() == other.value()
    }
}

/// Ordered against a bare number by the stored values.
impl<const MIN: u32, const MAX: u32> PartialOrd<u32> for SaturatingU32<MIN, MAX> {
    fn partial_cmp(&self, other: &u32) -> (r: Option<Ordering>) {
        self.0.partial_cmp(other)
    }
}

impl<const MIN: u32, const MAX: u32> PartialOrdSpecImpl<u32> for SaturatingU32<MIN, MAX> {
    open spec fn obeys_partial_cmp_spec() -> bool {
        true
    }

    open spec fn partial_cmp_spec(&self, other: &u32) -> Option<Ordering> {
        if self.value() < *other {
            Some(Ordering::Less)
        } else if self.value() > *other {
            Some(Ordering::Greater)
        } else {
            Some(Ordering::Equal)
        }
    }
}

/// Ordered against another instance by the stored values; the bounds play no
/// part.
impl<
    const MIN: u32,
    const MAX: u32,
    const OTHER_MIN: u32,
    const OTHER_MAX: u32,
> PartialOrd<SaturatingU32<OTHER_MIN, OTHER_MAX>> for SaturatingU32<MIN, MAX> {
    fn partial_cmp(&self, other: &SaturatingU32<OTHER_MIN, OTHER_MAX>) -> (r: Option<Ordering>) {
        self.0.partial_cmp(&other.0)
    }
}

impl<
    const MIN: u32,
    const MAX: u32,
    const OTHER_MIN: u32,
    const OTHER_MAX: u32,
> PartialOrdSpecImpl<SaturatingU32<OTHER_MIN, OTHER_MAX>> for SaturatingU32<MIN, MAX> {
    open spec fn obeys_partial_cmp_spec() -> bool {
        true
    }

    open spec fn partial_cmp_spec(
        &self,
        other: &SaturatingU32<OTHER_MIN, OTHER_MAX>,
    ) -> Option<Ordering> {
        if self.value() < other.value() {
            Some(Ordering::Less)
        } else if self.value() > other.value() {
            Some(Ordering::Greater)
        } else {
            Some(Ordering::Equal)
        }
    }
}

} // verus!
