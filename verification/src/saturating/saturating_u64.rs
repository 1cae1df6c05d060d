//! A `u64` that is pinned inside bounds fixed by its type.
use crate::model::clamp;
use crate::model::in_closed_range;
use crate::model::lemma_product_sign;
use crate::model::lemma_quotient_bounds;
use crate::model::quotient;
use crate::model::remainder;
use core::cmp::Ordering;
use core::ops::Add;
use core::ops::AddAssign;
use core::ops::Div;
use core::ops::DivAssign;
use core::ops::Mul;
use core::ops::MulAssign;
use core::ops::RangeInclusive;
use core::ops::Rem;
use core::ops::RemAssign;
use core::ops::Sub;
use core::ops::SubAssign;
use vstd::prelude::*;
use vstd::std_specs::cmp::PartialEqSpecImpl;
use vstd::std_specs::cmp::PartialOrdSpecImpl;
use vstd::std_specs::ops::AddSpecImpl;
use vstd::std_specs::ops::DivSpecImpl;
use vstd::std_specs::ops::MulSpecImpl;
use vstd::std_specs::ops::RemSpecImpl;
use vstd::std_specs::ops::SubSpecImpl;

verus! {

/// A `u64` kept inside `MIN..=MAX` by pinning it to the nearest bound.
///
/// The plain operators hand back the raw `u64` result; the assigning
/// operators pin their result back into the range.
#[derive(Debug, Clone, Copy, Eq, Ord)]
pub struct SaturatingU64<const MIN: u64, const MAX: u64>(u64);

impl<const MIN: u64, const MAX: u64> SaturatingU64<MIN, MAX> {
    #[verifier::type_invariant]
    spec fn in_bounds(self) -> bool {
        MIN < MAX && MIN <= self.0 <= MAX
    }

    /// The stored value.
    pub closed spec fn value(self) -> u64 {
        self.0
    }

    /// Pins `inner` into `MIN..=MAX`.
    pub fn new(inner: u64) -> (r: Self)
        requires
            MIN < MAX,
        ensures
            r.value() == clamp(inner as int, MIN as int, MAX as int),
            in_closed_range(inner as int, MIN as int, MAX as int) ==> r.value() == inner,
    {
        if inner >= MAX {
            Self(MAX)
        } else if inner < MIN {
            Self(MIN)
        } else {
            Self(inner)
        }
    }

    /// The stored value, which always lies in `MIN..=MAX`.
    pub fn inner(&self) -> (r: u64)
        ensures
            r == self.value(),
            MIN <= r <= MAX,
    {
        proof {
            use_type_invariant(self);
        }
        self.0
    }

    /// The range the value lives in.
    pub fn range(&self) -> (r: RangeInclusive<u64>)
        ensures
            r@.start == MIN,
            r@.end == MAX,
            !r@.exhausted,
            r@.start < r@.end,
    {
        proof {
            use_type_invariant(self);
        }
        MIN..=MAX
    }

    /// The lower bound, which the value may reach.
    pub fn min_bound(&self) -> (r: u64)
        ensures
            r == MIN,
    {
        MIN
    }

    /// The upper bound, which the value may reach.
    pub fn max_bound(&self) -> (r: u64)
        ensures
            r == MAX,
    {
        MAX
    }
}

/// The raw sum of the stored value and a bare number. It may lie outside the
/// bounds.
impl<const MIN: u64, const MAX: u64> Add<u64> for SaturatingU64<MIN, MAX> {
    type Output = u64;

    fn add(self, other: u64) -> (r: u64) {
        self.0 + other
    }
}

impl<const MIN: u64, const MAX: u64> AddSpecImpl<u64> for SaturatingU64<MIN, MAX> {
    open spec fn obeys_add_spec() -> bool {
        true
    }

    open spec fn add_req(self, other: u64) -> bool {
        u64::MIN <= self.value() + other <= u64::MAX
    }

    open spec fn add_spec(self, other: u64) -> u64 {
        (self.value() + other) as u64
    }
}

/// The raw sum of the stored value and the value stored in another instance. It
/// may lie outside the bounds.
impl<
    const MIN: u64,
    const MAX: u64,
    const OTHER_MIN: u64,
    const OTHER_MAX: u64,
> Add<SaturatingU64<OTHER_MIN, OTHER_MAX>> for SaturatingU64<MIN, MAX> {
    type Output = u64;

    fn add(self, other: SaturatingU64<OTHER_MIN, OTHER_MAX>) -> (r: u64) {
        self.0 + other.0
    }
}

impl<
    const MIN: u64,
    const MAX: u64,
    const OTHER_MIN: u64,
    const OTHER_MAX: u64,
> AddSpecImpl<SaturatingU64<OTHER_MIN, OTHER_MAX>> for SaturatingU64<MIN, MAX> {
    open spec fn obeys_add_spec() -> bool {
        true
    }

    open spec fn add_req(self, other: SaturatingU64<OTHER_MIN, OTHER_MAX>) -> bool {
        u64::MIN <= self.value() + other.value() <= u64::MAX
    }

    open spec fn add_spec(self, other: SaturatingU64<OTHER_MIN, OTHER_MAX>) -> u64 {
        (self.value() + other.value()) as u64
    }
}

/// The raw difference of the stored value and a bare number. It may lie outside
/// the bounds.
impl<const MIN: u64, const MAX: u64> Sub<u64> for SaturatingU64<MIN, MAX> {
    type Output = u64;

    fn sub(self, other: u64) -> (r: u64) {
        self.0 - other
    }
}

impl<const MIN: u64, const MAX: u64> SubSpecImpl<u64> for SaturatingU64<MIN, MAX> {
    open spec fn obeys_sub_spec() -> bool {
        true
    }

    open spec fn sub_req(self, other: u64) -> bool {
        u64::MIN <= self.value() - other <= u64::MAX
    }

    open spec fn sub_spec(self, other: u64) -> u64 {
        (self.value() - other) as u64
    }
}

/// The raw difference of the stored value and the value stored in another
/// instance. It may lie outside the bounds.
impl<
    const MIN: u64,
    const MAX: u64,
    const OTHER_MIN: u64,
    const OTHER_MAX: u64,
> Sub<SaturatingU64<OTHER_MIN, OTHER_MAX>> for SaturatingU64<MIN, MAX> {
    type Output = u64;

    fn sub(self, other: SaturatingU64<OTHER_MIN, OTHER_MAX>) -> (r: u64) {
        self.0 - other.0
    }
}

impl<
    const MIN: u64,
    const MAX: u64,
    const OTHER_MIN: u64,
    const OTHER_MAX: u64,
> SubSpecImpl<SaturatingU64<OTHER_MIN, OTHER_MAX>> for SaturatingU64<MIN, MAX> {
    open spec fn obeys_sub_spec() -> bool {
        true
    }

    open spec fn sub_req(self, other: SaturatingU64<OTHER_MIN, OTHER_MAX>) -> bool {
        u64::MIN <= self.value() - other.value() <= u64::MAX
    }

    open spec fn sub_spec(self, other: SaturatingU64<OTHER_MIN, OTHER_MAX>) -> u64 {
        (self.value() - other.value()) as u64
    }
}

/// The raw product of the stored value and a bare number. It may lie outside
/// the bounds.
impl<const MIN: u64, const MAX: u64> Mul<u64> for SaturatingU64<MIN, MAX> {
    type Output = u64;

    fn mul(self, other: u64) -> (r: u64) {
        self.0 * other
    }
}

impl<const MIN: u64, const MAX: u64> MulSpecImpl<u64> for SaturatingU64<MIN, MAX> {
    open spec fn obeys_mul_spec() -> bool {
        true
    }

    open spec fn mul_req(self, other: u64) -> bool {
        u64::MIN <= self.value() * other <= u64::MAX
    }

    open spec fn mul_spec(self, other: u64) -> u64 {
        (self.value() * other) as u64
    }
}

/// The raw product of the stored value and the value stored in another
/// instance. It may lie outside the bounds.
impl<
    const MIN: u64,
    const MAX: u64,
    const OTHER_MIN: u64,
    const OTHER_MAX: u64,
> Mul<SaturatingU64<OTHER_MIN, OTHER_MAX>> for SaturatingU64<MIN, MAX> {
    type Output = u64;

    fn mul(self, other: SaturatingU64<OTHER_MIN, OTHER_MAX>) -> (r: u64) {
        self.0 * other.0
    }
}

impl<
    const MIN: u64,
    const MAX: u64,
    const OTHER_MIN: u64,
    const OTHER_MAX: u64,
> MulSpecImpl<SaturatingU64<OTHER_MIN, OTHER_MAX>> for SaturatingU64<MIN, MAX> {
    open spec fn obeys_mul_spec() -> bool {
        true
    }

    open spec fn mul_req(self, other: SaturatingU64<OTHER_MIN, OTHER_MAX>) -> bool {
        u64::MIN <= self.value() * other.value() <= u64::MAX
    }

    open spec fn mul_spec(self, other: SaturatingU64<OTHER_MIN, OTHER_MAX>) -> u64 {
        (self.value() * other.value()) as u64
    }
}

/// The raw quotient of the stored value and a bare number. It may lie outside
/// the bounds.
impl<const MIN: u64, const MAX: u64> Div<u64> for SaturatingU64<MIN, MAX> {
    type Output = u64;

    fn div(self, other: u64) -> (r: u64) {
        proof {
            lemma_quotient_bounds(self.value() as int, other as int);
        }
        self.0 / other
    }
}

impl<const MIN: u64, const MAX: u64> DivSpecImpl<u64> for SaturatingU64<MIN, MAX> {
    open spec fn obeys_div_spec() -> bool {
        true
    }

    open spec fn div_req(self, other: u64) -> bool {
        other != 0
    }

    open spec fn div_spec(self, other: u64) -> u64 {
        quotient(self.value() as int, other as int) as u64
    }
}

/// The raw quotient of the stored value and the value stored in another
/// instance. It may lie outside the bounds.
impl<
    const MIN: u64,
    const MAX: u64,
    const OTHER_MIN: u64,
    const OTHER_MAX: u64,
> Div<SaturatingU64<OTHER_MIN, OTHER_MAX>> for SaturatingU64<MIN, MAX> {
    type Output = u64;

    fn div(self, other: SaturatingU64<OTHER_MIN, OTHER_MAX>) -> (r: u64) {
        proof {
            lemma_quotient_bounds(self.value() as int, other.value() as int);
        }
        self.0 / other.0
    }
}

impl<
    const MIN: u64,
    const MAX: u64,
    const OTHER_MIN: u64,
    const OTHER_MAX: u64,
> DivSpecImpl<SaturatingU64<OTHER_MIN, OTHER_MAX>> for SaturatingU64<MIN, MAX> {
    open spec fn obeys_div_spec() -> bool {
        true
    }

    open spec fn div_req(self, other: SaturatingU64<OTHER_MIN, OTHER_MAX>) -> bool {
        other.value() != 0
    }

    open spec fn div_spec(self, other: SaturatingU64<OTHER_MIN, OTHER_MAX>) -> u64 {
        quotient(self.value() as int, other.value() as int) as u64
    }
}

/// The raw remainder of the stored value and a bare number. It may lie outside
/// the bounds.
impl<const MIN: u64, const MAX: u64> Rem<u64> for SaturatingU64<MIN, MAX> {
    type Output = u64;

    fn rem(self, other: u64) -> (r: u64) {
        self.0 % other
    }
}

impl<const MIN: u64, const MAX: u64> RemSpecImpl<u64> for SaturatingU64<MIN, MAX> {
    open spec fn obeys_rem_spec() -> bool {
        true
    }

    open spec fn rem_req(self, other: u64) -> bool {
        other != 0
    }

    open spec fn rem_spec(self, other: u64) -> u64 {
        remainder(self.value() as int, other as int) as u64
    }
}

/// The raw remainder of the stored value and the value stored in another
/// instance. It may lie outside the bounds.
impl<
    const MIN: u64,
    const MAX: u64,
    const OTHER_MIN: u64,
    const OTHER_MAX: u64,
> Rem<SaturatingU64<OTHER_MIN, OTHER_MAX>> for SaturatingU64<MIN, MAX> {
    type Output = u64;

    fn rem(self, other: SaturatingU64<OTHER_MIN, OTHER_MAX>) -> (r: u64) {
        self.0 % other.0
    }
}

impl<
    const MIN: u64,
    const MAX: u64,
    const OTHER_MIN: u64,
    const OTHER_MAX: u64,
> RemSpecImpl<SaturatingU64<OTHER_MIN, OTHER_MAX>> for SaturatingU64<MIN, MAX> {
    open spec fn obeys_rem_spec() -> bool {
        true
    }

    open spec fn rem_req(self, other: SaturatingU64<OTHER_MIN, OTHER_MAX>) -> bool {
        other.value() != 0
    }

    open spec fn rem_spec(self, other: SaturatingU64<OTHER_MIN, OTHER_MAX>) -> u64 {
        remainder(self.value() as int, other.value() as int) as u64
    }
}

/// Adds a bare number and pins the exact result back into the range. Nothing
/// overflows on the way, however large the operand is.
impl<const MIN: u64, const MAX: u64> AddAssign<u64> for SaturatingU64<MIN, MAX> {
    fn add_assign(&mut self, other: u64)
        ensures
            final(self).value() == clamp(old(self).value() + other, MIN as int, MAX as int),
            old(self).value() == MAX ==> final(self).value() == MAX,
    {
        proof {
            use_type_invariant(&*self);
        }
        *self = match self.0.checked_add(other) {
            Some(exact) => Self::new(exact),
            None => Self(MAX),
        };
    }
}

/// Adds the value stored in another instance and pins the exact result back
/// into the range. Nothing overflows on the way, however large the operand is.
impl<
    const MIN: u64,
    const MAX: u64,
    const OTHER_MIN: u64,
    const OTHER_MAX: u64,
> AddAssign<SaturatingU64<OTHER_MIN, OTHER_MAX>> for SaturatingU64<MIN, MAX> {
    fn add_assign(&mut self, other: SaturatingU64<OTHER_MIN, OTHER_MAX>)
        ensures
            final(self).value() == clamp(old(self).value() + other.value(), MIN as int, MAX as int),
            old(self).value() == MAX ==> final(self).value() == MAX,
    {
        proof {
            use_type_invariant(&*self);
        }
        *self = match self.0.checked_add(other.0) {
            Some(exact) => Self::new(exact),
            None => Self(MAX),
        };
    }
}

/// Takes away a bare number and pins the exact result back into the range.
/// Nothing overflows on the way, however large the operand is.
impl<const MIN: u64, const MAX: u64> SubAssign<u64> for SaturatingU64<MIN, MAX> {
    fn sub_assign(&mut self, other: u64)
        ensures
            final(self).value() == clamp(old(self).value() - other, MIN as int, MAX as int),
            old(self).value() == MIN ==> final(self).value() == MIN,
    {
        proof {
            use_type_invariant(&*self);
        }
        *self = match self.0.checked_sub(other) {
            Some(exact) => Self::new(exact),
            None => Self(MIN),
        };
    }
}

/// Takes away the value stored in another instance and pins the exact result
/// back into the range. Nothing overflows on the way, however large the operand
/// is.
impl<
    const MIN: u64,
    const MAX: u64,
    const OTHER_MIN: u64,
    const OTHER_MAX: u64,
> SubAssign<SaturatingU64<OTHER_MIN, OTHER_MAX>> for SaturatingU64<MIN, MAX> {
    fn sub_assign(&mut self, other: SaturatingU64<OTHER_MIN, OTHER_MAX>)
        ensures
            final(self).value() == clamp(old(self).value() - other.value(), MIN as int, MAX as int),
            old(self).value() == MIN ==> final(self).value() == MIN,
    {
        proof {
            use_type_invariant(&*self);
        }
        *self = match self.0.checked_sub(other.0) {
            Some(exact) => Self::new(exact),
            None => Self(MIN),
        };
    }
}

/// Multiplies by a bare number and pins the exact product back into the range.
/// Nothing overflows on the way, however large the operand is.
impl<const MIN: u64, const MAX: u64> MulAssign<u64> for SaturatingU64<MIN, MAX> {
    fn mul_assign(&mut self, other: u64)
        ensures
            final(self).value() == clamp(old(self).value() * other, MIN as int, MAX as int),
    {
        proof {
            use_type_invariant(&*self);
            lemma_product_sign(self.value() as int, other as int);
        }
        *self = match self.0.checked_mul(other) {
            Some(exact) => Self::new(exact),
            None => Self(MAX),
        };
    }
}

/// Multiplies by the value stored in another instance and pins the exact
/// product back into the range. Nothing overflows on the way, however large the
/// operand is.
impl<
    const MIN: u64,
    const MAX: u64,
    const OTHER_MIN: u64,
    const OTHER_MAX: u64,
> MulAssign<SaturatingU64<OTHER_MIN, OTHER_MAX>> for SaturatingU64<MIN, MAX> {
    fn mul_assign(&mut self, other: SaturatingU64<OTHER_MIN, OTHER_MAX>)
        ensures
            final(self).value() == clamp(old(self).value() * other.value(), MIN as int, MAX as int),
    {
        proof {
            use_type_invariant(&*self);
            lemma_product_sign(self.value() as int, other.value() as int);
        }
        *self = match self.0.checked_mul(other.0) {
            Some(exact) => Self::new(exact),
            None => Self(MAX),
        };
    }
}

/// Divides by a bare number and pins the quotient back into the range.
impl<const MIN: u64, const MAX: u64> DivAssign<u64> for SaturatingU64<MIN, MAX> {
    fn div_assign(&mut self, other: u64)
        requires
            other != 0,
        ensures
            final(self).value() == clamp(
                quotient(old(self).value() as int, other as int),
                MIN as int,
                MAX as int,
            ),
    {
        proof {
            use_type_invariant(&*self);
            lemma_quotient_bounds(self.value() as int, other as int);
        }
        *self = Self::new(self.0 / other);
    }
}

/// Divides by the value stored in another instance and pins the quotient back
/// into the range.
impl<
    const MIN: u64,
    const MAX: u64,
    const OTHER_MIN: u64,
    const OTHER_MAX: u64,
> DivAssign<SaturatingU64<OTHER_MIN, OTHER_MAX>> for SaturatingU64<MIN, MAX> {
    fn div_assign(&mut self, other: SaturatingU64<OTHER_MIN, OTHER_MAX>)
        requires
            other.value() != 0,
        ensures
            final(self).value() == clamp(
                quotient(old(self).value() as int, other.value() as int),
                MIN as int,
                MAX as int,
            ),
    {
        proof {
            use_type_invariant(&*self);
            lemma_quotient_bounds(self.value() as int, other.value() as int);
        }
        *self = Self::new(self.0 / other.0);
    }
}

/// Takes the remainder by a bare number and pins it back into the range.
impl<const MIN: u64, const MAX: u64> RemAssign<u64> for SaturatingU64<MIN, MAX> {
    fn rem_assign(&mut self, other: u64)
        requires
            other != 0,
        ensures
            final(self).value() == clamp(
                remainder(old(self).value() as int, other as int),
                MIN as int,
                MAX as int,
            ),
    {
        proof {
            use_type_invariant(&*self);
        }
        *self = Self::new(self.0 % other);
    }
}

/// Takes the remainder by the value stored in another instance and pins it back
/// into the range.
impl<
    const MIN: u64,
    const MAX: u64,
    const OTHER_MIN: u64,
    const OTHER_MAX: u64,
> RemAssign<SaturatingU64<OTHER_MIN, OTHER_MAX>> for SaturatingU64<MIN, MAX> {
    fn rem_assign(&mut self, other: SaturatingU64<OTHER_MIN, OTHER_MAX>)
        requires
            other.value() != 0,
        ensures
            final(self).value() == clamp(
                remainder(old(self).value() as int, other.value() as int),
                MIN as int,
                MAX as int,
            ),
    {
        proof {
            use_type_invariant(&*self);
        }
        *self = Self::new(self.0 % other.0);
    }
}

/// Equal to a bare number exactly when the stored values are equal.
impl<const MIN: u64, const MAX: u64> PartialEq<u64> for SaturatingU64<MIN, MAX> {
    fn eq(&self, other: &u64) -> (r: bool) {
        self.0 == *other
    }
}

impl<const MIN: u64, const MAX: u64> PartialEqSpecImpl<u64> for SaturatingU64<MIN, MAX> {
    open spec fn obeys_eq_spec() -> bool {
        true
    }

    open spec fn eq_spec(&self, other: &u64) -> bool {
        self.value() == *other
    }
}

/// Equal to another instance exactly when the stored values are equal; the
/// bounds play no part.
impl<
    const MIN: u64,
    const MAX: u64,
    const OTHER_MIN: u64,
    const OTHER_MAX: u64,
> PartialEq<SaturatingU64<OTHER_MIN, OTHER_MAX>> for SaturatingU64<MIN, MAX> {
    fn eq(&self, other: &SaturatingU64<OTHER_MIN, OTHER_MAX>) -> (r: bool) {
        self.0 == other.0
    }
}

impl<
    const MIN: u64,
    const MAX: u64,
    const OTHER_MIN: u64,
    const OTHER_MAX: u64,
> PartialEqSpecImpl<SaturatingU64<OTHER_MIN, OTHER_MAX>> for SaturatingU64<MIN, MAX> {
    open spec fn obeys_eq_spec() -> bool {
        true
    }

    open spec fn eq_spec(&self, other: &SaturatingU64<OTHER_MIN, OTHER_MAX>) -> bool {
        self.value() == other.value()
    }
}

/// Ordered against a bare number by the stored values.
impl<const MIN: u64, const MAX: u64> PartialOrd<u64> for SaturatingU64<MIN, MAX> {
    fn partial_cmp(&self, other: &u64) -> (r: Option<Ordering>) {
        self.0.partial_cmp(other)
    }
}

impl<const MIN: u64, const MAX: u64> PartialOrdSpecImpl<u64> for SaturatingU64<MIN, MAX> {
    open spec fn obeys_partial_cmp_spec() -> bool {
        true
    }

    open spec fn partial_cmp_spec(&self, other: &u64) -> Option<Ordering> {
        if self.value() < *other {
            Some(Ordering::Less)
        } else if self.value() > *other {
            Some(Ordering::Greater)
        } else {
            Some(Ordering::Equal)
        }
    }
}

/// Ordered against another instance by the stored values; the bounds play no
/// part.
impl<
    const MIN: u64,
    const MAX: u64,
    const OTHER_MIN: u64,
    const OTHER_MAX: u64,
> PartialOrd<SaturatingU64<OTHER_MIN, OTHER_MAX>> for SaturatingU64<MIN, MAX> {
    fn partial_cmp(&self, other: &SaturatingU64<OTHER_MIN, OTHER_MAX>) -> (r: Option<Ordering>) {
        self.0.partial_cmp(&other.0)
    }
}

impl<
    const MIN: u64,
    const MAX: u64,
    const OTHER_MIN: u64,
    const OTHER_MAX: u64,
> PartialOrdSpecImpl<SaturatingU64<OTHER_MIN, OTHER_MAX>> for SaturatingU64<MIN, MAX> {
    open spec fn obeys_partial_cmp_spec() -> bool {
        true
    }

    open spec fn partial_cmp_spec(
        &self,
        other: &SaturatingU64<OTHER_MIN, OTHER_MAX>,
    ) -> Option<Ordering> {
        if self.value() < other.value() {
            Some(Ordering::Less)
        } else if self.value() > other.value() {
            Some(Ordering::Greater)
        } else {
            Some(Ordering::Equal)
        }
    }
}

} // verus!
