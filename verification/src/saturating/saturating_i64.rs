//! An `i64` that is pinned inside bounds chosen when it is made.
use crate::model::clamp;
use crate::model::in_closed_range;
use crate::model::lemma_divided_by_minus_one;
use crate::model::lemma_product_sign;
use crate::model::lemma_quotient_bounds;
use crate::model::quotient;
use crate::model::remainder;
use core::cmp::Ordering;
use core::ops::Add;
use core::ops::AddAssign;
use core::ops::Div;
use core::ops::DivAssign;
use core::ops::Mul;
use core::ops::MulAssign;
use core::ops::RangeInclusive;
use core::ops::Rem;
use core::ops::RemAssign;
use core::ops::Sub;
use core::ops::SubAssign;
use vstd::prelude::*;
use vstd::std_specs::cmp::PartialEqSpecImpl;
use vstd::std_specs::cmp::PartialOrdSpecImpl;
use vstd::std_specs::ops::AddSpecImpl;
use vstd::std_specs::ops::DivSpecImpl;
use vstd::std_specs::ops::MulSpecImpl;
use vstd::std_specs::ops::RemSpecImpl;
use vstd::std_specs::ops::SubSpecImpl;

verus! {

/// An `i64` kept inside `min..=max` by pinning it to the nearest bound.
///
/// The plain operators hand back the raw `i64` result; the assigning
/// operators pin their result back into the range.
#[derive(Debug, Clone, Copy, Eq)]
pub struct SaturatingI64 {
    inner: i64,
    min: i64,
    max: i64,
}

impl SaturatingI64 {
    #[verifier::type_invariant]
    spec fn in_bounds(self) -> bool {
        self.min < self.max && self.min <= self.inner <= self.max
    }

    /// The stored value.
    pub closed spec fn value(self) -> i64 {
        self.inner
    }

    /// The lower bound, which the value may reach.
    pub closed spec fn lower(self) -> i64 {
        self.min
    }

    /// The upper bound, which the value may reach.
    pub closed spec fn upper(self) -> i64 {
        self.max
    }

    /// Pins `inner` into `min..=max`.
    pub fn new(inner: i64, min: i64, max: i64) -> (r: Self)
        requires
            min < max,
        ensures
            r.value() == clamp(inner as int, min as int, max as int),
            in_closed_range(inner as int, min as int, max as int) ==> r.value() == inner,
            r.lower() == min,
            r.upper() == max,
    {
        if inner >= max {
            Self { inner: max, min, max }
        } else if inner < min {
            Self { inner: min, min, max }
        } else {
            Self { inner, min, max }
        }
    }

    /// The stored value, which always lies in `min..=max`.
    pub fn inner(&self) -> (r: i64)
        ensures
            r == self.value(),
            self.lower() <= r <= self.upper(),
    {
        proof {
            use_type_invariant(self);
        }
        self.inner
    }

    /// The range the value lives in.
    pub fn range(&self) -> (r: RangeInclusive<i64>)
        ensures
            r@.start == self.lower(),
            r@.end == self.upper(),
            !r@.exhausted,
            r@.start < r@.end,
    {
        proof {
            use_type_invariant(self);
        }
        self.min..=self.max
    }

    /// The lower bound, which the value may reach.
    pub fn min_bound(&self) -> (r: i64)
        ensures
            r == self.lower(),
    {
        self.min
    }

    /// The upper bound, which the value may reach.
    pub fn max_bound(&self) -> (r: i64)
        ensures
            r == self.upper(),
    {
        self.max
    }
}

/// The raw sum of the stored value and a bare number. It may lie outside the
/// bounds.
impl Add<i64> for SaturatingI64 {
    type Output = i64;

    fn add(self, other: i64) -> (r: i64) {
        self.inner + other
    }
}

impl AddSpecImpl<i64> for SaturatingI64 {
    open spec fn obeys_add_spec() -> bool {
        true
    }

    open spec fn add_req(self, other: i64) -> bool {
        i64::MIN <= self.value() + other <= i64::MAX
    }

    open spec fn add_spec(self, other: i64) -> i64 {
        (self.value() + other) as i64
    }
}

/// The raw sum of the stored value and the value stored in another instance. It
/// may lie outside the bounds.
impl Add<SaturatingI64> for SaturatingI64 {
    type Output = i64;

    fn add(self, other: SaturatingI64) -> (r: i64) {
        self.inner + other.inner
    }
}

impl AddSpecImpl<SaturatingI64> for SaturatingI64 {
    open spec fn obeys_add_spec() -> bool {
        true
    }

    open spec fn add_req(self, other: SaturatingI64) -> bool {
        i64::MIN <= self.value() + other.value() <= i64::MAX
    }

    open spec fn add_spec(self, other: SaturatingI64) -> i64 {
        (self.value() + other.value()) as i64
    }
}

/// The raw difference of the stored value and a bare number. It may lie outside
/// the bounds.
impl Sub<i64> for SaturatingI64 {
    type Output = i64;

    fn sub(self, other: i64) -> (r: i64) {
        self.inner - other
    }
}

impl SubSpecImpl<i64> for SaturatingI64 {
    open spec fn obeys_sub_spec() -> bool {
        true
    }

    open spec fn sub_req(self, other: i64) -> bool {
        i64::MIN <= self.value() - other <= i64::MAX
    }

    open spec fn sub_spec(self, other: i64) -> i64 {
        (self.value() - other) as i64
    }
}

/// The raw difference of the stored value and the value stored in another
/// instance. It may lie outside the bounds.
impl Sub<SaturatingI64> for SaturatingI64 {
    type Output = i64;

    fn sub(self, other: SaturatingI64) -> (r: i64) {
        self.inner - other.inner
    }
}

impl SubSpecImpl<SaturatingI64> for SaturatingI64 {
    open spec fn obeys_sub_spec() -> bool {
        true
    }

    open spec fn sub_req(self, other: SaturatingI64) -> bool {
        i64::MIN <= self.value() - other.value() <= i64::MAX
    }

    open spec fn sub_spec(self, other: SaturatingI64) -> i64 {
        (self.value() - other.value()) as i64
    }
}

/// The raw product of the stored value and a bare number. It may lie outside
/// the bounds.
impl Mul<i64> for SaturatingI64 {
    type Output = i64;

    fn mul(self, other: i64) -> (r: i64) {
        self.inner * other
    }
}

impl MulSpecImpl<i64> for SaturatingI64 {
    open spec fn obeys_mul_spec() -> bool {
        true
    }

    open spec fn mul_req(self, other: i64) -> bool {
        i64::MIN <= self.value() * other <= i64::MAX
    }

    open spec fn mul_spec(self, other: i64) -> i64 {
        (self.value() * other) as i64
    }
}

/// The raw product of the stored value and the value stored in another
/// instance. It may lie outside the bounds.
impl Mul<SaturatingI64> for SaturatingI64 {
    type Output = i64;

    fn mul(self, other: SaturatingI64) -> (r: i64) {
        self.inner * other.inner
    }
}

impl MulSpecImpl<SaturatingI64> for SaturatingI64 {
    open spec fn obeys_mul_spec() -> bool {
        true
    }

    open spec fn mul_req(self, other: SaturatingI64) -> bool {
        i64::MIN <= self.value() * other.value() <= i64::MAX
    }

    open spec fn mul_spec(self, other: SaturatingI64) -> i64 {
        (self.value() * other.value()) as i64
    }
}

/// The raw quotient of the stored value and a bare number. It may lie outside
/// the bounds.
impl Div<i64> for SaturatingI64 {
    type Output = i64;

    fn div(self, other: i64) -> (r: i64) {
        proof {
            lemma_quotient_bounds(self.value() as int, other as int);
        }
        self.inner / other
    }
}

impl DivSpecImpl<i64> for SaturatingI64 {
    open spec fn obeys_div_spec() -> bool {
        true
    }

    open spec fn div_req(self, other: i64) -> bool {
        other != 0 && !(self.value() == i64::MIN && other == -1)
    }

    open spec fn div_spec(self, other: i64) -> i64 {
        quotient(self.value() as int, other as int) as i64
    }
}

/// The raw quotient of the stored value and the value stored in another
/// instance. It may lie outside the bounds.
impl Div<SaturatingI64> for SaturatingI64 {
    type Output = i64;

    fn div(self, other: SaturatingI64) -> (r: i64) {
        proof {
            lemma_quotient_bounds(self.value() as int, other.value() as int);
        }
        self.inner / other.inner
    }
}

impl DivSpecImpl<SaturatingI64> for SaturatingI64 {
    open spec fn obeys_div_spec() -> bool {
        true
    }

    open spec fn div_req(self, other: SaturatingI64) -> bool {
        other.value() != 0 && !(self.value() == i64::MIN && other.value() == -1)
    }

    open spec fn div_spec(self, other: SaturatingI64) -> i64 {
        quotient(self.value() as int, other.value() as int) as i64
    }
}

/// The raw remainder of the stored value and a bare number. It may lie outside
/// the bounds.
impl Rem<i64> for SaturatingI64 {
    type Output = i64;

    fn rem(self, other: i64) -> (r: i64) {
        self.inner % other
    }
}

impl RemSpecImpl<i64> for SaturatingI64 {
    open spec fn obeys_rem_spec() -> bool {
        true
    }

    open spec fn rem_req(self, other: i64) -> bool {
        other != 0 && !(self.value() == i64::MIN && other == -1)
    }

    open spec fn rem_spec(self, other: i64) -> i64 {
        remainder(self.value() as int, other as int) as i64
    }
}

/// The raw remainder of the stored value and the value stored in another
/// instance. It may lie outside the bounds.
impl Rem<SaturatingI64> for SaturatingI64 {
    type Output = i64;

    fn rem(self, other: SaturatingI64) -> (r: i64) {
        self.inner % other.inner
    }
}

impl RemSpecImpl<SaturatingI64> for SaturatingI64 {
    open spec fn obeys_rem_spec() -> bool {
        true
    }

    open spec fn rem_req(self, other: SaturatingI64) -> bool {
        other.value() != 0 && !(self.value() == i64::MIN && other.value() == -1)
    }

    open spec fn rem_spec(self, other: SaturatingI64) -> i64 {
        remainder(self.value() as int, other.value() as int) as i64
    }
}

/// Adds a bare number and pins the exact result back into the range. Nothing
/// overflows on the way, however large the operand is.
impl AddAssign<i64> for SaturatingI64 {
    fn add_assign(&mut self, other: i64)
        ensures
            final(self).value() == clamp(
                old(self).value() + other,
                old(self).lower() as int,
                old(self).upper() as int,
            ),
            old(self).value() == old(self).upper() && other >= 0
                ==> final(self).value() == old(self).upper(),
            final(self).lower() == old(self).lower(),
            final(self).upper() == old(self).upper(),
    {
        proof {
            use_type_invariant(&*self);
        }
        *self = match self.inner.checked_add(other) {
            Some(exact) => Self::new(exact, self.min, self.max),
            None => if other > 0 {
                Self { inner: self.max, min: self.min, max: self.max }
            } else {
                Self { inner: self.min, min: self.min, max: self.max }
            },
        };
    }
}

/// Adds the value stored in another instance and pins the exact result back
/// into the range. Nothing overflows on the way, however large the operand is.
impl AddAssign<SaturatingI64> for SaturatingI64 {
    fn add_assign(&mut self, other: SaturatingI64)
        ensures
            final(self).value() == clamp(
                old(self).value() + other.value(),
                old(self).lower() as int,
                old(self).upper() as int,
            ),
            old(self).value() == old(self).upper() && other.value() >= 0
                ==> final(self).value() == old(self).upper(),
            final(self).lower() == old(self).lower(),
            final(self).upper() == old(self).upper(),
    {
        proof {
            use_type_invariant(&*self);
        }
        *self = match self.inner.checked_add(other.inner) {
            Some(exact) => Self::new(exact, self.min, self.max),
            None => if other.inner > 0 {
                Self { inner: self.max, min: self.min, max: self.max }
            } else {
                Self { inner: self.min, min: self.min, max: self.max }
            },
        };
    }
}

/// Takes away a bare number and pins the exact result back into the range.
/// Nothing overflows on the way, however large the operand is.
impl SubAssign<i64> for SaturatingI64 {
    fn sub_assign(&mut self, other: i64)
        ensures
            final(self).value() == clamp(
                old(self).value() - other,
                old(self).lower() as int,
                old(self).upper() as int,
            ),
            old(self).value() == old(self).lower() && other >= 0
                ==> final(self).value() == old(self).lower(),
            final(self).lower() == old(self).lower(),
            final(self).upper() == old(self).upper(),
    {
        proof {
            use_type_invariant(&*self);
        }
        *self = match self.inner.checked_sub(other) {
            Some(exact) => Self::new(exact, self.min, self.max),
            None => if other > 0 {
                Self { inner: self.min, min: self.min, max: self.max }
            } else {
                Self { inner: self.max, min: self.min, max: self.max }
            },
        };
    }
}

/// Takes away the value stored in another instance and pins the exact result
/// back into the range. Nothing overflows on the way, however large the operand
/// is.
impl SubAssign<SaturatingI64> for SaturatingI64 {
    fn sub_assign(&mut self, other: SaturatingI64)
        ensures
            final(self).value() == clamp(
                old(self).value() - other.value(),
                old(self).lower() as int,
                old(self).upper() as int,
            ),
            old(self).value() == old(self).lower() && other.value() >= 0
                ==> final(self).value() == old(self).lower(),
            final(self).lower() == old(self).lower(),
            final(self).upper() == old(self).upper(),
    {
        proof {
            use_type_invariant(&*self);
        }
        *self = match self.inner.checked_sub(other.inner) {
            Some(exact) => Self::new(exact, self.min, self.max),
            None => if other.inner > 0 {
                Self { inner: self.min, min: self.min, max: self.max }
            } else {
                Self { inner: self.max, min: self.min, max: self.max }
            },
        };
    }
}

/// Multiplies by a bare number and pins the exact product back into the range.
/// Nothing overflows on the way, however large the operand is.
impl MulAssign<i64> for SaturatingI64 {
    fn mul_assign(&mut self, other: i64)
        ensures
            final(self).value() == clamp(
                old(self).value() * other,
                old(self).lower() as int,
                old(self).upper() as int,
            ),
            final(self).lower() == old(self).lower(),
            final(self).upper() == old(self).upper(),
    {
        proof {
            use_type_invariant(&*self);
            lemma_product_sign(self.value() as int, other as int);
        }
        *self = match self.inner.checked_mul(other) {
            Some(exact) => Self::new(exact, self.min, self.max),
            None => if (self.inner < 0) == (other < 0) {
                Self { inner: self.max, min: self.min, max: self.max }
            } else {
                Self { inner: self.min, min: self.min, max: self.max }
            },
        };
    }
}

/// Multiplies by the value stored in another instance and pins the exact
/// product back into the range. Nothing overflows on the way, however large the
/// operand is.
impl MulAssign<SaturatingI64> for SaturatingI64 {
    fn mul_assign(&mut self, other: SaturatingI64)
        ensures
            final(self).value() == clamp(
                old(self).value() * other.value(),
                old(self).lower() as int,
                old(self).upper() as int,
            ),
            final(self).lower() == old(self).lower(),
            final(self).upper() == old(self).upper(),
    {
        proof {
            use_type_invariant(&*self);
            lemma_product_sign(self.value() as int, other.value() as int);
        }
        *self = match self.inner.checked_mul(other.inner) {
            Some(exact) => Self::new(exact, self.min, self.max),
            None => if (self.inner < 0) == (other.inner < 0) {
                Self { inner: self.max, min: self.min, max: self.max }
            } else {
                Self { inner: self.min, min: self.min, max: self.max }
            },
        };
    }
}

/// Divides by a bare number, rounding toward zero, and pins the exact quotient
/// back into the range. Nothing overflows on the way.
impl DivAssign<i64> for SaturatingI64 {
    fn div_assign(&mut self, other: i64)
        requires
            other != 0,
        ensures
            final(self).value() == clamp(
                quotient(old(self).value() as int, other as int),
                old(self).lower() as int,
                old(self).upper() as int,
            ),
            final(self).lower() == old(self).lower(),
            final(self).upper() == old(self).upper(),
    {
        proof {
            use_type_invariant(&*self);
            lemma_quotient_bounds(self.value() as int, other as int);
            lemma_divided_by_minus_one(self.value() as int);
        }
        if self.inner == i64::MIN && other == -1 {
            *self = Self { inner: self.max, min: self.min, max: self.max };
        } else {
            *self = Self::new(self.inner / other, self.min, self.max);
        }
    }
}

/// Divides by the value stored in another instance, rounding toward zero, and
/// pins the exact quotient back into the range. Nothing overflows on the way.
impl DivAssign<SaturatingI64> for SaturatingI64 {
    fn div_assign(&mut self, other: SaturatingI64)
        requires
            other.value() != 0,
        ensures
            final(self).value() == clamp(
                quotient(old(self).value() as int, other.value() as int),
                old(self).lower() as int,
                old(self).upper() as int,
            ),
            final(self).lower() == old(self).lower(),
            final(self).upper() == old(self).upper(),
    {
        proof {
            use_type_invariant(&*self);
            lemma_quotient_bounds(self.value() as int, other.value() as int);
            lemma_divided_by_minus_one(self.value() as int);
        }
        if self.inner == i64::MIN && other.inner == -1 {
            *self = Self { inner: self.max, min: self.min, max: self.max };
        } else {
            *self = Self::new(self.inner / other.inner, self.min, self.max);
        }
    }
}

/// Takes the remainder by a bare number and pins it back into the range.
/// Nothing overflows on the way.
impl RemAssign<i64> for SaturatingI64 {
    fn rem_assign(&mut self, other: i64)
        requires
            other != 0,
        ensures
            final(self).value() == clamp(
                remainder(old(self).value() as int, other as int),
                old(self).lower() as int,
                old(self).upper() as int,
            ),
            final(self).lower() == old(self).lower(),
            final(self).upper() == old(self).upper(),
    {
        proof {
            use_type_invariant(&*self);
            lemma_divided_by_minus_one(self.value() as int);
        }
        if other == -1 {
            *self = Self::new(0, self.min, self.max);
        } else {
            *self = Self::new(self.inner % other, self.min, self.max);
        }
    }
}

/// Takes the remainder by the value stored in another instance and pins it back
/// into the range. Nothing overflows on the way.
impl RemAssign<SaturatingI64> for SaturatingI64 {
    fn rem_assign(&mut self, other: SaturatingI64)
        requires
            other.value() != 0,
        ensures
            final(self).value() == clamp(
                remainder(old(self).value() as int, other.value() as int),
                old(self).lower() as int,
                old(self).upper() as int,
            ),
            final(self).lower() == old(self).lower(),
            final(self).upper() == old(self).upper(),
    {
        proof {
            use_type_invariant(&*self);
            lemma_divided_by_minus_one(self.value() as int);
        }
        if other.inner == -1 {
            *self = Self::new(0, self.min, self.max);
        } else {
            *self = Self::new(self.inner % other.inner, self.min, self.max);
        }
    }
}

/// Equal to a bare number exactly when the stored values are equal.
impl PartialEq<i64> for SaturatingI64 {
    fn eq(&self, other: &i64) -> (r: bool) {
        self.inner == *other
    }
}

impl PartialEqSpecImpl<i64> for SaturatingI64 {
    open spec fn obeys_eq_spec() -> bool {
        true
    }

    open spec fn eq_spec(&self, other: &i64) -> bool {
        self.value() == *other
    }
}

/// Equal to another instance exactly when the stored values are equal; the
/// bounds play no part.
impl PartialEq<SaturatingI64> for SaturatingI64 {
    fn eq(&self, other: &SaturatingI64) -> (r: bool) {
        self.inner == other.inner
    }
}

impl PartialEqSpecImpl<SaturatingI64> for SaturatingI64 {
    open spec fn obeys_eq_spec() -> bool {
        true
    }

    open spec fn eq_spec(&self, other: &SaturatingI64) -> bool {
        self.value() == other.value()
    }
}

/// Ordered against a bare number by the stored values.
impl PartialOrd<i64> for SaturatingI64 {
    fn partial_cmp(&self, other: &i64) -> (r: Option<Ordering>) {
        self.inner.partial_cmp(other)
    }
}

impl PartialOrdSpecImpl<i64> for SaturatingI64 {
    open spec fn obeys_partial_cmp_spec() -> bool {
        true
    }

    open spec fn partial_cmp_spec(&self, other: &i64) -> Option<Ordering> {
        if self.value() < *other {
            Some(Ordering::Less)
        } else if self.value() > *other {
            Some(Ordering::Greater)
        } else {
            Some(Ordering::Equal)
        }
    }
}

/// Ordered against another instance by the stored values; the bounds play no
/// part.
impl PartialOrd<SaturatingI64> for SaturatingI64 {
    fn partial_cmp(&self, other: &SaturatingI64) -> (r: Option<Ordering>) {
        self.inner.partial_cmp(&other.inner)
    }
}

impl PartialOrdSpecImpl<SaturatingI64> for SaturatingI64 {
    open spec fn obeys_partial_cmp_spec() -> bool {
        true
    }

    open spec fn partial_cmp_spec(&self, other: &SaturatingI64) -> Option<Ordering> {
        if self.value() < other.value() {
            Some(Ordering::Less)
        } else if self.value() > other.value() {
            Some(Ordering::Greater)
        } else {
            Some(Ordering::Equal)
        }
    }
}

} // verus!
