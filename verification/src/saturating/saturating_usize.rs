//! A `usize` that is pinned inside bounds fixed by its type.
use crate::model::clamp;
use crate::model::in_closed_range;
use crate::model::lemma_product_sign;
use crate::model::lemma_quotient_bounds;
use crate::model::quotient;
use crate::model::remainder;
use core::cmp::Ordering;
use core::ops::Add;
use core::ops::AddAssign;
use core::ops::Div;
use core::ops::DivAssign;
use core::ops::Mul;
use core::ops::MulAssign;
use core::ops::RangeInclusive;
use core::ops::Rem;
use core::ops::RemAssign;
use core::ops::Sub;
use core::ops::SubAssign;
use vstd::prelude::*;
use vstd::std_specs::cmp::PartialEqSpecImpl;
use vstd::std_specs::cmp::PartialOrdSpecImpl;
use vstd::std_specs::ops::AddSpecImpl;
use vstd::std_specs::ops::DivSpecImpl;
use vstd::std_specs::ops::MulSpecImpl;
use vstd::std_specs::ops::RemSpecImpl;
use vstd::std_specs::ops::SubSpecImpl;

verus! {

/// A `usize` kept inside `MIN..=MAX` by pinning it to the nearest bound.
///
/// The plain operators hand back the raw `usize` result; the assigning
/// operators pin their result back into the range.
#[derive(Debug, Clone, Copy, Eq, Ord)]
pub struct SaturatingUSize<const MIN: usize, const MAX: usize>(usize);

impl<const MIN: usize, const MAX: usize> SaturatingUSize<MIN, MAX> {
    #[verifier::type_invariant]
    spec fn in_bounds(self) -> bool {
        MIN < MAX && MIN <= self.0 <= MAX
    }

    /// The stored value.
    pub closed spec fn value(self) -> usize {
        self.0
    }

    /// Pins `inner` into `MIN..=MAX`.
    pub fn new(inner: usize) -> (r: Self)
        requires
            MIN < MAX,
        ensures
            r.value() == clamp(inner as int, MIN as int, MAX as int),
            in_closed_range(inner as int, MIN as int, MAX as int) ==> r.value() == inner,
    {
        if inner >= MAX {
            Self(MAX)
        } else if inner < MIN {
            Self(MIN)
        } else {
            Self(inner)
        }
    }

    /// The stored value, which always lies in `MIN..=MAX`.
    pub fn inner(&self) -> (r: usize)
        ensures
            r == self.value(),
            MIN <= r <= MAX,
    {
        proof {
            use_type_invariant(self);
        }
        self.0
    }

    /// The range the value lives in.
    pub fn range(&self) -> (r: RangeInclusive<usize>)
        ensures
            r@.start == MIN,
            r@.end == MAX,
            !r@.exhausted,
            r@.start < r@.end,
    {
        proof {
            use_type_invariant(self);
        }
        MIN..=MAX
    }

    /// The lower bound, which the value may reach.
    pub fn min_bound(&self) -> (r: usize)
        ensures
            r == MIN,
    {
        MIN
    }

    /// The upper bound, which the value may reach.
    pub fn max_bound(&self) -> (r: usize)
        ensures
            r == MAX,
    {
        MAX
    }
}

/// The raw sum of the stored value and a bare number. It may lie outside the
/// bounds.
impl<const MIN: usize, const MAX: usize> Add<usize> for SaturatingUSize<MIN, MAX> {
    type Output = usize;

    fn add(self, other: usize) -> (r: usize) {
        self.0 + other
    }
}

impl<const MIN: usize, const MAX: usize> AddSpecImpl<usize> for SaturatingUSize<MIN, MAX> {
    open spec fn obeys_add_spec() -> bool {
        true
    }

    open spec fn add_req(self, other: usize) -> bool {
        usize::MIN <= self.value() + other <= usize::MAX
    }

    open spec fn add_spec(self, other: usize) -> usize {
        (self.value() + other) as usize
    }
}

/// The raw sum of the stored value and the value stored in another instance. It
/// may lie outside the bounds.
impl<
    const MIN: usize,
    const MAX: usize,
    const OTHER_MIN: usize,
    const OTHER_MAX: usize,
> Add<SaturatingUSize<OTHER_MIN, OTHER_MAX>> for SaturatingUSize<MIN, MAX> {
    type Output = usize;

    fn add(self, other: SaturatingUSize<OTHER_MIN, OTHER_MAX>) -> (r: usize) {
        self.0 + other.0
    }
}

impl<
    const MIN: usize,
    const MAX: usize,
    const OTHER_MIN: usize,
    const OTHER_MAX: usize,
> AddSpecImpl<SaturatingUSize<OTHER_MIN, OTHER_MAX>> for SaturatingUSize<MIN, MAX> {
    open spec fn obeys_add_spec() -> bool {
        true
    }

    open spec fn add_req(self, other: SaturatingUSize<OTHER_MIN, OTHER_MAX>) -> bool {
        usize::MIN <= self.value() + other.value() <= usize::MAX
    }

    open spec fn add_spec(self, other: SaturatingUSize<OTHER_MIN, OTHER_MAX>) -> usize {
        (self.value() + other.value()) as usize
    }
}

/// The raw difference of the stored value and a bare number. It may lie outside
/// the bounds.
impl<const MIN: usize, const MAX: usize> Sub<usize> for SaturatingUSize<MIN, MAX> {
    type Output = usize;

    fn sub(self, other: usize) -> (r: usize) {
        self.0 - other
    }
}

impl<const MIN: usize, const MAX: usize> SubSpecImpl<usize> for SaturatingUSize<MIN, MAX> {
    open spec fn obeys_sub_spec() -> bool {
        true
    }

    open spec fn sub_req(self, other: usize) -> bool {
        usize::MIN <= self.value() - other <= usize::MAX
    }

    open spec fn sub_spec(self, other: usize) -> usize {
        (self.value() - other) as usize
    }
}

/// The raw difference of the stored value and the value stored in another
/// instance. It may lie outside the bounds.
impl<
    const MIN: usize,
    const MAX: usize,
    const OTHER_MIN: usize,
    const OTHER_MAX: usize,
> Sub<SaturatingUSize<OTHER_MIN, OTHER_MAX>> for SaturatingUSize<MIN, MAX> {
    type Output = usize;

    fn sub(self, other: SaturatingUSize<OTHER_MIN, OTHER_MAX>) -> (r: usize) {
        self.0 - other.0
    }
}

impl<
    const MIN: usize,
    const MAX: usize,
    const OTHER_MIN: usize,
    const OTHER_MAX: usize,
> SubSpecImpl<SaturatingUSize<OTHER_MIN, OTHER_MAX>> for SaturatingUSize<MIN, MAX> {
    open spec fn obeys_sub_spec() -> bool {
        true
    }

    open spec fn sub_req(self, other: SaturatingUSize<OTHER_MIN, OTHER_MAX>) -> bool {
        usize::MIN <= self.value() - other.value() <= usize::MAX
    }

    open spec fn sub_spec(self, other: SaturatingUSize<OTHER_MIN, OTHER_MAX>) -> usize {
        (self.value() - other.value()) as usize
    }
}

/// The raw product of the stored value and a bare number. It may lie outside
/// the bounds.
impl<const MIN: usize, const MAX: usize> Mul<usize> for SaturatingUSize<MIN, MAX> {
    type Output = usize;

    fn mul(self, other: usize) -> (r: usize) {
        self.0 * other
    }
}

impl<const MIN: usize, const MAX: usize> MulSpecImpl<usize> for SaturatingUSize<MIN, MAX> {
    open spec fn obeys_mul_spec() -> bool {
        true
    }

    open spec fn mul_req(self, other: usize) -> bool {
        usize::MIN <= self.value() * other <= usize::MAX
    }

    open spec fn mul_spec(self, other: usize) -> usize {
        (self.value() * other) as usize
    }
}

/// The raw product of the stored value and the value stored in another
/// instance. It may lie outside the bounds.
impl<
    const MIN: usize,
    const MAX: usize,
    const OTHER_MIN: usize,
    const OTHER_MAX: usize,
> Mul<SaturatingUSize<OTHER_MIN, OTHER_MAX>> for SaturatingUSize<MIN, MAX> {
    type Output = usize;

    fn mul(self, other: SaturatingUSize<OTHER_MIN, OTHER_MAX>) -> (r: usize) {
        self.0 * other.0
    }
}

impl<
    const MIN: usize,
    const MAX: usize,
    const OTHER_MIN: usize,
    const OTHER_MAX: usize,
> MulSpecImpl<SaturatingUSize<OTHER_MIN, OTHER_MAX>> for SaturatingUSize<MIN, MAX> {
    open spec fn obeys_mul_spec() -> bool {
        true
    }

    open spec fn mul_req(self, other: SaturatingUSize<OTHER_MIN, OTHER_MAX>) -> bool {
        usize::MIN <= self.value() * other.value() <= usize::MAX
    }

    open spec fn mul_spec(self, other: SaturatingUSize<OTHER_MIN, OTHER_MAX>) -> usize {
        (self.value() * other.value()) as usize
    }
}

/// The raw quotient of the stored value and a bare number. It may lie outside
/// the bounds.
impl<const MIN: usize, const MAX: usize> Div<usize> for SaturatingUSize<MIN, MAX> {
    type Output = usize;

    fn div(self, other: usize) -> (r: usize) {
        proof {
            lemma_quotient_bounds(self.value() as int, other as int);
        }
        self.0 / other
    }
}

impl<const MIN: usize, const MAX: usize> DivSpecImpl<usize> for SaturatingUSize<MIN, MAX> {
    open spec fn obeys_div_spec() -> bool {
        true
    }

    open spec fn div_req(self, other: usize) -> bool {
        other != 0
    }

    open spec fn div_spec(self, other: usize) -> usize {
        quotient(self.value() as int, other as int) as usize
    }
}

/// The raw quotient of the stored value and the value stored in another
/// instance. It may lie outside the bounds.
impl<
    const MIN: usize,
    const MAX: usize,
    const OTHER_MIN: usize,
    const OTHER_MAX: usize,
> Div<SaturatingUSize<OTHER_MIN, OTHER_MAX>> for SaturatingUSize<MIN, MAX> {
    type Output = usize;

    fn div(self, other: SaturatingUSize<OTHER_MIN, OTHER_MAX>) -> (r: usize) {
        proof {
            lemma_quotient_bounds(self.value() as int, other.value() as int);
        }
        self.0 / other.0
    }
}

impl<
    const MIN: usize,
    const MAX: usize,
    const OTHER_MIN: usize,
    const OTHER_MAX: usize,
> DivSpecImpl<SaturatingUSize<OTHER_MIN, OTHER_MAX>> for SaturatingUSize<MIN, MAX> {
    open spec fn obeys_div_spec() -> bool {
        true
    }

    open spec fn div_req(self, other: SaturatingUSize<OTHER_MIN, OTHER_MAX>) -> bool {
        other.value() != 0
    }

    open spec fn div_spec(self, other: SaturatingUSize<OTHER_MIN, OTHER_MAX>) -> usize {
        quotient(self.value() as int, other.value() as int) as usize
    }
}

/// The raw remainder of the stored value and a bare number. It may lie outside
/// the bounds.
impl<const MIN: usize, const MAX: usize> Rem<usize> for SaturatingUSize<MIN, MAX> {
    type Output = usize;

    fn rem(self, other: usize) -> (r: usize) {
        self.0 % other
    }
}

impl<const MIN: usize, const MAX: usize> RemSpecImpl<usize> for SaturatingUSize<MIN, MAX> {
    open spec fn obeys_rem_spec() -> bool {
        true
    }

    open spec fn rem_req(self, other: usize) -> bool {
        other != 0
    }

    open spec fn rem_spec(self, other: usize) -> usize {
        remainder(self.value() as int, other as int) as usize
    }
}

/// The raw remainder of the stored value and the value stored in another
/// instance. It may lie outside the bounds.
impl<
    const MIN: usize,
    const MAX: usize,
    const OTHER_MIN: usize,
    const OTHER_MAX: usize,
> Rem<SaturatingUSize<OTHER_MIN, OTHER_MAX>> for SaturatingUSize<MIN, MAX> {
    type Output = usize;

    fn rem(self, other: SaturatingUSize<OTHER_MIN, OTHER_MAX>) -> (r: usize) {
        self.0 % other.0
    }
}

impl<
    const MIN: usize,
    const MAX: usize,
    const OTHER_MIN: usize,
    const OTHER_MAX: usize,
> RemSpecImpl<SaturatingUSize<OTHER_MIN, OTHER_MAX>> for SaturatingUSize<MIN, MAX> {
    open spec fn obeys_rem_spec() -> bool {
        true
    }

    open spec fn rem_req(self, other: SaturatingUSize<OTHER_MIN, OTHER_MAX>) -> bool {
        other.value() != 0
    }

    open spec fn rem_spec(self, other: SaturatingUSize<OTHER_MIN, OTHER_MAX>) -> usize {
        remainder(self.value() as int, other.value() as int) as usize
    }
}

/// Adds a bare number and pins the exact result back into the range. Nothing
/// overflows on the way, however large the operand is.
impl<const MIN: usize, const MAX: usize> AddAssign<usize> for SaturatingUSize<MIN, MAX> {
    fn add_assign(&mut self, other: usize)
        ensures
            final(self).value() == clamp(old(self).value() + other, MIN as int, MAX as int),
            old(self).value() == MAX ==> final(self).value() == MAX,
    {
        proof {
            use_type_invariant(&*self);
        }
        *self = match self.0.checked_add(other) {
            Some(exact) => Self::new(exact),
            None => Self(MAX),
        };
    }
}

/// Adds the value stored in another instance and pins the exact result back
/// into the range. Nothing overflows on the way, however large the operand is.
impl<
    const MIN: usize,
    const MAX: usize,
    const OTHER_MIN: usize,
    const OTHER_MAX: usize,
> AddAssign<SaturatingUSize<OTHER_MIN, OTHER_MAX>> for SaturatingUSize<MIN, MAX> {
    fn add_assign(&mut self, other: SaturatingUSize<OTHER_MIN, OTHER_MAX>)
        ensures
            final(self).value() == clamp(old(self).value() + other.value(), MIN as int, MAX as int),
            old(self).value() == MAX ==> final(self).value() == MAX,
    {
        proof {
            use_type_invariant(&*self);
        }
        *self = match self.0.checked_add(other.0) {
            Some(exact) => Self::new(exact),
            None => Self(MAX),
        };
    }
}

/// Takes away a bare number and pins the exact result back into the range.
/// Nothing overflows on the way, however large the operand is.
impl<const MIN: usize, const MAX: usize> SubAssign<usize> for SaturatingUSize<MIN, MAX> {
    fn sub_assign(&mut self, other: usize)
        ensures
            final(self).value() == clamp(old(self).value() - other, MIN as int, MAX as int),
            old(self).value() == MIN ==> final(self).value() == MIN,
    {
        proof {
            use_type_invariant(&*self);
        }
        *self = match self.0.checked_sub(other) {
            Some(exact) => Self::new(exact),
            None => Self(MIN),
        };
    }
}

/// Takes away the value stored in another instance and pins the exact result
/// back into the range. Nothing overflows on the way, however large the operand
/// is.
impl<
    const MIN: usize,
    const MAX: usize,
    const OTHER_MIN: usize,
    const OTHER_MAX: usize,
> SubAssign<SaturatingUSize<OTHER_MIN, OTHER_MAX>> for SaturatingUSize<MIN, MAX> {
    fn sub_assign(&mut self, other: SaturatingUSize<OTHER_MIN, OTHER_MAX>)
        ensures
            final(self).value() == clamp(old(self).value() - other.value(), MIN as int, MAX as int),
            old(self).value() == MIN ==> final(self).value() == MIN,
    {
        proof {
            use_type_invariant(&*self);
        }
        *self = match self.0.checked_sub(other.0) {
            Some(exact) => Self::new(exact),
            None => Self(MIN),
        };
    }
}

/// Multiplies by a bare number and pins the exact product back into the range.
/// Nothing overflows on the way, however large the operand is.
impl<const MIN: usize, const MAX: usize> MulAssign<usize> for SaturatingUSize<MIN, MAX> {
    fn mul_assign(&mut self, other: usize)
        ensures
            final(self).value() == clamp(old(self).value() * other, MIN as int, MAX as int),
    {
        proof {
            use_type_invariant(&*self);
            lemma_product_sign(self.value() as int, other as int);
        }
        *self = match self.0.checked_mul(other) {
            Some(exact) => Self::new(exact),
            None => Self(MAX),
        };
    }
}

/// Multiplies by the value stored in another instance and pins the exact
/// product back into the range. Nothing overflows on the way, however large the
/// operand is.
impl<
    const MIN: usize,
    const MAX: usize,
    const OTHER_MIN: usize,
    const OTHER_MAX: usize,
> MulAssign<SaturatingUSize<OTHER_MIN, OTHER_MAX>> for SaturatingUSize<MIN, MAX> {
    fn mul_assign(&mut self, other: SaturatingUSize<OTHER_MIN, OTHER_MAX>)
        ensures
            final(self).value() == clamp(old(self).value() * other.value(), MIN as int, MAX as int),
    {
        proof {
            use_type_invariant(&*self);
            lemma_product_sign(self.value() as int, other.value() as int);
        }
        *self = match self.0.checked_mul(other.0) {
            Some(exact) => Self::new(exact),
            None => Self(MAX),
        };
    }
}

/// Divides by a bare number and pins the quotient back into the range.
impl<const MIN: usize, const MAX: usize> DivAssign<usize> for SaturatingUSize<MIN, MAX> {
    fn div_assign(&mut self, other: usize)
        requires
            other != 0,
        ensures
            final(self).value() == clamp(
                quotient(old(self).value() as int, other as int),
                MIN as int,
                MAX as int,
            ),
    {
        proof {
            use_type_invariant(&*self);
            lemma_quotient_bounds(self.value() as int, other as int);
        }
        *self = Self::new(self.0 / other);
    }
}

/// Divides by the value stored in another instance and pins the quotient back
/// into the range.
impl<
    const MIN: usize,
    const MAX: usize,
    const OTHER_MIN: usize,
    const OTHER_MAX: usize,
> DivAssign<SaturatingUSize<OTHER_MIN, OTHER_MAX>> for SaturatingUSize<MIN, MAX> {
    fn div_assign(&mut self, other: SaturatingUSize<OTHER_MIN, OTHER_MAX>)
        requires
            other.value() != 0,
        ensures
            final(self).value() == clamp(
                quotient(old(self).value() as int, other.value() as int),
                MIN as int,
                MAX as int,
            ),
    {
        proof {
            use_type_invariant(&*self);
            lemma_quotient_bounds(self.value() as int, other.value() as int);
        }
        *self = Self::new(self.0 / other.0);
    }
}

/// Takes the remainder by a bare number and pins it back into the range.
impl<const MIN: usize, const MAX: usize> RemAssign<usize> for SaturatingUSize<MIN, MAX> {
    fn rem_assign(&mut self, other: usize)
        requires
            other != 0,
        ensures
            final(self).value() == clamp(
                remainder(old(self).value() as int, other as int),
                MIN as int,
                MAX as int,
            ),
    {
        proof {
            use_type_invariant(&*self);
        }
        *self = Self::new(self.0 % other);
    }
}

/// Takes the remainder by the value stored in another instance and pins it back
/// into the range.
impl<
    const MIN: usize,
    const MAX: usize,
    const OTHER_MIN: usize,
    const OTHER_MAX: usize,
> RemAssign<SaturatingUSize<OTHER_MIN, OTHER_MAX>> for SaturatingUSize<MIN, MAX> {
    fn rem_assign(&mut self, other: SaturatingUSize<OTHER_MIN, OTHER_MAX>)
        requires
            other.value() != 0,
        ensures
            final(self).value() == clamp(
                remainder(old(self).value() as int, other.value() as int),
                MIN as int,
                MAX as int,
            ),
    {
        proof {
            use_type_invariant(&*self);
        }
        *self = Self::new(self.0 % other.0);
    }
}

/// Equal to a bare number exactly when the stored values are equal.
impl<const MIN: usize, const MAX: usize> PartialEq<usize> for SaturatingUSize<MIN, MAX> {
    fn eq(&self, other: &usize) -> (r: bool) {
        self.0 == *other
    }
}

impl<const MIN: usize, const MAX: usize> PartialEqSpecImpl<usize> for SaturatingUSize<MIN, MAX> {
    open spec fn obeys_eq_spec() -> bool {
        true
    }

    open spec fn eq_spec(&self, other: &usize) -> bool {
        self.value() == *other
    }
}

/// Equal to another instance exactly when the stored values are equal; the
/// bounds play no part.
impl<
    const MIN: usize,
    const MAX: usize,
    const OTHER_MIN: usize,
    const OTHER_MAX: usize,
> PartialEq<SaturatingUSize<OTHER_MIN, OTHER_MAX>> for SaturatingUSize<MIN, MAX> {
    fn eq(&self, other: &SaturatingUSize<OTHER_MIN, OTHER_MAX>) -> (r: bool) {
        self.0 == other.0
    }
}

impl<
    const MIN: usize,
    const MAX: usize,
    const OTHER_MIN: usize,
    const OTHER_MAX: usize,
> PartialEqSpecImpl<SaturatingUSize<OTHER_MIN, OTHER_MAX>> for SaturatingUSize<MIN, MAX> {
    open spec fn obeys_eq_spec() -> bool {
        true
    }

    open spec fn eq_spec(&self, other: &SaturatingUSize<OTHER_MIN, OTHER_MAX>) -> bool {
        self.value() == other.value()
    }
}

/// Ordered against a bare number by the stored values.
impl<const MIN: usize, const MAX: usize> PartialOrd<usize> for SaturatingUSize<MIN, MAX> {
    fn partial_cmp(&self, other: &usize) -> (r: Option<Ordering>) {
        self.0.partial_cmp(other)
    }
}

impl<const MIN: usize, const MAX: usize> PartialOrdSpecImpl<usize> for SaturatingUSize<MIN, MAX> {
    open spec fn obeys_partial_cmp_spec() -> bool {
        true
    }

    open spec fn partial_cmp_spec(&self, other: &usize) -> Option<Ordering> {
        if self.value() < *other {
            Some(Ordering::Less)
        } else if self.value() > *other {
            Some(Ordering::Greater)
        } else {
            Some(Ordering::Equal)
        }
    }
}

/// Ordered against another instance by the stored values; the bounds play no
/// part.
impl<
    const MIN: usize,
    const MAX: usize,
    const OTHER_MIN: usize,
    const OTHER_MAX: usize,
> PartialOrd<SaturatingUSize<OTHER_MIN, OTHER_MAX>> for SaturatingUSize<MIN, MAX> {
    fn partial_cmp(&self, other: &SaturatingUSize<OTHER_MIN, OTHER_MAX>) -> (r: Option<Ordering>) {
        self.0.partial_cmp(&other.0)
    }
}

impl<
    const MIN: usize,
    const MAX: usize,
    const OTHER_MIN: usize,
    const OTHER_MAX: usize,
> PartialOrdSpecImpl<SaturatingUSize<OTHER_MIN, OTHER_MAX>> for SaturatingUSize<MIN, MAX> {
    open spec fn obeys_partial_cmp_spec() -> bool {
        true
    }

    open spec fn partial_cmp_spec(
        &self,
        other: &SaturatingUSize<OTHER_MIN, OTHER_MAX>,
    ) -> Option<Ordering> {
        if self.value() < other.value() {
            Some(Ordering::Less)
        } else if self.value() > other.value() {
            Some(Ordering::Greater)
        } else {
            Some(Ordering::Equal)
        }
    }
}

} // verus!
