//! A `usize` that wraps around inside bounds fixed by its type.
use crate::model::in_range;
use crate::model::lemma_quotient_bounds;
use crate::model::lemma_wrap_fixes_range;
use crate::model::quotient;
use crate::model::remainder;
use crate::model::wrap;
use crate::model::wrapped_difference;
use crate::wide::wrap_add_u128;
use crate::wide::wrap_u128;
use crate::wide::wrap_mul_u128;
use crate::wide::wrap_sub_u128;
use core::cmp::Ordering;
use core::ops::Add;
use core::ops::AddAssign;
use core::ops::Div;
use core::ops::DivAssign;
use core::ops::Mul;
use core::ops::MulAssign;
use core::ops::Range;
use core::ops::Rem;
use core::ops::RemAssign;
use core::ops::Sub;
use core::ops::SubAssign;
use vstd::prelude::*;
use vstd::std_specs::cmp::PartialEqSpecImpl;
use vstd::std_specs::cmp::PartialOrdSpecImpl;
use vstd::std_specs::ops::AddSpecImpl;
use vstd::std_specs::ops::DivSpecImpl;
use vstd::std_specs::ops::MulSpecImpl;
use vstd::std_specs::ops::RemSpecImpl;
use vstd::std_specs::ops::SubSpecImpl;

verus! {

/// A `usize` kept inside `MIN..MAX` by wrapping around.
///
/// The plain operators hand back the raw `usize` result; the assigning
/// operators fold their result back into the range.
#[derive(Debug, Clone, Copy, Eq, Ord)]
pub struct WrappingUSize<const MIN: usize, const MAX: usize>(usize);

impl<const MIN: usize, const MAX: usize> WrappingUSize<MIN, MAX> {
    #[verifier::type_invariant]
    spec fn in_bounds(self) -> bool {
        MIN <= self.0 < MAX
    }

    /// The stored value.
    pub closed spec fn value(self) -> usize {
        self.0
    }

    /// Folds `inner` into `MIN..MAX`.
    pub fn new(inner: usize) -> (r: Self)
        requires
            MIN < MAX,
        ensures
            r.value() == wrap(inner as int, MIN as int, MAX as int),
            in_range(inner as int, MIN as int, MAX as int) ==> r.value() == inner,
    {
        proof {
            if in_range(inner as int, MIN as int, MAX as int) {
                lemma_wrap_fixes_range(inner as int, MIN as int, MAX as int);
            }
        }
        Self(wrap_u128(inner as u128, MIN as u128, MAX as u128) as usize)
    }

    /// The stored value, which always lies in `MIN..MAX`.
    pub fn inner(&self) -> (r: usize)
        ensures
            r == self.value(),
            MIN <= r < MAX,
    {
        proof {
            use_type_invariant(self);
        }
        self.0
    }

    /// The range the value lives in.
    pub fn range(&self) -> (r: Range<usize>)
        ensures
            r.start == MIN,
            r.end == MAX,
            r.start < r.end,
    {
        proof {
            use_type_invariant(self);
        }
        MIN..MAX
    }

    /// The lower bound, which the value may reach.
    pub fn min_bound(&self) -> (r: usize)
        ensures
            r == MIN,
    {
        MIN
    }

    /// The upper bound, which the value stays below.
    pub fn max_bound(&self) -> (r: usize)
        ensures
            r == MAX,
    {
        MAX
    }
}

/// The raw sum of the stored value and a bare number. It may lie outside the
/// bounds.
impl<const MIN: usize, const MAX: usize> Add<usize> for WrappingUSize<MIN, MAX> {
    type Output = usize;

    fn add(self, other: usize) -> (r: usize) {
        self.0 + other
    }
}

impl<const MIN: usize, const MAX: usize> AddSpecImpl<usize> for WrappingUSize<MIN, MAX> {
    open spec fn obeys_add_spec() -> bool {
        true
    }

    open spec fn add_req(self, other: usize) -> bool {
        usize::MIN <= self.value() + other <= usize::MAX
    }

    open spec fn add_spec(self, other: usize) -> usize {
        (self.value() + other) as usize
    }
}

/// The raw sum of the stored value and the value stored in another instance. It
/// may lie outside the bounds.
impl<
    const MIN: usize,
    const MAX: usize,
    const OTHER_MIN: usize,
    const OTHER_MAX: usize,
> Add<WrappingUSize<OTHER_MIN, OTHER_MAX>> for WrappingUSize<MIN, MAX> {
    type Output = usize;

    fn add(self, other: WrappingUSize<OTHER_MIN, OTHER_MAX>) -> (r: usize) {
        self.0 + other.0
    }
}

impl<
    const MIN: usize,
    const MAX: usize,
    const OTHER_MIN: usize,
    const OTHER_MAX: usize,
> AddSpecImpl<WrappingUSize<OTHER_MIN, OTHER_MAX>> for WrappingUSize<MIN, MAX> {
    open spec fn obeys_add_spec() -> bool {
        true
    }

    open spec fn add_req(self, other: WrappingUSize<OTHER_MIN, OTHER_MAX>) -> bool {
        usize::MIN <= self.value() + other.value() <= usize::MAX
    }

    open spec fn add_spec(self, other: WrappingUSize<OTHER_MIN, OTHER_MAX>) -> usize {
        (self.value() + other.value()) as usize
    }
}

/// The raw difference of the stored value and a bare number. A subtrahend
/// greater than the stored value is folded into the range before it is taken
/// away.
impl<const MIN: usize, const MAX: usize> Sub<usize> for WrappingUSize<MIN, MAX> {
    type Output = usize;

    fn sub(self, other: usize) -> (r: usize) {
        proof {
            use_type_invariant(self);
        }
        if other > self.0 {
            self.0 - wrap_u128(other as u128, MIN as u128, MAX as u128) as usize
        } else {
            self.0 - other
        }
    }
}

impl<const MIN: usize, const MAX: usize> SubSpecImpl<usize> for WrappingUSize<MIN, MAX> {
    open spec fn obeys_sub_spec() -> bool {
        true
    }

    open spec fn sub_req(self, other: usize) -> bool {
        usize::MIN <= wrapped_difference(
            self.value() as int,
            other as int,
            MIN as int,
            MAX as int,
        ) <= usize::MAX
    }

    open spec fn sub_spec(self, other: usize) -> usize {
        wrapped_difference(self.value() as int, other as int, MIN as int, MAX as int) as usize
    }
}

/// The raw difference of the stored value and the value stored in another
/// instance. A subtrahend greater than the stored value is folded into the
/// range before it is taken away.
impl<
    const MIN: usize,
    const MAX: usize,
    const OTHER_MIN: usize,
    const OTHER_MAX: usize,
> Sub<WrappingUSize<OTHER_MIN, OTHER_MAX>> for WrappingUSize<MIN, MAX> {
    type Output = usize;

    fn sub(self, other: WrappingUSize<OTHER_MIN, OTHER_MAX>) -> (r: usize) {
        proof {
            use_type_invariant(self);
        }
        if other.0 > self.0 {
            self.0 - wrap_u128(other.0 as u128, MIN as u128, MAX as u128) as usize
        } else {
            self.0 - other.0
        }
    }
}

impl<
    const MIN: usize,
    const MAX: usize,
    const OTHER_MIN: usize,
    const OTHER_MAX: usize,
> SubSpecImpl<WrappingUSize<OTHER_MIN, OTHER_MAX>> for WrappingUSize<MIN, MAX> {
    open spec fn obeys_sub_spec() -> bool {
        true
    }

    open spec fn sub_req(self, other: WrappingUSize<OTHER_MIN, OTHER_MAX>) -> bool {
        usize::MIN <= wrapped_difference(
            self.value() as int,
            other.value() as int,
            MIN as int,
            MAX as int,
        ) <= usize::MAX
    }

    open spec fn sub_spec(self, other: WrappingUSize<OTHER_MIN, OTHER_MAX>) -> usize {
        wrapped_difference(
            self.value() as int,
            other.value() as int,
            MIN as int,
            MAX as int,
        ) as usize
    }
}

/// The raw product of the stored value and a bare number. It may lie outside
/// the bounds.
impl<const MIN: usize, const MAX: usize> Mul<usize> for WrappingUSize<MIN, MAX> {
    type Output = usize;

    fn mul(self, other: usize) -> (r: usize) {
        self.0 * other
    }
}

impl<const MIN: usize, const MAX: usize> MulSpecImpl<usize> for WrappingUSize<MIN, MAX> {
    open spec fn obeys_mul_spec() -> bool {
        true
    }

    open spec fn mul_req(self, other: usize) -> bool {
        usize::MIN <= self.value() * other <= usize::MAX
    }

    open spec fn mul_spec(self, other: usize) -> usize {
        (self.value() * other) as usize
    }
}

/// The raw product of the stored value and the value stored in another
/// instance. It may lie outside the bounds.
impl<
    const MIN: usize,
    const MAX: usize,
    const OTHER_MIN: usize,
    const OTHER_MAX: usize,
> Mul<WrappingUSize<OTHER_MIN, OTHER_MAX>> for WrappingUSize<MIN, MAX> {
    type Output = usize;

    fn mul(self, other: WrappingUSize<OTHER_MIN, OTHER_MAX>) -> (r: usize) {
        self.0 * other.0
    }
}

impl<
    const MIN: usize,
    const MAX: usize,
    const OTHER_MIN: usize,
    const OTHER_MAX: usize,
> MulSpecImpl<WrappingUSize<OTHER_MIN, OTHER_MAX>> for WrappingUSize<MIN, MAX> {
    open spec fn obeys_mul_spec() -> bool {
        true
    }

    open spec fn mul_req(self, other: WrappingUSize<OTHER_MIN, OTHER_MAX>) -> bool {
        usize::MIN <= self.value() * other.value() <= usize::MAX
    }

    open spec fn mul_spec(self, other: WrappingUSize<OTHER_MIN, OTHER_MAX>) -> usize {
        (self.value() * other.value()) as usize
    }
}

/// The raw quotient of the stored value and a bare number. It may lie outside
/// the bounds.
impl<const MIN: usize, const MAX: usize> Div<usize> for WrappingUSize<MIN, MAX> {
    type Output = usize;

    fn div(self, other: usize) -> (r: usize) {
        proof {
            lemma_quotient_bounds(self.value() as int, other as int);
        }
        self.0 / other
    }
}

impl<const MIN: usize, const MAX: usize> DivSpecImpl<usize> for WrappingUSize<MIN, MAX> {
    open spec fn obeys_div_spec() -> bool {
        true
    }

    open spec fn div_req(self, other: usize) -> bool {
        other != 0
    }

    open spec fn div_spec(self, other: usize) -> usize {
        quotient(self.value() as int, other as int) as usize
    }
}

/// The raw quotient of the stored value and the value stored in another
/// instance. It may lie outside the bounds.
impl<
    const MIN: usize,
    const MAX: usize,
    const OTHER_MIN: usize,
    const OTHER_MAX: usize,
> Div<WrappingUSize<OTHER_MIN, OTHER_MAX>> for WrappingUSize<MIN, MAX> {
    type Output = usize;

    fn div(self, other: WrappingUSize<OTHER_MIN, OTHER_MAX>) -> (r: usize) {
        proof {
            lemma_quotient_bounds(self.value() as int, other.value() as int);
        }
        self.0 / other.0
    }
}

impl<
    const MIN: usize,
    const MAX: usize,
    const OTHER_MIN: usize,
    const OTHER_MAX: usize,
> DivSpecImpl<WrappingUSize<OTHER_MIN, OTHER_MAX>> for WrappingUSize<MIN, MAX> {
    open spec fn obeys_div_spec() -> bool {
        true
    }

    open spec fn div_req(self, other: WrappingUSize<OTHER_MIN, OTHER_MAX>) -> bool {
        other.value() != 0
    }

    open spec fn div_spec(self, other: WrappingUSize<OTHER_MIN, OTHER_MAX>) -> usize {
        quotient(self.value() as int, other.value() as int) as usize
    }
}

/// The raw remainder of the stored value and a bare number. It may lie outside
/// the bounds.
impl<const MIN: usize, const MAX: usize> Rem<usize> for WrappingUSize<MIN, MAX> {
    type Output = usize;

    fn rem(self, other: usize) -> (r: usize) {
        self.0 % other
    }
}

impl<const MIN: usize, const MAX: usize> RemSpecImpl<usize> for WrappingUSize<MIN, MAX> {
    open spec fn obeys_rem_spec() -> bool {
        true
    }

    open spec fn rem_req(self, other: usize) -> bool {
        other != 0
    }

    open spec fn rem_spec(self, other: usize) -> usize {
        remainder(self.value() as int, other as int) as usize
    }
}

/// The raw remainder of the stored value and the value stored in another
/// instance. It may lie outside the bounds.
impl<
    const MIN: usize,
    const MAX: usize,
    const OTHER_MIN: usize,
    const OTHER_MAX: usize,
> Rem<WrappingUSize<OTHER_MIN, OTHER_MAX>> for WrappingUSize<MIN, MAX> {
    type Output = usize;

    fn rem(self, other: WrappingUSize<OTHER_MIN, OTHER_MAX>) -> (r: usize) {
        self.0 % other.0
    }
}

impl<
    const MIN: usize,
    const MAX: usize,
    const OTHER_MIN: usize,
    const OTHER_MAX: usize,
> RemSpecImpl<WrappingUSize<OTHER_MIN, OTHER_MAX>> for WrappingUSize<MIN, MAX> {
    open spec fn obeys_rem_spec() -> bool {
        true
    }

    open spec fn rem_req(self, other: WrappingUSize<OTHER_MIN, OTHER_MAX>) -> bool {
        other.value() != 0
    }

    open spec fn rem_spec(self, other: WrappingUSize<OTHER_MIN, OTHER_MAX>) -> usize {
        remainder(self.value() as int, other.value() as int) as usize
    }
}

/// Adds a bare number and folds the exact result back into the range. Nothing
/// overflows on the way, however large the operand is.
impl<const MIN: usize, const MAX: usize> AddAssign<usize> for WrappingUSize<MIN, MAX> {
    fn add_assign(&mut self, other: usize)
        ensures
            final(self).value() == wrap(old(self).value() + other, MIN as int, MAX as int),
    {
        proof {
            use_type_invariant(&*self);
        }
        self.0 = wrap_add_u128(self.0 as u128, other as u128, MIN as u128, MAX as u128) as usize;
    }
}

/// Adds the value stored in another instance and folds the exact result back
/// into the range. Nothing overflows on the way, however large the operand is.
impl<
    const MIN: usize,
    const MAX: usize,
    const OTHER_MIN: usize,
    const OTHER_MAX: usize,
> AddAssign<WrappingUSize<OTHER_MIN, OTHER_MAX>> for WrappingUSize<MIN, MAX> {
    fn add_assign(&mut self, other: WrappingUSize<OTHER_MIN, OTHER_MAX>)
        ensures
            final(self).value() == wrap(old(self).value() + other.value(), MIN as int, MAX as int),
    {
        proof {
            use_type_invariant(&*self);
        }
        self.0 = wrap_add_u128(self.0 as u128, other.0 as u128, MIN as u128, MAX as u128) as usize;
    }
}

/// Takes away a bare number and folds the exact result back into the range.
/// Nothing overflows on the way, however large the operand is.
impl<const MIN: usize, const MAX: usize> SubAssign<usize> for WrappingUSize<MIN, MAX> {
    fn sub_assign(&mut self, other: usize)
        ensures
            final(self).value() == wrap(old(self).value() - other, MIN as int, MAX as int),
    {
        proof {
            use_type_invariant(&*self);
        }
        self.0 = wrap_sub_u128(self.0 as u128, other as u128, MIN as u128, MAX as u128) as usize;
    }
}

/// Takes away the value stored in another instance and folds the exact result
/// back into the range. Nothing overflows on the way, however large the operand
/// is.
impl<
    const MIN: usize,
    const MAX: usize,
    const OTHER_MIN: usize,
    const OTHER_MAX: usize,
> SubAssign<WrappingUSize<OTHER_MIN, OTHER_MAX>> for WrappingUSize<MIN, MAX> {
    fn sub_assign(&mut self, other: WrappingUSize<OTHER_MIN, OTHER_MAX>)
        ensures
            final(self).value() == wrap(old(self).value() - other.value(), MIN as int, MAX as int),
    {
        proof {
            use_type_invariant(&*self);
        }
        self.0 = wrap_sub_u128(self.0 as u128, other.0 as u128, MIN as u128, MAX as u128) as usize;
    }
}

/// Multiplies by a bare number and folds the exact product back into the range.
/// Nothing overflows on the way, however large the operand is.
impl<const MIN: usize, const MAX: usize> MulAssign<usize> for WrappingUSize<MIN, MAX> {
    fn mul_assign(&mut self, other: usize)
        ensures
            final(self).value() == wrap(old(self).value() * other, MIN as int, MAX as int),
    {
        proof {
            use_type_invariant(&*self);
        }
        self.0 = wrap_mul_u128(self.0 as u128, other as u128, MIN as u128, MAX as u128) as usize;
    }
}

/// Multiplies by the value stored in another instance and folds the exact
/// product back into the range. Nothing overflows on the way, however large the
/// operand is.
impl<
    const MIN: usize,
    const MAX: usize,
    const OTHER_MIN: usize,
    const OTHER_MAX: usize,
> MulAssign<WrappingUSize<OTHER_MIN, OTHER_MAX>> for WrappingUSize<MIN, MAX> {
    fn mul_assign(&mut self, other: WrappingUSize<OTHER_MIN, OTHER_MAX>)
        ensures
            final(self).value() == wrap(old(self).value() * other.value(), MIN as int, MAX as int),
    {
        proof {
            use_type_invariant(&*self);
        }
        self.0 = wrap_mul_u128(self.0 as u128, other.0 as u128, MIN as u128, MAX as u128) as usize;
    }
}

/// Divides by a bare number and folds the quotient back into the range.
impl<const MIN: usize, const MAX: usize> DivAssign<usize> for WrappingUSize<MIN, MAX> {
    fn div_assign(&mut self, other: usize)
        requires
            other != 0,
        ensures
            final(self).value() == wrap(
                quotient(old(self).value() as int, other as int),
                MIN as int,
                MAX as int,
            ),
    {
        proof {
            use_type_invariant(&*self);
            lemma_quotient_bounds(self.value() as int, other as int);
        }
        self.0 = wrap_u128((self.0 / other) as u128, MIN as u128, MAX as u128) as usize;
    }
}

/// Divides by the value stored in another instance and folds the quotient back
/// into the range.
impl<
    const MIN: usize,
    const MAX: usize,
    const OTHER_MIN: usize,
    const OTHER_MAX: usize,
> DivAssign<WrappingUSize<OTHER_MIN, OTHER_MAX>> for WrappingUSize<MIN, MAX> {
    fn div_assign(&mut self, other: WrappingUSize<OTHER_MIN, OTHER_MAX>)
        requires
            other.value() != 0,
        ensures
            final(self).value() == wrap(
                quotient(old(self).value() as int, other.value() as int),
                MIN as int,
                MAX as int,
            ),
    {
        proof {
            use_type_invariant(&*self);
            lemma_quotient_bounds(self.value() as int, other.value() as int);
        }
        self.0 = wrap_u128((self.0 / other.0) as u128, MIN as u128, MAX as u128) as usize;
    }
}

/// Takes the remainder by a bare number and folds it back into the range.
impl<const MIN: usize, const MAX: usize> RemAssign<usize> for WrappingUSize<MIN, MAX> {
    fn rem_assign(&mut self, other: usize)
        requires
            other != 0,
        ensures
            final(self).value() == wrap(
                remainder(old(self).value() as int, other as int),
                MIN as int,
                MAX as int,
            ),
    {
        proof {
            use_type_invariant(&*self);
        }
        self.0 = wrap_u128((self.0 % other) as u128, MIN as u128, MAX as u128) as usize;
    }
}

/// Takes the remainder by the value stored in another instance and folds it
/// back into the range.
impl<
    const MIN: usize,
    const MAX: usize,
    const OTHER_MIN: usize,
    const OTHER_MAX: usize,
> RemAssign<WrappingUSize<OTHER_MIN, OTHER_MAX>> for WrappingUSize<MIN, MAX> {
    fn rem_assign(&mut self, other: WrappingUSize<OTHER_MIN, OTHER_MAX>)
        requires
            other.value() != 0,
        ensures
            final(self).value() == wrap(
                remainder(old(self).value() as int, other.value() as int),
                MIN as int,
                MAX as int,
            ),
    {
        proof {
            use_type_invariant(&*self);
        }
        self.0 = wrap_u128((self.0 % other.0) as u128, MIN as u128, MAX as u128) as usize;
    }
}

/// Equal to a bare number exactly when the stored values are equal.
impl<const MIN: usize, const MAX: usize> PartialEq<usize> for WrappingUSize<MIN, MAX> {
    fn eq(&self, other: &usize) -> (r: bool) {
        self.0 == *other
    }
}

impl<const MIN: usize, const MAX: usize> PartialEqSpecImpl<usize> for WrappingUSize<MIN, MAX> {
    open spec fn obeys_eq_spec() -> bool {
        true
    }

    open spec fn eq_spec(&self, other: &usize) -> bool {
        self.value() == *other
    }
}

/// Equal to another instance exactly when the stored values are equal; the
/// bounds play no part.
impl<
    const MIN: usize,
    const MAX: usize,
    const OTHER_MIN: usize,
    const OTHER_MAX: usize,
> PartialEq<WrappingUSize<OTHER_MIN, OTHER_MAX>> for WrappingUSize<MIN, MAX> {
    fn eq(&self, other: &WrappingUSize<OTHER_MIN, OTHER_MAX>) -> (r: bool) {
        self.0 == other.0
    }
}

impl<
    const MIN: usize,
    const MAX: usize,
    const OTHER_MIN: usize,
    const OTHER_MAX: usize,
> PartialEqSpecImpl<WrappingUSize<OTHER_MIN, OTHER_MAX>> for WrappingUSize<MIN, MAX> {
    open spec fn obeys_eq_spec() -> bool {
        true
    }

    open spec fn eq_spec(&self, other: &WrappingUSize<OTHER_MIN, OTHER_MAX>) -> bool {
        self.value() == other.value()
    }
}

/// Ordered against a bare number by the stored values.
impl<const MIN: usize, const MAX: usize> PartialOrd<usize> for WrappingUSize<MIN, MAX> {
    fn partial_cmp(&self, other: &usize) -> (r: Option<Ordering>) {
        self.0.partial_cmp(other)
    }
}

impl<const MIN: usize, const MAX: usize> PartialOrdSpecImpl<usize> for WrappingUSize<MIN, MAX> {
    open spec fn obeys_partial_cmp_spec() -> bool {
        true
    }

    open spec fn partial_cmp_spec(&self, other: &usize) -> Option<Ordering> {
        if self.value() < *other {
            Some(Ordering::Less)
        } else if self.value() > *other {
            Some(Ordering::Greater)
        } else {
            Some(Ordering::Equal)
        }
    }
}

/// Ordered against another instance by the stored values; the bounds play no
/// part.
impl<
    const MIN: usize,
    const MAX: usize,
    const OTHER_MIN: usize,
    const OTHER_MAX: usize,
> PartialOrd<WrappingUSize<OTHER_MIN, OTHER_MAX>> for WrappingUSize<MIN, MAX> {
    fn partial_cmp(&self, other: &WrappingUSize<OTHER_MIN, OTHER_MAX>) -> (r: Option<Ordering>) {
        self.0.partial_cmp(&other.0)
    }
}

impl<
    const MIN: usize,
    const MAX: usize,
    const OTHER_MIN: usize,
    const OTHER_MAX: usize,
> PartialOrdSpecImpl<WrappingUSize<OTHER_MIN, OTHER_MAX>> for WrappingUSize<MIN, MAX> {
    open spec fn obeys_partial_cmp_spec() -> bool {
        true
    }

    open spec fn partial_cmp_spec(
        &self,
        other: &WrappingUSize<OTHER_MIN, OTHER_MAX>,
    ) -> Option<Ordering> {
        if self.value() < other.value() {
            Some(Ordering::Less)
        } else if self.value() > other.value() {
            Some(Ordering::Greater)
        } else {
            Some(Ordering::Equal)
        }
    }
}

} // verus!
