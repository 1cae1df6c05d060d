//! A `u128` that wraps around inside bounds fixed by its type.
use crate::model::in_range;
use crate::model::lemma_quotient_bounds;
use crate::model::lemma_wrap_fixes_range;
use crate::model::quotient;
use crate::model::remainder;
use crate::model::wrap;
use crate::model::wrapped_difference;
use crate::wide::wrap_add_u128;
use crate::wide::wrap_u128;
use crate::wide::wrap_mul_u128;
use crate::wide::wrap_sub_u128;
use core::cmp::Ordering;
use core::ops::Add;
use core::ops::AddAssign;
use core::ops::Div;
use core::ops::DivAssign;
use core::ops::Mul;
use core::ops::MulAssign;
use core::ops::Range;
use core::ops::Rem;
use core::ops::RemAssign;
use core::ops::Sub;
use core::ops::SubAssign;
use vstd::prelude::*;
use vstd::std_specs::cmp::PartialEqSpecImpl;
use vstd::std_specs::cmp::PartialOrdSpecImpl;
use vstd::std_specs::ops::AddSpecImpl;
use vstd::std_specs::ops::DivSpecImpl;
use vstd::std_specs::ops::MulSpecImpl;
use vstd::std_specs::ops::RemSpecImpl;
use vstd::std_specs::ops::SubSpecImpl;

verus! {

/// A `u128` kept inside `MIN..MAX` by wrapping around.
///
/// The plain operators hand back the raw `u128` result; the assigning
/// operators fold their result back into the range.
#[derive(Debug, Clone, Copy, Eq, Ord)]
pub struct WrappingU128<const MIN: u128, const MAX: u128>(u128);

impl<const MIN: u128, const MAX: u128> WrappingU128<MIN, MAX> {
    #[verifier::type_invariant]
    spec fn in_bounds(self) -> bool {
        MIN <= self.0 < MAX
    }

    /// The stored value.
    pub closed spec fn value(self) -> u128 {
        self.0
    }

    /// Folds `inner` into `MIN..MAX`.
    pub fn new(inner: u128) -> (r: Self)
        requires
            MIN < MAX,
        ensures
            r.value() == wrap(inner as int, MIN as int, MAX as int),
            in_range(inner as int, MIN as int, MAX as int) ==> r.value() == inner,
    {
        proof {
            if in_range(inner as int, MIN as int, MAX as int) {
                lemma_wrap_fixes_range(inner as int, MIN as int, MAX as int);
            }
        }
        Self(wrap_u128(inner, MIN, MAX))
    }

    /// The stored value, which always lies in `MIN..MAX`.
    pub fn inner(&self) -> (r: u128)
        ensures
            r == self.value(),
            MIN <= r < MAX,
    {
        proof {
            use_type_invariant(self);
        }
        self.0
    }

    /// The range the value lives in.
    pub fn range(&self) -> (r: Range<u128>)
        ensures
            r.start == MIN,
            r.end == MAX,
            r.start < r.end,
    {
        proof {
            use_type_invariant(self);
        }
        MIN..MAX
    }

    /// The lower bound, which the value may reach.
    pub fn min_bound(&self) -> (r: u128)
        ensures
            r == MIN,
    {
        MIN
    }

    /// The upper bound, which the value stays below.
    pub fn max_bound(&self) -> (r: u128)
        ensures
            r == MAX,
    {
        MAX
    }
}

/// The raw sum of the stored value and a bare number. It may lie outside the
/// bounds.
impl<const MIN: u128, const MAX: u128> Add<u128> for WrappingU128<MIN, MAX> {
    type Output = u128;

    fn add(self, other: u128) -> (r: u128) {
        self.0 + other
    }
}

impl<const MIN: u128, const MAX: u128> AddSpecImpl<u128> for WrappingU128<MIN, MAX> {
    open spec fn obeys_add_spec() -> bool {
        true
    }

    open spec fn add_req(self, other: u128) -> bool {
        u128::MIN <= self.value() + other <= u128::MAX
    }

    open spec fn add_spec(self, other: u128) -> u128 {
        (self.value() + other) as u128
    }
}

/// The raw sum of the stored value and the value stored in another instance. It
/// may lie outside the bounds.
impl<
    const MIN: u128,
    const MAX: u128,
    const OTHER_MIN: u128,
    const OTHER_MAX: u128,
> Add<WrappingU128<OTHER_MIN, OTHER_MAX>> for WrappingU128<MIN, MAX> {
    type Output = u128;

    fn add(self, other: WrappingU128<OTHER_MIN, OTHER_MAX>) -> (r: u128) {
        self.0 + other.0
    }
}

impl<
    const MIN: u128,
    const MAX: u128,
    const OTHER_MIN: u128,
    const OTHER_MAX: u128,
> AddSpecImpl<WrappingU128<OTHER_MIN, OTHER_MAX>> for WrappingU128<MIN, MAX> {
    open spec fn obeys_add_spec() -> bool {
        true
    }

    open spec fn add_req(self, other: WrappingU128<OTHER_MIN, OTHER_MAX>) -> bool {
        u128::MIN <= self.value() + other.value() <= u128::MAX
    }

    open spec fn add_spec(self, other: WrappingU128<OTHER_MIN, OTHER_MAX>) -> u128 {
        (self.value() + other.value()) as u128
    }
}

/// The raw difference of the stored value and a bare number. A subtrahend
/// greater than the stored value is folded into the range before it is taken
/// away.
impl<const MIN: u128, const MAX: u128> Sub<u128> for WrappingU128<MIN, MAX> {
    type Output = u128;

    fn sub(self, other: u128) -> (r: u128) {
        proof {
            use_type_invariant(self);
        }
        if other > self.0 {
            self.0 - wrap_u128(other, MIN, MAX)
        } else {
            self.0 - other
        }
    }
}

impl<const MIN: u128, const MAX: u128> SubSpecImpl<u128> for WrappingU128<MIN, MAX> {
    open spec fn obeys_sub_spec() -> bool {
        true
    }

    open spec fn sub_req(self, other: u128) -> bool {
        u128::MIN <= wrapped_difference(
            self.value() as int,
            other as int,
            MIN as int,
            MAX as int,
        ) <= u128::MAX
    }

    open spec fn sub_spec(self, other: u128) -> u128 {
        wrapped_difference(self.value() as int, other as int, MIN as int, MAX as int) as u128
    }
}

/// The raw difference of the stored value and the value stored in another
/// instance. A subtrahend greater than the stored value is folded into the
/// range before it is taken away.
impl<
    const MIN: u128,
    const MAX: u128,
    const OTHER_MIN: u128,
    const OTHER_MAX: u128,
> Sub<WrappingU128<OTHER_MIN, OTHER_MAX>> for WrappingU128<MIN, MAX> {
    type Output = u128;

    fn sub(self, other: WrappingU128<OTHER_MIN, OTHER_MAX>) -> (r: u128) {
        proof {
            use_type_invariant(self);
        }
        if other.0 > self.0 {
            self.0 - wrap_u128(other.0, MIN, MAX)
        } else {
            self.0 - other.0
        }
    }
}

impl<
    const MIN: u128,
    const MAX: u128,
    const OTHER_MIN: u128,
    const OTHER_MAX: u128,
> SubSpecImpl<WrappingU128<OTHER_MIN, OTHER_MAX>> for WrappingU128<MIN, MAX> {
    open spec fn obeys_sub_spec() -> bool {
        true
    }

    open spec fn sub_req(self, other: WrappingU128<OTHER_MIN, OTHER_MAX>) -> bool {
        u128::MIN <= wrapped_difference(
            self.value() as int,
            other.value() as int,
            MIN as int,
            MAX as int,
        ) <= u128::MAX
    }

    open spec fn sub_spec(self, other: WrappingU128<OTHER_MIN, OTHER_MAX>) -> u128 {
        wrapped_difference(
            self.value() as int,
            other.value() as int,
            MIN as int,
            MAX as int,
        ) as u128
    }
}

/// The raw product of the stored value and a bare number. It may lie outside
/// the bounds.
impl<const MIN: u128, const MAX: u128> Mul<u128> for WrappingU128<MIN, MAX> {
    type Output = u128;

    fn mul(self, other: u128) -> (r: u128) {
        self.0 * other
    }
}

impl<const MIN: u128, const MAX: u128> MulSpecImpl<u128> for WrappingU128<MIN, MAX> {
    open spec fn obeys_mul_spec() -> bool {
        true
    }

    open spec fn mul_req(self, other: u128) -> bool {
        u128::MIN <= self.value() * other <= u128::MAX
    }

    open spec fn mul_spec(self, other: u128) -> u128 {
        (self.value() * other) as u128
    }
}

/// The raw product of the stored value and the value stored in another
/// instance. It may lie outside the bounds.
impl<
    const MIN: u128,
    const MAX: u128,
    const OTHER_MIN: u128,
    const OTHER_MAX: u128,
> Mul<WrappingU128<OTHER_MIN, OTHER_MAX>> for WrappingU128<MIN, MAX> {
    type Output = u128;

    fn mul(self, other: WrappingU128<OTHER_MIN, OTHER_MAX>) -> (r: u128) {
        self.0 * other.0
    }
}

impl<
    const MIN: u128,
    const MAX: u128,
    const OTHER_MIN: u128,
    const OTHER_MAX: u128,
> MulSpecImpl<WrappingU128<OTHER_MIN, OTHER_MAX>> for WrappingU128<MIN, MAX> {
    open spec fn obeys_mul_spec() -> bool {
        true
    }

    open spec fn mul_req(self, other: WrappingU128<OTHER_MIN, OTHER_MAX>) -> bool {
        u128::MIN <= self.value() * other.value() <= u128::MAX
    }

    open spec fn mul_spec(self, other: WrappingU128<OTHER_MIN, OTHER_MAX>) -> u128 {
        (self.value() * other.value()) as u128
    }
}

/// The raw quotient of the stored value and a bare number. It may lie outside
/// the bounds.
impl<const MIN: u128, const MAX: u128> Div<u128> for WrappingU128<MIN, MAX> {
    type Output = u128;

    fn div(self, other: u128) -> (r: u128) {
        proof {
            lemma_quotient_bounds(self.value() as int, other as int);
        }
        self.0 / other
    }
}

impl<const MIN: u128, const MAX: u128> DivSpecImpl<u128> for WrappingU128<MIN, MAX> {
    open spec fn obeys_div_spec() -> bool {
        true
    }

    open spec fn div_req(self, other: u128) -> bool {
        other != 0
    }

    open spec fn div_spec(self, other: u128) -> u128 {
        quotient(self.value() as int, other as int) as u128
    }
}

/// The raw quotient of the stored value and the value stored in another
/// instance. It may lie outside the bounds.
impl<
    const MIN: u128,
    const MAX: u128,
    const OTHER_MIN: u128,
    const OTHER_MAX: u128,
> Div<WrappingU128<OTHER_MIN, OTHER_MAX>> for WrappingU128<MIN, MAX> {
    type Output = u128;

    fn div(self, other: WrappingU128<OTHER_MIN, OTHER_MAX>) -> (r: u128) {
        proof {
            lemma_quotient_bounds(self.value() as int, other.value() as int);
        }
        self.0 / other.0
    }
}

impl<
    const MIN: u128,
    const MAX: u128,
    const OTHER_MIN: u128,
    const OTHER_MAX: u128,
> DivSpecImpl<WrappingU128<OTHER_MIN, OTHER_MAX>> for WrappingU128<MIN, MAX> {
    open spec fn obeys_div_spec() -> bool {
        true
    }

    open spec fn div_req(self, other: WrappingU128<OTHER_MIN, OTHER_MAX>) -> bool {
        other.value() != 0
    }

    open spec fn div_spec(self, other: WrappingU128<OTHER_MIN, OTHER_MAX>) -> u128 {
        quotient(self.value() as int, other.value() as int) as u128
    }
}

/// The raw remainder of the stored value and a bare number. It may lie outside
/// the bounds.
impl<const MIN: u128, const MAX: u128> Rem<u128> for WrappingU128<MIN, MAX> {
    type Output = u128;

    fn rem(self, other: u128) -> (r: u128) {
        self.0 % other
    }
}

impl<const MIN: u128, const MAX: u128> RemSpecImpl<u128> for WrappingU128<MIN, MAX> {
    open spec fn obeys_rem_spec() -> bool {
        true
    }

    open spec fn rem_req(self, other: u128) -> bool {
        other != 0
    }

    open spec fn rem_spec(self, other: u128) -> u128 {
        remainder(self.value() as int, other as int) as u128
    }
}

/// The raw remainder of the stored value and the value stored in another
/// instance. It may lie outside the bounds.
impl<
    const MIN: u128,
    const MAX: u128,
    const OTHER_MIN: u128,
    const OTHER_MAX: u128,
> Rem<WrappingU128<OTHER_MIN, OTHER_MAX>> for WrappingU128<MIN, MAX> {
    type Output = u128;

    fn rem(self, other: WrappingU128<OTHER_MIN, OTHER_MAX>) -> (r: u128) {
        self.0 % other.0
    }
}

impl<
    const MIN: u128,
    const MAX: u128,
    const OTHER_MIN: u128,
    const OTHER_MAX: u128,
> RemSpecImpl<WrappingU128<OTHER_MIN, OTHER_MAX>> for WrappingU128<MIN, MAX> {
    open spec fn obeys_rem_spec() -> bool {
        true
    }

    open spec fn rem_req(self, other: WrappingU128<OTHER_MIN, OTHER_MAX>) -> bool {
        other.value() != 0
    }

    open spec fn rem_spec(self, other: WrappingU128<OTHER_MIN, OTHER_MAX>) -> u128 {
        remainder(self.value() as int, other.value() as int) as u128
    }
}

/// Adds a bare number and folds the exact result back into the range. Nothing
/// overflows on the way, however large the operand is.
impl<const MIN: u128, const MAX: u128> AddAssign<u128> for WrappingU128<MIN, MAX> {
    fn add_assign(&mut self, other: u128)
        ensures
            final(self).value() == wrap(old(self).value() + other, MIN as int, MAX as int),
    {
        proof {
            use_type_invariant(&*self);
        }
        self.0 = wrap_add_u128(self.0, other, MIN, MAX);
    }
}

/// Adds the value stored in another instance and folds the exact result back
/// into the range. Nothing overflows on the way, however large the operand is.
impl<
    const MIN: u128,
    const MAX: u128,
    const OTHER_MIN: u128,
    const OTHER_MAX: u128,
> AddAssign<WrappingU128<OTHER_MIN, OTHER_MAX>> for WrappingU128<MIN, MAX> {
    fn add_assign(&mut self, other: WrappingU128<OTHER_MIN, OTHER_MAX>)
        ensures
            final(self).value() == wrap(old(self).value() + other.value(), MIN as int, MAX as int),
    {
        proof {
            use_type_invariant(&*self);
        }
        self.0 = wrap_add_u128(self.0, other.0, MIN, MAX);
    }
}

/// Takes away a bare number and folds the exact result back into the range.
/// Nothing overflows on the way, however large the operand is.
impl<const MIN: u128, const MAX: u128> SubAssign<u128> for WrappingU128<MIN, MAX> {
    fn sub_assign(&mut self, other: u128)
        ensures
            final(self).value() == wrap(old(self).value() - other, MIN as int, MAX as int),
    {
        proof {
            use_type_invariant(&*self);
        }
        self.0 = wrap_sub_u128(self.0, other, MIN, MAX);
    }
}

/// Takes away the value stored in another instance and folds the exact result
/// back into the range. Nothing overflows on the way, however large the operand
/// is.
impl<
    const MIN: u128,
    const MAX: u128,
    const OTHER_MIN: u128,
    const OTHER_MAX: u128,
> SubAssign<WrappingU128<OTHER_MIN, OTHER_MAX>> for WrappingU128<MIN, MAX> {
    fn sub_assign(&mut self, other: WrappingU128<OTHER_MIN, OTHER_MAX>)
        ensures
            final(self).value() == wrap(old(self).value() - other.value(), MIN as int, MAX as int),
    {
        proof {
            use_type_invariant(&*self);
        }
        self.0 = wrap_sub_u128(self.0, other.0, MIN, MAX);
    }
}

/// Multiplies by a bare number and folds the exact product back into the range.
/// Nothing overflows on the way, however large the operand is.
impl<const MIN: u128, const MAX: u128> MulAssign<u128> for WrappingU128<MIN, MAX> {
    fn mul_assign(&mut self, other: u128)
        ensures
            final(self).value() == wrap(old(self).value() * other, MIN as int, MAX as int),
    {
        proof {
            use_type_invariant(&*self);
        }
        self.0 = wrap_mul_u128(self.0, other, MIN, MAX);
    }
}

/// Multiplies by the value stored in another instance and folds the exact
/// product back into the range. Nothing overflows on the way, however large the
/// operand is.
impl<
    const MIN: u128,
    const MAX: u128,
    const OTHER_MIN: u128,
    const OTHER_MAX: u128,
> MulAssign<WrappingU128<OTHER_MIN, OTHER_MAX>> for WrappingU128<MIN, MAX> {
    fn mul_assign(&mut self, other: WrappingU128<OTHER_MIN, OTHER_MAX>)
        ensures
            final(self).value() == wrap(old(self).value() * other.value(), MIN as int, MAX as int),
    {
        proof {
            use_type_invariant(&*self);
        }
        self.0 = wrap_mul_u128(self.0, other.0, MIN, MAX);
    }
}

/// Divides by a bare number and folds the quotient back into the range.
impl<const MIN: u128, const MAX: u128> DivAssign<u128> for WrappingU128<MIN, MAX> {
    fn div_assign(&mut self, other: u128)
        requires
            other != 0,
        ensures
            final(self).value() == wrap(
                quotient(old(self).value() as int, other as int),
                MIN as int,
                MAX as int,
            ),
    {
        proof {
            use_type_invariant(&*self);
            lemma_quotient_bounds(self.value() as int, other as int);
        }
        self.0 = wrap_u128(self.0 / other, MIN, MAX);
    }
}

/// Divides by the value stored in another instance and folds the quotient back
/// into the range.
impl<
    const MIN: u128,
    const MAX: u128,
    const OTHER_MIN: u128,
    const OTHER_MAX: u128,
> DivAssign<WrappingU128<OTHER_MIN, OTHER_MAX>> for WrappingU128<MIN, MAX> {
    fn div_assign(&mut self, other: WrappingU128<OTHER_MIN, OTHER_MAX>)
        requires
            other.value() != 0,
        ensures
            final(self).value() == wrap(
                quotient(old(self).value() as int, other.value() as int),
                MIN as int,
                MAX as int,
            ),
    {
        proof {
            use_type_invariant(&*self);
            lemma_quotient_bounds(self.value() as int, other.value() as int);
        }
        self.0 = wrap_u128(self.0 / other.0, MIN, MAX);
    }
}

/// Takes the remainder by a bare number and folds it back into the range.
impl<const MIN: u128, const MAX: u128> RemAssign<u128> for WrappingU128<MIN, MAX> {
    fn rem_assign(&mut self, other: u128)
        requires
            other != 0,
        ensures
            final(self).value() == wrap(
                remainder(old(self).value() as int, other as int),
                MIN as int,
                MAX as int,
            ),
    {
        proof {
            use_type_invariant(&*self);
        }
        self.0 = wrap_u128(self.0 % other, MIN, MAX);
    }
}

/// Takes the remainder by the value stored in another instance and folds it
/// back into the range.
impl<
    const MIN: u128,
    const MAX: u128,
    const OTHER_MIN: u128,
    const OTHER_MAX: u128,
> RemAssign<WrappingU128<OTHER_MIN, OTHER_MAX>> for WrappingU128<MIN, MAX> {
    fn rem_assign(&mut self, other: WrappingU128<OTHER_MIN, OTHER_MAX>)
        requires
            other.value() != 0,
        ensures
            final(self).value() == wrap(
                remainder(old(self).value() as int, other.value() as int),
                MIN as int,
                MAX as int,
            ),
    {
        proof {
            use_type_invariant(&*self);
        }
        self.0 = wrap_u128(self.0 % other.0, MIN, MAX);
    }
}

/// Equal to a bare number exactly when the stored values are equal.
impl<const MIN: u128, const MAX: u128> PartialEq<u128> for WrappingU128<MIN, MAX> {
    fn eq(&self, other: &u128) -> (r: bool) {
        self.0 == *other
    }
}

impl<const MIN: u128, const MAX: u128> PartialEqSpecImpl<u128> for WrappingU128<MIN, MAX> {
    open spec fn obeys_eq_spec() -> bool {
        true
    }

    open spec fn eq_spec(&self, other: &u128) -> bool {
        self.value() == *other
    }
}

/// Equal to another instance exactly when the stored values are equal; the
/// bounds play no part.
impl<
    const MIN: u128,
    const MAX: u128,
    const OTHER_MIN: u128,
    const OTHER_MAX: u128,
> PartialEq<WrappingU128<OTHER_MIN, OTHER_MAX>> for WrappingU128<MIN, MAX> {
    fn eq(&self, other: &WrappingU128<OTHER_MIN, OTHER_MAX>) -> (r: bool) {
        self.0 == other.0
    }
}

impl<
    const MIN: u128,
    const MAX: u128,
    const OTHER_MIN: u128,
    const OTHER_MAX: u128,
> PartialEqSpecImpl<WrappingU128<OTHER_MIN, OTHER_MAX>> for WrappingU128<MIN, MAX> {
    open spec fn obeys_eq_spec() -> bool {
        true
    }

    open spec fn eq_spec(&self, other: &WrappingU128<OTHER_MIN, OTHER_MAX>) -> bool {
        self.value() == other.value()
    }
}

/// Ordered against a bare number by the stored values.
impl<const MIN: u128, const MAX: u128> PartialOrd<u128> for WrappingU128<MIN, MAX> {
    fn partial_cmp(&self, other: &u128) -> (r: Option<Ordering>) {
        self.0.partial_cmp(other)
    }
}

impl<const MIN: u128, const MAX: u128> PartialOrdSpecImpl<u128> for WrappingU128<MIN, MAX> {
    open spec fn obeys_partial_cmp_spec() -> bool {
        true
    }

    open spec fn partial_cmp_spec(&self, other: &u128) -> Option<Ordering> {
        if self.value() < *other {
            Some(Ordering::Less)
        } else if self.value() > *other {
            Some(Ordering::Greater)
        } else {
            Some(Ordering::Equal)
        }
    }
}

/// Ordered against another instance by the stored values; the bounds play no
/// part.
impl<
    const MIN: u128,
    const MAX: u128,
    const OTHER_MIN: u128,
    const OTHER_MAX: u128,
> PartialOrd<WrappingU128<OTHER_MIN, OTHER_MAX>> for WrappingU128<MIN, MAX> {
    fn partial_cmp(&self, other: &WrappingU128<OTHER_MIN, OTHER_MAX>) -> (r: Option<Ordering>) {
        self.0.partial_cmp(&other.0)
    }
}

impl<
    const MIN: u128,
    const MAX: u128,
    const OTHER_MIN: u128,
    const OTHER_MAX: u128,
> PartialOrdSpecImpl<WrappingU128<OTHER_MIN, OTHER_MAX>> for WrappingU128<MIN, MAX> {
    open spec fn obeys_partial_cmp_spec() -> bool {
        true
    }

    open spec fn partial_cmp_spec(
        &self,
        other: &WrappingU128<OTHER_MIN, OTHER_MAX>,
    ) -> Option<Ordering> {
        if self.value() < other.value() {
            Some(Ordering::Less)
        } else if self.value() > other.value() {
            Some(Ordering::Greater)
        } else {
            Some(Ordering::Equal)
        }
    }
}

} // verus!
