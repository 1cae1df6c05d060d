//! A `u8` that wraps around inside bounds fixed by its type.
use crate::model::in_range;
use crate::model::lemma_quotient_bounds;
use crate::model::lemma_wrap_fixes_range;
use crate::model::quotient;
use crate::model::remainder;
use crate::model::wrap;
use crate::model::wrapped_difference;
use crate::wide::wrap_add_u128;
use crate::wide::wrap_u128;
use crate::wide::wrap_mul_u128;
use crate::wide::wrap_sub_u128;
use core::cmp::Ordering;
use core::ops::Add;
use core::ops::AddAssign;
use core::ops::Div;
use core::ops::DivAssign;
use core::ops::Mul;
use core::ops::MulAssign;
use core::ops::Range;
use core::ops::Rem;
use core::ops::RemAssign;
use core::ops::Sub;
use core::ops::SubAssign;
use vstd::prelude::*;
use vstd::std_specs::cmp::PartialEqSpecImpl;
use vstd::std_specs::cmp::PartialOrdSpecImpl;
use vstd::std_specs::ops::AddSpecImpl;
use vstd::std_specs::ops::DivSpecImpl;
use vstd::std_specs::ops::MulSpecImpl;
use vstd::std_specs::ops::RemSpecImpl;
use vstd::std_specs::ops::SubSpecImpl;

verus! {

/// A `u8` kept inside `MIN..MAX` by wrapping around.
///
/// The plain operators hand back the raw `u8` result; the assigning
/// operators fold their result back into the range.
#[derive(Debug, Clone, Copy, Eq, Ord)]
pub struct WrappingU8<const MIN: u8, const MAX: u8>(u8);

impl<const MIN: u8, const MAX: u8> WrappingU8<MIN, MAX> {
    #[verifier::type_invariant]
    spec fn in_bounds(self) -> bool {
        MIN <= self.0 < MAX
    }

    /// The stored value.
    pub closed spec fn value(self) -> u8 {
        self.0
    }

    /// Folds `inner` into `MIN..MAX`.
    pub fn new(inner: u8) -> (r: Self)
        requires
            MIN < MAX,
        ensures
            r.value() == wrap(inner as int, MIN as int, MAX as int),
            in_range(inner as int, MIN as int, MAX as int) ==> r.value() == inner,
    {
        proof {
            if in_range(inner as int, MIN as int, MAX as int) {
                lemma_wrap_fixes_range(inner as int, MIN as int, MAX as int);
            }
        }
        Self(wrap_u128(inner as u128, MIN as u128, MAX as u128) as u8)
    }

    /// The stored value, which always lies in `MIN..MAX`.
    pub fn inner(&self) -> (r: u8)
        ensures
            r == self.value(),
            MIN <= r < MAX,
    {
        proof {
            use_type_invariant(self);
        }
        self.0
    }

    /// The range the value lives in.
    pub fn range(&self) -> (r: Range<u8>)
        ensures
            r.start == MIN,
            r.end == MAX,
            r.start < r.end,
    {
        proof {
            use_type_invariant(self);
        }
        MIN..MAX
    }

    /// The lower bound, which the value may reach.
    pub fn min_bound(&self) -> (r: u8)
        ensures
            r == MIN,
    {
        MIN
    }

    /// The upper bound, which the value stays below.
    pub fn max_bound(&self) -> (r: u8)
        ensures
            r == MAX,
    {
        MAX
    }
}

/// The raw sum of the stored value and a bare number. It may lie outside the
/// bounds.
impl<const MIN: u8, const MAX: u8> Add<u8> for WrappingU8<MIN, MAX> {
    type Output = u8;

    fn add(self, other: u8) -> (r: u8) {
        self.0 + other
    }
}

impl<const MIN: u8, const MAX: u8> AddSpecImpl<u8> for WrappingU8<MIN, MAX> {
    open spec fn obeys_add_spec() -> bool {
        true
    }

    open spec fn add_req(self, other: u8) -> bool {
        u8::MIN <= self.value() + other <= u8::MAX
    }

    open spec fn add_spec(self, other: u8) -> u8 {
        (self.value() + other) as u8
    }
}

/// The raw sum of the stored value and the value stored in another instance. It
/// may lie outside the bounds.
impl<
    const MIN: u8,
    const MAX: u8,
    const OTHER_MIN: u8,
    const OTHER_MAX: u8,
> Add<WrappingU8<OTHER_MIN, OTHER_MAX>> for WrappingU8<MIN, MAX> {
    type Output = u8;

    fn add(self, other: WrappingU8<OTHER_MIN, OTHER_MAX>) -> (r: u8) {
        self.0 + other.0
    }
}

impl<
    const MIN: u8,
    const MAX: u8,
    const OTHER_MIN: u8,
    const OTHER_MAX: u8,
> AddSpecImpl<WrappingU8<OTHER_MIN, OTHER_MAX>> for WrappingU8<MIN, MAX> {
    open spec fn obeys_add_spec() -> bool {
        true
    }

    open spec fn add_req(self, other: WrappingU8<OTHER_MIN, OTHER_MAX>) -> bool {
        u8::MIN <= self.value() + other.value() <= u8::MAX
    }

    open spec fn add_spec(self, other: WrappingU8<OTHER_MIN, OTHER_MAX>) -> u8 {
        (self.value() + other.value()) as u8
    }
}

/// The raw difference of the stored value and a bare number. A subtrahend
/// greater than the stored value is folded into the range before it is taken
/// away.
impl<const MIN: u8, const MAX: u8> Sub<u8> for WrappingU8<MIN, MAX> {
    type Output = u8;

    fn sub(self, other: u8) -> (r: u8) {
        proof {
            use_type_invariant(self);
        }
        if other > self.0 {
            self.0 - wrap_u128(other as u128, MIN as u128, MAX as u128) as u8
        } else {
            self.0 - other
        }
    }
}

impl<const MIN: u8, const MAX: u8> SubSpecImpl<u8> for WrappingU8<MIN, MAX> {
    open spec fn obeys_sub_spec() -> bool {
        true
    }

    open spec fn sub_req(self, other: u8) -> bool {
        u8::MIN <= wrapped_difference(
            self.value() as int,
            other as int,
            MIN as int,
            MAX as int,
        ) <= u8::MAX
    }

    open spec fn sub_spec(self, other: u8) -> u8 {
        wrapped_difference(self.value() as int, other as int, MIN as int, MAX as int) as u8
    }
}

/// The raw difference of the stored value and the value stored in another
/// instance. A subtrahend greater than the stored value is folded into the
/// range before it is taken away.
impl<
    const MIN: u8,
    const MAX: u8,
    const OTHER_MIN: u8,
    const OTHER_MAX: u8,
> Sub<WrappingU8<OTHER_MIN, OTHER_MAX>> for WrappingU8<MIN, MAX> {
    type Output = u8;

    fn sub(self, other: WrappingU8<OTHER_MIN, OTHER_MAX>) -> (r: u8) {
        proof {
            use_type_invariant(self);
        }
        if other.0 > self.0 {
            self.0 - wrap_u128(other.0 as u128, MIN as u128, MAX as u128) as u8
        } else {
            self.0 - other.0
        }
    }
}

impl<
    const MIN: u8,
    const MAX: u8,
    const OTHER_MIN: u8,
    const OTHER_MAX: u8,
> SubSpecImpl<WrappingU8<OTHER_MIN, OTHER_MAX>> for WrappingU8<MIN, MAX> {
    open spec fn obeys_sub_spec() -> bool {
        true
    }

    open spec fn sub_req(self, other: WrappingU8<OTHER_MIN, OTHER_MAX>) -> bool {
        u8::MIN <= wrapped_difference(
            self.value() as int,
            other.value() as int,
            MIN as int,
            MAX as int,
        ) <= u8::MAX
    }

    open spec fn sub_spec(self, other: WrappingU8<OTHER_MIN, OTHER_MAX>) -> u8 {
        wrapped_difference(self.value() as int, other.value() as int, MIN as int, MAX as int) as u8
    }
}

/// The raw product of the stored value and a bare number. It may lie outside
/// the bounds.
impl<const MIN: u8, const MAX: u8> Mul<u8> for WrappingU8<MIN, MAX> {
    type Output = u8;

    fn mul(self, other: u8) -> (r: u8) {
        self.0 * other
    }
}

impl<const MIN: u8, const MAX: u8> MulSpecImpl<u8> for WrappingU8<MIN, MAX> {
    open spec fn obeys_mul_spec() -> bool {
        true
    }

    open spec fn mul_req(self, other: u8) -> bool {
        u8::MIN <= self.value() * other <= u8::MAX
    }

    open spec fn mul_spec(self, other: u8) -> u8 {
        (self.value() * other) as u8
    }
}

/// The raw product of the stored value and the value stored in another
/// instance. It may lie outside the bounds.
impl<
    const MIN: u8,
    const MAX: u8,
    const OTHER_MIN: u8,
    const OTHER_MAX: u8,
> Mul<WrappingU8<OTHER_MIN, OTHER_MAX>> for WrappingU8<MIN, MAX> {
    type Output = u8;

    fn mul(self, other: WrappingU8<OTHER_MIN, OTHER_MAX>) -> (r: u8) {
        self.0 * other.0
    }
}

impl<
    const MIN: u8,
    const MAX: u8,
    const OTHER_MIN: u8,
    const OTHER_MAX: u8,
> MulSpecImpl<WrappingU8<OTHER_MIN, OTHER_MAX>> for WrappingU8<MIN, MAX> {
    open spec fn obeys_mul_spec() -> bool {
        true
    }

    open spec fn mul_req(self, other: WrappingU8<OTHER_MIN, OTHER_MAX>) -> bool {
        u8::MIN <= self.value() * other.value() <= u8::MAX
    }

    open spec fn mul_spec(self, other: WrappingU8<OTHER_MIN, OTHER_MAX>) -> u8 {
        (self.value() * other.value()) as u8
    }
}

/// The raw quotient of the stored value and a bare number. It may lie outside
/// the bounds.
impl<const MIN: u8, const MAX: u8> Div<u8> for WrappingU8<MIN, MAX> {
    type Output = u8;

    fn div(self, other: u8) -> (r: u8) {
        proof {
            lemma_quotient_bounds(self.value() as int, other as int);
        }
        self.0 / other
    }
}

impl<const MIN: u8, const MAX: u8> DivSpecImpl<u8> for WrappingU8<MIN, MAX> {
    open spec fn obeys_div_spec() -> bool {
        true
    }

    open spec fn div_req(self, other: u8) -> bool {
        other != 0
    }

    open spec fn div_spec(self, other: u8) -> u8 {
        quotient(self.value() as int, other as int) as u8
    }
}

/// The raw quotient of the stored value and the value stored in another
/// instance. It may lie outside the bounds.
impl<
    const MIN: u8,
    const MAX: u8,
    const OTHER_MIN: u8,
    const OTHER_MAX: u8,
> Div<WrappingU8<OTHER_MIN, OTHER_MAX>> for WrappingU8<MIN, MAX> {
    type Output = u8;

    fn div(self, other: WrappingU8<OTHER_MIN, OTHER_MAX>) -> (r: u8) {
        proof {
            lemma_quotient_bounds(self.value() as int, other.value() as int);
        }
        self.0 / other.0
    }
}

impl<
    const MIN: u8,
    const MAX: u8,
    const OTHER_MIN: u8,
    const OTHER_MAX: u8,
> DivSpecImpl<WrappingU8<OTHER_MIN, OTHER_MAX>> for WrappingU8<MIN, MAX> {
    open spec fn obeys_div_spec() -> bool {
        true
    }

    open spec fn div_req(self, other: WrappingU8<OTHER_MIN, OTHER_MAX>) -> bool {
        other.value() != 0
    }

    open spec fn div_spec(self, other: WrappingU8<OTHER_MIN, OTHER_MAX>) -> u8 {
        quotient(self.value() as int, other.value() as int) as u8
    }
}

/// The raw remainder of the stored value and a bare number. It may lie outside
/// the bounds.
impl<const MIN: u8, const MAX: u8> Rem<u8> for WrappingU8<MIN, MAX> {
    type Output = u8;

    fn rem(self, other: u8) -> (r: u8) {
        self.0 % other
    }
}

impl<const MIN: u8, const MAX: u8> RemSpecImpl<u8> for WrappingU8<MIN, MAX> {
    open spec fn obeys_rem_spec() -> bool {
        true
    }

    open spec fn rem_req(self, other: u8) -> bool {
        other != 0
    }

    open spec fn rem_spec(self, other: u8) -> u8 {
        remainder(self.value() as int, other as int) as u8
    }
}

/// The raw remainder of the stored value and the value stored in another
/// instance. It may lie outside the bounds.
impl<
    const MIN: u8,
    const MAX: u8,
    const OTHER_MIN: u8,
    const OTHER_MAX: u8,
> Rem<WrappingU8<OTHER_MIN, OTHER_MAX>> for WrappingU8<MIN, MAX> {
    type Output = u8;

    fn rem(self, other: WrappingU8<OTHER_MIN, OTHER_MAX>) -> (r: u8) {
        self.0 % other.0
    }
}

impl<
    const MIN: u8,
    const MAX: u8,
    const OTHER_MIN: u8,
    const OTHER_MAX: u8,
> RemSpecImpl<WrappingU8<OTHER_MIN, OTHER_MAX>> for WrappingU8<MIN, MAX> {
    open spec fn obeys_rem_spec() -> bool {
        true
    }

    open spec fn rem_req(self, other: WrappingU8<OTHER_MIN, OTHER_MAX>) -> bool {
        other.value() != 0
    }

    open spec fn rem_spec(self, other: WrappingU8<OTHER_MIN, OTHER_MAX>) -> u8 {
        remainder(self.value() as int, other.value() as int) as u8
    }
}

/// Adds a bare number and folds the exact result back into the range. Nothing
/// overflows on the way, however large the operand is.
impl<const MIN: u8, const MAX: u8> AddAssign<u8> for WrappingU8<MIN, MAX> {
    fn add_assign(&mut self, other: u8)
        ensures
            final(self).value() == wrap(old(self).value() + other, MIN as int, MAX as int),
    {
        proof {
            use_type_invariant(&*self);
        }
        self.0 = wrap_add_u128(self.0 as u128, other as u128, MIN as u128, MAX as u128) as u8;
    }
}

/// Adds the value stored in another instance and folds the exact result back
/// into the range. Nothing overflows on the way, however large the operand is.
impl<
    const MIN: u8,
    const MAX: u8,
    const OTHER_MIN: u8,
    const OTHER_MAX: u8,
> AddAssign<WrappingU8<OTHER_MIN, OTHER_MAX>> for WrappingU8<MIN, MAX> {
    fn add_assign(&mut self, other: WrappingU8<OTHER_MIN, OTHER_MAX>)
        ensures
            final(self).value() == wrap(old(self).value() + other.value(), MIN as int, MAX as int),
    {
        proof {
            use_type_invariant(&*self);
        }
        self.0 = wrap_add_u128(self.0 as u128, other.0 as u128, MIN as u128, MAX as u128) as u8;
    }
}

/// Takes away a bare number and folds the exact result back into the range.
/// Nothing overflows on the way, however large the operand is.
impl<const MIN: u8, const MAX: u8> SubAssign<u8> for WrappingU8<MIN, MAX> {
    fn sub_assign(&mut self, other: u8)
        ensures
            final(self).value() == wrap(old(self).value() - other, MIN as int, MAX as int),
    {
        proof {
            use_type_invariant(&*self);
        }
        self.0 = wrap_sub_u128(self.0 as u128, other as u128, MIN as u128, MAX as u128) as u8;
    }
}

/// Takes away the value stored in another instance and folds the exact result
/// back into the range. Nothing overflows on the way, however large the operand
/// is.
impl<
    const MIN: u8,
    const MAX: u8,
    const OTHER_MIN: u8,
    const OTHER_MAX: u8,
> SubAssign<WrappingU8<OTHER_MIN, OTHER_MAX>> for WrappingU8<MIN, MAX> {
    fn sub_assign(&mut self, other: WrappingU8<OTHER_MIN, OTHER_MAX>)
        ensures
            final(self).value() == wrap(old(self).value() - other.value(), MIN as int, MAX as int),
    {
        proof {
            use_type_invariant(&*self);
        }
        self.0 = wrap_sub_u128(self.0 as u128, other.0 as u128, MIN as u128, MAX as u128) as u8;
    }
}

/// Multiplies by a bare number and folds the exact product back into the range.
/// Nothing overflows on the way, however large the operand is.
impl<const MIN: u8, const MAX: u8> MulAssign<u8> for WrappingU8<MIN, MAX> {
    fn mul_assign(&mut self, other: u8)
        ensures
            final(self).value() == wrap(old(self).value() * other, MIN as int, MAX as int),
    {
        proof {
            use_type_invariant(&*self);
        }
        self.0 = wrap_mul_u128(self.0 as u128, other as u128, MIN as u128, MAX as u128) as u8;
    }
}

/// Multiplies by the value stored in another instance and folds the exact
/// product back into the range. Nothing overflows on the way, however large the
/// operand is.
impl<
    const MIN: u8,
    const MAX: u8,
    const OTHER_MIN: u8,
    const OTHER_MAX: u8,
> MulAssign<WrappingU8<OTHER_MIN, OTHER_MAX>> for WrappingU8<MIN, MAX> {
    fn mul_assign(&mut self, other: WrappingU8<OTHER_MIN, OTHER_MAX>)
        ensures
            final(self).value() == wrap(old(self).value() * other.value(), MIN as int, MAX as int),
    {
        proof {
            use_type_invariant(&*self);
        }
        self.0 = wrap_mul_u128(self.0 as u128, other.0 as u128, MIN as u128, MAX as u128) as u8;
    }
}

/// Divides by a bare number and folds the quotient back into the range.
impl<const MIN: u8, const MAX: u8> DivAssign<u8> for WrappingU8<MIN, MAX> {
    fn div_assign(&mut self, other: u8)
        requires
            other != 0,
        ensures
            final(self).value() == wrap(
                quotient(old(self).value() as int, other as int),
                MIN as int,
                MAX as int,
            ),
    {
        proof {
            use_type_invariant(&*self);
            lemma_quotient_bounds(self.value() as int, other as int);
        }
        self.0 = wrap_u128((self.0 / other) as u128, MIN as u128, MAX as u128) as u8;
    }
}

/// Divides by the value stored in another instance and folds the quotient back
/// into the range.
impl<
    const MIN: u8,
    const MAX: u8,
    const OTHER_MIN: u8,
    const OTHER_MAX: u8,
> DivAssign<WrappingU8<OTHER_MIN, OTHER_MAX>> for WrappingU8<MIN, MAX> {
    fn div_assign(&mut self, other: WrappingU8<OTHER_MIN, OTHER_MAX>)
        requires
            other.value() != 0,
        ensures
            final(self).value() == wrap(
                quotient(old(self).value() as int, other.value() as int),
                MIN as int,
                MAX as int,
            ),
    {
        proof {
            use_type_invariant(&*self);
            lemma_quotient_bounds(self.value() as int, other.value() as int);
        }
        self.0 = wrap_u128((self.0 / other.0) as u128, MIN as u128, MAX as u128) as u8;
    }
}

/// Takes the remainder by a bare number and folds it back into the range.
impl<const MIN: u8, const MAX: u8> RemAssign<u8> for WrappingU8<MIN, MAX> {
    fn rem_assign(&mut self, other: u8)
        requires
            other != 0,
        ensures
            final(self).value() == wrap(
                remainder(old(self).value() as int, other as int),
                MIN as int,
                MAX as int,
            ),
    {
        proof {
            use_type_invariant(&*self);
        }
        self.0 = wrap_u128((self.0 % other) as u128, MIN as u128, MAX as u128) as u8;
    }
}

/// Takes the remainder by the value stored in another instance and folds it
/// back into the range.
impl<
    const MIN: u8,
    const MAX: u8,
    const OTHER_MIN: u8,
    const OTHER_MAX: u8,
> RemAssign<WrappingU8<OTHER_MIN, OTHER_MAX>> for WrappingU8<MIN, MAX> {
    fn rem_assign(&mut self, other: WrappingU8<OTHER_MIN, OTHER_MAX>)
        requires
            other.value() != 0,
        ensures
            final(self).value() == wrap(
                remainder(old(self).value() as int, other.value() as int),
                MIN as int,
                MAX as int,
            ),
    {
        proof {
            use_type_invariant(&*self);
        }
        self.0 = wrap_u128((self.0 % other.0) as u128, MIN as u128, MAX as u128) as u8;
    }
}

/// Equal to a bare number exactly when the stored values are equal.
impl<const MIN: u8, const MAX: u8> PartialEq<u8> for WrappingU8<MIN, MAX> {
    fn eq(&self, other: &u8) -> (r: bool) {
        self.0 == *other
    }
}

impl<const MIN: u8, const MAX: u8> PartialEqSpecImpl<u8> for WrappingU8<MIN, MAX> {
    open spec fn obeys_eq_spec() -> bool {
        true
    }

    open spec fn eq_spec(&self, other: &u8) -> bool {
        self.value() == *other
    }
}

/// Equal to another instance exactly when the stored values are equal; the
/// bounds play no part.
impl<
    const MIN: u8,
    const MAX: u8,
    const OTHER_MIN: u8,
    const OTHER_MAX: u8,
> PartialEq<WrappingU8<OTHER_MIN, OTHER_MAX>> for WrappingU8<MIN, MAX> {
    fn eq(&self, other: &WrappingU8<OTHER_MIN, OTHER_MAX>) -> (r: bool) {
        self.0 == other.0
    }
}

impl<
    const MIN: u8,
    const MAX: u8,
    const OTHER_MIN: u8,
    const OTHER_MAX: u8,
> PartialEqSpecImpl<WrappingU8<OTHER_MIN, OTHER_MAX>> for WrappingU8<MIN, MAX> {
    open spec fn obeys_eq_spec() -> bool {
        true
    }

    open spec fn eq_spec(&self, other: &WrappingU8<OTHER_MIN, OTHER_MAX>) -> bool {
        self.value() == other.value()
    }
}

/// Ordered against a bare number by the stored values.
impl<const MIN: u8, const MAX: u8> PartialOrd<u8> for WrappingU8<MIN, MAX> {
    fn partial_cmp(&self, other: &u8) -> (r: Option<Ordering>) {
        self.0.partial_cmp(other)
    }
}

impl<const MIN: u8, const MAX: u8> PartialOrdSpecImpl<u8> for WrappingU8<MIN, MAX> {
    open spec fn obeys_partial_cmp_spec() -> bool {
        true
    }

    open spec fn partial_cmp_spec(&self, other: &u8) -> Option<Ordering> {
        if self.value() < *other {
            Some(Ordering::Less)
        } else if self.value() > *other {
            Some(Ordering::Greater)
        } else {
            Some(Ordering::Equal)
        }
    }
}

/// Ordered against another instance by the stored values; the bounds play no
/// part.
impl<
    const MIN: u8,
    const MAX: u8,
    const OTHER_MIN: u8,
    const OTHER_MAX: u8,
> PartialOrd<WrappingU8<OTHER_MIN, OTHER_MAX>> for WrappingU8<MIN, MAX> {
    fn partial_cmp(&self, other: &WrappingU8<OTHER_MIN, OTHER_MAX>) -> (r: Option<Ordering>) {
        self.0.partial_cmp(&other.0)
    }
}

impl<
    const MIN: u8,
    const MAX: u8,
    const OTHER_MIN: u8,
    const OTHER_MAX: u8,
> PartialOrdSpecImpl<WrappingU8<OTHER_MIN, OTHER_MAX>> for WrappingU8<MIN, MAX> {
    open spec fn obeys_partial_cmp_spec() -> bool {
        true
    }

    open spec fn partial_cmp_spec(
        &self,
        other: &WrappingU8<OTHER_MIN, OTHER_MAX>,
    ) -> Option<Ordering> {
        if self.value() < other.value() {
            Some(Ordering::Less)
        } else if self.value() > other.value() {
            Some(Ordering::Greater)
        } else {
            Some(Ordering::Equal)
        }
    }
}

} // verus!
