//! An `i16` that wraps around inside bounds chosen when it is made.
use crate::model::in_range;
use crate::model::lemma_quotient_bounds;
use crate::model::lemma_wrap_fixes_range;
use crate::model::quotient;
use crate::model::remainder;
use crate::model::wrap;
use crate::model::wrapped_difference;
use crate::wide::wrap_add_i128;
use crate::wide::wrap_div_i128;
use crate::wide::wrap_i128;
use crate::wide::wrap_mul_i128;
use crate::wide::wrap_rem_i128;
use crate::wide::wrap_sub_i128;
use core::cmp::Ordering;
use core::ops::Add;
use core::ops::AddAssign;
use core::ops::Div;
use core::ops::DivAssign;
use core::ops::Mul;
use core::ops::MulAssign;
use core::ops::Range;
use core::ops::Rem;
use core::ops::RemAssign;
use core::ops::Sub;
use core::ops::SubAssign;
use vstd::prelude::*;
use vstd::std_specs::cmp::PartialEqSpecImpl;
use vstd::std_specs::cmp::PartialOrdSpecImpl;
use vstd::std_specs::ops::AddSpecImpl;
use vstd::std_specs::ops::DivSpecImpl;
use vstd::std_specs::ops::MulSpecImpl;
use vstd::std_specs::ops::RemSpecImpl;
use vstd::std_specs::ops::SubSpecImpl;

verus! {

/// An `i16` kept inside `min..max` by wrapping around.
///
/// The plain operators hand back the raw `i16` result; the assigning
/// operators fold their result back into the range.
#[derive(Debug, Clone, Copy, Eq)]
pub struct WrappingI16 {
    inner: i16,
    min: i16,
    max: i16,
}

impl WrappingI16 {
    #[verifier::type_invariant]
    spec fn in_bounds(self) -> bool {
        self.min <= self.inner < self.max
    }

    /// The stored value.
    pub closed spec fn value(self) -> i16 {
        self.inner
    }

    /// The lower bound, which the value may reach.
    pub closed spec fn lower(self) -> i16 {
        self.min
    }

    /// The upper bound, which the value stays below.
    pub closed spec fn upper(self) -> i16 {
        self.max
    }

    /// Folds `inner` into `min..max`.
    pub fn new(inner: i16, min: i16, max: i16) -> (r: Self)
        requires
            min < max,
        ensures
            r.value() == wrap(inner as int, min as int, max as int),
            in_range(inner as int, min as int, max as int) ==> r.value() == inner,
            r.lower() == min,
            r.upper() == max,
    {
        proof {
            if in_range(inner as int, min as int, max as int) {
                lemma_wrap_fixes_range(inner as int, min as int, max as int);
            }
        }
        Self { inner: wrap_i128(inner as i128, min as i128, max as i128) as i16, min, max }
    }

    /// The stored value, which always lies in `min..max`.
    pub fn inner(&self) -> (r: i16)
        ensures
            r == self.value(),
            self.lower() <= r < self.upper(),
    {
        proof {
            use_type_invariant(self);
        }
        self.inner
    }

    /// The range the value lives in.
    pub fn range(&self) -> (r: Range<i16>)
        ensures
            r.start == self.lower(),
            r.end == self.upper(),
            r.start < r.end,
    {
        proof {
            use_type_invariant(self);
        }
        self.min..self.max
    }

    /// The lower bound, which the value may reach.
    pub fn min_bound(&self) -> (r: i16)
        ensures
            r == self.lower(),
    {
        self.min
    }

    /// The upper bound, which the value stays below.
    pub fn max_bound(&self) -> (r: i16)
        ensures
            r == self.upper(),
    {
        self.max
    }
}

/// The raw sum of the stored value and a bare number. It may lie outside the
/// bounds.
impl Add<i16> for WrappingI16 {
    type Output = i16;

    fn add(self, other: i16) -> (r: i16) {
        self.inner + other
    }
}

impl AddSpecImpl<i16> for WrappingI16 {
    open spec fn obeys_add_spec() -> bool {
        true
    }

    open spec fn add_req(self, other: i16) -> bool {
        i16::MIN <= self.value() + other <= i16::MAX
    }

    open spec fn add_spec(self, other: i16) -> i16 {
        (self.value() + other) as i16
    }
}

/// The raw sum of the stored value and the value stored in another instance. It
/// may lie outside the bounds.
impl Add<WrappingI16> for WrappingI16 {
    type Output = i16;

    fn add(self, other: WrappingI16) -> (r: i16) {
        self.inner + other.inner
    }
}

impl AddSpecImpl<WrappingI16> for WrappingI16 {
    open spec fn obeys_add_spec() -> bool {
        true
    }

    open spec fn add_req(self, other: WrappingI16) -> bool {
        i16::MIN <= self.value() + other.value() <= i16::MAX
    }

    open spec fn add_spec(self, other: WrappingI16) -> i16 {
        (self.value() + other.value()) as i16
    }
}

/// The raw difference of the stored value and a bare number. A subtrahend
/// greater than the stored value is folded into the range before it is taken
/// away.
impl Sub<i16> for WrappingI16 {
    type Output = i16;

    fn sub(self, other: i16) -> (r: i16) {
        proof {
            use_type_invariant(self);
        }
        if other > self.inner {
            self.inner - wrap_i128(other as i128, self.min as i128, self.max as i128) as i16
        } else {
            self.inner - other
        }
    }
}

impl SubSpecImpl<i16> for WrappingI16 {
    open spec fn obeys_sub_spec() -> bool {
        true
    }

    open spec fn sub_req(self, other: i16) -> bool {
        i16::MIN <= wrapped_difference(
            self.value() as int,
            other as int,
            self.lower() as int,
            self.upper() as int,
        ) <= i16::MAX
    }

    open spec fn sub_spec(self, other: i16) -> i16 {
        wrapped_difference(
            self.value() as int,
            other as int,
            self.lower() as int,
            self.upper() as int,
        ) as i16
    }
}

/// The raw difference of the stored value and the value stored in another
/// instance. A subtrahend greater than the stored value is folded into the
/// range before it is taken away.
impl Sub<WrappingI16> for WrappingI16 {
    type Output = i16;

    fn sub(self, other: WrappingI16) -> (r: i16) {
        proof {
            use_type_invariant(self);
        }
        if other.inner > self.inner {
            self.inner - wrap_i128(other.inner as i128, self.min as i128, self.max as i128) as i16
        } else {
            self.inner - other.inner
        }
    }
}

impl SubSpecImpl<WrappingI16> for WrappingI16 {
    open spec fn obeys_sub_spec() -> bool {
        true
    }

    open spec fn sub_req(self, other: WrappingI16) -> bool {
        i16::MIN <= wrapped_difference(
            self.value() as int,
            other.value() as int,
            self.lower() as int,
            self.upper() as int,
        ) <= i16::MAX
    }

    open spec fn sub_spec(self, other: WrappingI16) -> i16 {
        wrapped_difference(
            self.value() as int,
            other.value() as int,
            self.lower() as int,
            self.upper() as int,
        ) as i16
    }
}

/// The raw product of the stored value and a bare number. It may lie outside
/// the bounds.
impl Mul<i16> for WrappingI16 {
    type Output = i16;

    fn mul(self, other: i16) -> (r: i16) {
        self.inner * other
    }
}

impl MulSpecImpl<i16> for WrappingI16 {
    open spec fn obeys_mul_spec() -> bool {
        true
    }

    open spec fn mul_req(self, other: i16) -> bool {
        i16::MIN <= self.value() * other <= i16::MAX
    }

    open spec fn mul_spec(self, other: i16) -> i16 {
        (self.value() * other) as i16
    }
}

/// The raw product of the stored value and the value stored in another
/// instance. It may lie outside the bounds.
impl Mul<WrappingI16> for WrappingI16 {
    type Output = i16;

    fn mul(self, other: WrappingI16) -> (r: i16) {
        self.inner * other.inner
    }
}

impl MulSpecImpl<WrappingI16> for WrappingI16 {
    open spec fn obeys_mul_spec() -> bool {
        true
    }

    open spec fn mul_req(self, other: WrappingI16) -> bool {
        i16::MIN <= self.value() * other.value() <= i16::MAX
    }

    open spec fn mul_spec(self, other: WrappingI16) -> i16 {
        (self.value() * other.value()) as i16
    }
}

/// The raw quotient of the stored value and a bare number. It may lie outside
/// the bounds.
impl Div<i16> for WrappingI16 {
    type Output = i16;

    fn div(self, other: i16) -> (r: i16) {
        proof {
            lemma_quotient_bounds(self.value() as int, other as int);
        }
        self.inner / other
    }
}

impl DivSpecImpl<i16> for WrappingI16 {
    open spec fn obeys_div_spec() -> bool {
        true
    }

    open spec fn div_req(self, other: i16) -> bool {
        other != 0 && !(self.value() == i16::MIN && other == -1)
    }

    open spec fn div_spec(self, other: i16) -> i16 {
        quotient(self.value() as int, other as int) as i16
    }
}

/// The raw quotient of the stored value and the value stored in another
/// instance. It may lie outside the bounds.
impl Div<WrappingI16> for WrappingI16 {
    type Output = i16;

    fn div(self, other: WrappingI16) -> (r: i16) {
        proof {
            lemma_quotient_bounds(self.value() as int, other.value() as int);
        }
        self.inner / other.inner
    }
}

impl DivSpecImpl<WrappingI16> for WrappingI16 {
    open spec fn obeys_div_spec() -> bool {
        true
    }

    open spec fn div_req(self, other: WrappingI16) -> bool {
        other.value() != 0 && !(self.value() == i16::MIN && other.value() == -1)
    }

    open spec fn div_spec(self, other: WrappingI16) -> i16 {
        quotient(self.value() as int, other.value() as int) as i16
    }
}

/// The raw remainder of the stored value and a bare number. It may lie outside
/// the bounds.
impl Rem<i16> for WrappingI16 {
    type Output = i16;

    fn rem(self, other: i16) -> (r: i16) {
        self.inner % other
    }
}

impl RemSpecImpl<i16> for WrappingI16 {
    open spec fn obeys_rem_spec() -> bool {
        true
    }

    open spec fn rem_req(self, other: i16) -> bool {
        other != 0 && !(self.value() == i16::MIN && other == -1)
    }

    open spec fn rem_spec(self, other: i16) -> i16 {
        remainder(self.value() as int, other as int) as i16
    }
}

/// The raw remainder of the stored value and the value stored in another
/// instance. It may lie outside the bounds.
impl Rem<WrappingI16> for WrappingI16 {
    type Output = i16;

    fn rem(self, other: WrappingI16) -> (r: i16) {
        self.inner % other.inner
    }
}

impl RemSpecImpl<WrappingI16> for WrappingI16 {
    open spec fn obeys_rem_spec() -> bool {
        true
    }

    open spec fn rem_req(self, other: WrappingI16) -> bool {
        other.value() != 0 && !(self.value() == i16::MIN && other.value() == -1)
    }

    open spec fn rem_spec(self, other: WrappingI16) -> i16 {
        remainder(self.value() as int, other.value() as int) as i16
    }
}

/// Adds a bare number and folds the exact result back into the range. Nothing
/// overflows on the way, however large the operand is.
impl AddAssign<i16> for WrappingI16 {
    fn add_assign(&mut self, other: i16)
        ensures
            final(self).value() == wrap(
                old(self).value() + other,
                old(self).lower() as int,
                old(self).upper() as int,
            ),
            final(self).lower() == old(self).lower(),
            final(self).upper() == old(self).upper(),
    {
        proof {
            use_type_invariant(&*self);
        }
        self.inner = wrap_add_i128(
            self.inner as i128,
            other as i128,
            self.min as i128,
            self.max as i128,
        ) as i16;
    }
}

/// Adds the value stored in another instance and folds the exact result back
/// into the range. Nothing overflows on the way, however large the operand is.
impl AddAssign<WrappingI16> for WrappingI16 {
    fn add_assign(&mut self, other: WrappingI16)
        ensures
            final(self).value() == wrap(
                old(self).value() + other.value(),
                old(self).lower() as int,
                old(self).upper() as int,
            ),
            final(self).lower() == old(self).lower(),
            final(self).upper() == old(self).upper(),
    {
        proof {
            use_type_invariant(&*self);
        }
        self.inner = wrap_add_i128(
            self.inner as i128,
            other.inner as i128,
            self.min as i128,
            self.max as i128,
        ) as i16;
    }
}

/// Takes away a bare number and folds the exact result back into the range.
/// Nothing overflows on the way, however large the operand is.
impl SubAssign<i16> for WrappingI16 {
    fn sub_assign(&mut self, other: i16)
        ensures
            final(self).value() == wrap(
                old(self).value() - other,
                old(self).lower() as int,
                old(self).upper() as int,
            ),
            final(self).lower() == old(self).lower(),
            final(self).upper() == old(self).upper(),
    {
        proof {
            use_type_invariant(&*self);
        }
        self.inner = wrap_sub_i128(
            self.inner as i128,
            other as i128,
            self.min as i128,
            self.max as i128,
        ) as i16;
    }
}

/// Takes away the value stored in another instance and folds the exact result
/// back into the range. Nothing overflows on the way, however large the operand
/// is.
impl SubAssign<WrappingI16> for WrappingI16 {
    fn sub_assign(&mut self, other: WrappingI16)
        ensures
            final(self).value() == wrap(
                old(self).value() - other.value(),
                old(self).lower() as int,
                old(self).upper() as int,
            ),
            final(self).lower() == old(self).lower(),
            final(self).upper() == old(self).upper(),
    {
        proof {
            use_type_invariant(&*self);
        }
        self.inner = wrap_sub_i128(
            self.inner as i128,
            other.inner as i128,
            self.min as i128,
            self.max as i128,
        ) as i16;
    }
}

/// Multiplies by a bare number and folds the exact product back into the range.
/// Nothing overflows on the way, however large the operand is.
impl MulAssign<i16> for WrappingI16 {
    fn mul_assign(&mut self, other: i16)
        ensures
            final(self).value() == wrap(
                old(self).value() * other,
                old(self).lower() as int,
                old(self).upper() as int,
            ),
            final(self).lower() == old(self).lower(),
            final(self).upper() == old(self).upper(),
    {
        proof {
            use_type_invariant(&*self);
        }
        self.inner = wrap_mul_i128(
            self.inner as i128,
            other as i128,
            self.min as i128,
            self.max as i128,
        ) as i16;
    }
}

/// Multiplies by the value stored in another instance and folds the exact
/// product back into the range. Nothing overflows on the way, however large the
/// operand is.
impl MulAssign<WrappingI16> for WrappingI16 {
    fn mul_assign(&mut self, other: WrappingI16)
        ensures
            final(self).value() == wrap(
                old(self).value() * other.value(),
                old(self).lower() as int,
                old(self).upper() as int,
            ),
            final(self).lower() == old(self).lower(),
            final(self).upper() == old(self).upper(),
    {
        proof {
            use_type_invariant(&*self);
        }
        self.inner = wrap_mul_i128(
            self.inner as i128,
            other.inner as i128,
            self.min as i128,
            self.max as i128,
        ) as i16;
    }
}

/// Divides by a bare number, rounding toward zero, and folds the exact quotient
/// back into the range. Nothing overflows on the way.
impl DivAssign<i16> for WrappingI16 {
    fn div_assign(&mut self, other: i16)
        requires
            other != 0,
        ensures
            final(self).value() == wrap(
                quotient(old(self).value() as int, other as int),
                old(self).lower() as int,
                old(self).upper() as int,
            ),
            final(self).lower() == old(self).lower(),
            final(self).upper() == old(self).upper(),
    {
        proof {
            use_type_invariant(&*self);
        }
        self.inner = wrap_div_i128(
            self.inner as i128,
            other as i128,
            self.min as i128,
            self.max as i128,
        ) as i16;
    }
}

/// Divides by the value stored in another instance, rounding toward zero, and
/// folds the exact quotient back into the range. Nothing overflows on the way.
impl DivAssign<WrappingI16> for WrappingI16 {
    fn div_assign(&mut self, other: WrappingI16)
        requires
            other.value() != 0,
        ensures
            final(self).value() == wrap(
                quotient(old(self).value() as int, other.value() as int),
                old(self).lower() as int,
                old(self).upper() as int,
            ),
            final(self).lower() == old(self).lower(),
            final(self).upper() == old(self).upper(),
    {
        proof {
            use_type_invariant(&*self);
        }
        self.inner = wrap_div_i128(
            self.inner as i128,
            other.inner as i128,
            self.min as i128,
            self.max as i128,
        ) as i16;
    }
}

/// Takes the remainder by a bare number and folds it back into the range.
/// Nothing overflows on the way.
impl RemAssign<i16> for WrappingI16 {
    fn rem_assign(&mut self, other: i16)
        requires
            other != 0,
        ensures
            final(self).value() == wrap(
                remainder(old(self).value() as int, other as int),
                old(self).lower() as int,
                old(self).upper() as int,
            ),
            final(self).lower() == old(self).lower(),
            final(self).upper() == old(self).upper(),
    {
        proof {
            use_type_invariant(&*self);
        }
        self.inner = wrap_rem_i128(
            self.inner as i128,
            other as i128,
            self.min as i128,
            self.max as i128,
        ) as i16;
    }
}

/// Takes the remainder by the value stored in another instance and folds it
/// back into the range. Nothing overflows on the way.
impl RemAssign<WrappingI16> for WrappingI16 {
    fn rem_assign(&mut self, other: WrappingI16)
        requires
            other.value() != 0,
        ensures
            final(self).value() == wrap(
                remainder(old(self).value() as int, other.value() as int),
                old(self).lower() as int,
                old(self).upper() as int,
            ),
            final(self).lower() == old(self).lower(),
            final(self).upper() == old(self).upper(),
    {
        proof {
            use_type_invariant(&*self);
        }
        self.inner = wrap_rem_i128(
            self.inner as i128,
            other.inner as i128,
            self.min as i128,
            self.max as i128,
        ) as i16;
    }
}

/// Equal to a bare number exactly when the stored values are equal.
impl PartialEq<i16> for WrappingI16 {
    fn eq(&self, other: &i16) -> (r: bool) {
        self.inner == *other
    }
}

impl PartialEqSpecImpl<i16> for WrappingI16 {
    open spec fn obeys_eq_spec() -> bool {
        true
    }

    open spec fn eq_spec(&self, other: &i16) -> bool {
        self.value() == *other
    }
}

/// Equal to another instance exactly when the stored values are equal; the
/// bounds play no part.
impl PartialEq<WrappingI16> for WrappingI16 {
    fn eq(&self, other: &WrappingI16) -> (r: bool) {
        self.inner == other.inner
    }
}

impl PartialEqSpecImpl<WrappingI16> for WrappingI16 {
    open spec fn obeys_eq_spec() -> bool {
        true
    }

    open spec fn eq_spec(&self, other: &WrappingI16) -> bool {
        self.value() == other.value()
    }
}

/// Ordered against a bare number by the stored values.
impl PartialOrd<i16> for WrappingI16 {
    fn partial_cmp(&self, other: &i16) -> (r: Option<Ordering>) {
        self.inner.partial_cmp(other)
    }
}

impl PartialOrdSpecImpl<i16> for WrappingI16 {
    open spec fn obeys_partial_cmp_spec() -> bool {
        true
    }

    open spec fn partial_cmp_spec(&self, other: &i16) -> Option<Ordering> {
        if self.value() < *other {
            Some(Ordering::Less)
        } else if self.value() > *other {
            Some(Ordering::Greater)
        } else {
            Some(Ordering::Equal)
        }
    }
}

/// Ordered against another instance by the stored values; the bounds play no
/// part.
impl PartialOrd<WrappingI16> for WrappingI16 {
    fn partial_cmp(&self, other: &WrappingI16) -> (r: Option<Ordering>) {
        self.inner.partial_cmp(&other.inner)
    }
}

impl PartialOrdSpecImpl<WrappingI16> for WrappingI16 {
    open spec fn obeys_partial_cmp_spec() -> bool {
        true
    }

    open spec fn partial_cmp_spec(&self, other: &WrappingI16) -> Option<Ordering> {
        if self.value() < other.value() {
            Some(Ordering::Less)
        } else if self.value() > other.value() {
            Some(Ordering::Greater)
        } else {
            Some(Ordering::Equal)
        }
    }
}

} // verus!
